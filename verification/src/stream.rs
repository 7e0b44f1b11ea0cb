//! Byte-stream source and sink, and the bounded-buffer copy loop used for
//! body transfer. A `ByteStream` is consumed from the front, at most once;
//! its view is the sequence of bytes not yet read. A `ByteSink` collects
//! written bytes; its view is everything written so far.
use vstd::prelude::*;

use crate::HttpError;
use crate::HttpErrorKind;
use crate::byteseq::copy_range;

verus! {

/// An in-memory byte-stream source, read from the front.
pub struct ByteStream {
    data: Vec<u8>,
    pos: usize,
}

impl View for ByteStream {
    type V = Seq<u8>;

    closed spec fn view(&self) -> Seq<u8> {
        self.data@.skip(self.pos as int)
    }
}

impl ByteStream {
    #[verifier::type_invariant]
    spec fn wf(self) -> bool {
        self.pos <= self.data@.len()
    }

    /// A stream that will yield exactly `data`.
    pub fn new(data: Vec<u8>) -> (r: ByteStream)
        ensures
            r@ == data@,
    {
        let r = ByteStream { data, pos: 0 };
        proof {
            assert(r@ =~= r.data@);
        }
        r
    }

    /// An exhausted stream.
    pub fn empty() -> (r: ByteStream)
        ensures
            r@ == Seq::<u8>::empty(),
    {
        ByteStream::new(Vec::new())
    }

    /// How many bytes are left to read.
    pub fn remaining(&self) -> (r: usize)
        ensures
            r == self@.len(),
    {
        proof {
            use_type_invariant(self);
        }
        self.data.len() - self.pos
    }

    /// Reads exactly `n` bytes, or fails without consuming anything when
    /// fewer than `n` are left.
    pub fn read_exact(&mut self, n: usize) -> (r: Result<Vec<u8>, HttpError>)
        ensures
            n <= old(self)@.len() ==> r is Ok && r->Ok_0@ == old(self)@.take(n as int)
                && final(self)@ == old(self)@.skip(n as int),
            n > old(self)@.len() ==> r == Result::<Vec<u8>, HttpError>::Err(
                HttpError { kind: HttpErrorKind::UnexpectedEof },
            ) && final(self)@ == old(self)@,
    {
        proof {
            use_type_invariant(&*self);
        }
        if n > self.data.len() - self.pos {
            return Err(HttpError { kind: HttpErrorKind::UnexpectedEof });
        }
        let buf = copy_range(&self.data, self.pos, self.pos + n);
        proof {
            assert(buf@ =~= old(self)@.take(n as int));
            assert(self.data@.skip((self.pos + n) as int) =~= old(self)@.skip(n as int));
        }
        self.pos = self.pos + n;
        Ok(buf)
    }
}

/// An in-memory byte sink.
pub struct ByteSink {
    data: Vec<u8>,
}

impl View for ByteSink {
    type V = Seq<u8>;

    closed spec fn view(&self) -> Seq<u8> {
        self.data@
    }
}

impl ByteSink {
    /// A sink with nothing written yet.
    pub fn new() -> (r: ByteSink)
        ensures
            r@ == Seq::<u8>::empty(),
    {
        ByteSink { data: Vec::new() }
    }

    /// Appends all of `buf`.
    pub fn write_all(&mut self, buf: &Vec<u8>)
        ensures
            final(self)@ == old(self)@ + buf@,
    {
        let mut i: usize = 0;
        while i < buf.len()
            invariant
                i <= buf.len(),
                self.data@ == old(self).data@ + buf@.take(i as int),
            decreases buf.len() - i,
        {
            self.data.push(buf[i]);
            proof {
                assert(self.data@ =~= old(self).data@ + buf@.take(i + 1));
            }
            i += 1;
        }
        proof {
            assert(old(self).data@ + buf@.take(buf@.len() as int) =~= old(self).data@ + buf@);
        }
    }

    /// Pushes buffered bytes through; in memory there is nothing to do.
    pub fn flush(&mut self)
        ensures
            final(self)@ == old(self)@,
    {
    }

    /// Everything written so far.
    pub fn bytes(&self) -> (r: &Vec<u8>)
        ensures
            r@ == self@,
    {
        &self.data
    }

    /// Gives up the sink and hands out the written bytes.
    pub fn into_bytes(self) -> (r: Vec<u8>)
        ensures
            r@ == self@,
    {
        self.data
    }
}

/// Copies exactly `len` bytes from `reader` to `writer` in chunks of at
/// most `buf_size` bytes, so that peak memory use is bounded by the chunk
/// size regardless of `len`. Fails when the reader is exhausted early; the
/// full chunks transferred before the failure remain written.
#[verifier::loop_isolation(false)]
pub fn copy_bytes(reader: &mut ByteStream, writer: &mut ByteSink, len: usize, buf_size: usize) -> (r:
    Result<usize, HttpError>)
    requires
        buf_size > 0,
    ensures
        len <= old(reader)@.len() ==> r is Ok && r->Ok_0 == len
            && final(reader)@ == old(reader)@.skip(len as int)
            && final(writer)@ == old(writer)@ + old(reader)@.take(len as int),
        len > old(reader)@.len() ==> r == Result::<usize, HttpError>::Err(
            HttpError { kind: HttpErrorKind::UnexpectedEof },
        ) && exists|k: int|
            0 <= k <= old(reader)@.len() && final(reader)@ == old(reader)@.skip(k)
                && final(writer)@ == old(writer)@ + old(reader)@.take(k),
{
    let ghost r0: Seq<u8> = reader@;
    let ghost w0: Seq<u8> = writer@;
    let mut remaining = len;

    while remaining > 0
        invariant
            buf_size > 0,
            remaining <= len,
            len - remaining <= r0.len(),
            reader@ == r0.skip((len - remaining) as int),
            writer@ == w0 + r0.take((len - remaining) as int),
        decreases remaining,
    {
        let chunk = if buf_size < remaining {
            buf_size
        } else {
            remaining
        };
        let ghost consumed: int = len - remaining;
        match reader.read_exact(chunk) {
            Ok(buffer) => {
                proof {
                    assert(r0.skip(consumed).skip(chunk as int) =~= r0.skip(consumed + chunk));
                    assert(r0.take(consumed) + r0.skip(consumed).take(chunk as int) =~= r0.take(
                        consumed + chunk,
                    ));
                }
                writer.write_all(&buffer);
                remaining = remaining - chunk;
            },
            Err(e) => {
                proof {
                    assert(chunk > r0.skip(consumed).len());
                    assert(r0.len() < consumed + chunk);
                    assert(consumed + chunk <= len);
                    assert(0 <= consumed <= r0.len() && reader@ == r0.skip(consumed)
                        && writer@ == w0 + r0.take(consumed));
                }
                return Err(e);
            },
        }
    }
    writer.flush();
    Ok(len - remaining)
}

} // verus!
