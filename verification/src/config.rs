//! The shared, read-only configuration: the optional root directory that
//! file requests are resolved against. It is built once at startup and
//! handed unchanged to every connection.
use vstd::prelude::*;

use crate::byteseq::clone_bytes;

verus! {

/// How a relative path is joined onto a base directory: an absolute path
/// replaces the base; otherwise a separator is inserted unless the base
/// already ends with one or is empty.
pub open spec fn joined_path(base: Seq<u8>, rel: Seq<u8>) -> Seq<u8> {
    if rel.len() > 0 && rel[0] == 47 {
        rel
    } else if base.len() == 0 {
        rel
    } else if base[base.len() - 1] == 47 {
        base + rel
    } else {
        base + seq![47u8] + rel
    }
}

#[derive(Debug)]
pub struct Configuration {
    pub root_dir: Option<Vec<u8>>,
}

pub struct ConfigurationView {
    pub root_dir: Option<Seq<u8>>,
}

impl View for Configuration {
    type V = ConfigurationView;

    open spec fn view(&self) -> ConfigurationView {
        ConfigurationView {
            root_dir: match self.root_dir {
                Some(d) => Some(d@),
                None => None,
            },
        }
    }
}

/// The directory `resolve_path` joins against: the configured root, or
/// the working directory when none is configured.
pub open spec fn spec_base_dir(config: ConfigurationView, cwd: Seq<u8>) -> Seq<u8> {
    match config.root_dir {
        Some(d) => d,
        None => cwd,
    }
}

impl Configuration {
    pub fn new(root_dir: Option<Vec<u8>>) -> (r: Configuration)
        ensures
            r@.root_dir is Some <==> root_dir is Some,
            root_dir is Some ==> r@.root_dir->0 == root_dir->0@,
    {
        Configuration { root_dir }
    }

    /// Resolves a request-relative path to a full path by joining it onto
    /// the configured root directory, or onto the caller's working
    /// directory when no root is configured.
    pub fn resolve_path(&self, cwd: &Vec<u8>, path: &Vec<u8>) -> (r: Vec<u8>)
        ensures
            r@ == joined_path(spec_base_dir(self@, cwd@), path@),
    {
        let mut full_path = match &self.root_dir {
            Some(base_dir) => clone_bytes(base_dir),
            None => clone_bytes(cwd),
        };
        if path.len() > 0 && path[0] == 47 {
            return clone_bytes(path);
        }
        if full_path.len() > 0 && full_path[full_path.len() - 1] != 47 {
            full_path.push(47);
        }
        if full_path.len() == 0 {
            return clone_bytes(path);
        }
        let mut i: usize = 0;
        let ghost base = full_path@;
        while i < path.len()
            invariant
                i <= path.len(),
                full_path@ == base + path@.take(i as int),
            decreases path.len() - i,
        {
            full_path.push(path[i]);
            proof {
                assert(full_path@ =~= base + path@.take(i + 1));
            }
            i += 1;
        }
        proof {
            assert(base + path@.take(path@.len() as int) =~= base + path@);
            assert(full_path@ =~= joined_path(spec_base_dir(self@, cwd@), path@));
        }
        full_path
    }
}

} // verus!
