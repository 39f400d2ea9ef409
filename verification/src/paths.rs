//! Path values as plain strings: joining path components, and the two
//! user-configured repository roots. Whether a path exists on disk is an
//! I/O fact this crate cannot observe; callers report it when they
//! construct a root, and re-validate at the boundary before each
//! operation.
use vstd::prelude::*;
use vstd::string::StrSliceExecFns;
use vstd::string::StringExecFns;

verus! {

/// Joining `rel` onto `base` with a `/`, except that an absolute `rel`
/// replaces `base` entirely.
pub open spec fn join_path(base: Seq<char>, rel: Seq<char>) -> Seq<char> {
    if rel.len() > 0 && rel[0] == '/' {
        rel
    } else {
        base + seq!['/'] + rel
    }
}

/// Join one path component onto a base path.
pub fn path_join(base: &str, rel: &str) -> (r: String)
    ensures
        r@ == join_path(base@, rel@),
{
    if rel.unicode_len() > 0 && rel.get_char(0) == '/' {
        String::from_str(rel)
    } else {
        let mut out = String::from_str(base);
        out.append("/");
        out.append(rel);
        proof {
            assert(out@ =~= base@ + seq!['/'] + rel@) by {
                reveal_strlit("/");
            }
        }
        out
    }
}

/// The destination launcher's root directory, as configured by the user;
/// `None` when the configured path did not exist at validation time.
#[derive(Debug, Clone)]
pub struct MmcPath {
    path: Option<String>,
}

impl View for MmcPath {
    type V = Option<Seq<char>>;

    closed spec fn view(&self) -> Option<Seq<char>> {
        self.path.deep_view()
    }
}

impl MmcPath {
    /// Record a configured root. `exists` reports whether the path is
    /// present on disk, an observation only the caller can make.
    pub fn new(path: &str, exists: bool) -> (r: Self)
        ensures
            exists ==> r@ == Some(path@),
            !exists ==> r@ is None,
    {
        if exists {
            MmcPath { path: Some(String::from_str(path)) }
        } else {
            MmcPath { path: None }
        }
    }

    /// The root recorded at validation time, if any.
    pub fn get_validated_path(&self) -> (r: Option<String>)
        ensures
            r.deep_view() == self@,
    {
        match &self.path {
            Some(p) => Some(p.clone()),
            None => None,
        }
    }
}

/// The catalog's instances root, as configured by the user; `None` when
/// the configured path did not exist at validation time.
#[derive(Debug, Clone)]
pub struct FTBPath {
    path: Option<String>,
}

impl View for FTBPath {
    type V = Option<Seq<char>>;

    closed spec fn view(&self) -> Option<Seq<char>> {
        self.path.deep_view()
    }
}

impl FTBPath {
    /// Record a configured root. `exists` reports whether the path is
    /// present on disk, an observation only the caller can make.
    pub fn new(path: &str, exists: bool) -> (r: Self)
        ensures
            exists ==> r@ == Some(path@),
            !exists ==> r@ is None,
    {
        if exists {
            FTBPath { path: Some(String::from_str(path)) }
        } else {
            FTBPath { path: None }
        }
    }

    /// The root recorded at validation time, if any.
    pub fn get_validated_path(&self) -> (r: Option<String>)
        ensures
            r.deep_view() == self@,
    {
        match &self.path {
            Some(p) => Some(p.clone()),
            None => None,
        }
    }
}

/// The pair of user-configured roots, as persisted between runs.
#[derive(Debug, Clone)]
pub struct Config {
    pub mmc: MmcPath,
    pub ftb: FTBPath,
}

} // verus!
