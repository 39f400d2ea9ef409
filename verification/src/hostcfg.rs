//! Resolving the destination launcher's own configuration: its
//! `key=value` text names the directory its instances live in and the
//! directory its icons live in, each interpreted relative to the
//! launcher's root. The caller locates and reads the file (trying the
//! primary name, then the legacy one) and hands the text in; this module
//! holds the grammar and the resolution rules.
use vstd::prelude::*;
use vstd::string::StrSliceExecFns;
use vstd::string::StringExecFns;

use crate::paths::{join_path, path_join};
use crate::strutil::{count_char, first_index, split_on, str_eq, str_split};
use crate::strutil::{lemma_count_single, lemma_count_two, lemma_count_zero};

verus! {

/// The key naming the launcher's instance directory.
pub open spec fn instance_dir_key() -> Seq<char> {
    "InstanceDir"@
}

/// The key naming the launcher's icon directory.
pub open spec fn icons_dir_key() -> Seq<char> {
    "IconsDir"@
}

/// The key and value of a configuration line: meaningful only for lines
/// holding exactly one `=`; every other line is ignored.
pub open spec fn kv_of(line: Seq<char>) -> Option<(Seq<char>, Seq<char>)> {
    if count_char(line, '=') == 1 {
        Some(
            (
                line.subrange(0, first_index(line, '=')),
                line.subrange(first_index(line, '=') + 1, line.len() as int),
            ),
        )
    } else {
        None
    }
}

/// Scanning configuration lines from position `i` on: a later assignment
/// to a key overrides an earlier one.
pub open spec fn cfg_scan(
    lines: Seq<Seq<char>>,
    i: int,
    inst: Option<Seq<char>>,
    icons: Option<Seq<char>>,
) -> (Option<Seq<char>>, Option<Seq<char>>)
    decreases lines.len() - i,
{
    if i < 0 || i >= lines.len() {
        (inst, icons)
    } else {
        match kv_of(lines[i]) {
            Some(kv) => {
                if kv.0 == instance_dir_key() {
                    cfg_scan(lines, i + 1, Some(kv.1), icons)
                } else if kv.0 == icons_dir_key() {
                    cfg_scan(lines, i + 1, inst, Some(kv.1))
                } else {
                    cfg_scan(lines, i + 1, inst, icons)
                }
            },
            None => cfg_scan(lines, i + 1, inst, icons),
        }
    }
}

/// The two directory values a configuration text yields, each still
/// relative to the launcher root; `None` where the key never occurs.
pub open spec fn cfg_dirs(text: Seq<char>) -> (Option<Seq<char>>, Option<Seq<char>>) {
    cfg_scan(split_on(text, '\n'), 0, None, None)
}

/// Split a configuration line into key and value if it holds exactly one
/// `=`.
fn split_kv(line: &str) -> (r: Option<(String, String)>)
    ensures
        r is Some ==> (kv_of(line@) matches Some(skv) && r matches Some(kv) && kv.0@ == skv.0
            && kv.1@ == skv.1),
        r is None ==> kv_of(line@) is None,
{
    let n = line.unicode_len();
    let mut i: usize = 0;
    while i < n
        invariant
            i <= n,
            n == line@.len(),
            forall|j: int| 0 <= j < i ==> line@[j] != '=',
        decreases n - i,
    {
        if line.get_char(i) == '=' {
            let mut k: usize = i + 1;
            while k < n
                invariant
                    i < k <= n,
                    n == line@.len(),
                    line@[i as int] == '=',
                    forall|j: int| 0 <= j < i ==> line@[j] != '=',
                    forall|j: int| i < j < k ==> line@[j] != '=',
                decreases n - k,
            {
                if line.get_char(k) == '=' {
                    proof {
                        lemma_count_two(line@, '=', i as int, k as int);
                    }
                    return None;
                }
                k += 1;
            }
            proof {
                lemma_count_single(line@, '=', i as int);
            }
            let key = String::from_str(line.substring_char(0, i));
            let val = String::from_str(line.substring_char(i + 1, n));
            return Some((key, val));
        }
        i += 1;
    }
    proof {
        lemma_count_zero(line@, '=');
    }
    None
}

/// The launcher's resolved locations. The root is always set; either
/// directory is `None` when its key never occurred in the configuration,
/// which is not itself an error — an operation that needs the missing
/// directory must refuse to run instead.
#[derive(Debug, Clone)]
pub struct MmcPaths {
    pub mmc_path: String,
    pub mmc_instance_path: Option<String>,
    pub mmc_icons_path: Option<String>,
}

/// Spec-level image of [`MmcPaths`].
pub ghost struct MmcPathsModel {
    pub root: Seq<char>,
    pub instance_dir: Option<Seq<char>>,
    pub icons_dir: Option<Seq<char>>,
}

impl View for MmcPaths {
    type V = MmcPathsModel;

    open spec fn view(&self) -> MmcPathsModel {
        MmcPathsModel {
            root: self.mmc_path@,
            instance_dir: self.mmc_instance_path.deep_view(),
            icons_dir: self.mmc_icons_path.deep_view(),
        }
    }
}

/// Why the launcher's configuration could not be resolved.
#[derive(Debug, Clone, PartialEq, Eq, Structural)]
pub enum ResolveError {
    /// The configured launcher root does not exist or is not a directory.
    InvalidRoot,
    /// Neither the primary nor the legacy configuration file exists under
    /// the root.
    ConfigNotFound,
}

/// The locations a root and a configuration text resolve to: each
/// configured directory is joined onto the root.
pub open spec fn spec_resolve(root: Seq<char>, text: Seq<char>) -> MmcPathsModel {
    MmcPathsModel {
        root: root,
        instance_dir: match cfg_dirs(text).0 {
            Some(v) => Some(join_path(root, v)),
            None => None,
        },
        icons_dir: match cfg_dirs(text).1 {
            Some(v) => Some(join_path(root, v)),
            None => None,
        },
    }
}

/// Resolve the launcher's directories from its configuration.
///
/// `mmc_root` is the validated launcher root (`None` when the configured
/// root is absent or not a directory), and `cfg_text` the content of
/// whichever configuration file was found (`None` when neither name
/// exists). Resolution is re-run from scratch on every call; nothing is
/// cached, since the user may retarget the root between calls.
pub fn parse_mmc_path(mmc_root: Option<&str>, cfg_text: Option<&str>) -> (r: Result<
    MmcPaths,
    ResolveError,
>)
    ensures
        mmc_root is None ==> r == Err::<MmcPaths, ResolveError>(ResolveError::InvalidRoot),
        mmc_root is Some && cfg_text is None ==> r == Err::<MmcPaths, ResolveError>(
            ResolveError::ConfigNotFound,
        ),
        mmc_root is Some && cfg_text is Some ==> (r matches Ok(p) && p@ == spec_resolve(
            mmc_root->0@,
            cfg_text->0@,
        )),
{
    let root = match mmc_root {
        Some(root) => root,
        None => {
            return Err(ResolveError::InvalidRoot);
        },
    };
    let text = match cfg_text {
        Some(text) => text,
        None => {
            return Err(ResolveError::ConfigNotFound);
        },
    };
    let lines = str_split(text, '\n');
    let ghost ls = lines.deep_view();
    let mut inst: Option<String> = None;
    let mut icons: Option<String> = None;
    let n = lines.len();
    let mut i: usize = 0;
    while i < n
        invariant
            i <= n,
            n == lines.len(),
            ls == lines.deep_view(),
            cfg_dirs(text@) == cfg_scan(ls, i as int, inst.deep_view(), icons.deep_view()),
        decreases n - i,
    {
        assert(lines[i as int]@ == ls[i as int]);
        match split_kv(lines[i].as_str()) {
            Some(kv) => {
                if str_eq(kv.0.as_str(), "InstanceDir") {
                    inst = Some(kv.1);
                } else if str_eq(kv.0.as_str(), "IconsDir") {
                    icons = Some(kv.1);
                }
            },
            None => {},
        }
        i += 1;
    }
    let instance_dir = match inst {
        Some(v) => Some(path_join(root, v.as_str())),
        None => None,
    };
    let icons_dir = match icons {
        Some(v) => Some(path_join(root, v.as_str())),
        None => None,
    };
    Ok(MmcPaths { mmc_path: String::from_str(root), mmc_instance_path: instance_dir, mmc_icons_path: icons_dir })
}

} // verus!
