//! The mod-loading runtime bundled with an instance: a closed union of
//! two recognized kinds, each carrying a version string, constructed
//! only by parsing a raw loader string.
use vstd::prelude::*;
use vstd::string::StringExecFns;

use crate::strutil::{
    has_substring, is_prefix_of, last_segment, lemma_last_segment_found, matches_at, str_contains,
    str_last_segment, str_starts_with,
};

verus! {

/// A parsed loader tag. Exactly one variant holds; a raw string matching
/// neither recognized shape is a parse failure, never a fallback variant.
#[derive(Debug, Clone)]
pub enum ModLoader {
    Fabric(String),
    Forge(String),
}

/// Spec-level image of a [`ModLoader`].
pub ghost enum LoaderModel {
    Fabric(Seq<char>),
    Forge(Seq<char>),
}

impl View for ModLoader {
    type V = LoaderModel;

    open spec fn view(&self) -> LoaderModel {
        match self {
            ModLoader::Fabric(v) => LoaderModel::Fabric(v@),
            ModLoader::Forge(v) => LoaderModel::Forge(v@),
        }
    }
}

impl DeepView for ModLoader {
    type V = LoaderModel;

    open spec fn deep_view(&self) -> LoaderModel {
        self.view()
    }
}

/// Why a raw loader string was rejected.
#[derive(Debug, Clone)]
pub enum ParseError {
    /// Splitting the raw string yielded no version segment. Splitting on a
    /// separator always yields at least one segment, so no input produces
    /// this; the variant exists so that the failure is handled, not assumed
    /// away.
    MissingVersion,
    /// The string matches neither recognized shape; carries the raw input.
    UnknownLoader(String),
}

/// A raw string of the first recognized shape, `fabric-loader-<mc>-<v>`.
pub open spec fn is_fabric_string(s: Seq<char>) -> bool {
    is_prefix_of("fabric-loader"@, s)
}

/// A raw string of the second recognized shape, `<mc>-forge-<v>`:
/// anything mentioning `forge` that is not a fabric string.
pub open spec fn is_forge_string(s: Seq<char>) -> bool {
    !is_fabric_string(s) && has_substring(s, "forge"@)
}

/// The loader a raw string parses to, meaningful only when one of the two
/// shapes matches. The version is the last `-`-separated segment.
pub open spec fn spec_parse_loader(s: Seq<char>) -> LoaderModel {
    if is_fabric_string(s) {
        LoaderModel::Fabric(last_segment(s, '-'))
    } else {
        LoaderModel::Forge(last_segment(s, '-'))
    }
}

/// Every string of the shape `fabric-loader-<mc>-<v>`, for a version
/// `<v>` free of `-`, is recognized and parses to `Fabric(<v>)`.
pub proof fn lemma_parse_fabric_shape(mc: Seq<char>, v: Seq<char>)
    requires
        forall|i: int| 0 <= i < v.len() ==> v[i] != '-',
    ensures
        ({
            let s = "fabric-loader-"@ + mc + "-"@ + v;
            is_fabric_string(s) && spec_parse_loader(s) == LoaderModel::Fabric(v)
        }),
{
    reveal_strlit("fabric-loader-");
    reveal_strlit("fabric-loader");
    reveal_strlit("-");
    let s = "fabric-loader-"@ + mc + "-"@ + v;
    assert(s.subrange(0, 13) =~= "fabric-loader"@);
    assert(is_fabric_string(s));
    let i = 14 + mc.len() as int;
    assert(s[i] == '-');
    assert(forall|j: int| i < j < s.len() ==> s[j] == v[j - i - 1] && s[j] != '-');
    lemma_last_segment_found(s, '-', i);
    assert(s.subrange(i + 1, s.len() as int) =~= v);
}

/// Every string of the shape `<mc>-forge-<v>`, for a version `<v>` free
/// of `-`, mentions `forge`; unless it happens to carry the fabric
/// prefix — the shape checked first — it parses to `Forge(<v>)`.
pub proof fn lemma_parse_forge_shape(mc: Seq<char>, v: Seq<char>)
    requires
        forall|i: int| 0 <= i < v.len() ==> v[i] != '-',
    ensures
        ({
            let s = mc + "-forge-"@ + v;
            has_substring(s, "forge"@) && (!is_fabric_string(s) ==> spec_parse_loader(s)
                == LoaderModel::Forge(v))
        }),
{
    reveal_strlit("-forge-");
    reveal_strlit("forge");
    let s = mc + "-forge-"@ + v;
    let k = mc.len() as int + 1;
    assert(s.subrange(k, k + 5) =~= "forge"@);
    assert(matches_at(s, "forge"@, k));
    let i = mc.len() as int + 6;
    assert(s[i] == '-');
    assert(forall|j: int| i < j < s.len() ==> s[j] == v[j - i - 1] && s[j] != '-');
    lemma_last_segment_found(s, '-', i);
    assert(s.subrange(i + 1, s.len() as int) =~= v);
}

impl ModLoader {
    /// Parse a raw loader-version string. Rules, checked in order: a
    /// string starting with `fabric-loader` is Fabric; otherwise a string
    /// containing `forge` is Forge; anything else is rejected. The version
    /// is the segment after the last `-` of the raw string.
    pub fn parse(raw: &str) -> (r: Result<ModLoader, ParseError>)
        ensures
            is_fabric_string(raw@) ==> (r matches Ok(l) && l@ == LoaderModel::Fabric(
                last_segment(raw@, '-'),
            )),
            is_forge_string(raw@) ==> (r matches Ok(l) && l@ == LoaderModel::Forge(
                last_segment(raw@, '-'),
            )),
            !is_fabric_string(raw@) && !is_forge_string(raw@) ==> (r matches Err(
                ParseError::UnknownLoader(s),
            ) && s@ == raw@),
            r matches Ok(l) ==> (is_fabric_string(raw@) || is_forge_string(raw@)) && l@
                == spec_parse_loader(raw@),
    {
        if str_starts_with(raw, "fabric-loader") {
            Ok(ModLoader::Fabric(str_last_segment(raw, '-')))
        } else if str_contains(raw, "forge") {
            Ok(ModLoader::Forge(str_last_segment(raw, '-')))
        } else {
            Err(ParseError::UnknownLoader(String::from_str(raw)))
        }
    }
}

} // verus!
