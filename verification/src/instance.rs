//! Catalog instances: the fields read from a per-instance manifest, and
//! the enumeration step that turns raw manifest records into typed
//! instances, silently skipping any record whose loader string parses to
//! neither recognized shape.
use vstd::prelude::*;
use vstd::string::StringExecFns;

use crate::loader::{is_fabric_string, is_forge_string, spec_parse_loader, LoaderModel, ModLoader};
use crate::strutil::{first_segment, str_first_segment};

verus! {

/// One catalog entry, immutable once loaded.
#[derive(Debug, Clone)]
pub struct FTBInstance {
    /// Opaque stable identifier, unique within the catalog root.
    pub uuid: String,
    /// Human label, not guaranteed unique.
    pub name: String,
    pub version: String,
    pub mc_version: String,
    pub mod_loader: ModLoader,
}

/// Spec-level image of an [`FTBInstance`].
pub ghost struct InstanceModel {
    pub uuid: Seq<char>,
    pub name: Seq<char>,
    pub version: Seq<char>,
    pub mc_version: Seq<char>,
    pub mod_loader: LoaderModel,
}

impl View for FTBInstance {
    type V = InstanceModel;

    open spec fn view(&self) -> InstanceModel {
        InstanceModel {
            uuid: self.uuid@,
            name: self.name@,
            version: self.version@,
            mc_version: self.mc_version@,
            mod_loader: self.mod_loader@,
        }
    }
}

impl DeepView for FTBInstance {
    type V = InstanceModel;

    open spec fn deep_view(&self) -> InstanceModel {
        self.view()
    }
}

/// The fields of one manifest as read from disk, the loader string still
/// raw and unchecked.
#[derive(Debug, Clone)]
pub struct RawManifest {
    pub uuid: String,
    pub name: String,
    pub version: String,
    pub mc_version: String,
    pub mod_loader: String,
}

/// Spec-level image of a [`RawManifest`].
pub ghost struct ManifestModel {
    pub uuid: Seq<char>,
    pub name: Seq<char>,
    pub version: Seq<char>,
    pub mc_version: Seq<char>,
    pub mod_loader: Seq<char>,
}

impl View for RawManifest {
    type V = ManifestModel;

    open spec fn view(&self) -> ManifestModel {
        ManifestModel {
            uuid: self.uuid@,
            name: self.name@,
            version: self.version@,
            mc_version: self.mc_version@,
            mod_loader: self.mod_loader@,
        }
    }
}

impl DeepView for RawManifest {
    type V = ManifestModel;

    open spec fn deep_view(&self) -> ManifestModel {
        self.view()
    }
}

/// A manifest is well formed exactly when its loader string parses.
pub open spec fn manifest_ok(m: ManifestModel) -> bool {
    is_fabric_string(m.mod_loader) || is_forge_string(m.mod_loader)
}

/// The instance a well-formed manifest loads to.
pub open spec fn spec_instance_of(m: ManifestModel) -> InstanceModel {
    InstanceModel {
        uuid: m.uuid,
        name: m.name,
        version: m.version,
        mc_version: m.mc_version,
        mod_loader: spec_parse_loader(m.mod_loader),
    }
}

/// Enumeration of `ms` from position `i` on, with the instances loaded so
/// far in `acc`: each well-formed manifest contributes its instance, in
/// order, and every other manifest is skipped.
pub open spec fn load_from(ms: Seq<ManifestModel>, i: int, acc: Seq<InstanceModel>) -> Seq<
    InstanceModel,
>
    decreases ms.len() - i,
{
    if i < 0 || i >= ms.len() {
        acc
    } else if manifest_ok(ms[i]) {
        load_from(ms, i + 1, acc.push(spec_instance_of(ms[i])))
    } else {
        load_from(ms, i + 1, acc)
    }
}

/// The instances loaded from a sequence of raw manifests.
pub open spec fn spec_load(ms: Seq<ManifestModel>) -> Seq<InstanceModel> {
    load_from(ms, 0, Seq::empty())
}

impl FTBInstance {
    /// The label shown to the user: the display name followed by the
    /// leading segment of the identifier, as `name [prefix...]`.
    pub fn display_name(&self) -> (r: String)
        ensures
            r@ == self.name@ + " ["@ + first_segment(self.uuid@, '-') + "...]"@,
    {
        let mut out = String::from_str(self.name.as_str());
        out.append(" [");
        let seg = str_first_segment(self.uuid.as_str(), '-');
        out.append(seg.as_str());
        out.append("...]");
        proof {
            assert(out@ =~= self.name@ + " ["@ + first_segment(self.uuid@, '-') + "...]"@);
        }
        out
    }
}

/// Load typed instances from raw manifest records. Enumeration never
/// fails: a record whose loader string matches neither recognized shape
/// is skipped, and the rest of the catalog stays usable. Order is the
/// order of the records handed in.
pub fn load_ftb_instances(manifests: &Vec<RawManifest>) -> (r: Vec<FTBInstance>)
    ensures
        r.deep_view() == spec_load(manifests.deep_view()),
{
    let ghost ms = manifests.deep_view();
    let mut out: Vec<FTBInstance> = Vec::new();
    assert(out.deep_view() =~= Seq::<InstanceModel>::empty());
    let n = manifests.len();
    let mut i: usize = 0;
    while i < n
        invariant
            i <= n,
            n == manifests.len(),
            ms == manifests.deep_view(),
            spec_load(ms) == load_from(ms, i as int, out.deep_view()),
        decreases n - i,
    {
        let ghost pre = out.deep_view();
        let m = &manifests[i];
        assert(m@ == ms[i as int]);
        match ModLoader::parse(m.mod_loader.as_str()) {
            Ok(loader) => {
                let inst = FTBInstance {
                    uuid: m.uuid.clone(),
                    name: m.name.clone(),
                    version: m.version.clone(),
                    mc_version: m.mc_version.clone(),
                    mod_loader: loader,
                };
                assert(inst@ == spec_instance_of(ms[i as int]));
                out.push(inst);
                assert(out.deep_view() =~= pre.push(spec_instance_of(ms[i as int])));
            },
            Err(_) => {
                assert(!manifest_ok(ms[i as int]));
            },
        }
        i += 1;
    }
    out
}

} // verus!
