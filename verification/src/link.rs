//! The link engine. A link is pure filesystem state: the launcher-side
//! instance folder, the two synthesized metadata files, and a directory
//! alias pointing back into the catalog. This module decides: whether an
//! observed alias target means "linked", which writes establish a link,
//! and which removals tear one down. The caller performs the steps in
//! order and stops at the first failure; nothing here is cached between
//! calls.
use vstd::prelude::*;
use vstd::string::StringExecFns;

use crate::content::{gen_mmc_instance_cfg, gen_mmc_pack_json, spec_instance_cfg, spec_pack_json};
use crate::hostcfg::{MmcPaths, MmcPathsModel};
use crate::instance::FTBInstance;
use crate::paths::{join_path, path_join};
use crate::strutil::str_eq;

verus! {

/// Why a link operation refused to run or failed.
#[derive(Debug, Clone)]
pub enum LinkError {
    /// The launcher-side instance folder already exists — whether a live
    /// link, leftover partial state, or something foreign. Nothing is
    /// overwritten.
    AlreadyLinked,
    /// The instance is not currently linked, so there is nothing this
    /// crate may remove.
    NotLinked,
    /// An underlying filesystem step failed; carries the caller's
    /// description of the failure.
    Io(String),
}

/// One filesystem write or removal of a link plan. The caller executes
/// the steps of a plan in order and stops at the first failure; only
/// [`FsStep::RemoveDirIfEmpty`] is best-effort.
#[derive(Debug, Clone)]
pub enum FsStep {
    /// Create a directory; fails if the path already exists.
    CreateDir { path: String },
    /// Write a text file, replacing any previous content.
    WriteFile { path: String, content: String },
    /// Copy the file at `from` to `to`.
    CopyFile { from: String, to: String },
    /// Create a directory alias at `path` whose target is `target`.
    CreateDirLink { path: String, target: String },
    /// Remove the directory alias at `path`, not what it points to.
    RemoveDirLink { path: String },
    /// Remove a file.
    RemoveFile { path: String },
    /// Remove a directory if it is empty; failure is swallowed.
    RemoveDirIfEmpty { path: String },
}

/// Spec-level image of an [`FsStep`].
pub ghost enum StepModel {
    CreateDir { path: Seq<char> },
    WriteFile { path: Seq<char>, content: Seq<char> },
    CopyFile { from: Seq<char>, to: Seq<char> },
    CreateDirLink { path: Seq<char>, target: Seq<char> },
    RemoveDirLink { path: Seq<char> },
    RemoveFile { path: Seq<char> },
    RemoveDirIfEmpty { path: Seq<char> },
}

impl View for FsStep {
    type V = StepModel;

    open spec fn view(&self) -> StepModel {
        match self {
            FsStep::CreateDir { path } => StepModel::CreateDir { path: path@ },
            FsStep::WriteFile { path, content } => StepModel::WriteFile {
                path: path@,
                content: content@,
            },
            FsStep::CopyFile { from, to } => StepModel::CopyFile { from: from@, to: to@ },
            FsStep::CreateDirLink { path, target } => StepModel::CreateDirLink {
                path: path@,
                target: target@,
            },
            FsStep::RemoveDirLink { path } => StepModel::RemoveDirLink { path: path@ },
            FsStep::RemoveFile { path } => StepModel::RemoveFile { path: path@ },
            FsStep::RemoveDirIfEmpty { path } => StepModel::RemoveDirIfEmpty { path: path@ },
        }
    }
}

impl DeepView for FsStep {
    type V = StepModel;

    open spec fn deep_view(&self) -> StepModel {
        self.view()
    }
}

/// What the caller observed on disk just before asking for a create
/// plan. Ground truth is re-checked on every operation; no status is
/// trusted from an earlier call.
#[derive(Debug, Clone)]
pub struct CreateObs {
    /// The launcher-side instance folder for this id already exists.
    pub instance_folder_exists: bool,
    /// The catalog instance has a `folder.jpg` icon.
    pub icon_exists: bool,
}

/// The launcher-side folder of one instance.
pub open spec fn spec_instance_folder(instance_dir: Seq<char>, uuid: Seq<char>) -> Seq<char> {
    join_path(instance_dir, uuid)
}

/// Where the directory alias of one instance lives.
pub open spec fn spec_alias_path(instance_dir: Seq<char>, uuid: Seq<char>) -> Seq<char> {
    join_path(spec_instance_folder(instance_dir, uuid), ".minecraft"@)
}

/// The catalog folder an instance's alias must point at.
pub open spec fn spec_link_target(ftb_root: Seq<char>, uuid: Seq<char>) -> Seq<char> {
    join_path(ftb_root, uuid)
}

/// An observed alias target means "linked" exactly when it equals the
/// instance's catalog folder, byte for byte. A missing or unreadable
/// alias observes as `None`; an alias pointing anywhere else is occupied
/// by something foreign and counts as not linked.
pub open spec fn spec_linked(
    ftb_root: Seq<char>,
    uuid: Seq<char>,
    target: Option<Seq<char>>,
) -> bool {
    target == Some(spec_link_target(ftb_root, uuid))
}

/// The launcher-side folder of one instance — the create guard watches
/// this path — or `None` when the launcher configuration never set an
/// instance directory.
pub fn mmc_instance_folder(mmc: &MmcPaths, instance: &FTBInstance) -> (r: Option<String>)
    ensures
        mmc@.instance_dir is Some ==> (r matches Some(p) && p@ == spec_instance_folder(
            mmc@.instance_dir->0,
            instance.uuid@,
        )),
        mmc@.instance_dir is None ==> r is None,
{
    match &mmc.mmc_instance_path {
        Some(d) => Some(path_join(d.as_str(), instance.uuid.as_str())),
        None => None,
    }
}

/// Where the catalog keeps an instance's icon: `folder.jpg` inside the
/// instance's catalog folder.
pub fn ftb_icon_path(ftb_root: &str, instance: &FTBInstance) -> (r: String)
    ensures
        r@ == join_path(spec_link_target(ftb_root@, instance.uuid@), "folder.jpg"@),
{
    let folder = path_join(ftb_root, instance.uuid.as_str());
    path_join(folder.as_str(), "folder.jpg")
}

/// Where to read the instance's directory alias, or `None` when the
/// launcher configuration never set an instance directory.
pub fn mmc_alias_path(mmc: &MmcPaths, instance: &FTBInstance) -> (r: Option<String>)
    ensures
        mmc@.instance_dir is Some ==> (r matches Some(p) && p@ == spec_alias_path(
            mmc@.instance_dir->0,
            instance.uuid@,
        )),
        mmc@.instance_dir is None ==> r is None,
{
    match &mmc.mmc_instance_path {
        Some(d) => {
            let folder = path_join(d.as_str(), instance.uuid.as_str());
            Some(path_join(folder.as_str(), ".minecraft"))
        },
        None => None,
    }
}

/// Is the instance currently linked? `alias_target` is the resolved
/// target of the instance's directory alias as the caller observed it,
/// `None` when the alias is missing or unreadable. Never fails: every
/// observation failure counts as not linked.
pub fn is_ftb_instance_linked(ftb_root: &str, instance: &FTBInstance, alias_target: Option<&str>) -> (r:
    bool)
    ensures
        r == spec_linked(ftb_root@, instance.uuid@, alias_target.deep_view()),
{
    match alias_target {
        Some(t) => {
            let want = path_join(ftb_root, instance.uuid.as_str());
            str_eq(t, want.as_str())
        },
        None => false,
    }
}

/// The writes that establish a link: the instance folder, the two
/// metadata files, the icon copy when the catalog has an icon, and last
/// — so that a crash can never leave an alias without metadata beside it
/// — the directory alias into the catalog.
pub open spec fn spec_create_plan(
    mmc: MmcPathsModel,
    ftb_root: Seq<char>,
    uuid: Seq<char>,
    name: Seq<char>,
    pack_json: Seq<char>,
    has_icon: bool,
) -> Seq<StepModel> {
    let dir = spec_instance_folder(mmc.instance_dir->0, uuid);
    seq![
        StepModel::CreateDir { path: dir },
        StepModel::WriteFile {
            path: join_path(dir, "instance.cfg"@),
            content: spec_instance_cfg(name, uuid, has_icon),
        },
        StepModel::WriteFile { path: join_path(dir, "mmc-pack.json"@), content: pack_json },
    ] + (if has_icon {
        seq![
            StepModel::CopyFile {
                from: join_path(spec_link_target(ftb_root, uuid), "folder.jpg"@),
                to: join_path(mmc.icons_dir->0, uuid + ".jpg"@),
            },
        ]
    } else {
        Seq::empty()
    }) + seq![
        StepModel::CreateDirLink {
            path: spec_alias_path(mmc.instance_dir->0, uuid),
            target: spec_link_target(ftb_root, uuid),
        },
    ]
}

/// Plan the creation of a link. The observed presence of the instance
/// folder — not the link oracle — is the guard: if the folder exists,
/// whatever put it there, the plan is refused as [`LinkError::AlreadyLinked`]
/// and nothing is overwritten. Otherwise the returned steps, run in
/// order, fully establish the link; a failure partway leaves partial
/// state that is deliberately not rolled back here.
pub fn create_mmc_instance(
    mmc: &MmcPaths,
    ftb_root: &str,
    instance: &FTBInstance,
    obs: &CreateObs,
) -> (r: Result<Vec<FsStep>, LinkError>)
    requires
        mmc@.instance_dir is Some,
        obs.icon_exists ==> mmc@.icons_dir is Some,
    ensures
        obs.instance_folder_exists ==> r matches Err(LinkError::AlreadyLinked),
        !obs.instance_folder_exists ==> (r matches Ok(plan) && plan.deep_view()
            == spec_create_plan(
            mmc@,
            ftb_root@,
            instance.uuid@,
            instance.name@,
            spec_pack_json(instance@),
            obs.icon_exists,
        )),
{
    if obs.instance_folder_exists {
        return Err(LinkError::AlreadyLinked);
    }
    let instance_dir = match &mmc.mmc_instance_path {
        Some(d) => d,
        None => {
            return vstd::pervasive::unreached();
        },
    };
    let dir = path_join(instance_dir.as_str(), instance.uuid.as_str());
    let mut plan: Vec<FsStep> = Vec::new();
    plan.push(FsStep::CreateDir { path: dir.clone() });
    plan.push(
        FsStep::WriteFile {
            path: path_join(dir.as_str(), "instance.cfg"),
            content: gen_mmc_instance_cfg(instance, obs.icon_exists),
        },
    );
    plan.push(
        FsStep::WriteFile {
            path: path_join(dir.as_str(), "mmc-pack.json"),
            content: gen_mmc_pack_json(instance),
        },
    );
    let ftb_instance_path = path_join(ftb_root, instance.uuid.as_str());
    if obs.icon_exists {
        let icons_dir = match &mmc.mmc_icons_path {
            Some(d) => d,
            None => {
                return vstd::pervasive::unreached();
            },
        };
        let mut icon_name = String::from_str(instance.uuid.as_str());
        icon_name.append(".jpg");
        plan.push(
            FsStep::CopyFile {
                from: path_join(ftb_instance_path.as_str(), "folder.jpg"),
                to: path_join(icons_dir.as_str(), icon_name.as_str()),
            },
        );
    }
    plan.push(
        FsStep::CreateDirLink {
            path: path_join(dir.as_str(), ".minecraft"),
            target: ftb_instance_path,
        },
    );
    proof {
        assert(plan.deep_view() =~= spec_create_plan(
            mmc@,
            ftb_root@,
            instance.uuid@,
            instance.name@,
            spec_pack_json(instance@),
            obs.icon_exists,
        ));
    }
    Ok(plan)
}

/// The removals that tear a link down: the alias first, then the two
/// metadata files, then a best-effort removal of the emptied folder.
pub open spec fn spec_remove_plan(mmc: MmcPathsModel, uuid: Seq<char>) -> Seq<StepModel> {
    let dir = spec_instance_folder(mmc.instance_dir->0, uuid);
    seq![
        StepModel::RemoveDirLink { path: spec_alias_path(mmc.instance_dir->0, uuid) },
        StepModel::RemoveFile { path: join_path(dir, "mmc-pack.json"@) },
        StepModel::RemoveFile { path: join_path(dir, "instance.cfg"@) },
        StepModel::RemoveDirIfEmpty { path: dir },
    ]
}

/// Plan the removal of a link. The instance must currently observe as
/// linked — `alias_target` is the alias target the caller just read —
/// otherwise the plan is refused as [`LinkError::NotLinked`] and no step
/// is produced: a folder that was never this crate's to manage is never
/// touched.
pub fn remove_mmc_instance(
    mmc: &MmcPaths,
    ftb_root: &str,
    instance: &FTBInstance,
    alias_target: Option<&str>,
) -> (r: Result<Vec<FsStep>, LinkError>)
    requires
        mmc@.instance_dir is Some,
    ensures
        !spec_linked(ftb_root@, instance.uuid@, alias_target.deep_view()) ==> r matches Err(
            LinkError::NotLinked,
        ),
        spec_linked(ftb_root@, instance.uuid@, alias_target.deep_view()) ==> (r matches Ok(plan)
            && plan.deep_view() == spec_remove_plan(mmc@, instance.uuid@)),
{
    if !is_ftb_instance_linked(ftb_root, instance, alias_target) {
        return Err(LinkError::NotLinked);
    }
    let instance_dir = match &mmc.mmc_instance_path {
        Some(d) => d,
        None => {
            return vstd::pervasive::unreached();
        },
    };
    let dir = path_join(instance_dir.as_str(), instance.uuid.as_str());
    let mut plan: Vec<FsStep> = Vec::new();
    plan.push(FsStep::RemoveDirLink { path: path_join(dir.as_str(), ".minecraft") });
    plan.push(FsStep::RemoveFile { path: path_join(dir.as_str(), "mmc-pack.json") });
    plan.push(FsStep::RemoveFile { path: path_join(dir.as_str(), "instance.cfg") });
    plan.push(FsStep::RemoveDirIfEmpty { path: dir });
    proof {
        assert(plan.deep_view() =~= spec_remove_plan(mmc@, instance.uuid@));
    }
    Ok(plan)
}

} // verus!
