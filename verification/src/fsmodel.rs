//! A ghost model of the slice of filesystem state the link engine cares
//! about — directories, file contents, and directory aliases by path —
//! together with the effect of each plan step on it. The round-trip laws
//! of the engine are proved against this model: a create plan leaves the
//! instance linked, a remove plan leaves it unlinked, and a create plan
//! leaves the folder present so that a second create is refused.
use vstd::prelude::*;

use crate::hostcfg::MmcPathsModel;
use crate::link::{
    spec_alias_path, spec_create_plan, spec_instance_folder, spec_link_target, spec_linked,
    spec_remove_plan, CreateObs, StepModel,
};

verus! {

/// The observable filesystem state: which paths are directories, what
/// text each file holds, and where each directory alias points.
pub ghost struct FsModel {
    pub dirs: Set<Seq<char>>,
    pub files: Map<Seq<char>, Seq<char>>,
    pub links: Map<Seq<char>, Seq<char>>,
}

/// The effect of one successfully executed plan step.
pub open spec fn apply_step(fs: FsModel, step: StepModel) -> FsModel {
    match step {
        StepModel::CreateDir { path } => FsModel { dirs: fs.dirs.insert(path), ..fs },
        StepModel::WriteFile { path, content } => FsModel {
            files: fs.files.insert(path, content),
            ..fs
        },
        StepModel::CopyFile { from, to } => if fs.files.contains_key(from) {
            FsModel { files: fs.files.insert(to, fs.files[from]), ..fs }
        } else {
            fs
        },
        StepModel::CreateDirLink { path, target } => FsModel {
            links: fs.links.insert(path, target),
            ..fs
        },
        StepModel::RemoveDirLink { path } => FsModel { links: fs.links.remove(path), ..fs },
        StepModel::RemoveFile { path } => FsModel { files: fs.files.remove(path), ..fs },
        StepModel::RemoveDirIfEmpty { path } => FsModel { dirs: fs.dirs.remove(path), ..fs },
    }
}

/// The effect of a whole plan, executed front to back.
pub open spec fn apply_plan(fs: FsModel, plan: Seq<StepModel>) -> FsModel
    decreases plan.len(),
{
    if plan.len() == 0 {
        fs
    } else {
        apply_plan(apply_step(fs, plan.first()), plan.drop_first())
    }
}

/// What reading the alias at `path` observes: its target, or `None` when
/// no alias is there.
pub open spec fn observed_target(fs: FsModel, path: Seq<char>) -> Option<Seq<char>> {
    if fs.links.contains_key(path) {
        Some(fs.links[path])
    } else {
        None
    }
}

/// The instance is linked in `fs`: the launcher's instance directory is
/// configured and the alias there resolves to the instance's catalog
/// folder.
pub open spec fn spec_is_linked_in(
    fs: FsModel,
    mmc: MmcPathsModel,
    ftb_root: Seq<char>,
    uuid: Seq<char>,
) -> bool {
    mmc.instance_dir is Some && spec_linked(
        ftb_root,
        uuid,
        observed_target(fs, spec_alias_path(mmc.instance_dir->0, uuid)),
    )
}

/// A caller's observation agrees with the state: the folder-exists flag
/// reflects the instance folder, and the icon flag reflects the catalog's
/// icon file.
pub open spec fn obs_consistent(
    fs: FsModel,
    mmc: MmcPathsModel,
    ftb_root: Seq<char>,
    uuid: Seq<char>,
    obs: CreateObs,
) -> bool {
    &&& obs.instance_folder_exists == fs.dirs.contains(
        spec_instance_folder(mmc.instance_dir->0, uuid),
    )
    &&& obs.icon_exists == fs.files.contains_key(
        crate::paths::join_path(spec_link_target(ftb_root, uuid), "folder.jpg"@),
    )
}

proof fn lemma_apply_plan_last(fs: FsModel, plan: Seq<StepModel>)
    requires
        plan.len() > 0,
    ensures
        apply_plan(fs, plan) == apply_step(apply_plan(fs, plan.drop_last()), plan.last()),
    decreases plan.len(),
{
    if plan.len() == 1 {
        let fs1 = apply_step(fs, plan.first());
        assert(plan.drop_last() =~= Seq::<StepModel>::empty());
        assert(plan.drop_first() =~= Seq::<StepModel>::empty());
        assert(apply_plan(fs1, plan.drop_first()) == fs1);
        assert(apply_plan(fs, plan.drop_last()) == fs);
        assert(plan.first() == plan.last());
    } else {
        let fs1 = apply_step(fs, plan.first());
        lemma_apply_plan_last(fs1, plan.drop_first());
        assert(plan.drop_first().drop_last() =~= plan.drop_last().drop_first());
        assert(plan.drop_first().last() == plan.last());
        assert(plan.drop_last().first() == plan.first());
        assert(plan.drop_last().len() > 0);
        assert(apply_plan(fs, plan.drop_last()) == apply_plan(fs1, plan.drop_last().drop_first()));
        assert(apply_plan(fs, plan) == apply_plan(fs1, plan.drop_first()));
        assert(plan.drop_first().drop_last() == plan.drop_last().drop_first());
        assert(apply_plan(fs1, plan.drop_first().drop_last()) == apply_plan(fs, plan.drop_last()));
        assert(apply_plan(fs1, plan.drop_first()) == apply_step(
            apply_plan(fs1, plan.drop_first().drop_last()),
            plan.drop_first().last(),
        ));
    }
}

/// Round trip, creating side: running a create plan leaves the instance
/// linked — its alias exists and resolves to the instance's catalog
/// folder — whatever state the plan started from.
pub proof fn lemma_create_then_linked(
    fs: FsModel,
    mmc: MmcPathsModel,
    ftb_root: Seq<char>,
    uuid: Seq<char>,
    name: Seq<char>,
    pack_json: Seq<char>,
    has_icon: bool,
)
    requires
        mmc.instance_dir is Some,
    ensures
        spec_is_linked_in(
            apply_plan(fs, spec_create_plan(mmc, ftb_root, uuid, name, pack_json, has_icon)),
            mmc,
            ftb_root,
            uuid,
        ),
{
    let plan = spec_create_plan(mmc, ftb_root, uuid, name, pack_json, has_icon);
    lemma_apply_plan_last(fs, plan);
    assert(plan.last() == StepModel::CreateDirLink {
        path: spec_alias_path(mmc.instance_dir->0, uuid),
        target: spec_link_target(ftb_root, uuid),
    });
}

/// Round trip, removing side: running a remove plan leaves the instance
/// unlinked and both synthesized metadata files deleted, whatever state
/// the plan started from — the alias is removed first and no later step
/// creates one.
pub proof fn lemma_remove_then_unlinked(
    fs: FsModel,
    mmc: MmcPathsModel,
    ftb_root: Seq<char>,
    uuid: Seq<char>,
)
    requires
        mmc.instance_dir is Some,
    ensures
        !spec_is_linked_in(apply_plan(fs, spec_remove_plan(mmc, uuid)), mmc, ftb_root, uuid),
        !apply_plan(fs, spec_remove_plan(mmc, uuid)).files.contains_key(
            crate::paths::join_path(
                spec_instance_folder(mmc.instance_dir->0, uuid),
                "mmc-pack.json"@,
            ),
        ),
        !apply_plan(fs, spec_remove_plan(mmc, uuid)).files.contains_key(
            crate::paths::join_path(
                spec_instance_folder(mmc.instance_dir->0, uuid),
                "instance.cfg"@,
            ),
        ),
{
    let plan = spec_remove_plan(mmc, uuid);
    let alias = spec_alias_path(mmc.instance_dir->0, uuid);
    let fs1 = apply_step(fs, plan[0]);
    let fs2 = apply_step(fs1, plan[1]);
    let fs3 = apply_step(fs2, plan[2]);
    let fs4 = apply_step(fs3, plan[3]);
    let t1 = plan.drop_first();
    let t2 = t1.drop_first();
    let t3 = t2.drop_first();
    assert(plan.first() == plan[0]);
    assert(apply_plan(fs, plan) == apply_plan(fs1, t1));
    assert(t1.first() == plan[1]);
    assert(apply_plan(fs1, t1) == apply_plan(fs2, t2));
    assert(t2.first() == plan[2]);
    assert(apply_plan(fs2, t2) == apply_plan(fs3, t3));
    assert(t3.first() == plan[3]);
    assert(t3.drop_first() =~= Seq::<StepModel>::empty());
    assert(apply_plan(fs3, t3) == apply_plan(fs4, t3.drop_first()));
    assert(apply_plan(fs4, t3.drop_first()) == fs4);
    assert(!fs4.links.contains_key(alias));
}

/// Idempotence guard: after a create plan has run, the instance folder
/// exists, so any honest observation of the new state reports it — and
/// the create planner, handed such an observation, refuses with
/// `AlreadyLinked` and plans no step, leaving the state exactly as the
/// first create left it.
pub proof fn lemma_create_guard_holds_after_create(
    fs: FsModel,
    mmc: MmcPathsModel,
    ftb_root: Seq<char>,
    uuid: Seq<char>,
    name: Seq<char>,
    pack_json: Seq<char>,
    has_icon: bool,
    obs2: CreateObs,
)
    requires
        mmc.instance_dir is Some,
        obs_consistent(
            apply_plan(fs, spec_create_plan(mmc, ftb_root, uuid, name, pack_json, has_icon)),
            mmc,
            ftb_root,
            uuid,
            obs2,
        ),
    ensures
        obs2.instance_folder_exists,
{
    let plan = spec_create_plan(mmc, ftb_root, uuid, name, pack_json, has_icon);
    let dir = spec_instance_folder(mmc.instance_dir->0, uuid);
    let fs1 = apply_step(fs, plan[0]);
    assert(fs1.dirs.contains(dir));
    lemma_plan_preserves_dirs(fs1, plan.drop_first(), dir);
    assert(apply_plan(fs, plan) == apply_plan(fs1, plan.drop_first()));
}

/// No step of a create plan's tail removes a directory, so a directory
/// present before the tail runs is present after it.
proof fn lemma_plan_preserves_dirs(fs: FsModel, plan: Seq<StepModel>, dir: Seq<char>)
    requires
        fs.dirs.contains(dir),
        forall|i: int| 0 <= i < plan.len() ==> !(plan[i] is RemoveDirIfEmpty),
    ensures
        apply_plan(fs, plan).dirs.contains(dir),
    decreases plan.len(),
{
    if plan.len() > 0 {
        let fs1 = apply_step(fs, plan.first());
        assert(fs1.dirs.contains(dir));
        lemma_plan_preserves_dirs(fs1, plan.drop_first(), dir);
    }
}

} // verus!
