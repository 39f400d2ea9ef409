use std::collections::{HashMap, HashSet};

use ftblink::{
    create_mmc_instance, ftb_icon_path, is_ftb_instance_linked, mmc_alias_path,
    mmc_instance_folder, parse_mmc_path, remove_mmc_instance, CreateObs, FTBInstance, FsStep,
    LinkError, MmcPaths, ModLoader,
};

/// The slice of a filesystem the link engine touches, in memory: which
/// paths are directories, what each file holds, and where each directory
/// alias points.
#[derive(Clone, PartialEq, Eq, Debug)]
struct MiniFs {
    dirs: HashSet<String>,
    files: HashMap<String, String>,
    links: HashMap<String, String>,
}

impl MiniFs {
    fn new() -> Self {
        MiniFs { dirs: HashSet::new(), files: HashMap::new(), links: HashMap::new() }
    }

    fn apply(&mut self, step: &FsStep) {
        match step {
            FsStep::CreateDir { path } => {
                self.dirs.insert(path.clone());
            }
            FsStep::WriteFile { path, content } => {
                self.files.insert(path.clone(), content.clone());
            }
            FsStep::CopyFile { from, to } => {
                if let Some(content) = self.files.get(from).cloned() {
                    self.files.insert(to.clone(), content);
                }
            }
            FsStep::CreateDirLink { path, target } => {
                self.links.insert(path.clone(), target.clone());
            }
            FsStep::RemoveDirLink { path } => {
                self.links.remove(path);
            }
            FsStep::RemoveFile { path } => {
                self.files.remove(path);
            }
            FsStep::RemoveDirIfEmpty { path } => {
                self.dirs.remove(path);
            }
        }
    }

    fn apply_all(&mut self, steps: &[FsStep]) {
        for step in steps {
            self.apply(step);
        }
    }

    fn read_alias(&self, path: &str) -> Option<String> {
        self.links.get(path).cloned()
    }

    fn observe(&self, mmc: &MmcPaths, ftb_root: &str, inst: &FTBInstance) -> CreateObs {
        let folder = mmc_instance_folder(mmc, inst).unwrap();
        let icon = ftb_icon_path(ftb_root, inst);
        CreateObs {
            instance_folder_exists: self.dirs.contains(&folder),
            icon_exists: self.files.contains_key(&icon),
        }
    }
}

fn host_paths() -> MmcPaths {
    parse_mmc_path(Some("/h"), Some("InstanceDir=instances\nIconsDir=icons\n")).unwrap()
}

fn forge_instance() -> FTBInstance {
    FTBInstance {
        uuid: "abc123".to_string(),
        name: "My Pack".to_string(),
        version: "2.1.0".to_string(),
        mc_version: "1.20.1".to_string(),
        mod_loader: ModLoader::Forge("47.2.0".to_string()),
    }
}

fn alias_target_of(fs: &MiniFs, mmc: &MmcPaths, inst: &FTBInstance) -> Option<String> {
    let alias = mmc_alias_path(mmc, inst).unwrap();
    fs.read_alias(&alias)
}

#[test]
fn not_linked_without_instance_folder() {
    let fs = MiniFs::new();
    let mmc = host_paths();
    let inst = forge_instance();
    let target = alias_target_of(&fs, &mmc, &inst);
    assert!(!is_ftb_instance_linked("/ftb", &inst, target.as_deref()));
}

#[test]
fn not_linked_when_alias_points_elsewhere() {
    let mut fs = MiniFs::new();
    let mmc = host_paths();
    let inst = forge_instance();
    let alias = mmc_alias_path(&mmc, &inst).unwrap();
    fs.links.insert(alias, "/somewhere/else".to_string());
    let target = alias_target_of(&fs, &mmc, &inst);
    assert!(!is_ftb_instance_linked("/ftb", &inst, target.as_deref()));
}

#[test]
fn linked_when_alias_matches_catalog_folder() {
    let mut fs = MiniFs::new();
    let mmc = host_paths();
    let inst = forge_instance();
    let alias = mmc_alias_path(&mmc, &inst).unwrap();
    fs.links.insert(alias, "/ftb/abc123".to_string());
    let target = alias_target_of(&fs, &mmc, &inst);
    assert!(is_ftb_instance_linked("/ftb", &inst, target.as_deref()));
}

#[test]
fn create_then_linked_then_remove_then_unlinked() {
    let mut fs = MiniFs::new();
    let mmc = host_paths();
    let inst = forge_instance();

    let obs = fs.observe(&mmc, "/ftb", &inst);
    let plan = create_mmc_instance(&mmc, "/ftb", &inst, &obs).unwrap();
    fs.apply_all(&plan);

    let target = alias_target_of(&fs, &mmc, &inst);
    assert!(is_ftb_instance_linked("/ftb", &inst, target.as_deref()));

    let plan = remove_mmc_instance(&mmc, "/ftb", &inst, target.as_deref()).unwrap();
    fs.apply_all(&plan);

    let target = alias_target_of(&fs, &mmc, &inst);
    assert!(!is_ftb_instance_linked("/ftb", &inst, target.as_deref()));
}

#[test]
fn second_create_is_refused_and_state_unchanged() {
    let mut fs = MiniFs::new();
    let mmc = host_paths();
    let inst = forge_instance();

    let obs = fs.observe(&mmc, "/ftb", &inst);
    let plan = create_mmc_instance(&mmc, "/ftb", &inst, &obs).unwrap();
    fs.apply_all(&plan);
    let after_first = fs.clone();

    let obs2 = fs.observe(&mmc, "/ftb", &inst);
    assert!(obs2.instance_folder_exists);
    let second = create_mmc_instance(&mmc, "/ftb", &inst, &obs2);
    assert!(matches!(second, Err(LinkError::AlreadyLinked)));
    assert_eq!(fs, after_first);
}

#[test]
fn remove_when_never_linked_is_refused_and_touches_nothing() {
    let mut fs = MiniFs::new();
    fs.files
        .insert("/unrelated.txt".to_string(), "keep".to_string());
    let before = fs.clone();
    let mmc = host_paths();
    let inst = forge_instance();

    let target = alias_target_of(&fs, &mmc, &inst);
    let r = remove_mmc_instance(&mmc, "/ftb", &inst, target.as_deref());
    assert!(matches!(r, Err(LinkError::NotLinked)));
    assert_eq!(fs, before);
}

#[test]
fn create_copies_icon_when_catalog_has_one() {
    let mut fs = MiniFs::new();
    fs.files.insert(
        "/ftb/abc123/folder.jpg".to_string(),
        "jpegbytes".to_string(),
    );
    let mmc = host_paths();
    let inst = forge_instance();

    let obs = fs.observe(&mmc, "/ftb", &inst);
    assert!(obs.icon_exists);
    let plan = create_mmc_instance(&mmc, "/ftb", &inst, &obs).unwrap();
    fs.apply_all(&plan);

    assert_eq!(fs.files.get("/h/icons/abc123.jpg").map(String::as_str), Some("jpegbytes"));
    let cfg = fs.files.get("/h/instances/abc123/instance.cfg").unwrap();
    assert!(cfg.contains("iconKey=abc123\n"));
}

#[test]
fn full_scenario_writes_forge_pack_descriptor() {
    let mut fs = MiniFs::new();
    let mmc = parse_mmc_path(Some("/h"), Some("InstanceDir=instances\nIconsDir=icons\n")).unwrap();
    let inst = forge_instance();

    let obs = fs.observe(&mmc, "/ftb", &inst);
    let plan = create_mmc_instance(&mmc, "/ftb", &inst, &obs).unwrap();
    fs.apply_all(&plan);

    assert!(fs.dirs.contains("/h/instances/abc123"));
    assert_eq!(
        fs.read_alias("/h/instances/abc123/.minecraft").as_deref(),
        Some("/ftb/abc123")
    );
    let text = fs.files.get("/h/instances/abc123/mmc-pack.json").unwrap();
    let doc: serde_json::Value = serde_json::from_str(text).unwrap();
    let components = doc.get("components").unwrap().as_array().unwrap();
    assert_eq!(components[1].get("uid").unwrap().as_str(), Some("net.minecraftforge"));
    assert_eq!(components[1].get("version").unwrap().as_str(), Some("47.2.0"));
}
