//! Instance link engine: keeps a catalog of self-contained modpack
//! instances launchable from a separate launcher by synthesizing that
//! launcher's per-instance metadata and a directory alias into the
//! catalog's content, and by tearing such links down again.
//!
//! All decisions are made here over plain values; the thin binary around
//! this crate performs the actual filesystem reads and writes and feeds
//! the observations back in.
pub mod content;
pub mod fsmodel;
pub mod hostcfg;
pub mod instance;
pub mod link;
pub mod loader;
pub mod paths;
pub mod strutil;

pub use content::gen_mmc_instance_cfg;
pub use content::gen_mmc_pack_json;
pub use hostcfg::parse_mmc_path;
pub use hostcfg::MmcPaths;
pub use hostcfg::ResolveError;
pub use instance::load_ftb_instances;
pub use instance::FTBInstance;
pub use instance::RawManifest;
pub use link::create_mmc_instance;
pub use link::ftb_icon_path;
pub use link::is_ftb_instance_linked;
pub use link::mmc_alias_path;
pub use link::mmc_instance_folder;
pub use link::remove_mmc_instance;
pub use link::CreateObs;
pub use link::FsStep;
pub use link::LinkError;
pub use loader::ModLoader;
pub use loader::ParseError;
pub use paths::Config;
pub use paths::FTBPath;
pub use paths::MmcPath;
