use ftblink::{Config, FTBPath, MmcPath};

#[test]
fn mmc_path_keeps_existing_path() {
    let p = MmcPath::new("/h", true);
    assert_eq!(p.get_validated_path().as_deref(), Some("/h"));
}

#[test]
fn mmc_path_drops_missing_path() {
    let p = MmcPath::new("/nowhere", false);
    assert_eq!(p.get_validated_path(), None);
}

#[test]
fn ftb_path_keeps_existing_path() {
    let p = FTBPath::new("/ftb", true);
    assert_eq!(p.get_validated_path().as_deref(), Some("/ftb"));
}

#[test]
fn ftb_path_drops_missing_path() {
    let p = FTBPath::new("/nowhere", false);
    assert_eq!(p.get_validated_path(), None);
}

#[test]
fn config_carries_both_roots() {
    let config = Config { mmc: MmcPath::new("/h", true), ftb: FTBPath::new("/ftb", true) };
    assert_eq!(config.mmc.get_validated_path().as_deref(), Some("/h"));
    assert_eq!(config.ftb.get_validated_path().as_deref(), Some("/ftb"));
}
