use ftblink::{load_ftb_instances, FTBInstance, ModLoader, RawManifest};

fn manifest(uuid: &str, name: &str, mod_loader: &str) -> RawManifest {
    RawManifest {
        uuid: uuid.to_string(),
        name: name.to_string(),
        version: "1.0.0".to_string(),
        mc_version: "1.20.1".to_string(),
        mod_loader: mod_loader.to_string(),
    }
}

#[test]
fn enumerate_skips_unrecognized_loader() {
    let manifests = vec![
        manifest("aaa", "Good Pack", "1.20.1-forge-47.2.0"),
        manifest("bbb", "Bad Pack", "mystery-loader-1.0"),
    ];
    let instances = load_ftb_instances(&manifests);
    assert_eq!(instances.len(), 1);
    assert_eq!(instances[0].uuid, "aaa");
    assert_eq!(instances[0].name, "Good Pack");
    assert!(matches!(&instances[0].mod_loader, ModLoader::Forge(v) if v == "47.2.0"));
}

#[test]
fn enumerate_keeps_order_and_fields() {
    let manifests = vec![
        manifest("id1", "One", "fabric-loader-1.20.1-0.15.7"),
        manifest("id2", "Two", "1.19.2-forge-43.3.0"),
    ];
    let instances = load_ftb_instances(&manifests);
    assert_eq!(instances.len(), 2);
    assert_eq!(instances[0].uuid, "id1");
    assert_eq!(instances[0].version, "1.0.0");
    assert_eq!(instances[0].mc_version, "1.20.1");
    assert!(matches!(&instances[0].mod_loader, ModLoader::Fabric(v) if v == "0.15.7"));
    assert_eq!(instances[1].uuid, "id2");
    assert!(matches!(&instances[1].mod_loader, ModLoader::Forge(v) if v == "43.3.0"));
}

#[test]
fn enumerate_empty_input_yields_empty() {
    let instances = load_ftb_instances(&vec![]);
    assert!(instances.is_empty());
}

#[test]
fn display_name_shows_leading_uuid_segment() {
    let inst = FTBInstance {
        uuid: "abc123-def456-gh".to_string(),
        name: "My Pack".to_string(),
        version: "1.0.0".to_string(),
        mc_version: "1.20.1".to_string(),
        mod_loader: ModLoader::Forge("47.2.0".to_string()),
    };
    assert_eq!(inst.display_name(), "My Pack [abc123...]");
}

#[test]
fn display_name_without_dash_uses_whole_uuid() {
    let inst = FTBInstance {
        uuid: "abc123".to_string(),
        name: "P".to_string(),
        version: "1".to_string(),
        mc_version: "1.20.1".to_string(),
        mod_loader: ModLoader::Fabric("0.15.7".to_string()),
    };
    assert_eq!(inst.display_name(), "P [abc123...]");
}
