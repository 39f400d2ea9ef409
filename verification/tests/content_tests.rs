use ftblink::{gen_mmc_instance_cfg, gen_mmc_pack_json, FTBInstance, ModLoader};

fn forge_instance() -> FTBInstance {
    FTBInstance {
        uuid: "abc123".to_string(),
        name: "My Pack".to_string(),
        version: "2.1.0".to_string(),
        mc_version: "1.20.1".to_string(),
        mod_loader: ModLoader::Forge("47.2.0".to_string()),
    }
}

fn fabric_instance() -> FTBInstance {
    FTBInstance {
        uuid: "xyz789".to_string(),
        name: "Skies".to_string(),
        version: "0.3.0".to_string(),
        mc_version: "1.19.2".to_string(),
        mod_loader: ModLoader::Fabric("0.14.21".to_string()),
    }
}

#[test]
fn instance_cfg_without_icon() {
    let cfg = gen_mmc_instance_cfg(&forge_instance(), false);
    let expected = "InstanceType=OneSix\n\
        JoinServerOnLaunch=false\n\
        OverrideCommands=false\n\
        OverrideConsole=false\n\
        OverrideGameTime=false\n\
        OverrideJavaArgs=false\n\
        OverrideJavaLocation=false\n\
        OverrideMemory=false\n\
        OverrideNativeWorkarounds=false\n\
        OverrideWindow=false\n\
        iconKey=\n\
        name=My Pack\n\
        notes=\n";
    assert_eq!(cfg, expected);
}

#[test]
fn instance_cfg_with_icon_names_the_copy() {
    let cfg = gen_mmc_instance_cfg(&forge_instance(), true);
    assert!(cfg.contains("iconKey=abc123\n"));
    assert!(cfg.contains("name=My Pack\n"));
    assert!(cfg.ends_with("notes=\n"));
}

#[test]
fn pack_json_forge_component() {
    let text = gen_mmc_pack_json(&forge_instance());
    let doc: serde_json::Value = serde_json::from_str(&text).unwrap();
    assert_eq!(doc.get("formatVersion").unwrap().as_i64(), Some(1));
    let components = doc.get("components").unwrap().as_array().unwrap();
    assert_eq!(components.len(), 2);
    assert_eq!(components[0].get("uid").unwrap().as_str(), Some("net.minecraft"));
    assert_eq!(components[0].get("version").unwrap().as_str(), Some("1.20.1"));
    assert_eq!(components[0].get("cachedVersion").unwrap().as_str(), Some("1.20.1"));
    assert_eq!(components[0].get("important").unwrap().as_bool(), Some(true));
    assert_eq!(
        components[0].get("cachedRequires").unwrap().as_array().unwrap().len(),
        0
    );
    assert_eq!(components[1].get("uid").unwrap().as_str(), Some("net.minecraftforge"));
    assert_eq!(components[1].get("version").unwrap().as_str(), Some("47.2.0"));
    assert_eq!(components[1].get("cachedName").unwrap().as_str(), Some("Forge"));
}

#[test]
fn pack_json_fabric_component() {
    let text = gen_mmc_pack_json(&fabric_instance());
    let doc: serde_json::Value = serde_json::from_str(&text).unwrap();
    let components = doc.get("components").unwrap().as_array().unwrap();
    assert_eq!(
        components[1].get("uid").unwrap().as_str(),
        Some("net.fabricmc.fabric-loader")
    );
    assert_eq!(components[1].get("version").unwrap().as_str(), Some("0.14.21"));
    assert_eq!(components[1].get("cachedName").unwrap().as_str(), Some("Fabric Loader"));
}

#[test]
fn pack_json_escapes_special_characters() {
    let mut inst = forge_instance();
    inst.mc_version = "1.\"20\\1\n\u{1}".to_string();
    let text = gen_mmc_pack_json(&inst);
    let doc: serde_json::Value = serde_json::from_str(&text).unwrap();
    let components = doc.get("components").unwrap().as_array().unwrap();
    assert_eq!(
        components[0].get("version").unwrap().as_str(),
        Some("1.\"20\\1\n\u{1}")
    );
}
