use ftblink::{ModLoader, ParseError};

#[test]
fn parse_fabric_shape() {
    let r = ModLoader::parse("fabric-loader-1.20.1-0.15.7");
    match r {
        Ok(ModLoader::Fabric(v)) => assert_eq!(v, "0.15.7"),
        other => panic!("expected Fabric, got {:?}", other),
    }
}

#[test]
fn parse_forge_shape() {
    let r = ModLoader::parse("1.20.1-forge-47.2.0");
    match r {
        Ok(ModLoader::Forge(v)) => assert_eq!(v, "47.2.0"),
        other => panic!("expected Forge, got {:?}", other),
    }
}

#[test]
fn parse_prefers_fabric_even_if_forge_occurs() {
    // the fabric prefix is checked first, so a fabric string mentioning
    // forge elsewhere still parses as Fabric
    let r = ModLoader::parse("fabric-loader-forge-9");
    match r {
        Ok(ModLoader::Fabric(v)) => assert_eq!(v, "9"),
        other => panic!("expected Fabric, got {:?}", other),
    }
}

#[test]
fn parse_bare_fabric_prefix_takes_last_segment() {
    let r = ModLoader::parse("fabric-loader");
    match r {
        Ok(ModLoader::Fabric(v)) => assert_eq!(v, "loader"),
        other => panic!("expected Fabric, got {:?}", other),
    }
}

#[test]
fn parse_unknown_loader_is_rejected() {
    let r = ModLoader::parse("quilt-loader-1.20.1-5");
    match r {
        Err(ParseError::UnknownLoader(s)) => assert_eq!(s, "quilt-loader-1.20.1-5"),
        other => panic!("expected UnknownLoader, got {:?}", other),
    }
}

#[test]
fn parse_empty_string_is_rejected() {
    assert!(matches!(
        ModLoader::parse(""),
        Err(ParseError::UnknownLoader(_))
    ));
}

#[test]
fn parse_forge_without_dashes() {
    // "forge" occurs, and with no separator the whole string is the version
    let r = ModLoader::parse("forge");
    match r {
        Ok(ModLoader::Forge(v)) => assert_eq!(v, "forge"),
        other => panic!("expected Forge, got {:?}", other),
    }
}
