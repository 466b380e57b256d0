use bspinfo::BspInfo;

/// Builds a minimal version-29 level file whose only content is the given
/// entities text: version word, the fifteen header entries, an empty
/// texture directory, then the entities lump.
fn bsp_bytes(entities_text: &str) -> Vec<u8> {
    let text = entities_text.as_bytes();
    let mut out: Vec<u8> = vec![29, 0, 0, 0];
    let entries: [(u32, u32); 15] = [
        (128, text.len() as u32), // entities
        (0, 0),                   // planes
        (124, 0),                 // textures (empty directory at 124)
        (0, 0),                   // vertices
        (0, 0),                   // visibility
        (0, 0),                   // nodes
        (0, 0),                   // texture info
        (0, 0),                   // faces
        (0, 0),                   // lightmaps
        (0, 0),                   // clipnodes
        (0, 0),                   // leaves
        (0, 0),                   // face list
        (0, 0),                   // edges
        (0, 0),                   // edge list
        (0, 0),                   // models
    ];
    for (offset, size) in entries {
        out.extend_from_slice(&offset.to_le_bytes());
        out.extend_from_slice(&size.to_le_bytes());
    }
    out.extend_from_slice(&0i32.to_le_bytes());
    out.extend_from_slice(text);
    out
}

const ARENA_ENTITIES: &str = "{\n\
\"classname\" \"worldspawn\"\n\
\"message\" \"Arena One\"\n\
}\n\
{\n\
\"classname\" \"info_player_deathmatch\"\n\
}\n\
{\n\
\"classname\" \"info_player_deathmatch\"\n\
}\n\
{\n\
\"classname\" \"info_player_deathmatch\"\n\
}\n\
{\n\
\"classname\" \"info_player_deathmatch\"\n\
}\n\
{\n\
\"classname\" \"info_player_start\"\n\
}\n";

#[test]
fn test_from_bytes_minimal_level() {
    let bytes = bsp_bytes(ARENA_ENTITIES);
    let info = BspInfo::from_bytes(&bytes).unwrap();
    assert_eq!(info.message, "Arena One");
    assert_eq!(info.size, bytes.len() as u32);
    assert_eq!(info.category, "Arena");
    assert_eq!(info.entity_count.spawns.deathmatch, 4);
    assert_eq!(info.entity_count.spawns.start, 1);
    assert!(info.race_routes.is_empty());
    assert!(info.intermissions.is_empty());
}

#[test]
fn test_from_bytes_spawnflags_and_routes() {
    let text = "{\n\
\"classname\" \"worldspawn\"\n\
\"message\" \"anubis in hurry\"\n\
}\n\
{\n\
\"classname\" \"info_player_deathmatch\"\n\
}\n\
{\n\
\"classname\" \"item_shells\"\n\
}\n\
{\n\
\"classname\" \"item_shells\"\n\
\"spawnflags\" \"1\"\n\
}\n\
{\n\
\"classname\" \"race_route_start\"\n\
\"race_route_name\" \"anubis in hurry\"\n\
\"race_route_description\" \"Start > Finish\"\n\
}\n";
    let bytes = bsp_bytes(text);
    let info = BspInfo::from_bytes(&bytes).unwrap();
    assert_eq!(info.entity_count.ammo.shells_small, 1);
    assert_eq!(info.entity_count.ammo.shells_large, 1);
    assert_eq!(info.race_routes.len(), 1);
    assert_eq!(info.race_routes[0].name, "anubis in hurry");
    assert_eq!(info.race_routes[0].description, "Start > Finish");
}

#[test]
fn classification_is_deterministic() {
    let bytes = bsp_bytes(ARENA_ENTITIES);
    let a = BspInfo::from_bytes(&bytes).unwrap();
    let b = BspInfo::from_bytes(&bytes).unwrap();
    assert_eq!(a, b);
}

#[test]
fn invalid_bytes_are_a_decode_error() {
    let r = BspInfo::from_bytes(&[1, 2, 3, 4, 5]);
    assert!(r.is_err());
}

#[test]
fn decode_errors_are_deterministic() {
    let bad = [29, 0, 0, 0, 7, 7, 7];
    let a = BspInfo::from_bytes(&bad).unwrap_err();
    let b = BspInfo::from_bytes(&bad).unwrap_err();
    assert_eq!(a.detail, b.detail);
    assert!(!a.detail.is_empty());
}

#[test]
fn hostile_texture_directory_does_not_abort() {
    // A texture whose stored offsets are at the top of the u32 range must
    // not disturb the classification (and in particular must not panic the
    // decoder); only the entities lump matters for the census.
    let text = "{\n\"classname\" \"worldspawn\"\n\"message\" \"hi\"\n}\n";
    let mut out: Vec<u8> = vec![29, 0, 0, 0];
    let entries: [(u32, u32); 15] = [
        (172, text.len() as u32), // entities
        (0, 0),                   // planes
        (124, 0),                 // textures (directory at 124)
        (0, 0),                   // vertices
        (0, 0),                   // visibility
        (0, 0),                   // nodes
        (0, 0),                   // texture info
        (0, 0),                   // faces
        (0, 0),                   // lightmaps
        (0, 0),                   // clipnodes
        (0, 0),                   // leaves
        (0, 0),                   // face list
        (0, 0),                   // edges
        (0, 0),                   // edge list
        (0, 0),                   // models
    ];
    for (offset, size) in entries {
        out.extend_from_slice(&offset.to_le_bytes());
        out.extend_from_slice(&size.to_le_bytes());
    }
    out.extend_from_slice(&1i32.to_le_bytes()); // one texture
    out.extend_from_slice(&8i32.to_le_bytes()); // at 124 + 8 = 132
    out.extend_from_slice(&[0u8; 16]); // name
    out.extend_from_slice(&0i32.to_le_bytes()); // width
    out.extend_from_slice(&0i32.to_le_bytes()); // height
    for _ in 0..4 {
        out.extend_from_slice(&u32::MAX.to_le_bytes()); // image offsets
    }
    assert_eq!(out.len(), 172);
    out.extend_from_slice(text.as_bytes());
    let info = BspInfo::from_bytes(&out).unwrap();
    assert_eq!(info.message, "hi");
}

#[test]
fn empty_input_is_a_decode_error() {
    let r = BspInfo::from_bytes(&[]);
    assert!(r.is_err());
}
