use bspinfo::{get_category, BspInfo, EntityRecord};

fn rec(pairs: &[(&str, &str)]) -> EntityRecord {
    let mut r = EntityRecord::new();
    for (k, v) in pairs {
        r.insert(k, v);
    }
    r
}

fn class(name: &str) -> EntityRecord {
    rec(&[("classname", name)])
}

#[test]
fn team_spawns_mean_capture_the_flag() {
    let records = vec![class("info_player_team1"), class("weapon_nailgun")];
    let info = BspInfo::from_records(&records, 0);
    assert_eq!(info.category, "Capture the Flag");
}

#[test]
fn team_flags_mean_capture_the_flag() {
    let records = vec![class("item_flag_team2")];
    let info = BspInfo::from_records(&records, 0);
    assert_eq!(info.category, "Capture the Flag");
}

#[test]
fn tf_goal_means_team_fortress() {
    let records = vec![class("item_tfgoal"), class("weapon_nailgun")];
    let info = BspInfo::from_records(&records, 0);
    assert_eq!(info.category, "Team Fortress");
}

#[test]
fn trick_by_message_text() {
    let records = vec![
        rec(&[("classname", "worldspawn"), ("message", "A neat Trick map")]),
        class("info_player_deathmatch"),
        class("weapon_nailgun"),
        class("info_player_deathmatch"),
    ];
    let info = BspInfo::from_records(&records, 0);
    assert_eq!(info.category, "Trick");
}

#[test]
fn trick_by_structure() {
    // No ammo, armor, or weapon anywhere, and at least as many teleport
    // triggers as deathmatch spawns.
    let records = vec![
        class("info_player_deathmatch"),
        class("trigger_teleport"),
        class("trigger_teleport"),
    ];
    let info = BspInfo::from_records(&records, 0);
    assert_eq!(info.category, "Trick");
}

#[test]
fn empty_record_set_is_trick() {
    // With nothing counted, the structural arm of the Trick rule holds
    // vacuously: no deathmatch pickups, and zero teleports >= zero spawns.
    let info = BspInfo::from_records(&Vec::new(), 0);
    assert_eq!(info.category, "Trick");
    assert_eq!(info.message, "");
    assert_eq!(info.size, 0);
}

#[test]
fn deathmatch_needs_more_than_one_spawn() {
    // One deathmatch spawn with a weapon: rule 5 is off (weapons non-zero),
    // rule 6 needs more than one spawn, so the fallback fires.
    let one = vec![
        class("info_player_deathmatch"),
        class("weapon_supershotgun"),
        class("item_shells"),
    ];
    let info = BspInfo::from_records(&one, 0);
    assert_eq!(info.category, "Other");

    let two = vec![
        class("info_player_deathmatch"),
        class("info_player_deathmatch"),
        class("weapon_supershotgun"),
        class("item_shells"),
    ];
    let info = BspInfo::from_records(&two, 0);
    assert_eq!(info.category, "Deathmatch");
}

#[test]
fn arena_needs_no_routes_and_no_points() {
    let arena = vec![
        class("info_player_deathmatch"),
        class("item_armor2"),
        class("item_armor2"),
    ];
    let info = BspInfo::from_records(&arena, 0);
    assert_eq!(info.category, "Arena");

    let race = vec![
        class("info_player_deathmatch"),
        class("item_armor2"),
        class("point_start"),
    ];
    let info = BspInfo::from_records(&race, 0);
    assert_eq!(info.category, "Race");
}

#[test]
fn get_category_reads_census_not_label() {
    let mut info = BspInfo::default();
    info.entity_count.monsters.ogre = 2;
    info.entity_count.triggers.changelevel = 1;
    info.category = "Other".to_string();
    assert_eq!(get_category(&info), "Single Player");
}

#[test]
fn counter_totals() {
    let mut info = BspInfo::default();
    info.entity_count.ammo.shells_small = 1;
    info.entity_count.ammo.shells_large = 2;
    info.entity_count.ammo.nails_small = 3;
    info.entity_count.ammo.nails_large = 4;
    info.entity_count.ammo.rockets_small = 5;
    info.entity_count.ammo.rockets_large = 6;
    info.entity_count.ammo.cells_small = 7;
    info.entity_count.ammo.cells_large = 8;
    assert_eq!(info.entity_count.ammo.count(), 36);
    assert!(!info.entity_count.ammo.is_empty());

    info.entity_count.armors.green_armor = 1;
    info.entity_count.armors.yellow_armor = 2;
    info.entity_count.armors.red_armor = 3;
    assert_eq!(info.entity_count.armors.count(), 6);
    assert!(!info.entity_count.armors.is_empty());

    info.entity_count.healthpacks.health_small = 4;
    info.entity_count.healthpacks.health_large = 3;
    info.entity_count.healthpacks.megahealth = 3;
    assert_eq!(info.entity_count.healthpacks.count(), 10);
    assert!(!info.entity_count.healthpacks.is_empty());

    info.entity_count.powerups.biosuit = 1;
    info.entity_count.powerups.quad = 1;
    info.entity_count.powerups.pent = 1;
    info.entity_count.powerups.ring = 2;
    assert_eq!(info.entity_count.powerups.count(), 5);
    assert!(!info.entity_count.powerups.is_empty());

    info.entity_count.points.zip = 2;
    info.entity_count.points.start = 3;
    assert_eq!(info.entity_count.points.count(), 5);
    assert!(!info.entity_count.points.is_empty());

    info.entity_count.weapons.super_shotgun = 1;
    info.entity_count.weapons.nailgun = 2;
    info.entity_count.weapons.super_nailgun = 3;
    info.entity_count.weapons.grenade_launcher = 4;
    info.entity_count.weapons.rocket_launcher = 5;
    info.entity_count.weapons.ligthning_gun = 6;
    assert_eq!(info.entity_count.weapons.count(), 21);
    assert!(!info.entity_count.weapons.is_empty());

    info.entity_count.monsters.knight = 7;
    assert_eq!(info.entity_count.monsters.count(), 7);
    assert!(!info.entity_count.monsters.is_empty());
}

#[test]
fn default_census_is_empty() {
    let e = bspinfo::EntityCount::default();
    assert_eq!(e.ammo.count(), 0);
    assert!(e.ammo.is_empty());
    assert!(e.armors.is_empty());
    assert!(e.healthpacks.is_empty());
    assert!(e.monsters.is_empty());
    assert!(e.powerups.is_empty());
    assert!(e.points.is_empty());
    assert!(e.weapons.is_empty());
    let info = BspInfo::default();
    assert_eq!(info.message, "");
    assert_eq!(info.size, 0);
    assert_eq!(info.category, "");
    assert!(info.race_routes.is_empty());
    assert!(info.intermissions.is_empty());
}

#[test]
fn record_insert_replaces_existing_field() {
    let mut r = rec(&[("classname", "item_health"), ("spawnflags", "1")]);
    r.insert("spawnflags", "2");
    assert_eq!(r.get("spawnflags").map(|s| s.as_str()), Some("2"));
    let records = vec![r];
    let e = BspInfo::from_records(&records, 0).entity_count;
    assert_eq!(e.healthpacks.health_large, 0);
    assert_eq!(e.healthpacks.megahealth, 1);
}

#[test]
fn record_lookup() {
    let r = rec(&[("classname", "worldspawn"), ("message", "hi")]);
    assert_eq!(r.get("classname").map(|s| s.as_str()), Some("worldspawn"));
    assert_eq!(r.get("message").map(|s| s.as_str()), Some("hi"));
    assert_eq!(r.get("spawnflags"), None);
    assert_eq!(bspinfo::get_string_value(&r, "message"), "hi");
    assert_eq!(bspinfo::get_string_value(&r, "wad"), "");
}
