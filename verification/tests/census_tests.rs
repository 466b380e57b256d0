use bspinfo::{BspInfo, EntityCount, EntityRecord};

fn rec(pairs: &[(&str, &str)]) -> EntityRecord {
    let mut r = EntityRecord::new();
    for (k, v) in pairs {
        r.insert(k, v);
    }
    r
}

fn class(name: &str) -> EntityRecord {
    rec(&[("classname", name)])
}

#[test]
fn worldspawn_message_and_counters() {
    let records = vec![
        rec(&[("classname", "worldspawn"), ("message", "Arena One")]),
        class("info_player_deathmatch"),
        class("info_player_deathmatch"),
        class("info_player_deathmatch"),
        class("info_player_deathmatch"),
        class("info_player_start"),
    ];
    let info = BspInfo::from_records(&records, 130920);
    assert_eq!(info.message, "Arena One");
    assert_eq!(info.size, 130920);
    assert_eq!(info.category, "Arena");
    assert_eq!(info.entity_count.spawns.deathmatch, 4);
    assert_eq!(info.entity_count.spawns.start, 1);
    assert!(info.race_routes.is_empty());
    assert!(info.intermissions.is_empty());
}

#[test]
fn weapon_turns_arena_into_deathmatch() {
    let records = vec![
        rec(&[("classname", "worldspawn"), ("message", "Arena One")]),
        class("info_player_deathmatch"),
        class("info_player_deathmatch"),
        class("info_player_deathmatch"),
        class("info_player_deathmatch"),
        class("info_player_start"),
        class("weapon_nailgun"),
    ];
    let info = BspInfo::from_records(&records, 0);
    assert_eq!(info.entity_count.weapons.nailgun, 1);
    assert_eq!(info.category, "Deathmatch");
}

#[test]
fn monster_and_changelevel_mean_single_player() {
    let records = vec![
        class("monster_army"),
        class("trigger_changelevel"),
        class("info_player_deathmatch"),
        class("info_player_deathmatch"),
        class("info_player_deathmatch"),
    ];
    let info = BspInfo::from_records(&records, 0);
    assert_eq!(info.entity_count.monsters.grunt, 1);
    assert_eq!(info.entity_count.triggers.changelevel, 1);
    // Both the Single Player rule and the Deathmatch rule match; the
    // earlier rule must win.
    assert_eq!(info.category, "Single Player");
}

#[test]
fn ammo_splits_by_spawnflags_presence() {
    let records = vec![
        class("item_shells"),
        rec(&[("classname", "item_shells"), ("spawnflags", "1")]),
        class("item_spikes"),
        rec(&[("classname", "item_spikes"), ("spawnflags", "64")]),
        rec(&[("classname", "item_rockets"), ("spawnflags", "3")]),
        rec(&[("classname", "item_cells"), ("spawnflags", "2")]),
    ];
    let e = BspInfo::from_records(&records, 0).entity_count;
    assert_eq!(e.ammo.shells_small, 1);
    assert_eq!(e.ammo.shells_large, 1);
    assert_eq!(e.ammo.nails_small, 1);
    assert_eq!(e.ammo.nails_large, 1);
    assert_eq!(e.ammo.rockets_small, 0);
    assert_eq!(e.ammo.rockets_large, 1);
    assert_eq!(e.ammo.cells_small, 0);
    assert_eq!(e.ammo.cells_large, 1);
}

#[test]
fn healthpack_tiers_by_spawnflags_literal() {
    let records = vec![
        class("item_health"),
        rec(&[("classname", "item_health"), ("spawnflags", "1")]),
        rec(&[("classname", "item_health"), ("spawnflags", "2")]),
    ];
    let e = BspInfo::from_records(&records, 0).entity_count;
    assert_eq!(e.healthpacks.health_small, 1);
    assert_eq!(e.healthpacks.health_large, 1);
    assert_eq!(e.healthpacks.megahealth, 1);
}

#[test]
fn healthpack_with_combined_flags_is_dropped() {
    let records = vec![
        class("item_health"),
        rec(&[("classname", "item_health"), ("spawnflags", "3")]),
    ];
    let e = BspInfo::from_records(&records, 0).entity_count;
    // The record with flags "3" matches none of the three tiers: it must
    // not land in any bucket, not even a default one.
    assert_eq!(e.healthpacks.health_small, 1);
    assert_eq!(e.healthpacks.health_large, 0);
    assert_eq!(e.healthpacks.megahealth, 0);
}

#[test]
fn unknown_classname_changes_no_counter() {
    let base = vec![
        class("info_player_deathmatch"),
        class("weapon_rocketlauncher"),
        class("monster_ogre"),
    ];
    let with_unknown = vec![
        class("info_player_deathmatch"),
        class("some_custom_entity"),
        class("weapon_rocketlauncher"),
        class("monster_ogre"),
    ];
    let a = BspInfo::from_records(&base, 0);
    let b = BspInfo::from_records(&with_unknown, 0);
    assert_eq!(a.entity_count, b.entity_count);
    assert_eq!(a.category, b.category);
}

#[test]
fn record_without_classname_is_skipped() {
    let records = vec![rec(&[("origin", "0 0 0")]), class("item_armor2")];
    let e = BspInfo::from_records(&records, 0).entity_count;
    assert_eq!(e.armors.yellow_armor, 1);
    assert_eq!(e, {
        let mut expect = EntityCount::default();
        expect.armors.yellow_armor = 1;
        expect
    });
}

#[test]
fn counters_ignore_record_order() {
    let records = vec![
        class("monster_zombie"),
        class("item_armor1"),
        rec(&[("classname", "item_health"), ("spawnflags", "2")]),
        class("info_player_coop"),
        class("trigger_secret"),
    ];
    let mut permuted = records.clone();
    permuted.reverse();
    let a = BspInfo::from_records(&records, 0);
    let b = BspInfo::from_records(&permuted, 0);
    assert_eq!(a.entity_count, b.entity_count);
}

#[test]
fn race_routes_keep_encounter_order() {
    let records = vec![
        rec(&[
            ("classname", "race_route_start"),
            ("race_route_name", "anubis in hurry"),
            ("race_route_description", "Start > Finish"),
        ]),
        class("info_player_deathmatch"),
        rec(&[
            ("classname", "race_route_start"),
            ("race_route_name", "second lap"),
            ("race_route_description", "Finish > Start"),
        ]),
    ];
    let info = BspInfo::from_records(&records, 0);
    assert_eq!(info.race_routes.len(), 2);
    assert_eq!(info.race_routes[0].name, "anubis in hurry");
    assert_eq!(info.race_routes[0].description, "Start > Finish");
    assert_eq!(info.race_routes[1].name, "second lap");
    assert_eq!(info.race_routes[1].description, "Finish > Start");
    // Deathmatch spawns, no weapons, and route markers present: Race.
    assert_eq!(info.category, "Race");
}

#[test]
fn race_route_fields_default_to_empty() {
    let records = vec![class("race_route_start")];
    let info = BspInfo::from_records(&records, 0);
    assert_eq!(info.race_routes.len(), 1);
    assert_eq!(info.race_routes[0].name, "");
    assert_eq!(info.race_routes[0].description, "");
}

#[test]
fn intermissions_collected_in_order() {
    let records = vec![
        rec(&[
            ("classname", "info_intermission"),
            ("origin", "-272 -800 336"),
            ("mangle", "20 45 0"),
        ]),
        rec(&[
            ("classname", "info_intermission"),
            ("origin", "352 -296 -192"),
            ("mangle", "-20 45 0"),
        ]),
    ];
    let info = BspInfo::from_records(&records, 0);
    assert_eq!(info.intermissions.len(), 2);
    assert_eq!(info.intermissions[0].origin, "-272 -800 336");
    assert_eq!(info.intermissions[0].mangle, "20 45 0");
    assert_eq!(info.intermissions[1].origin, "352 -296 -192");
    assert_eq!(info.intermissions[1].mangle, "-20 45 0");
}

#[test]
fn worldspawn_without_message_leaves_it_empty() {
    let records = vec![class("worldspawn")];
    let info = BspInfo::from_records(&records, 0);
    assert_eq!(info.message, "");
}

#[test]
fn teamspawn_synonyms_share_one_counter() {
    let records = vec![class("info_player_teamspawn"), class("i_p_t")];
    let e = BspInfo::from_records(&records, 0).entity_count;
    assert_eq!(e.spawns.teamspawn, 2);
}

#[test]
fn all_monster_kinds_are_recognized() {
    let records = vec![
        class("monster_army"),
        class("monster_boss"),
        class("monster_demon1"),
        class("monster_dog"),
        class("monster_enforcer"),
        class("monster_fish"),
        class("monster_hell_knight"),
        class("monster_knight"),
        class("monster_ogre"),
        class("monster_oldone"),
        class("monster_shalrath"),
        class("monster_shambler"),
        class("monster_tarbaby"),
        class("monster_wizard"),
        class("monster_zombie"),
    ];
    let e = BspInfo::from_records(&records, 0).entity_count;
    assert_eq!(e.monsters.grunt, 1);
    assert_eq!(e.monsters.chton, 1);
    assert_eq!(e.monsters.fiend, 1);
    assert_eq!(e.monsters.rottweiler, 1);
    assert_eq!(e.monsters.enforcer, 1);
    assert_eq!(e.monsters.rotfish, 1);
    assert_eq!(e.monsters.death_knight, 1);
    assert_eq!(e.monsters.knight, 1);
    assert_eq!(e.monsters.ogre, 1);
    assert_eq!(e.monsters.shub_niggurath, 1);
    assert_eq!(e.monsters.vore, 1);
    assert_eq!(e.monsters.shambler, 1);
    assert_eq!(e.monsters.spawn, 1);
    assert_eq!(e.monsters.scrag, 1);
    assert_eq!(e.monsters.zombie, 1);
    assert_eq!(e.monsters.count(), 15);
}

#[test]
fn powerups_keys_flags_and_points_are_recognized() {
    let records = vec![
        class("item_artifact_envirosuit"),
        class("item_artifact_super_damage"),
        class("item_artifact_invulnerability"),
        class("item_artifact_invisibility"),
        class("item_key1"),
        class("item_key2"),
        class("item_flag_team1"),
        class("item_flag_team2"),
        class("item_tfgoal"),
        class("point_start"),
        class("point_zip"),
        class("item_armor1"),
        class("item_armorInv"),
        class("weapon_supershotgun"),
        class("weapon_supernailgun"),
        class("weapon_grenadelauncher"),
        class("weapon_lightning"),
        class("trigger_teleport"),
        class("info_player_coop"),
        class("info_player_team1"),
        class("info_player_team2"),
        class("info_player_team1_deathmatch"),
        class("info_player_team2_deathmatch"),
    ];
    let e = BspInfo::from_records(&records, 0).entity_count;
    assert_eq!(e.powerups.biosuit, 1);
    assert_eq!(e.powerups.quad, 1);
    assert_eq!(e.powerups.pent, 1);
    assert_eq!(e.powerups.ring, 1);
    assert_eq!(e.items.silver_key, 1);
    assert_eq!(e.items.gold_key, 1);
    assert_eq!(e.items.red_flag, 1);
    assert_eq!(e.items.blue_flag, 1);
    assert_eq!(e.items.tf_goal, 1);
    assert_eq!(e.points.start, 1);
    assert_eq!(e.points.zip, 1);
    assert_eq!(e.armors.green_armor, 1);
    assert_eq!(e.armors.red_armor, 1);
    assert_eq!(e.weapons.super_shotgun, 1);
    assert_eq!(e.weapons.super_nailgun, 1);
    assert_eq!(e.weapons.grenade_launcher, 1);
    assert_eq!(e.weapons.ligthning_gun, 1);
    assert_eq!(e.triggers.teleport, 1);
    assert_eq!(e.spawns.coop, 1);
    assert_eq!(e.spawns.team1, 1);
    assert_eq!(e.spawns.team2, 1);
    assert_eq!(e.spawns.team1_deathmatch, 1);
    assert_eq!(e.spawns.team2_deathmatch, 1);
}
