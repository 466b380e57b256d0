//! The entity census: dispatching each record by classname (and, for a few
//! classnames, by the auxiliary `spawnflags` field) into typed counters.

use vstd::prelude::*;

use crate::record::field_or_empty;

verus! {

/// The counter bucket (or list/message role) a single record falls into.
/// `Unknown` covers unrecognized classnames, records without a classname,
/// and healthpacks whose flags value matches none of the three tiers.
pub enum Tally {
    Worldspawn,
    SpawnCoop,
    SpawnDeathmatch,
    SpawnStart,
    SpawnTeam1,
    SpawnTeam2,
    SpawnTeam1Deathmatch,
    SpawnTeam2Deathmatch,
    SpawnTeamspawn,
    MonsterGrunt,
    MonsterChton,
    MonsterFiend,
    MonsterRottweiler,
    MonsterEnforcer,
    MonsterRotfish,
    MonsterDeathKnight,
    MonsterKnight,
    MonsterOgre,
    MonsterShubNiggurath,
    MonsterVore,
    MonsterShambler,
    MonsterSpawn,
    MonsterScrag,
    MonsterZombie,
    ArmorGreen,
    ArmorYellow,
    ArmorRed,
    PowerupBiosuit,
    PowerupQuad,
    PowerupPent,
    PowerupRing,
    HealthSmall,
    HealthLarge,
    Megahealth,
    ItemSilverKey,
    ItemGoldKey,
    ItemRedFlag,
    ItemBlueFlag,
    ItemTfGoal,
    PointStart,
    PointZip,
    ShellsSmall,
    ShellsLarge,
    NailsSmall,
    NailsLarge,
    RocketsSmall,
    RocketsLarge,
    CellsSmall,
    CellsLarge,
    WeaponSuperShotgun,
    WeaponNailgun,
    WeaponSuperNailgun,
    WeaponGrenadeLauncher,
    WeaponRocketLauncher,
    WeaponLightningGun,
    TriggerChangelevel,
    TriggerSecret,
    TriggerTeleport,
    RouteStart,
    IntermissionCam,
    Unknown,
}

/// The record's `classname` field, if present.
pub open spec fn classname_of(r: Map<Seq<char>, Seq<char>>) -> Option<Seq<char>> {
    if r.contains_key("classname"@) {
        Some(r["classname"@])
    } else {
        None
    }
}

/// The record's `spawnflags` field, if present.
pub open spec fn spawnflags_of(r: Map<Seq<char>, Seq<char>>) -> Option<Seq<char>> {
    if r.contains_key("spawnflags"@) {
        Some(r["spawnflags"@])
    } else {
        None
    }
}

/// The closed dispatch table, keyed by classname and, for ammo pickups and
/// healthpacks, by the secondary `spawnflags` discriminator: ammo routes to
/// its "large" bucket on any present flags value, a healthpack only on the
/// literal text `1` or `2`.
pub open spec fn class_key_of(cn: Seq<char>, sf: Option<Seq<char>>) -> Tally {
    if cn == "worldspawn"@ {
        Tally::Worldspawn
    } else if cn == "info_player_coop"@ {
        Tally::SpawnCoop
    } else if cn == "info_player_deathmatch"@ {
        Tally::SpawnDeathmatch
    } else if cn == "info_player_start"@ {
        Tally::SpawnStart
    } else if cn == "info_player_team1"@ {
        Tally::SpawnTeam1
    } else if cn == "info_player_team2"@ {
        Tally::SpawnTeam2
    } else if cn == "info_player_team1_deathmatch"@ {
        Tally::SpawnTeam1Deathmatch
    } else if cn == "info_player_team2_deathmatch"@ {
        Tally::SpawnTeam2Deathmatch
    } else if cn == "info_player_teamspawn"@ || cn == "i_p_t"@ {
        Tally::SpawnTeamspawn
    } else if cn == "monster_army"@ {
        Tally::MonsterGrunt
    } else if cn == "monster_boss"@ {
        Tally::MonsterChton
    } else if cn == "monster_demon1"@ {
        Tally::MonsterFiend
    } else if cn == "monster_dog"@ {
        Tally::MonsterRottweiler
    } else if cn == "monster_enforcer"@ {
        Tally::MonsterEnforcer
    } else if cn == "monster_fish"@ {
        Tally::MonsterRotfish
    } else if cn == "monster_hell_knight"@ {
        Tally::MonsterDeathKnight
    } else if cn == "monster_knight"@ {
        Tally::MonsterKnight
    } else if cn == "monster_ogre"@ {
        Tally::MonsterOgre
    } else if cn == "monster_oldone"@ {
        Tally::MonsterShubNiggurath
    } else if cn == "monster_shalrath"@ {
        Tally::MonsterVore
    } else if cn == "monster_shambler"@ {
        Tally::MonsterShambler
    } else if cn == "monster_tarbaby"@ {
        Tally::MonsterSpawn
    } else if cn == "monster_wizard"@ {
        Tally::MonsterScrag
    } else if cn == "monster_zombie"@ {
        Tally::MonsterZombie
    } else if cn == "item_armor1"@ {
        Tally::ArmorGreen
    } else if cn == "item_armor2"@ {
        Tally::ArmorYellow
    } else if cn == "item_armorInv"@ {
        Tally::ArmorRed
    } else if cn == "item_artifact_envirosuit"@ {
        Tally::PowerupBiosuit
    } else if cn == "item_artifact_super_damage"@ {
        Tally::PowerupQuad
    } else if cn == "item_artifact_invulnerability"@ {
        Tally::PowerupPent
    } else if cn == "item_artifact_invisibility"@ {
        Tally::PowerupRing
    } else if cn == "item_health"@ {
        match sf {
            None => Tally::HealthSmall,
            Some(v) => if v == "1"@ {
                Tally::HealthLarge
            } else if v == "2"@ {
                Tally::Megahealth
            } else {
                Tally::Unknown
            },
        }
    } else if cn == "item_key1"@ {
        Tally::ItemSilverKey
    } else if cn == "item_key2"@ {
        Tally::ItemGoldKey
    } else if cn == "item_flag_team1"@ {
        Tally::ItemRedFlag
    } else if cn == "item_flag_team2"@ {
        Tally::ItemBlueFlag
    } else if cn == "item_tfgoal"@ {
        Tally::ItemTfGoal
    } else if cn == "point_start"@ {
        Tally::PointStart
    } else if cn == "point_zip"@ {
        Tally::PointZip
    } else if cn == "item_shells"@ {
        if sf is None {
            Tally::ShellsSmall
        } else {
            Tally::ShellsLarge
        }
    } else if cn == "item_spikes"@ {
        if sf is None {
            Tally::NailsSmall
        } else {
            Tally::NailsLarge
        }
    } else if cn == "item_rockets"@ {
        if sf is None {
            Tally::RocketsSmall
        } else {
            Tally::RocketsLarge
        }
    } else if cn == "item_cells"@ {
        if sf is None {
            Tally::CellsSmall
        } else {
            Tally::CellsLarge
        }
    } else if cn == "weapon_supershotgun"@ {
        Tally::WeaponSuperShotgun
    } else if cn == "weapon_nailgun"@ {
        Tally::WeaponNailgun
    } else if cn == "weapon_supernailgun"@ {
        Tally::WeaponSuperNailgun
    } else if cn == "weapon_grenadelauncher"@ {
        Tally::WeaponGrenadeLauncher
    } else if cn == "weapon_rocketlauncher"@ {
        Tally::WeaponRocketLauncher
    } else if cn == "weapon_lightning"@ {
        Tally::WeaponLightningGun
    } else if cn == "trigger_changelevel"@ {
        Tally::TriggerChangelevel
    } else if cn == "trigger_secret"@ {
        Tally::TriggerSecret
    } else if cn == "trigger_teleport"@ {
        Tally::TriggerTeleport
    } else if cn == "race_route_start"@ {
        Tally::RouteStart
    } else if cn == "info_intermission"@ {
        Tally::IntermissionCam
    } else {
        Tally::Unknown
    }
}

/// The bucket one record falls into.
pub open spec fn class_key(r: Map<Seq<char>, Seq<char>>) -> Tally {
    match classname_of(r) {
        None => Tally::Unknown,
        Some(cn) => class_key_of(cn, spawnflags_of(r)),
    }
}

/// Records falling into bucket `t`.
pub open spec fn tally_pred(t: Tally) -> spec_fn(Map<Seq<char>, Seq<char>>) -> bool {
    |r: Map<Seq<char>, Seq<char>>| class_key(r) == t
}

/// How many records of the sequence fall into bucket `t`.
pub open spec fn count_tally(rs: Seq<Map<Seq<char>, Seq<char>>>, t: Tally) -> nat {
    rs.filter(tally_pred(t)).len()
}

pub struct SpawnsView {
    pub coop: int,
    pub deathmatch: int,
    pub start: int,
    pub team1: int,
    pub team1_deathmatch: int,
    pub team2: int,
    pub team2_deathmatch: int,
    pub teamspawn: int,
}

pub struct MonstersView {
    pub chton: int,
    pub death_knight: int,
    pub enforcer: int,
    pub fiend: int,
    pub grunt: int,
    pub knight: int,
    pub ogre: int,
    pub rotfish: int,
    pub rottweiler: int,
    pub scrag: int,
    pub shambler: int,
    pub shub_niggurath: int,
    pub spawn: int,
    pub vore: int,
    pub zombie: int,
}

pub struct ArmorsView {
    pub green_armor: int,
    pub yellow_armor: int,
    pub red_armor: int,
}

pub struct PowerupsView {
    pub biosuit: int,
    pub quad: int,
    pub pent: int,
    pub ring: int,
}

pub struct HealthpacksView {
    pub health_small: int,
    pub health_large: int,
    pub megahealth: int,
}

pub struct ItemsView {
    pub silver_key: int,
    pub gold_key: int,
    pub red_flag: int,
    pub blue_flag: int,
    pub tf_goal: int,
}

pub struct PointsView {
    pub zip: int,
    pub start: int,
}

pub struct AmmoView {
    pub shells_small: int,
    pub shells_large: int,
    pub nails_small: int,
    pub nails_large: int,
    pub rockets_small: int,
    pub rockets_large: int,
    pub cells_small: int,
    pub cells_large: int,
}

pub struct WeaponsView {
    pub super_shotgun: int,
    pub nailgun: int,
    pub super_nailgun: int,
    pub grenade_launcher: int,
    pub rocket_launcher: int,
    pub ligthning_gun: int,
}

pub struct TriggersView {
    pub changelevel: int,
    pub secret: int,
    pub teleport: int,
}

pub struct CensusView {
    pub ammo: AmmoView,
    pub armors: ArmorsView,
    pub healthpacks: HealthpacksView,
    pub items: ItemsView,
    pub monsters: MonstersView,
    pub points: PointsView,
    pub powerups: PowerupsView,
    pub spawns: SpawnsView,
    pub triggers: TriggersView,
    pub weapons: WeaponsView,
}

impl AmmoView {
    pub open spec fn total(self) -> int {
        self.shells_small + self.shells_large + self.nails_small + self.nails_large
            + self.rockets_small + self.rockets_large + self.cells_small + self.cells_large
    }
}

impl ArmorsView {
    pub open spec fn total(self) -> int {
        self.green_armor + self.yellow_armor + self.red_armor
    }
}

impl HealthpacksView {
    pub open spec fn total(self) -> int {
        self.health_small + self.health_large + self.megahealth
    }
}

impl ItemsView {
    pub open spec fn total(self) -> int {
        self.silver_key + self.gold_key + self.red_flag + self.blue_flag + self.tf_goal
    }
}

impl MonstersView {
    pub open spec fn total(self) -> int {
        self.chton + self.death_knight + self.enforcer + self.fiend + self.grunt + self.knight
            + self.ogre + self.rotfish + self.rottweiler + self.scrag + self.shambler
            + self.shub_niggurath + self.spawn + self.vore + self.zombie
    }
}

impl PointsView {
    pub open spec fn total(self) -> int {
        self.zip + self.start
    }
}

impl PowerupsView {
    pub open spec fn total(self) -> int {
        self.biosuit + self.quad + self.pent + self.ring
    }
}

impl SpawnsView {
    pub open spec fn total(self) -> int {
        self.coop + self.deathmatch + self.start + self.team1 + self.team1_deathmatch + self.team2
            + self.team2_deathmatch + self.teamspawn
    }
}

impl TriggersView {
    pub open spec fn total(self) -> int {
        self.changelevel + self.secret + self.teleport
    }
}

impl WeaponsView {
    pub open spec fn total(self) -> int {
        self.super_shotgun + self.nailgun + self.super_nailgun + self.grenade_launcher
            + self.rocket_launcher + self.ligthning_gun
    }
}

impl CensusView {
    /// Every counter of the census, summed.
    pub open spec fn total(self) -> int {
        self.ammo.total() + self.armors.total() + self.healthpacks.total() + self.items.total()
            + self.monsters.total() + self.points.total() + self.powerups.total()
            + self.spawns.total() + self.triggers.total() + self.weapons.total()
    }
}

/// The census of a record sequence: each counter is the number of records
/// that fall into its bucket.
pub open spec fn census_of(rs: Seq<Map<Seq<char>, Seq<char>>>) -> CensusView {
    CensusView {
        ammo: AmmoView {
            shells_small: count_tally(rs, Tally::ShellsSmall) as int,
            shells_large: count_tally(rs, Tally::ShellsLarge) as int,
            nails_small: count_tally(rs, Tally::NailsSmall) as int,
            nails_large: count_tally(rs, Tally::NailsLarge) as int,
            rockets_small: count_tally(rs, Tally::RocketsSmall) as int,
            rockets_large: count_tally(rs, Tally::RocketsLarge) as int,
            cells_small: count_tally(rs, Tally::CellsSmall) as int,
            cells_large: count_tally(rs, Tally::CellsLarge) as int,
        },
        armors: ArmorsView {
            green_armor: count_tally(rs, Tally::ArmorGreen) as int,
            yellow_armor: count_tally(rs, Tally::ArmorYellow) as int,
            red_armor: count_tally(rs, Tally::ArmorRed) as int,
        },
        healthpacks: HealthpacksView {
            health_small: count_tally(rs, Tally::HealthSmall) as int,
            health_large: count_tally(rs, Tally::HealthLarge) as int,
            megahealth: count_tally(rs, Tally::Megahealth) as int,
        },
        items: ItemsView {
            silver_key: count_tally(rs, Tally::ItemSilverKey) as int,
            gold_key: count_tally(rs, Tally::ItemGoldKey) as int,
            red_flag: count_tally(rs, Tally::ItemRedFlag) as int,
            blue_flag: count_tally(rs, Tally::ItemBlueFlag) as int,
            tf_goal: count_tally(rs, Tally::ItemTfGoal) as int,
        },
        monsters: MonstersView {
            chton: count_tally(rs, Tally::MonsterChton) as int,
            death_knight: count_tally(rs, Tally::MonsterDeathKnight) as int,
            enforcer: count_tally(rs, Tally::MonsterEnforcer) as int,
            fiend: count_tally(rs, Tally::MonsterFiend) as int,
            grunt: count_tally(rs, Tally::MonsterGrunt) as int,
            knight: count_tally(rs, Tally::MonsterKnight) as int,
            ogre: count_tally(rs, Tally::MonsterOgre) as int,
            rotfish: count_tally(rs, Tally::MonsterRotfish) as int,
            rottweiler: count_tally(rs, Tally::MonsterRottweiler) as int,
            scrag: count_tally(rs, Tally::MonsterScrag) as int,
            shambler: count_tally(rs, Tally::MonsterShambler) as int,
            shub_niggurath: count_tally(rs, Tally::MonsterShubNiggurath) as int,
            spawn: count_tally(rs, Tally::MonsterSpawn) as int,
            vore: count_tally(rs, Tally::MonsterVore) as int,
            zombie: count_tally(rs, Tally::MonsterZombie) as int,
        },
        points: PointsView {
            zip: count_tally(rs, Tally::PointZip) as int,
            start: count_tally(rs, Tally::PointStart) as int,
        },
        powerups: PowerupsView {
            biosuit: count_tally(rs, Tally::PowerupBiosuit) as int,
            quad: count_tally(rs, Tally::PowerupQuad) as int,
            pent: count_tally(rs, Tally::PowerupPent) as int,
            ring: count_tally(rs, Tally::PowerupRing) as int,
        },
        spawns: SpawnsView {
            coop: count_tally(rs, Tally::SpawnCoop) as int,
            deathmatch: count_tally(rs, Tally::SpawnDeathmatch) as int,
            start: count_tally(rs, Tally::SpawnStart) as int,
            team1: count_tally(rs, Tally::SpawnTeam1) as int,
            team1_deathmatch: count_tally(rs, Tally::SpawnTeam1Deathmatch) as int,
            team2: count_tally(rs, Tally::SpawnTeam2) as int,
            team2_deathmatch: count_tally(rs, Tally::SpawnTeam2Deathmatch) as int,
            teamspawn: count_tally(rs, Tally::SpawnTeamspawn) as int,
        },
        triggers: TriggersView {
            changelevel: count_tally(rs, Tally::TriggerChangelevel) as int,
            secret: count_tally(rs, Tally::TriggerSecret) as int,
            teleport: count_tally(rs, Tally::TriggerTeleport) as int,
        },
        weapons: WeaponsView {
            super_shotgun: count_tally(rs, Tally::WeaponSuperShotgun) as int,
            nailgun: count_tally(rs, Tally::WeaponNailgun) as int,
            super_nailgun: count_tally(rs, Tally::WeaponSuperNailgun) as int,
            grenade_launcher: count_tally(rs, Tally::WeaponGrenadeLauncher) as int,
            rocket_launcher: count_tally(rs, Tally::WeaponRocketLauncher) as int,
            ligthning_gun: count_tally(rs, Tally::WeaponLightningGun) as int,
        },
    }
}

/// The census after one more record of bucket `t`: the counter of `t` grows
/// by one, every other counter is unchanged.
pub open spec fn bump(c: CensusView, t: Tally) -> CensusView {
    match t {
        Tally::SpawnCoop => CensusView { spawns: SpawnsView { coop: c.spawns.coop + 1, ..c.spawns }, ..c },
        Tally::SpawnDeathmatch => CensusView { spawns: SpawnsView { deathmatch: c.spawns.deathmatch + 1, ..c.spawns }, ..c },
        Tally::SpawnStart => CensusView { spawns: SpawnsView { start: c.spawns.start + 1, ..c.spawns }, ..c },
        Tally::SpawnTeam1 => CensusView { spawns: SpawnsView { team1: c.spawns.team1 + 1, ..c.spawns }, ..c },
        Tally::SpawnTeam2 => CensusView { spawns: SpawnsView { team2: c.spawns.team2 + 1, ..c.spawns }, ..c },
        Tally::SpawnTeam1Deathmatch => CensusView { spawns: SpawnsView { team1_deathmatch: c.spawns.team1_deathmatch + 1, ..c.spawns }, ..c },
        Tally::SpawnTeam2Deathmatch => CensusView { spawns: SpawnsView { team2_deathmatch: c.spawns.team2_deathmatch + 1, ..c.spawns }, ..c },
        Tally::SpawnTeamspawn => CensusView { spawns: SpawnsView { teamspawn: c.spawns.teamspawn + 1, ..c.spawns }, ..c },
        Tally::MonsterGrunt => CensusView { monsters: MonstersView { grunt: c.monsters.grunt + 1, ..c.monsters }, ..c },
        Tally::MonsterChton => CensusView { monsters: MonstersView { chton: c.monsters.chton + 1, ..c.monsters }, ..c },
        Tally::MonsterFiend => CensusView { monsters: MonstersView { fiend: c.monsters.fiend + 1, ..c.monsters }, ..c },
        Tally::MonsterRottweiler => CensusView { monsters: MonstersView { rottweiler: c.monsters.rottweiler + 1, ..c.monsters }, ..c },
        Tally::MonsterEnforcer => CensusView { monsters: MonstersView { enforcer: c.monsters.enforcer + 1, ..c.monsters }, ..c },
        Tally::MonsterRotfish => CensusView { monsters: MonstersView { rotfish: c.monsters.rotfish + 1, ..c.monsters }, ..c },
        Tally::MonsterDeathKnight => CensusView { monsters: MonstersView { death_knight: c.monsters.death_knight + 1, ..c.monsters }, ..c },
        Tally::MonsterKnight => CensusView { monsters: MonstersView { knight: c.monsters.knight + 1, ..c.monsters }, ..c },
        Tally::MonsterOgre => CensusView { monsters: MonstersView { ogre: c.monsters.ogre + 1, ..c.monsters }, ..c },
        Tally::MonsterShubNiggurath => CensusView { monsters: MonstersView { shub_niggurath: c.monsters.shub_niggurath + 1, ..c.monsters }, ..c },
        Tally::MonsterVore => CensusView { monsters: MonstersView { vore: c.monsters.vore + 1, ..c.monsters }, ..c },
        Tally::MonsterShambler => CensusView { monsters: MonstersView { shambler: c.monsters.shambler + 1, ..c.monsters }, ..c },
        Tally::MonsterSpawn => CensusView { monsters: MonstersView { spawn: c.monsters.spawn + 1, ..c.monsters }, ..c },
        Tally::MonsterScrag => CensusView { monsters: MonstersView { scrag: c.monsters.scrag + 1, ..c.monsters }, ..c },
        Tally::MonsterZombie => CensusView { monsters: MonstersView { zombie: c.monsters.zombie + 1, ..c.monsters }, ..c },
        Tally::ArmorGreen => CensusView { armors: ArmorsView { green_armor: c.armors.green_armor + 1, ..c.armors }, ..c },
        Tally::ArmorYellow => CensusView { armors: ArmorsView { yellow_armor: c.armors.yellow_armor + 1, ..c.armors }, ..c },
        Tally::ArmorRed => CensusView { armors: ArmorsView { red_armor: c.armors.red_armor + 1, ..c.armors }, ..c },
        Tally::PowerupBiosuit => CensusView { powerups: PowerupsView { biosuit: c.powerups.biosuit + 1, ..c.powerups }, ..c },
        Tally::PowerupQuad => CensusView { powerups: PowerupsView { quad: c.powerups.quad + 1, ..c.powerups }, ..c },
        Tally::PowerupPent => CensusView { powerups: PowerupsView { pent: c.powerups.pent + 1, ..c.powerups }, ..c },
        Tally::PowerupRing => CensusView { powerups: PowerupsView { ring: c.powerups.ring + 1, ..c.powerups }, ..c },
        Tally::HealthSmall => CensusView { healthpacks: HealthpacksView { health_small: c.healthpacks.health_small + 1, ..c.healthpacks }, ..c },
        Tally::HealthLarge => CensusView { healthpacks: HealthpacksView { health_large: c.healthpacks.health_large + 1, ..c.healthpacks }, ..c },
        Tally::Megahealth => CensusView { healthpacks: HealthpacksView { megahealth: c.healthpacks.megahealth + 1, ..c.healthpacks }, ..c },
        Tally::ItemSilverKey => CensusView { items: ItemsView { silver_key: c.items.silver_key + 1, ..c.items }, ..c },
        Tally::ItemGoldKey => CensusView { items: ItemsView { gold_key: c.items.gold_key + 1, ..c.items }, ..c },
        Tally::ItemRedFlag => CensusView { items: ItemsView { red_flag: c.items.red_flag + 1, ..c.items }, ..c },
        Tally::ItemBlueFlag => CensusView { items: ItemsView { blue_flag: c.items.blue_flag + 1, ..c.items }, ..c },
        Tally::ItemTfGoal => CensusView { items: ItemsView { tf_goal: c.items.tf_goal + 1, ..c.items }, ..c },
        Tally::PointStart => CensusView { points: PointsView { start: c.points.start + 1, ..c.points }, ..c },
        Tally::PointZip => CensusView { points: PointsView { zip: c.points.zip + 1, ..c.points }, ..c },
        Tally::ShellsSmall => CensusView { ammo: AmmoView { shells_small: c.ammo.shells_small + 1, ..c.ammo }, ..c },
        Tally::ShellsLarge => CensusView { ammo: AmmoView { shells_large: c.ammo.shells_large + 1, ..c.ammo }, ..c },
        Tally::NailsSmall => CensusView { ammo: AmmoView { nails_small: c.ammo.nails_small + 1, ..c.ammo }, ..c },
        Tally::NailsLarge => CensusView { ammo: AmmoView { nails_large: c.ammo.nails_large + 1, ..c.ammo }, ..c },
        Tally::RocketsSmall => CensusView { ammo: AmmoView { rockets_small: c.ammo.rockets_small + 1, ..c.ammo }, ..c },
        Tally::RocketsLarge => CensusView { ammo: AmmoView { rockets_large: c.ammo.rockets_large + 1, ..c.ammo }, ..c },
        Tally::CellsSmall => CensusView { ammo: AmmoView { cells_small: c.ammo.cells_small + 1, ..c.ammo }, ..c },
        Tally::CellsLarge => CensusView { ammo: AmmoView { cells_large: c.ammo.cells_large + 1, ..c.ammo }, ..c },
        Tally::WeaponSuperShotgun => CensusView { weapons: WeaponsView { super_shotgun: c.weapons.super_shotgun + 1, ..c.weapons }, ..c },
        Tally::WeaponNailgun => CensusView { weapons: WeaponsView { nailgun: c.weapons.nailgun + 1, ..c.weapons }, ..c },
        Tally::WeaponSuperNailgun => CensusView { weapons: WeaponsView { super_nailgun: c.weapons.super_nailgun + 1, ..c.weapons }, ..c },
        Tally::WeaponGrenadeLauncher => CensusView { weapons: WeaponsView { grenade_launcher: c.weapons.grenade_launcher + 1, ..c.weapons }, ..c },
        Tally::WeaponRocketLauncher => CensusView { weapons: WeaponsView { rocket_launcher: c.weapons.rocket_launcher + 1, ..c.weapons }, ..c },
        Tally::WeaponLightningGun => CensusView { weapons: WeaponsView { ligthning_gun: c.weapons.ligthning_gun + 1, ..c.weapons }, ..c },
        Tally::TriggerChangelevel => CensusView { triggers: TriggersView { changelevel: c.triggers.changelevel + 1, ..c.triggers }, ..c },
        Tally::TriggerSecret => CensusView { triggers: TriggersView { secret: c.triggers.secret + 1, ..c.triggers }, ..c },
        Tally::TriggerTeleport => CensusView { triggers: TriggersView { teleport: c.triggers.teleport + 1, ..c.triggers }, ..c },
        Tally::Worldspawn => c,
        Tally::RouteStart => c,
        Tally::IntermissionCam => c,
        Tally::Unknown => c,
    }
}

/// Appending one record moves the census by exactly that record's bucket.
pub proof fn lemma_census_push(rs: Seq<Map<Seq<char>, Seq<char>>>, r: Map<Seq<char>, Seq<char>>)
    ensures
        census_of(rs.push(r)) == bump(census_of(rs), class_key(r)),
{
    broadcast use vstd::seq_lib::group_seq_properties;

    assert forall|t: Tally| #[trigger] count_tally(rs.push(r), t) == count_tally(rs, t) + (
    if class_key(r) == t {
        1int
    } else {
        0int
    }) by {
        Seq::lemma_filter_push(rs, r, tally_pred(t));
    }
}

/// One record raises the summed counters by at most one.
#[verifier::rlimit(60)]
pub proof fn lemma_bump_total(c: CensusView, t: Tally)
    ensures
        c.total() <= bump(c, t).total() <= c.total() + 1,
{
}

/// The counters of a census sum to at most the number of records.
pub proof fn lemma_census_total_bound(rs: Seq<Map<Seq<char>, Seq<char>>>)
    ensures
        0 <= census_of(rs).total() <= rs.len(),
    decreases rs.len(),
{
    broadcast use vstd::seq_lib::group_filter_ensures;

    if rs.len() == 0 {
        assert forall|t: Tally| #[trigger] count_tally(rs, t) == 0 by {
            assert(rs.filter(tally_pred(t)).len() <= rs.len());
        }
    } else {
        lemma_census_total_bound(rs.drop_last());
        assert(rs =~= rs.drop_last().push(rs.last()));
        lemma_census_push(rs.drop_last(), rs.last());
        lemma_bump_total(census_of(rs.drop_last()), class_key(rs.last()));
    }
}

#[derive(Clone, Copy, Debug, Eq, PartialEq)]
pub struct Ammo {
    pub shells_small: u32,
    pub shells_large: u32,
    pub nails_small: u32,
    pub nails_large: u32,
    pub rockets_small: u32,
    pub rockets_large: u32,
    pub cells_small: u32,
    pub cells_large: u32,
}

#[derive(Clone, Copy, Debug, Eq, PartialEq)]
pub struct Armors {
    pub green_armor: u32,
    pub yellow_armor: u32,
    pub red_armor: u32,
}

#[derive(Clone, Copy, Debug, Eq, PartialEq)]
pub struct Healthpacks {
    pub health_small: u32,
    pub health_large: u32,
    pub megahealth: u32,
}

#[derive(Clone, Copy, Debug, Eq, PartialEq)]
pub struct Items {
    pub silver_key: u32,
    pub gold_key: u32,
    pub red_flag: u32,
    pub blue_flag: u32,
    pub tf_goal: u32,
}

#[derive(Clone, Copy, Debug, Eq, PartialEq)]
pub struct Monsters {
    pub chton: u32,
    pub death_knight: u32,
    pub enforcer: u32,
    pub fiend: u32,
    pub grunt: u32,
    pub knight: u32,
    pub ogre: u32,
    pub rotfish: u32,
    pub rottweiler: u32,
    pub scrag: u32,
    pub shambler: u32,
    pub shub_niggurath: u32,
    pub spawn: u32,
    pub vore: u32,
    pub zombie: u32,
}

#[derive(Clone, Copy, Debug, Eq, PartialEq)]
pub struct Powerups {
    pub biosuit: u32,
    pub quad: u32,
    pub pent: u32,
    pub ring: u32,
}

#[derive(Clone, Copy, Debug, Eq, PartialEq)]
pub struct Spawns {
    pub coop: u32,
    pub deathmatch: u32,
    pub start: u32,
    pub team1: u32,
    pub team1_deathmatch: u32,
    pub team2: u32,
    pub team2_deathmatch: u32,
    pub teamspawn: u32,
}

#[derive(Clone, Copy, Debug, Eq, PartialEq)]
pub struct Triggers {
    pub changelevel: u32,
    pub secret: u32,
    pub teleport: u32,
}

#[derive(Clone, Copy, Debug, Eq, PartialEq)]
pub struct Points {
    pub zip: u32,
    pub start: u32,
}

#[derive(Clone, Copy, Debug, Eq, PartialEq)]
pub struct Weapons {
    pub super_shotgun: u32,
    pub nailgun: u32,
    pub super_nailgun: u32,
    pub grenade_launcher: u32,
    pub rocket_launcher: u32,
    pub ligthning_gun: u32,
}

#[derive(Clone, Copy, Debug, Eq, PartialEq)]
pub struct EntityCount {
    pub ammo: Ammo,
    pub armors: Armors,
    pub healthpacks: Healthpacks,
    pub items: Items,
    pub monsters: Monsters,
    pub points: Points,
    pub powerups: Powerups,
    pub spawns: Spawns,
    pub triggers: Triggers,
    pub weapons: Weapons,
}

impl View for Ammo {
    type V = AmmoView;

    open spec fn view(&self) -> AmmoView {
        AmmoView {
            shells_small: self.shells_small as int,
            shells_large: self.shells_large as int,
            nails_small: self.nails_small as int,
            nails_large: self.nails_large as int,
            rockets_small: self.rockets_small as int,
            rockets_large: self.rockets_large as int,
            cells_small: self.cells_small as int,
            cells_large: self.cells_large as int,
        }
    }
}

impl View for Armors {
    type V = ArmorsView;

    open spec fn view(&self) -> ArmorsView {
        ArmorsView {
            green_armor: self.green_armor as int,
            yellow_armor: self.yellow_armor as int,
            red_armor: self.red_armor as int,
        }
    }
}

impl View for Healthpacks {
    type V = HealthpacksView;

    open spec fn view(&self) -> HealthpacksView {
        HealthpacksView {
            health_small: self.health_small as int,
            health_large: self.health_large as int,
            megahealth: self.megahealth as int,
        }
    }
}

impl View for Items {
    type V = ItemsView;

    open spec fn view(&self) -> ItemsView {
        ItemsView {
            silver_key: self.silver_key as int,
            gold_key: self.gold_key as int,
            red_flag: self.red_flag as int,
            blue_flag: self.blue_flag as int,
            tf_goal: self.tf_goal as int,
        }
    }
}

impl View for Monsters {
    type V = MonstersView;

    open spec fn view(&self) -> MonstersView {
        MonstersView {
            chton: self.chton as int,
            death_knight: self.death_knight as int,
            enforcer: self.enforcer as int,
            fiend: self.fiend as int,
            grunt: self.grunt as int,
            knight: self.knight as int,
            ogre: self.ogre as int,
            rotfish: self.rotfish as int,
            rottweiler: self.rottweiler as int,
            scrag: self.scrag as int,
            shambler: self.shambler as int,
            shub_niggurath: self.shub_niggurath as int,
            spawn: self.spawn as int,
            vore: self.vore as int,
            zombie: self.zombie as int,
        }
    }
}

impl View for Powerups {
    type V = PowerupsView;

    open spec fn view(&self) -> PowerupsView {
        PowerupsView {
            biosuit: self.biosuit as int,
            quad: self.quad as int,
            pent: self.pent as int,
            ring: self.ring as int,
        }
    }
}

impl View for Spawns {
    type V = SpawnsView;

    open spec fn view(&self) -> SpawnsView {
        SpawnsView {
            coop: self.coop as int,
            deathmatch: self.deathmatch as int,
            start: self.start as int,
            team1: self.team1 as int,
            team1_deathmatch: self.team1_deathmatch as int,
            team2: self.team2 as int,
            team2_deathmatch: self.team2_deathmatch as int,
            teamspawn: self.teamspawn as int,
        }
    }
}

impl View for Triggers {
    type V = TriggersView;

    open spec fn view(&self) -> TriggersView {
        TriggersView {
            changelevel: self.changelevel as int,
            secret: self.secret as int,
            teleport: self.teleport as int,
        }
    }
}

impl View for Points {
    type V = PointsView;

    open spec fn view(&self) -> PointsView {
        PointsView { zip: self.zip as int, start: self.start as int }
    }
}

impl View for Weapons {
    type V = WeaponsView;

    open spec fn view(&self) -> WeaponsView {
        WeaponsView {
            super_shotgun: self.super_shotgun as int,
            nailgun: self.nailgun as int,
            super_nailgun: self.super_nailgun as int,
            grenade_launcher: self.grenade_launcher as int,
            rocket_launcher: self.rocket_launcher as int,
            ligthning_gun: self.ligthning_gun as int,
        }
    }
}

impl View for EntityCount {
    type V = CensusView;

    open spec fn view(&self) -> CensusView {
        CensusView {
            ammo: self.ammo@,
            armors: self.armors@,
            healthpacks: self.healthpacks@,
            items: self.items@,
            monsters: self.monsters@,
            points: self.points@,
            powerups: self.powerups@,
            spawns: self.spawns@,
            triggers: self.triggers@,
            weapons: self.weapons@,
        }
    }
}

impl Ammo {
    pub fn count(&self) -> (r: u32)
        requires
            self@.total() <= u32::MAX,
        ensures
            r == self@.total(),
    {
        self.shells_small + self.shells_large + self.nails_small + self.nails_large
            + self.rockets_small + self.rockets_large + self.cells_small + self.cells_large
    }

    pub fn is_empty(&self) -> (r: bool)
        requires
            self@.total() <= u32::MAX,
        ensures
            r == (self@.total() == 0),
    {
        self.count() == 0
    }
}

impl Armors {
    pub fn count(&self) -> (r: u32)
        requires
            self@.total() <= u32::MAX,
        ensures
            r == self@.total(),
    {
        self.green_armor + self.yellow_armor + self.red_armor
    }

    pub fn is_empty(&self) -> (r: bool)
        requires
            self@.total() <= u32::MAX,
        ensures
            r == (self@.total() == 0),
    {
        self.count() == 0
    }
}

impl Healthpacks {
    pub fn count(&self) -> (r: u32)
        requires
            self@.total() <= u32::MAX,
        ensures
            r == self@.total(),
    {
        self.health_small + self.health_large + self.megahealth
    }

    pub fn is_empty(&self) -> (r: bool)
        requires
            self@.total() <= u32::MAX,
        ensures
            r == (self@.total() == 0),
    {
        self.count() == 0
    }
}

impl Monsters {
    pub fn count(&self) -> (r: u32)
        requires
            self@.total() <= u32::MAX,
        ensures
            r == self@.total(),
    {
        self.chton + self.death_knight + self.enforcer + self.fiend + self.grunt + self.knight
            + self.ogre + self.rotfish + self.rottweiler + self.scrag + self.shambler
            + self.shub_niggurath + self.spawn + self.vore + self.zombie
    }

    pub fn is_empty(&self) -> (r: bool)
        requires
            self@.total() <= u32::MAX,
        ensures
            r == (self@.total() == 0),
    {
        self.count() == 0
    }
}

impl Powerups {
    pub fn count(&self) -> (r: u32)
        requires
            self@.total() <= u32::MAX,
        ensures
            r == self@.total(),
    {
        self.biosuit + self.quad + self.pent + self.ring
    }

    pub fn is_empty(&self) -> (r: bool)
        requires
            self@.total() <= u32::MAX,
        ensures
            r == (self@.total() == 0),
    {
        self.count() == 0
    }
}

impl Points {
    pub fn count(&self) -> (r: u32)
        requires
            self@.total() <= u32::MAX,
        ensures
            r == self@.total(),
    {
        self.zip + self.start
    }

    pub fn is_empty(&self) -> (r: bool)
        requires
            self@.total() <= u32::MAX,
        ensures
            r == (self@.total() == 0),
    {
        self.count() == 0
    }
}

impl Weapons {
    pub fn count(&self) -> (r: u32)
        requires
            self@.total() <= u32::MAX,
        ensures
            r == self@.total(),
    {
        self.super_shotgun + self.nailgun + self.super_nailgun + self.grenade_launcher
            + self.rocket_launcher + self.ligthning_gun
    }

    pub fn is_empty(&self) -> (r: bool)
        requires
            self@.total() <= u32::MAX,
        ensures
            r == (self@.total() == 0),
    {
        self.count() == 0
    }
}

impl Default for Ammo {
    fn default() -> (r: Self)
        ensures
            r@.total() == 0,
    {
        Ammo {
            shells_small: 0,
            shells_large: 0,
            nails_small: 0,
            nails_large: 0,
            rockets_small: 0,
            rockets_large: 0,
            cells_small: 0,
            cells_large: 0,
        }
    }
}

impl Default for Armors {
    fn default() -> (r: Self)
        ensures
            r@.total() == 0,
    {
        Armors { green_armor: 0, yellow_armor: 0, red_armor: 0 }
    }
}

impl Default for Healthpacks {
    fn default() -> (r: Self)
        ensures
            r@.total() == 0,
    {
        Healthpacks { health_small: 0, health_large: 0, megahealth: 0 }
    }
}

impl Default for Items {
    fn default() -> (r: Self)
        ensures
            r@.total() == 0,
    {
        Items { silver_key: 0, gold_key: 0, red_flag: 0, blue_flag: 0, tf_goal: 0 }
    }
}

impl Default for Monsters {
    fn default() -> (r: Self)
        ensures
            r@.total() == 0,
    {
        Monsters {
            chton: 0,
            death_knight: 0,
            enforcer: 0,
            fiend: 0,
            grunt: 0,
            knight: 0,
            ogre: 0,
            rotfish: 0,
            rottweiler: 0,
            scrag: 0,
            shambler: 0,
            shub_niggurath: 0,
            spawn: 0,
            vore: 0,
            zombie: 0,
        }
    }
}

impl Default for Powerups {
    fn default() -> (r: Self)
        ensures
            r@.total() == 0,
    {
        Powerups { biosuit: 0, quad: 0, pent: 0, ring: 0 }
    }
}

impl Default for Spawns {
    fn default() -> (r: Self)
        ensures
            r@.total() == 0,
    {
        Spawns {
            coop: 0,
            deathmatch: 0,
            start: 0,
            team1: 0,
            team1_deathmatch: 0,
            team2: 0,
            team2_deathmatch: 0,
            teamspawn: 0,
        }
    }
}

impl Default for Triggers {
    fn default() -> (r: Self)
        ensures
            r@.total() == 0,
    {
        Triggers { changelevel: 0, secret: 0, teleport: 0 }
    }
}

impl Default for Points {
    fn default() -> (r: Self)
        ensures
            r@.total() == 0,
    {
        Points { zip: 0, start: 0 }
    }
}

impl Default for Weapons {
    fn default() -> (r: Self)
        ensures
            r@.total() == 0,
    {
        Weapons {
            super_shotgun: 0,
            nailgun: 0,
            super_nailgun: 0,
            grenade_launcher: 0,
            rocket_launcher: 0,
            ligthning_gun: 0,
        }
    }
}

impl Default for EntityCount {
    fn default() -> (r: Self)
        ensures
            r@ == census_of(Seq::<Map<Seq<char>, Seq<char>>>::empty()),
    {
        let r = EntityCount {
            ammo: Ammo::default(),
            armors: Armors::default(),
            healthpacks: Healthpacks::default(),
            items: Items::default(),
            monsters: Monsters::default(),
            points: Points::default(),
            powerups: Powerups::default(),
            spawns: Spawns::default(),
            triggers: Triggers::default(),
            weapons: Weapons::default(),
        };
        proof {
            lemma_census_empty();
        }
        r
    }
}

/// The census of no records has every counter at zero.
pub proof fn lemma_census_empty()
    ensures
        census_of(Seq::<Map<Seq<char>, Seq<char>>>::empty()) == (CensusView {
            ammo: AmmoView {
                shells_small: 0,
                shells_large: 0,
                nails_small: 0,
                nails_large: 0,
                rockets_small: 0,
                rockets_large: 0,
                cells_small: 0,
                cells_large: 0,
            },
            armors: ArmorsView { green_armor: 0, yellow_armor: 0, red_armor: 0 },
            healthpacks: HealthpacksView { health_small: 0, health_large: 0, megahealth: 0 },
            items: ItemsView { silver_key: 0, gold_key: 0, red_flag: 0, blue_flag: 0, tf_goal: 0 },
            monsters: MonstersView {
                chton: 0,
                death_knight: 0,
                enforcer: 0,
                fiend: 0,
                grunt: 0,
                knight: 0,
                ogre: 0,
                rotfish: 0,
                rottweiler: 0,
                scrag: 0,
                shambler: 0,
                shub_niggurath: 0,
                spawn: 0,
                vore: 0,
                zombie: 0,
            },
            points: PointsView { zip: 0, start: 0 },
            powerups: PowerupsView { biosuit: 0, quad: 0, pent: 0, ring: 0 },
            spawns: SpawnsView {
                coop: 0,
                deathmatch: 0,
                start: 0,
                team1: 0,
                team1_deathmatch: 0,
                team2: 0,
                team2_deathmatch: 0,
                teamspawn: 0,
            },
            triggers: TriggersView { changelevel: 0, secret: 0, teleport: 0 },
            weapons: WeaponsView {
                super_shotgun: 0,
                nailgun: 0,
                super_nailgun: 0,
                grenade_launcher: 0,
                rocket_launcher: 0,
                ligthning_gun: 0,
            },
        }),
{
    broadcast use vstd::seq_lib::group_filter_ensures;

    let rs = Seq::<Map<Seq<char>, Seq<char>>>::empty();
    assert forall|t: Tally| #[trigger] count_tally(rs, t) == 0 by {
        assert(rs.filter(tally_pred(t)).len() <= rs.len());
    }
}

} // verus!
