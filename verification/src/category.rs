//! The category classifier: an ordered rule chain over the completed census,
//! the level message, and the collected race routes.

use vstd::prelude::*;

use crate::census::CensusView;
use crate::report::BspInfo;
use crate::text::{lower_of, spec_contains, str_contains, to_lowercase_str};

verus! {

/// The category label for a census, level message, and route count.
///
/// The rules are ordered; the first that matches wins:
/// 1. Single Player: a monster and a level-change trigger.
/// 2. Capture the Flag: any per-team spawn or team flag.
/// 3. Team Fortress: a team-objective marker.
/// 4. Trick: the lowercased message contains `" trick "`, or there are no
///    deathmatch pickups at all and at least as many teleport triggers as
///    deathmatch spawns.
/// 5. Arena / Race: deathmatch spawns but no weapons; Arena when there is no
///    route or point marker, Race otherwise.
/// 6. Deathmatch: more than one deathmatch spawn.
/// 7. Other: the fallback.
pub open spec fn spec_category(c: CensusView, message: Seq<char>, n_routes: nat) -> Seq<char> {
    let has_dm_items = c.ammo.total() != 0 || c.armors.total() != 0 || c.weapons.total() != 0;
    if c.monsters.total() != 0 && c.triggers.changelevel > 0 {
        "Single Player"@
    } else if c.spawns.team1 + c.spawns.team2 + c.items.red_flag + c.items.blue_flag > 0 {
        "Capture the Flag"@
    } else if c.items.tf_goal > 0 {
        "Team Fortress"@
    } else if spec_contains(lower_of(message), " trick "@) || (!has_dm_items
        && c.triggers.teleport >= c.spawns.deathmatch) {
        "Trick"@
    } else if c.spawns.deathmatch > 0 && c.weapons.total() == 0 {
        if n_routes == 0 && c.points.total() == 0 {
            "Arena"@
        } else {
            "Race"@
        }
    } else if c.spawns.deathmatch > 1 {
        "Deathmatch"@
    } else {
        "Other"@
    }
}

/// Derives the play-mode label from a report's census, message, and race
/// routes; the report's own `category` field is not consulted.
pub fn get_category(info: &BspInfo) -> (r: String)
    requires
        info.entity_count@.total() <= u32::MAX,
    ensures
        r@ == spec_category(info.entity_count@, info.message@, info.race_routes@.len() as nat),
{
    let e = &info.entity_count;
    let has_dm_items = !e.ammo.is_empty() || !e.armors.is_empty() || !e.weapons.is_empty();

    if !e.monsters.is_empty() && e.triggers.changelevel > 0 {
        "Single Player".to_owned()
    } else if e.spawns.team1 + e.spawns.team2 + e.items.red_flag + e.items.blue_flag > 0 {
        "Capture the Flag".to_owned()
    } else if e.items.tf_goal > 0 {
        "Team Fortress".to_owned()
    } else if str_contains(to_lowercase_str(info.message.as_str()).as_str(), " trick ") || (
    !has_dm_items && e.triggers.teleport >= e.spawns.deathmatch) {
        "Trick".to_owned()
    } else if e.spawns.deathmatch > 0 && e.weapons.is_empty() {
        if info.race_routes.len() == 0 && e.points.is_empty() {
            "Arena".to_owned()
        } else {
            "Race".to_owned()
        }
    } else if e.spawns.deathmatch > 1 {
        "Deathmatch".to_owned()
    } else {
        "Other".to_owned()
    }
}

} // verus!
