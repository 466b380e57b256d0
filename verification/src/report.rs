//! The report: decoding a level file's entity dictionary, building the
//! census in one pass, and deriving the category label.

use vstd::prelude::*;

use crate::category::{get_category, spec_category};
use crate::census::{
    census_of, class_key, lemma_census_push, lemma_census_total_bound, CensusView, EntityCount,
    Tally,
};
use crate::record::{field_or_empty, get_string_value, EntityRecord};
use crate::text::str_eq;

verus! {

/// A race route collected verbatim from a route-start entity.
#[derive(Clone, Debug, Eq, PartialEq)]
pub struct RaceRoute {
    pub name: String,
    pub description: String,
}

pub struct RaceRouteView {
    pub name: Seq<char>,
    pub description: Seq<char>,
}

impl View for RaceRoute {
    type V = RaceRouteView;

    open spec fn view(&self) -> RaceRouteView {
        RaceRouteView { name: self.name@, description: self.description@ }
    }
}

impl Default for RaceRoute {
    fn default() -> (r: Self)
        ensures
            r@.name.len() == 0,
            r@.description.len() == 0,
    {
        RaceRoute { name: String::new(), description: String::new() }
    }
}

/// An intermission camera marker collected verbatim from its entity.
#[derive(Clone, Debug, Eq, PartialEq)]
pub struct Intermission {
    pub origin: String,
    pub mangle: String,
}

pub struct IntermissionView {
    pub origin: Seq<char>,
    pub mangle: Seq<char>,
}

impl View for Intermission {
    type V = IntermissionView;

    open spec fn view(&self) -> IntermissionView {
        IntermissionView { origin: self.origin@, mangle: self.mangle@ }
    }
}

impl Default for Intermission {
    fn default() -> (r: Self)
        ensures
            r@.origin.len() == 0,
            r@.mangle.len() == 0,
    {
        Intermission { origin: String::new(), mangle: String::new() }
    }
}

/// The upstream decoder rejected the input bytes.
#[derive(Clone, Debug, Eq, PartialEq)]
pub struct DecodeError {
    pub detail: String,
}

/// The classification report for one level file.
#[derive(Clone, Debug, Eq, PartialEq)]
pub struct BspInfo {
    pub message: String,
    pub size: u32,
    pub category: String,
    pub entity_count: EntityCount,
    pub intermissions: Vec<Intermission>,
    pub race_routes: Vec<RaceRoute>,
}

pub struct BspInfoView {
    pub message: Seq<char>,
    pub size: nat,
    pub category: Seq<char>,
    pub entity_count: CensusView,
    pub intermissions: Seq<IntermissionView>,
    pub race_routes: Seq<RaceRouteView>,
}

pub open spec fn route_seq_views(s: Seq<RaceRoute>) -> Seq<RaceRouteView> {
    s.map_values(|x: RaceRoute| x@)
}

pub open spec fn intermission_seq_views(s: Seq<Intermission>) -> Seq<IntermissionView> {
    s.map_values(|x: Intermission| x@)
}

impl View for BspInfo {
    type V = BspInfoView;

    open spec fn view(&self) -> BspInfoView {
        BspInfoView {
            message: self.message@,
            size: self.size as nat,
            category: self.category@,
            entity_count: self.entity_count@,
            intermissions: intermission_seq_views(self.intermissions@),
            race_routes: route_seq_views(self.race_routes@),
        }
    }
}

impl Default for BspInfo {
    fn default() -> (r: Self)
        ensures
            r@.message.len() == 0,
            r@.size == 0,
            r@.category.len() == 0,
            r@.entity_count == census_of(Seq::<Map<Seq<char>, Seq<char>>>::empty()),
            r@.intermissions.len() == 0,
            r@.race_routes.len() == 0,
    {
        let r = BspInfo {
            message: String::new(),
            size: 0,
            category: String::new(),
            entity_count: EntityCount::default(),
            intermissions: Vec::new(),
            race_routes: Vec::new(),
        };
        proof {
            assert(intermission_seq_views(r.intermissions@) =~= Seq::<IntermissionView>::empty());
            assert(route_seq_views(r.race_routes@) =~= Seq::<RaceRouteView>::empty());
        }
        r
    }
}

/// The views of a record sequence.
pub open spec fn record_views(s: Seq<EntityRecord>) -> Seq<Map<Seq<char>, Seq<char>>> {
    s.map_values(|r: EntityRecord| r@)
}

/// The level message: the `message` field of the last world-settings record,
/// or the empty string when there is none.
pub open spec fn message_of(rs: Seq<Map<Seq<char>, Seq<char>>>) -> Seq<char>
    decreases rs.len(),
{
    if rs.len() == 0 {
        Seq::empty()
    } else if class_key(rs.last()) is Worldspawn {
        field_or_empty(rs.last(), "message"@)
    } else {
        message_of(rs.drop_last())
    }
}

pub open spec fn route_view_of(r: Map<Seq<char>, Seq<char>>) -> RaceRouteView {
    RaceRouteView {
        name: field_or_empty(r, "race_route_name"@),
        description: field_or_empty(r, "race_route_description"@),
    }
}

pub open spec fn intermission_view_of(r: Map<Seq<char>, Seq<char>>) -> IntermissionView {
    IntermissionView {
        origin: field_or_empty(r, "origin"@),
        mangle: field_or_empty(r, "mangle"@),
    }
}

/// `route_view_of`, as a function value.
pub open spec fn as_route_view() -> spec_fn(Map<Seq<char>, Seq<char>>) -> RaceRouteView {
    |r: Map<Seq<char>, Seq<char>>| route_view_of(r)
}

/// `intermission_view_of`, as a function value.
pub open spec fn as_intermission_view() -> spec_fn(Map<Seq<char>, Seq<char>>) -> IntermissionView {
    |r: Map<Seq<char>, Seq<char>>| intermission_view_of(r)
}

/// The race routes of the record sequence, in encounter order.
pub open spec fn route_views_of(rs: Seq<Map<Seq<char>, Seq<char>>>) -> Seq<RaceRouteView>
    decreases rs.len(),
{
    if rs.len() == 0 {
        Seq::empty()
    } else if class_key(rs.last()) is RouteStart {
        route_views_of(rs.drop_last()).push(route_view_of(rs.last()))
    } else {
        route_views_of(rs.drop_last())
    }
}

/// The intermission cameras of the record sequence, in encounter order.
pub open spec fn intermission_views_of(rs: Seq<Map<Seq<char>, Seq<char>>>) -> Seq<IntermissionView>
    decreases rs.len(),
{
    if rs.len() == 0 {
        Seq::empty()
    } else if class_key(rs.last()) is IntermissionCam {
        intermission_views_of(rs.drop_last()).push(intermission_view_of(rs.last()))
    } else {
        intermission_views_of(rs.drop_last())
    }
}

/// The full report a record sequence and input size determine.
pub open spec fn report_of_records(rs: Seq<Map<Seq<char>, Seq<char>>>, size: nat) -> BspInfoView {
    BspInfoView {
        message: message_of(rs),
        size,
        category: spec_category(census_of(rs), message_of(rs), route_views_of(rs).len()),
        entity_count: census_of(rs),
        intermissions: intermission_views_of(rs),
        race_routes: route_views_of(rs),
    }
}

/// What the upstream decoder yields on the given bytes: the entity records
/// as string maps, or the text of the decode error when it rejects the
/// input. Both depend on the bytes alone; the decoding of the binary level
/// format takes pages to state, so it is only named here.
pub uninterp spec fn decoded_records(bytes: Seq<u8>) -> Result<
    Seq<Map<Seq<char>, Seq<char>>>,
    Seq<char>,
>;

/// Relies on bspparser's `BspFile::parse`: the decoded entity dictionaries
/// and the error text depend on the input bytes alone, each dictionary has
/// distinct keys, and one entity takes at least one input byte, so there are
/// never more entities than bytes.
#[verifier::external_body]
fn decode_records(bytes: &[u8]) -> (r: Result<Vec<EntityRecord>, DecodeError>)
    ensures
        r is Ok <==> decoded_records(bytes@) is Ok,
        r matches Ok(v) ==> {
            &&& v@.len() == decoded_records(bytes@)->Ok_0.len()
            &&& v@.len() <= bytes@.len()
            &&& forall|i: int|
                0 <= i < v@.len() ==> (#[trigger] v@[i]).wf() && v@[i]@ == decoded_records(
                    bytes@,
                )->Ok_0[i]
        },
        r matches Err(e) ==> e.detail@ == decoded_records(bytes@)->Err_0,
{
    match bspparser::BspFile::parse(&mut std::io::Cursor::new(bytes)) {
        Ok(bsp) => Ok(
            bsp.entities.into_iter().map(
                |f| EntityRecord { fields: f.into_iter().collect() },
            ).collect(),
        ),
        Err(err) => Err(DecodeError { detail: err.to_string() }),
    }
}

proof fn lemma_report_lists_push(rs: Seq<Map<Seq<char>, Seq<char>>>, r: Map<Seq<char>, Seq<char>>)
    ensures
        message_of(rs.push(r)) == if class_key(r) is Worldspawn {
            field_or_empty(r, "message"@)
        } else {
            message_of(rs)
        },
        route_views_of(rs.push(r)) == if class_key(r) is RouteStart {
            route_views_of(rs).push(route_view_of(r))
        } else {
            route_views_of(rs)
        },
        intermission_views_of(rs.push(r)) == if class_key(r) is IntermissionCam {
            intermission_views_of(rs).push(intermission_view_of(r))
        } else {
            intermission_views_of(rs)
        },
{
    assert(rs.push(r).drop_last() =~= rs);
    assert(rs.push(r).last() == r);
}

/// A record that falls into no bucket leaves the message and both collected
/// lists unchanged, at whatever position it is inserted.
pub(crate) proof fn lemma_report_lists_insert_unknown(
    rs: Seq<Map<Seq<char>, Seq<char>>>,
    i: int,
    r: Map<Seq<char>, Seq<char>>,
)
    requires
        0 <= i <= rs.len(),
        class_key(r) == Tally::Unknown,
    ensures
        message_of(rs.insert(i, r)) == message_of(rs),
        route_views_of(rs.insert(i, r)) == route_views_of(rs),
        intermission_views_of(rs.insert(i, r)) == intermission_views_of(rs),
    decreases rs.len(),
{
    if i == rs.len() {
        assert(rs.insert(i, r) =~= rs.push(r));
        lemma_report_lists_push(rs, r);
    } else {
        let s2 = rs.insert(i, r);
        assert(s2.last() == rs.last());
        assert(s2.drop_last() =~= rs.drop_last().insert(i, r));
        lemma_report_lists_insert_unknown(rs.drop_last(), i, r);
    }
}

impl BspInfo {
    /// Builds the report from an already-decoded record sequence in one pass:
    /// tallies every record by the dispatch table, extracts the level message
    /// and the route/intermission lists, and derives the category.
    #[verifier::rlimit(100)]
    pub fn from_records(records: &Vec<EntityRecord>, size: u32) -> (r: BspInfo)
        requires
            forall|i: int| 0 <= i < records@.len() ==> (#[trigger] records@[i]).wf(),
            records@.len() <= u32::MAX,
        ensures
            r@ == report_of_records(record_views(records@), size as nat),
    {
        let ghost vs = record_views(records@);
        let mut message: String = String::new();
        let mut race_routes: Vec<RaceRoute> = Vec::new();
        let mut intermissions: Vec<Intermission> = Vec::new();
        let mut e = EntityCount::default();
        let mut i: usize = 0;

        proof {
            assert(vs.take(0) =~= Seq::<Map<Seq<char>, Seq<char>>>::empty());
            assert(route_seq_views(race_routes@) =~= Seq::<RaceRouteView>::empty());
            assert(intermission_seq_views(intermissions@) =~= Seq::<IntermissionView>::empty());
        }
        while i < records.len()
            invariant
                0 <= i <= records@.len(),
                records@.len() <= u32::MAX,
                forall|k: int| 0 <= k < records@.len() ==> (#[trigger] records@[k]).wf(),
                vs == record_views(records@),
                e@ == census_of(vs.take(i as int)),
                message@ == message_of(vs.take(i as int)),
                route_seq_views(race_routes@) == route_views_of(vs.take(i as int)),
                intermission_seq_views(intermissions@) == intermission_views_of(vs.take(i as int)),
            decreases records@.len() - i,
        {
            let ghost prefix = vs.take(i as int);
            let rec = &records[i];
            proof {
                assert(vs[i as int] == records@[i as int]@);
                assert(vs.take(i as int + 1) =~= prefix.push(vs[i as int]));
                lemma_census_push(prefix, vs[i as int]);
                lemma_report_lists_push(prefix, vs[i as int]);
                assert forall|t: Tally| #[trigger] crate::census::count_tally(prefix, t)
                    <= i by {
                    prefix.lemma_filter_len(crate::census::tally_pred(t));
                }
            }
            if let Some(cn) = rec.get("classname") {
                let sf = rec.get("spawnflags");
                let c = cn.as_str();
                if str_eq(c, "worldspawn") {
                    message = get_string_value(rec, "message");
                } else if str_eq(c, "info_player_coop") {
                    e.spawns.coop = e.spawns.coop + 1;
                } else if str_eq(c, "info_player_deathmatch") {
                    e.spawns.deathmatch = e.spawns.deathmatch + 1;
                } else if str_eq(c, "info_player_start") {
                    e.spawns.start = e.spawns.start + 1;
                } else if str_eq(c, "info_player_team1") {
                    e.spawns.team1 = e.spawns.team1 + 1;
                } else if str_eq(c, "info_player_team2") {
                    e.spawns.team2 = e.spawns.team2 + 1;
                } else if str_eq(c, "info_player_team1_deathmatch") {
                    e.spawns.team1_deathmatch = e.spawns.team1_deathmatch + 1;
                } else if str_eq(c, "info_player_team2_deathmatch") {
                    e.spawns.team2_deathmatch = e.spawns.team2_deathmatch + 1;
                } else if str_eq(c, "info_player_teamspawn") || str_eq(c, "i_p_t") {
                    e.spawns.teamspawn = e.spawns.teamspawn + 1;
                } else if str_eq(c, "monster_army") {
                    e.monsters.grunt = e.monsters.grunt + 1;
                } else if str_eq(c, "monster_boss") {
                    e.monsters.chton = e.monsters.chton + 1;
                } else if str_eq(c, "monster_demon1") {
                    e.monsters.fiend = e.monsters.fiend + 1;
                } else if str_eq(c, "monster_dog") {
                    e.monsters.rottweiler = e.monsters.rottweiler + 1;
                } else if str_eq(c, "monster_enforcer") {
                    e.monsters.enforcer = e.monsters.enforcer + 1;
                } else if str_eq(c, "monster_fish") {
                    e.monsters.rotfish = e.monsters.rotfish + 1;
                } else if str_eq(c, "monster_hell_knight") {
                    e.monsters.death_knight = e.monsters.death_knight + 1;
                } else if str_eq(c, "monster_knight") {
                    e.monsters.knight = e.monsters.knight + 1;
                } else if str_eq(c, "monster_ogre") {
                    e.monsters.ogre = e.monsters.ogre + 1;
                } else if str_eq(c, "monster_oldone") {
                    e.monsters.shub_niggurath = e.monsters.shub_niggurath + 1;
                } else if str_eq(c, "monster_shalrath") {
                    e.monsters.vore = e.monsters.vore + 1;
                } else if str_eq(c, "monster_shambler") {
                    e.monsters.shambler = e.monsters.shambler + 1;
                } else if str_eq(c, "monster_tarbaby") {
                    e.monsters.spawn = e.monsters.spawn + 1;
                } else if str_eq(c, "monster_wizard") {
                    e.monsters.scrag = e.monsters.scrag + 1;
                } else if str_eq(c, "monster_zombie") {
                    e.monsters.zombie = e.monsters.zombie + 1;
                } else if str_eq(c, "item_armor1") {
                    e.armors.green_armor = e.armors.green_armor + 1;
                } else if str_eq(c, "item_armor2") {
                    e.armors.yellow_armor = e.armors.yellow_armor + 1;
                } else if str_eq(c, "item_armorInv") {
                    e.armors.red_armor = e.armors.red_armor + 1;
                } else if str_eq(c, "item_artifact_envirosuit") {
                    e.powerups.biosuit = e.powerups.biosuit + 1;
                } else if str_eq(c, "item_artifact_super_damage") {
                    e.powerups.quad = e.powerups.quad + 1;
                } else if str_eq(c, "item_artifact_invulnerability") {
                    e.powerups.pent = e.powerups.pent + 1;
                } else if str_eq(c, "item_artifact_invisibility") {
                    e.powerups.ring = e.powerups.ring + 1;
                } else if str_eq(c, "item_health") {
                    match sf {
                        None => {
                            e.healthpacks.health_small = e.healthpacks.health_small + 1;
                        },
                        Some(v) => {
                            if str_eq(v.as_str(), "1") {
                                e.healthpacks.health_large = e.healthpacks.health_large + 1;
                            } else if str_eq(v.as_str(), "2") {
                                e.healthpacks.megahealth = e.healthpacks.megahealth + 1;
                            }
                        },
                    }
                } else if str_eq(c, "item_key1") {
                    e.items.silver_key = e.items.silver_key + 1;
                } else if str_eq(c, "item_key2") {
                    e.items.gold_key = e.items.gold_key + 1;
                } else if str_eq(c, "item_flag_team1") {
                    e.items.red_flag = e.items.red_flag + 1;
                } else if str_eq(c, "item_flag_team2") {
                    e.items.blue_flag = e.items.blue_flag + 1;
                } else if str_eq(c, "item_tfgoal") {
                    e.items.tf_goal = e.items.tf_goal + 1;
                } else if str_eq(c, "point_start") {
                    e.points.start = e.points.start + 1;
                } else if str_eq(c, "point_zip") {
                    e.points.zip = e.points.zip + 1;
                } else if str_eq(c, "item_shells") {
                    if sf.is_none() {
                        e.ammo.shells_small = e.ammo.shells_small + 1;
                    } else {
                        e.ammo.shells_large = e.ammo.shells_large + 1;
                    }
                } else if str_eq(c, "item_spikes") {
                    if sf.is_none() {
                        e.ammo.nails_small = e.ammo.nails_small + 1;
                    } else {
                        e.ammo.nails_large = e.ammo.nails_large + 1;
                    }
                } else if str_eq(c, "item_rockets") {
                    if sf.is_none() {
                        e.ammo.rockets_small = e.ammo.rockets_small + 1;
                    } else {
                        e.ammo.rockets_large = e.ammo.rockets_large + 1;
                    }
                } else if str_eq(c, "item_cells") {
                    if sf.is_none() {
                        e.ammo.cells_small = e.ammo.cells_small + 1;
                    } else {
                        e.ammo.cells_large = e.ammo.cells_large + 1;
                    }
                } else if str_eq(c, "weapon_supershotgun") {
                    e.weapons.super_shotgun = e.weapons.super_shotgun + 1;
                } else if str_eq(c, "weapon_nailgun") {
                    e.weapons.nailgun = e.weapons.nailgun + 1;
                } else if str_eq(c, "weapon_supernailgun") {
                    e.weapons.super_nailgun = e.weapons.super_nailgun + 1;
                } else if str_eq(c, "weapon_grenadelauncher") {
                    e.weapons.grenade_launcher = e.weapons.grenade_launcher + 1;
                } else if str_eq(c, "weapon_rocketlauncher") {
                    e.weapons.rocket_launcher = e.weapons.rocket_launcher + 1;
                } else if str_eq(c, "weapon_lightning") {
                    e.weapons.ligthning_gun = e.weapons.ligthning_gun + 1;
                } else if str_eq(c, "trigger_changelevel") {
                    e.triggers.changelevel = e.triggers.changelevel + 1;
                } else if str_eq(c, "trigger_secret") {
                    e.triggers.secret = e.triggers.secret + 1;
                } else if str_eq(c, "trigger_teleport") {
                    e.triggers.teleport = e.triggers.teleport + 1;
                } else if str_eq(c, "race_route_start") {
                    race_routes.push(
                        RaceRoute {
                            name: get_string_value(rec, "race_route_name"),
                            description: get_string_value(rec, "race_route_description"),
                        },
                    );
                    proof {
                        assert(route_seq_views(race_routes@) =~= route_views_of(
                            vs.take(i as int + 1),
                        ));
                    }
                } else if str_eq(c, "info_intermission") {
                    intermissions.push(
                        Intermission {
                            origin: get_string_value(rec, "origin"),
                            mangle: get_string_value(rec, "mangle"),
                        },
                    );
                    proof {
                        assert(intermission_seq_views(intermissions@) =~= intermission_views_of(
                            vs.take(i as int + 1),
                        ));
                    }
                }
            }
            i += 1;
        }
        proof {
            assert(vs.take(records@.len() as int) =~= vs);
            lemma_census_total_bound(vs);
        }
        let mut info = BspInfo {
            message,
            size,
            category: String::new(),
            entity_count: e,
            intermissions,
            race_routes,
        };
        let category = get_category(&info);
        info.category = category;
        info
    }

    /// Decodes the level bytes and classifies them: the downstream boundary.
    /// Fails exactly when the upstream decoder rejects the bytes, and then
    /// surfaces the decoder's error text verbatim.
    pub fn from_bytes(bytes: &[u8]) -> (r: Result<BspInfo, DecodeError>)
        requires
            bytes@.len() <= u32::MAX,
        ensures
            r is Ok <==> decoded_records(bytes@) is Ok,
            r matches Ok(info) ==> info@ == spec_report(bytes@),
            r matches Err(e) ==> e.detail@ == decoded_records(bytes@)->Err_0,
    {
        match decode_records(bytes) {
            Ok(records) => {
                proof {
                    assert(record_views(records@) =~= decoded_records(bytes@)->Ok_0);
                }
                Ok(BspInfo::from_records(&records, bytes.len() as u32))
            },
            Err(e) => Err(e),
        }
    }
}

/// The report that a successful classification of the given bytes yields: a
/// function of the bytes alone.
pub open spec fn spec_report(bytes: Seq<u8>) -> BspInfoView {
    report_of_records(decoded_records(bytes)->Ok_0, bytes.len())
}

} // verus!
