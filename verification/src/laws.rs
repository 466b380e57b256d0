//! The library's stated laws, proved against the census and classifier
//! specifications.

use vstd::multiset::Multiset;
use vstd::prelude::*;

use crate::category::spec_category;
use crate::census::{
    bump, census_of, class_key, classname_of, count_tally, lemma_census_push, spawnflags_of,
    tally_pred, CensusView, Tally,
};
use crate::report::{
    as_intermission_view, as_route_view, decoded_records, intermission_view_of,
    intermission_views_of, lemma_report_lists_insert_unknown, message_of, report_of_records,
    route_view_of, route_views_of, spec_report, BspInfoView, IntermissionView, RaceRouteView,
};
use crate::text::{lower_of, spec_contains};

verus! {

/// A bucket's count depends only on the multiset of records.
proof fn lemma_count_tally_multiset(rs: Seq<Map<Seq<char>, Seq<char>>>, t: Tally)
    ensures
        count_tally(rs, t) == rs.to_multiset().filter(tally_pred(t)).len(),
    decreases rs.len(),
{
    broadcast use vstd::seq_lib::group_to_multiset_ensures;
    broadcast use vstd::multiset::group_multiset_axioms;

    let p = tally_pred(t);
    if rs.len() == 0 {
        rs.lemma_filter_len(p);
        vstd::multiset::lemma_multiset_empty_len(rs.to_multiset());
        assert(rs.to_multiset().filter(p) =~= Multiset::<Map<Seq<char>, Seq<char>>>::empty());
    } else {
        let s = rs.drop_last();
        let x = rs.last();
        lemma_count_tally_multiset(s, t);
        assert(rs =~= s.push(x));
        Seq::lemma_filter_push(s, x, p);
        let m = s.to_multiset();
        assert(rs.to_multiset() =~= m.insert(x));
        if p(x) {
            assert(m.insert(x).filter(p) =~= m.filter(p).insert(x));
            vstd::multiset::lemma_insert_len(m.filter(p), x);
        } else {
            assert(m.insert(x).filter(p) =~= m.filter(p));
        }
    }
}

/// Order-independence of the counters: two record sequences that hold the
/// same records with the same multiplicity, in any order, have the same
/// census.
pub proof fn lemma_census_order_independent(
    a: Seq<Map<Seq<char>, Seq<char>>>,
    b: Seq<Map<Seq<char>, Seq<char>>>,
)
    requires
        a.to_multiset() == b.to_multiset(),
    ensures
        census_of(a) == census_of(b),
{
    assert forall|t: Tally| #[trigger] count_tally(a, t) == count_tally(b, t) by {
        lemma_count_tally_multiset(a, t);
        lemma_count_tally_multiset(b, t);
    }
}

/// Unknown-classname tolerance: inserting a record that falls into no
/// bucket, at any position, leaves every counter unchanged, and the message
/// and both collected lists with it.
#[verifier::rlimit(60)]
pub proof fn lemma_unrecognized_record_ignored(
    rs: Seq<Map<Seq<char>, Seq<char>>>,
    i: int,
    r: Map<Seq<char>, Seq<char>>,
)
    requires
        0 <= i <= rs.len(),
        class_key(r) == Tally::Unknown,
    ensures
        census_of(rs.insert(i, r)) == census_of(rs),
        message_of(rs.insert(i, r)) == message_of(rs),
        route_views_of(rs.insert(i, r)) == route_views_of(rs),
        intermission_views_of(rs.insert(i, r)) == intermission_views_of(rs),
{
    lemma_report_lists_insert_unknown(rs, i, r);
    broadcast use vstd::seq_lib::group_to_multiset_ensures;
    broadcast use vstd::multiset::group_multiset_axioms;

    let s2 = rs.insert(i, r);
    let s3 = rs.push(r);
    assert(s2.remove(i) =~= rs);
    assert(s3.remove(rs.len() as int) =~= rs);
    assert(s2[i] == r);
    assert(s3[rs.len() as int] == r);
    assert(s2.contains(r));
    assert(s3.contains(r));
    assert(s2.to_multiset() =~= s3.to_multiset()) by {
        assert(rs.to_multiset() =~= s2.to_multiset().remove(r));
        assert(rs.to_multiset() =~= s3.to_multiset().remove(r));
        assert(s2.to_multiset().count(r) > 0);
        assert(s3.to_multiset().count(r) > 0);
        assert forall|v: Map<Seq<char>, Seq<char>>|
            #[trigger] s2.to_multiset().count(v) == s3.to_multiset().count(v) by {
            if v == r {
                assert(s2.to_multiset().remove(r).count(r) == s2.to_multiset().count(r) - 1);
                assert(s3.to_multiset().remove(r).count(r) == s3.to_multiset().count(r) - 1);
            } else {
                assert(s2.to_multiset().remove(r).count(v) == s2.to_multiset().count(v));
                assert(s3.to_multiset().remove(r).count(v) == s3.to_multiset().count(v));
            }
        }
    }
    lemma_census_order_independent(s2, s3);
    lemma_census_push(rs, r);
    assert(bump(census_of(rs), Tally::Unknown) == census_of(rs));
}

/// The collected race routes are exactly the route-start records, in
/// encounter order, each reduced to its name/description fields.
pub proof fn lemma_route_list_shape(rs: Seq<Map<Seq<char>, Seq<char>>>)
    ensures
        route_views_of(rs) == rs.filter(tally_pred(Tally::RouteStart)).map_values(as_route_view()),
    decreases rs.len(),
{
    let p = tally_pred(Tally::RouteStart);
    let f = as_route_view();
    if rs.len() == 0 {
        rs.lemma_filter_len(p);
        assert(rs.filter(p).map_values(f) =~= Seq::<RaceRouteView>::empty());
    } else {
        let dl = rs.drop_last();
        let x = rs.last();
        lemma_route_list_shape(dl);
        assert(rs =~= dl.push(x));
        Seq::lemma_filter_push(dl, x, p);
        if class_key(x) is RouteStart {
            assert(dl.filter(p).push(x).map_values(f) =~= dl.filter(p).map_values(f).push(
                route_view_of(x),
            ));
        }
    }
}

/// The collected intermission cameras are exactly the intermission records,
/// in encounter order, each reduced to its origin/mangle fields.
pub proof fn lemma_intermission_list_shape(rs: Seq<Map<Seq<char>, Seq<char>>>)
    ensures
        intermission_views_of(rs) == rs.filter(tally_pred(Tally::IntermissionCam)).map_values(
            as_intermission_view(),
        ),
    decreases rs.len(),
{
    let p = tally_pred(Tally::IntermissionCam);
    let f = as_intermission_view();
    if rs.len() == 0 {
        rs.lemma_filter_len(p);
        assert(rs.filter(p).map_values(f) =~= Seq::<IntermissionView>::empty());
    } else {
        let dl = rs.drop_last();
        let x = rs.last();
        lemma_intermission_list_shape(dl);
        assert(rs =~= dl.push(x));
        Seq::lemma_filter_push(dl, x, p);
        if class_key(x) is IntermissionCam {
            assert(dl.filter(p).push(x).map_values(f) =~= dl.filter(p).map_values(f).push(
                intermission_view_of(x),
            ));
        }
    }
}

/// The secondary-discriminator edge case: a healthpack whose `spawnflags`
/// value is present but neither the literal text `1` nor `2` falls into no
/// bucket, so it leaves every counter unchanged.
pub proof fn lemma_healthpack_flags_mismatch_uncounted(
    rs: Seq<Map<Seq<char>, Seq<char>>>,
    r: Map<Seq<char>, Seq<char>>,
)
    requires
        classname_of(r) == Some("item_health"@),
        spawnflags_of(r) matches Some(v) && v != "1"@ && v != "2"@,
    ensures
        census_of(rs.push(r)) == census_of(rs),
{
    reveal_strlit("item_health");
    reveal_strlit("worldspawn");
    reveal_strlit("info_player_coop");
    reveal_strlit("info_player_deathmatch");
    reveal_strlit("info_player_start");
    reveal_strlit("info_player_team1");
    reveal_strlit("info_player_team2");
    reveal_strlit("info_player_team1_deathmatch");
    reveal_strlit("info_player_team2_deathmatch");
    reveal_strlit("info_player_teamspawn");
    reveal_strlit("i_p_t");
    reveal_strlit("monster_army");
    reveal_strlit("monster_boss");
    reveal_strlit("monster_demon1");
    reveal_strlit("monster_dog");
    reveal_strlit("monster_enforcer");
    reveal_strlit("monster_fish");
    reveal_strlit("monster_hell_knight");
    reveal_strlit("monster_knight");
    reveal_strlit("monster_ogre");
    reveal_strlit("monster_oldone");
    reveal_strlit("monster_shalrath");
    reveal_strlit("monster_shambler");
    reveal_strlit("monster_tarbaby");
    reveal_strlit("monster_wizard");
    reveal_strlit("monster_zombie");
    reveal_strlit("item_armor1");
    reveal_strlit("item_armor2");
    reveal_strlit("item_armorInv");
    reveal_strlit("item_artifact_envirosuit");
    reveal_strlit("item_artifact_super_damage");
    reveal_strlit("item_artifact_invulnerability");
    reveal_strlit("item_artifact_invisibility");
    let cn = "item_health"@;
    assert(cn[0] != "worldspawn"@[0]);
    assert(cn != "worldspawn"@);
    assert(cn[1] != "info_player_coop"@[1]);
    assert(cn != "info_player_coop"@);
    assert(cn[1] != "info_player_deathmatch"@[1]);
    assert(cn != "info_player_deathmatch"@);
    assert(cn[1] != "info_player_start"@[1]);
    assert(cn != "info_player_start"@);
    assert(cn[1] != "info_player_team1"@[1]);
    assert(cn != "info_player_team1"@);
    assert(cn[1] != "info_player_team2"@[1]);
    assert(cn != "info_player_team2"@);
    assert(cn[1] != "info_player_team1_deathmatch"@[1]);
    assert(cn != "info_player_team1_deathmatch"@);
    assert(cn[1] != "info_player_team2_deathmatch"@[1]);
    assert(cn != "info_player_team2_deathmatch"@);
    assert(cn[1] != "info_player_teamspawn"@[1]);
    assert(cn != "info_player_teamspawn"@);
    assert(cn[1] != "i_p_t"@[1]);
    assert(cn != "i_p_t"@);
    assert(cn[0] != "monster_army"@[0]);
    assert(cn != "monster_army"@);
    assert(cn[0] != "monster_boss"@[0]);
    assert(cn != "monster_boss"@);
    assert(cn[0] != "monster_demon1"@[0]);
    assert(cn != "monster_demon1"@);
    assert(cn[0] != "monster_dog"@[0]);
    assert(cn != "monster_dog"@);
    assert(cn[0] != "monster_enforcer"@[0]);
    assert(cn != "monster_enforcer"@);
    assert(cn[0] != "monster_fish"@[0]);
    assert(cn != "monster_fish"@);
    assert(cn[0] != "monster_hell_knight"@[0]);
    assert(cn != "monster_hell_knight"@);
    assert(cn[0] != "monster_knight"@[0]);
    assert(cn != "monster_knight"@);
    assert(cn[0] != "monster_ogre"@[0]);
    assert(cn != "monster_ogre"@);
    assert(cn[0] != "monster_oldone"@[0]);
    assert(cn != "monster_oldone"@);
    assert(cn[0] != "monster_shalrath"@[0]);
    assert(cn != "monster_shalrath"@);
    assert(cn[0] != "monster_shambler"@[0]);
    assert(cn != "monster_shambler"@);
    assert(cn[0] != "monster_tarbaby"@[0]);
    assert(cn != "monster_tarbaby"@);
    assert(cn[0] != "monster_wizard"@[0]);
    assert(cn != "monster_wizard"@);
    assert(cn[0] != "monster_zombie"@[0]);
    assert(cn != "monster_zombie"@);
    assert(cn[5] != "item_armor1"@[5]);
    assert(cn != "item_armor1"@);
    assert(cn[5] != "item_armor2"@[5]);
    assert(cn != "item_armor2"@);
    assert(cn[5] != "item_armorInv"@[5]);
    assert(cn != "item_armorInv"@);
    assert(cn[5] != "item_artifact_envirosuit"@[5]);
    assert(cn != "item_artifact_envirosuit"@);
    assert(cn[5] != "item_artifact_super_damage"@[5]);
    assert(cn != "item_artifact_super_damage"@);
    assert(cn[5] != "item_artifact_invulnerability"@[5]);
    assert(cn != "item_artifact_invulnerability"@);
    assert(cn[5] != "item_artifact_invisibility"@[5]);
    assert(cn != "item_artifact_invisibility"@);
    assert(class_key(r) == Tally::Unknown);
    lemma_census_push(rs, r);
    assert(bump(census_of(rs), Tally::Unknown) == census_of(rs));
}

/// No bucket of the record sequence holds any record: its count is zero.
proof fn lemma_count_tally_none(rs: Seq<Map<Seq<char>, Seq<char>>>, t: Tally)
    requires
        forall|k: int| 0 <= k < rs.len() ==> class_key(#[trigger] rs[k]) != t,
    ensures
        count_tally(rs, t) == 0,
    decreases rs.len(),
{
    broadcast use vstd::seq_lib::group_filter_ensures;

    if rs.len() == 0 {
        assert(rs.filter(tally_pred(t)).len() <= rs.len());
    } else {
        let dl = rs.drop_last();
        assert(forall|k: int| 0 <= k < dl.len() ==> class_key(#[trigger] dl[k]) != t);
        lemma_count_tally_none(dl, t);
        assert(rs =~= dl.push(rs.last()));
        Seq::lemma_filter_push(dl, rs.last(), tally_pred(t));
    }
}

/// Exactly one record of the sequence falls into bucket `t`: its count is
/// one.
proof fn lemma_count_tally_one(rs: Seq<Map<Seq<char>, Seq<char>>>, t: Tally, w: int)
    requires
        0 <= w < rs.len(),
        class_key(rs[w]) == t,
        forall|k: int| 0 <= k < rs.len() && k != w ==> class_key(#[trigger] rs[k]) != t,
    ensures
        count_tally(rs, t) == 1,
    decreases rs.len(),
{
    let dl = rs.drop_last();
    assert(rs =~= dl.push(rs.last()));
    Seq::lemma_filter_push(dl, rs.last(), tally_pred(t));
    if w == rs.len() - 1 {
        assert(forall|k: int| 0 <= k < dl.len() ==> class_key(#[trigger] dl[k]) != t);
        lemma_count_tally_none(dl, t);
    } else {
        assert(dl[w] == rs[w]);
        assert(forall|k: int| 0 <= k < dl.len() && k != w ==> class_key(#[trigger] dl[k]) != t);
        lemma_count_tally_one(dl, t, w);
        assert(class_key(rs[rs.len() - 1]) != t);
    }
}

/// A `monster_army` record always lands in the grunt bucket.
proof fn lemma_class_key_monster_army(r: Map<Seq<char>, Seq<char>>)
    requires
        classname_of(r) == Some("monster_army"@),
    ensures
        class_key(r) == Tally::MonsterGrunt,
{
    reveal_strlit("monster_army");
    reveal_strlit("worldspawn");
    reveal_strlit("info_player_coop");
    reveal_strlit("info_player_deathmatch");
    reveal_strlit("info_player_start");
    reveal_strlit("info_player_team1");
    reveal_strlit("info_player_team2");
    reveal_strlit("info_player_team1_deathmatch");
    reveal_strlit("info_player_team2_deathmatch");
    reveal_strlit("info_player_teamspawn");
    reveal_strlit("i_p_t");
    let cn = "monster_army"@;
    assert(cn[0] != "worldspawn"@[0]);
    assert(cn != "worldspawn"@);
    assert(cn[0] != "info_player_coop"@[0]);
    assert(cn != "info_player_coop"@);
    assert(cn != "info_player_deathmatch"@);
    assert(cn != "info_player_start"@);
    assert(cn != "info_player_team1"@);
    assert(cn != "info_player_team2"@);
    assert(cn != "info_player_team1_deathmatch"@);
    assert(cn != "info_player_team2_deathmatch"@);
    assert(cn != "info_player_teamspawn"@);
    assert(cn[0] != "i_p_t"@[0]);
    assert(cn != "i_p_t"@);
}

/// A `trigger_changelevel` record always lands in the level-change bucket.
proof fn lemma_class_key_trigger_changelevel(r: Map<Seq<char>, Seq<char>>)
    requires
        classname_of(r) == Some("trigger_changelevel"@),
    ensures
        class_key(r) == Tally::TriggerChangelevel,
{
    reveal_strlit("trigger_changelevel");
    reveal_strlit("worldspawn");
    reveal_strlit("info_player_coop");
    reveal_strlit("info_player_deathmatch");
    reveal_strlit("info_player_start");
    reveal_strlit("info_player_team1");
    reveal_strlit("info_player_team2");
    reveal_strlit("info_player_team1_deathmatch");
    reveal_strlit("info_player_team2_deathmatch");
    reveal_strlit("info_player_teamspawn");
    reveal_strlit("i_p_t");
    reveal_strlit("monster_army");
    reveal_strlit("monster_boss");
    reveal_strlit("monster_demon1");
    reveal_strlit("monster_dog");
    reveal_strlit("monster_enforcer");
    reveal_strlit("monster_fish");
    reveal_strlit("monster_hell_knight");
    reveal_strlit("monster_knight");
    reveal_strlit("monster_ogre");
    reveal_strlit("monster_oldone");
    reveal_strlit("monster_shalrath");
    reveal_strlit("monster_shambler");
    reveal_strlit("monster_tarbaby");
    reveal_strlit("monster_wizard");
    reveal_strlit("monster_zombie");
    reveal_strlit("item_armor1");
    reveal_strlit("item_armor2");
    reveal_strlit("item_armorInv");
    reveal_strlit("item_artifact_envirosuit");
    reveal_strlit("item_artifact_super_damage");
    reveal_strlit("item_artifact_invulnerability");
    reveal_strlit("item_artifact_invisibility");
    reveal_strlit("item_health");
    reveal_strlit("item_key1");
    reveal_strlit("item_key2");
    reveal_strlit("item_flag_team1");
    reveal_strlit("item_flag_team2");
    reveal_strlit("item_tfgoal");
    reveal_strlit("point_start");
    reveal_strlit("point_zip");
    reveal_strlit("item_shells");
    reveal_strlit("item_spikes");
    reveal_strlit("item_rockets");
    reveal_strlit("item_cells");
    reveal_strlit("weapon_supershotgun");
    reveal_strlit("weapon_nailgun");
    reveal_strlit("weapon_supernailgun");
    reveal_strlit("weapon_grenadelauncher");
    reveal_strlit("weapon_rocketlauncher");
    reveal_strlit("weapon_lightning");
    let cn = "trigger_changelevel"@;
    assert(cn[0] != "worldspawn"@[0]);
    assert(cn != "worldspawn"@);
    assert(cn[0] != "info_player_coop"@[0]);
    assert(cn != "info_player_coop"@);
    assert(cn != "info_player_deathmatch"@);
    assert(cn != "info_player_start"@);
    assert(cn != "info_player_team1"@);
    assert(cn != "info_player_team2"@);
    assert(cn != "info_player_team1_deathmatch"@);
    assert(cn != "info_player_team2_deathmatch"@);
    assert(cn != "info_player_teamspawn"@);
    assert(cn[0] != "i_p_t"@[0]);
    assert(cn != "i_p_t"@);
    assert(cn[0] != "monster_army"@[0]);
    assert(cn != "monster_army"@);
    assert(cn != "monster_boss"@);
    assert(cn != "monster_demon1"@);
    assert(cn != "monster_dog"@);
    assert(cn != "monster_enforcer"@);
    assert(cn != "monster_fish"@);
    assert(cn != "monster_hell_knight"@);
    assert(cn != "monster_knight"@);
    assert(cn != "monster_ogre"@);
    assert(cn != "monster_oldone"@);
    assert(cn != "monster_shalrath"@);
    assert(cn != "monster_shambler"@);
    assert(cn != "monster_tarbaby"@);
    assert(cn != "monster_wizard"@);
    assert(cn != "monster_zombie"@);
    assert(cn[0] != "item_armor1"@[0]);
    assert(cn != "item_armor1"@);
    assert(cn != "item_armor2"@);
    assert(cn != "item_armorInv"@);
    assert(cn != "item_artifact_envirosuit"@);
    assert(cn != "item_artifact_super_damage"@);
    assert(cn != "item_artifact_invulnerability"@);
    assert(cn != "item_artifact_invisibility"@);
    assert(cn != "item_health"@);
    assert(cn != "item_key1"@);
    assert(cn != "item_key2"@);
    assert(cn != "item_flag_team1"@);
    assert(cn != "item_flag_team2"@);
    assert(cn != "item_tfgoal"@);
    assert(cn[0] != "point_start"@[0]);
    assert(cn != "point_start"@);
    assert(cn != "point_zip"@);
    assert(cn != "item_shells"@);
    assert(cn != "item_spikes"@);
    assert(cn != "item_rockets"@);
    assert(cn != "item_cells"@);
    assert(cn[0] != "weapon_supershotgun"@[0]);
    assert(cn != "weapon_supershotgun"@);
    assert(cn != "weapon_nailgun"@);
    assert(cn != "weapon_supernailgun"@);
    assert(cn != "weapon_grenadelauncher"@);
    assert(cn != "weapon_rocketlauncher"@);
    assert(cn != "weapon_lightning"@);
}

/// An `item_shells` record lands in the small-shells bucket when it has no
/// `spawnflags` field, in the large-shells bucket on any present value.
proof fn lemma_class_key_item_shells(r: Map<Seq<char>, Seq<char>>)
    requires
        classname_of(r) == Some("item_shells"@),
    ensures
        class_key(r) == if spawnflags_of(r) is None {
            Tally::ShellsSmall
        } else {
            Tally::ShellsLarge
        },
{
    reveal_strlit("item_shells");
    reveal_strlit("worldspawn");
    reveal_strlit("info_player_coop");
    reveal_strlit("info_player_deathmatch");
    reveal_strlit("info_player_start");
    reveal_strlit("info_player_team1");
    reveal_strlit("info_player_team2");
    reveal_strlit("info_player_team1_deathmatch");
    reveal_strlit("info_player_team2_deathmatch");
    reveal_strlit("info_player_teamspawn");
    reveal_strlit("i_p_t");
    reveal_strlit("monster_army");
    reveal_strlit("monster_boss");
    reveal_strlit("monster_demon1");
    reveal_strlit("monster_dog");
    reveal_strlit("monster_enforcer");
    reveal_strlit("monster_fish");
    reveal_strlit("monster_hell_knight");
    reveal_strlit("monster_knight");
    reveal_strlit("monster_ogre");
    reveal_strlit("monster_oldone");
    reveal_strlit("monster_shalrath");
    reveal_strlit("monster_shambler");
    reveal_strlit("monster_tarbaby");
    reveal_strlit("monster_wizard");
    reveal_strlit("monster_zombie");
    reveal_strlit("item_armor1");
    reveal_strlit("item_armor2");
    reveal_strlit("item_armorInv");
    reveal_strlit("item_artifact_envirosuit");
    reveal_strlit("item_artifact_super_damage");
    reveal_strlit("item_artifact_invulnerability");
    reveal_strlit("item_artifact_invisibility");
    reveal_strlit("item_health");
    reveal_strlit("item_key1");
    reveal_strlit("item_key2");
    reveal_strlit("item_flag_team1");
    reveal_strlit("item_flag_team2");
    reveal_strlit("item_tfgoal");
    reveal_strlit("point_start");
    reveal_strlit("point_zip");
    let cn = "item_shells"@;
    assert(cn[0] != "worldspawn"@[0]);
    assert(cn != "worldspawn"@);
    assert(cn[1] != "info_player_coop"@[1]);
    assert(cn != "info_player_coop"@);
    assert(cn != "info_player_deathmatch"@);
    assert(cn != "info_player_start"@);
    assert(cn != "info_player_team1"@);
    assert(cn != "info_player_team2"@);
    assert(cn != "info_player_team1_deathmatch"@);
    assert(cn != "info_player_team2_deathmatch"@);
    assert(cn != "info_player_teamspawn"@);
    assert(cn[1] != "i_p_t"@[1]);
    assert(cn != "i_p_t"@);
    assert(cn[0] != "monster_army"@[0]);
    assert(cn != "monster_army"@);
    assert(cn != "monster_boss"@);
    assert(cn != "monster_demon1"@);
    assert(cn != "monster_dog"@);
    assert(cn != "monster_enforcer"@);
    assert(cn != "monster_fish"@);
    assert(cn != "monster_hell_knight"@);
    assert(cn != "monster_knight"@);
    assert(cn != "monster_ogre"@);
    assert(cn != "monster_oldone"@);
    assert(cn != "monster_shalrath"@);
    assert(cn != "monster_shambler"@);
    assert(cn != "monster_tarbaby"@);
    assert(cn != "monster_wizard"@);
    assert(cn != "monster_zombie"@);
    assert(cn[5] != "item_armor1"@[5]);
    assert(cn != "item_armor1"@);
    assert(cn != "item_armor2"@);
    assert(cn[5] != "item_armorInv"@[5]);
    assert(cn != "item_armorInv"@);
    assert(cn[5] != "item_artifact_envirosuit"@[5]);
    assert(cn != "item_artifact_envirosuit"@);
    assert(cn != "item_artifact_super_damage"@);
    assert(cn != "item_artifact_invulnerability"@);
    assert(cn != "item_artifact_invisibility"@);
    assert(cn[5] != "item_health"@[5]);
    assert(cn != "item_health"@);
    assert(cn[5] != "item_key1"@[5]);
    assert(cn != "item_key1"@);
    assert(cn != "item_key2"@);
    assert(cn[5] != "item_flag_team1"@[5]);
    assert(cn != "item_flag_team1"@);
    assert(cn != "item_flag_team2"@);
    assert(cn[5] != "item_tfgoal"@[5]);
    assert(cn != "item_tfgoal"@);
    assert(cn[0] != "point_start"@[0]);
    assert(cn != "point_start"@);
    assert(cn != "point_zip"@);
}

/// Only an `item_shells` record can land in a shells bucket.
#[verifier::rlimit(30)]
proof fn lemma_shells_buckets_need_item_shells(r: Map<Seq<char>, Seq<char>>)
    ensures
        class_key(r) == Tally::ShellsSmall || class_key(r) == Tally::ShellsLarge
            ==> classname_of(r) == Some("item_shells"@),
{
}

/// A record set holding a `monster_army` and a `trigger_changelevel` record
/// classifies as Single Player, whatever else it holds: the first rule wins
/// over every later one.
pub proof fn lemma_monster_and_changelevel_classify_single_player(
    rs: Seq<Map<Seq<char>, Seq<char>>>,
    size: nat,
    i: int,
    j: int,
)
    requires
        0 <= i < rs.len(),
        0 <= j < rs.len(),
        classname_of(rs[i]) == Some("monster_army"@),
        classname_of(rs[j]) == Some("trigger_changelevel"@),
    ensures
        report_of_records(rs, size).category == "Single Player"@,
{
    broadcast use vstd::seq_lib::group_filter_ensures;

    lemma_class_key_monster_army(rs[i]);
    lemma_class_key_trigger_changelevel(rs[j]);
    assert(rs.filter(tally_pred(Tally::MonsterGrunt)).contains(rs[i]));
    assert(count_tally(rs, Tally::MonsterGrunt) > 0);
    assert(rs.filter(tally_pred(Tally::TriggerChangelevel)).contains(rs[j]));
    assert(count_tally(rs, Tally::TriggerChangelevel) > 0);
    assert(census_of(rs).monsters.total() > 0);
    assert(census_of(rs).triggers.changelevel > 0);
}

/// Of two `item_shells` records, the one without a `spawnflags` field is
/// tallied small and the one with any present value large; with no other
/// `item_shells` record in the set, each shells counter is exactly one.
pub proof fn lemma_shells_split_by_spawnflags(
    rs: Seq<Map<Seq<char>, Seq<char>>>,
    i: int,
    j: int,
)
    requires
        0 <= i < rs.len(),
        0 <= j < rs.len(),
        i != j,
        classname_of(rs[i]) == Some("item_shells"@),
        spawnflags_of(rs[i]) is None,
        classname_of(rs[j]) == Some("item_shells"@),
        spawnflags_of(rs[j]) is Some,
        forall|k: int|
            0 <= k < rs.len() && k != i && k != j ==> classname_of(#[trigger] rs[k]) != Some(
                "item_shells"@,
            ),
    ensures
        census_of(rs).ammo.shells_small == 1,
        census_of(rs).ammo.shells_large == 1,
{
    lemma_class_key_item_shells(rs[i]);
    lemma_class_key_item_shells(rs[j]);
    assert forall|k: int|
        0 <= k < rs.len() && k != i implies class_key(#[trigger] rs[k])
        != Tally::ShellsSmall by {
        lemma_shells_buckets_need_item_shells(rs[k]);
    }
    assert forall|k: int|
        0 <= k < rs.len() && k != j implies class_key(#[trigger] rs[k])
        != Tally::ShellsLarge by {
        lemma_shells_buckets_need_item_shells(rs[k]);
    }
    lemma_count_tally_one(rs, Tally::ShellsSmall, i);
    lemma_count_tally_one(rs, Tally::ShellsLarge, j);
}

/// Category precedence: when both the Single Player rule (a monster and a
/// level-change trigger) and the Deathmatch rule (more than one deathmatch
/// spawn) hold, the earlier rule wins.
pub proof fn lemma_single_player_takes_precedence(
    c: CensusView,
    message: Seq<char>,
    n_routes: nat,
)
    requires
        c.monsters.total() > 0,
        c.triggers.changelevel > 0,
        c.spawns.deathmatch > 1,
    ensures
        spec_category(c, message, n_routes) == "Single Player"@,
{
}

/// With the first four rules off, deathmatch spawns present, and no weapon
/// tallied, a collected race route (or point marker) makes the level Race
/// rather than Arena.
pub proof fn lemma_routes_mean_race(c: CensusView, message: Seq<char>, n_routes: nat)
    requires
        !(c.monsters.total() != 0 && c.triggers.changelevel > 0),
        c.spawns.team1 + c.spawns.team2 + c.items.red_flag + c.items.blue_flag == 0,
        c.items.tf_goal == 0,
        !spec_contains(lower_of(message), " trick "@),
        c.ammo.total() != 0 || c.armors.total() != 0 || c.triggers.teleport
            < c.spawns.deathmatch,
        c.spawns.deathmatch > 0,
        c.weapons.total() == 0,
        n_routes > 0 || c.points.total() != 0,
    ensures
        spec_category(c, message, n_routes) == "Race"@,
{
}

/// Determinism: the report of a successful classification is a function of
/// the input bytes alone, so two classifications of identical bytes agree.
pub proof fn lemma_classification_deterministic(bytes: Seq<u8>, a: BspInfoView, b: BspInfoView)
    requires
        a == spec_report(bytes),
        b == spec_report(bytes),
    ensures
        a == b,
{
}

/// Determinism at the decode boundary: the error text of a failed decode is
/// a function of the input bytes alone, so two failing classifications of
/// identical bytes surface the same decode error.
pub proof fn lemma_decode_error_deterministic(bytes: Seq<u8>, a: Seq<char>, b: Seq<char>)
    requires
        decoded_records(bytes) is Err,
        a == decoded_records(bytes)->Err_0,
        b == decoded_records(bytes)->Err_0,
    ensures
        a == b,
{
}

} // verus!
