//! The codec's laws: round-trip and rejection properties, proved over the
//! spec-level parser [`sp_decode`] and encoder [`spec_encode`].

use crate::codec::{
    count_len, enc_block1, enc_block2, enc_block3, enc_block4, enc_block5, enc_block6, enc_block7,
    enc_block8, enc_block9, enc_header, ship_unlock_le, ship_unlocks_le, sp_block1, sp_block2,
    sp_block3, sp_block4, sp_block5, sp_block6, sp_block7, sp_block8, sp_block9, sp_decode,
    sp_from1, sp_from2, sp_from3, sp_from4, sp_from5, sp_from6, sp_from7, sp_from8, sp_from9,
    sp_ship_unlock, sp_ship_unlock_seq, sp_unlock, sp_unlock_seq, sp_version, spec_encode,
    unlock_le, unlocks_le, SpecParse,
};
use crate::record::{ProgressSpec, ShipUnlockId, UnlockId, CURRENT_VERSION, MAGIC};
use crate::wire::{
    bool_le, i32_le, i32s_le, lemma_i32s_le_len, lemma_sp_bool_at, lemma_sp_i32_at,
    lemma_sp_i32_seq_at, lemma_sp_u32_at, sp_bool, sp_i32, sp_i32_seq, sp_u32, u32_le,
};
use vstd::bytes::lemma_auto_spec_u32_to_from_le_bytes;
use vstd::bytes::spec_u32_from_le_bytes;
use vstd::prelude::*;
use vstd::seq_lib::lemma_concat_associative;

verus! {

/// The encoding of a sequence of unlock records is twelve bytes per element.
proof fn lemma_unlocks_le_len(s: Seq<UnlockId>)
    ensures
        unlocks_le(s).len() == 12 * s.len(),
    decreases s.len(),
{
    lemma_auto_spec_u32_to_from_le_bytes();
    if s.len() > 0 {
        lemma_unlocks_le_len(s.drop_first());
    }
}

/// The encoding of a sequence of ship-unlock records is eight bytes per
/// element.
proof fn lemma_ship_unlocks_le_len(s: Seq<ShipUnlockId>)
    ensures
        ship_unlocks_le(s).len() == 8 * s.len(),
    decreases s.len(),
{
    lemma_auto_spec_u32_to_from_le_bytes();
    if s.len() > 0 {
        lemma_ship_unlocks_le_len(s.drop_first());
    }
}

/// Reading one unlock record straight after `pre` from a stream that
/// continues with its encoding yields the record back.
proof fn lemma_sp_unlock_at(pre: Seq<u8>, u: UnlockId, suf: Seq<u8>)
    ensures
        sp_unlock(pre + (unlock_le(u) + suf), pre.len() as int) == Some(
            (u, pre.len() as int + 12),
        ),
{
    lemma_auto_spec_u32_to_from_le_bytes();
    let b = pre + (unlock_le(u) + suf);
    let a1 = i32_le(u.pawn_type);
    let a2 = i32_le(u.cosmetic_type);
    let a3 = i32_le(u.cosmetic_id);
    let e3 = a3 + suf;
    let e2 = a2 + e3;
    let e1 = a1 + e2;
    lemma_concat_associative(a2, a3, suf);
    lemma_concat_associative(a1, a2 + a3, suf);
    assert(unlock_le(u) + suf == e1);
    lemma_sp_i32_at(pre, u.pawn_type, e2);
    let p1 = pre + a1;
    lemma_concat_associative(pre, a1, e2);
    assert(b == p1 + e2);
    lemma_sp_i32_at(p1, u.cosmetic_type, e3);
    let p2 = p1 + a2;
    lemma_concat_associative(p1, a2, e3);
    assert(b == p2 + e3);
    lemma_sp_i32_at(p2, u.cosmetic_id, suf);
}

/// Reading `s.len()` unlock records straight after `pre` from a stream that
/// continues with the encodings of `s` yields `s` back.
proof fn lemma_sp_unlock_seq_at(pre: Seq<u8>, s: Seq<UnlockId>, suf: Seq<u8>)
    ensures
        sp_unlock_seq(pre + (unlocks_le(s) + suf), pre.len() as int, s.len()) == Some(
            (s, pre.len() as int + 12 * s.len()),
        ),
    decreases s.len(),
{
    let b = pre + (unlocks_le(s) + suf);
    if s.len() == 0 {
        assert(b =~= pre + suf);
        assert(s =~= Seq::<UnlockId>::empty());
    } else {
        lemma_auto_spec_u32_to_from_le_bytes();
        lemma_unlocks_le_len(s);
        let rest = s.drop_first();
        lemma_concat_associative(unlock_le(s[0]), unlocks_le(rest), suf);
        assert(b =~= pre + (unlock_le(s[0]) + (unlocks_le(rest) + suf)));
        lemma_sp_unlock_at(pre, s[0], unlocks_le(rest) + suf);
        let pre2 = pre + unlock_le(s[0]);
        lemma_concat_associative(pre, unlock_le(s[0]), unlocks_le(rest) + suf);
        assert(b =~= pre2 + (unlocks_le(rest) + suf));
        lemma_sp_unlock_seq_at(pre2, rest, suf);
        lemma_unlocks_le_len(rest);
        assert(pre2.len() == pre.len() + 12);
        assert(seq![s[0]] + rest =~= s);
    }
}

/// Reading one ship-unlock record straight after `pre` from a stream that
/// continues with its encoding yields the record back.
proof fn lemma_sp_ship_unlock_at(pre: Seq<u8>, u: ShipUnlockId, suf: Seq<u8>)
    ensures
        sp_ship_unlock(pre + (ship_unlock_le(u) + suf), pre.len() as int) == Some(
            (u, pre.len() as int + 8),
        ),
{
    lemma_auto_spec_u32_to_from_le_bytes();
    let b = pre + (ship_unlock_le(u) + suf);
    let a1 = i32_le(u.ship_type);
    let a2 = i32_le(u.variant);
    let e2 = a2 + suf;
    lemma_concat_associative(a1, a2, suf);
    assert(ship_unlock_le(u) + suf == a1 + e2);
    lemma_sp_i32_at(pre, u.ship_type, e2);
    let p1 = pre + a1;
    lemma_concat_associative(pre, a1, e2);
    assert(b == p1 + e2);
    lemma_sp_i32_at(p1, u.variant, suf);
}

/// Reading `s.len()` ship-unlock records straight after `pre` from a stream
/// that continues with the encodings of `s` yields `s` back.
proof fn lemma_sp_ship_unlock_seq_at(pre: Seq<u8>, s: Seq<ShipUnlockId>, suf: Seq<u8>)
    ensures
        sp_ship_unlock_seq(pre + (ship_unlocks_le(s) + suf), pre.len() as int, s.len()) == Some(
            (s, pre.len() as int + 8 * s.len()),
        ),
    decreases s.len(),
{
    let b = pre + (ship_unlocks_le(s) + suf);
    if s.len() == 0 {
        assert(b =~= pre + suf);
        assert(s =~= Seq::<ShipUnlockId>::empty());
    } else {
        lemma_auto_spec_u32_to_from_le_bytes();
        let rest = s.drop_first();
        lemma_concat_associative(ship_unlock_le(s[0]), ship_unlocks_le(rest), suf);
        assert(b =~= pre + (ship_unlock_le(s[0]) + (ship_unlocks_le(rest) + suf)));
        lemma_sp_ship_unlock_at(pre, s[0], ship_unlocks_le(rest) + suf);
        let pre2 = pre + ship_unlock_le(s[0]);
        lemma_concat_associative(pre, ship_unlock_le(s[0]), ship_unlocks_le(rest) + suf);
        assert(b =~= pre2 + (ship_unlocks_le(rest) + suf));
        lemma_sp_ship_unlock_seq_at(pre2, rest, suf);
        lemma_ship_unlocks_le_len(rest);
        assert(pre2.len() == pre.len() + 8);
        assert(seq![s[0]] + rest =~= s);
    }
}

/// Parsing the revision-2 block straight after `pre`, out of the bytes
/// that [`enc_block2`] writes for `r`, yields exactly the fields of `r`.
#[verifier::rlimit(100)]
proof fn lemma_block2_parses(pre: Seq<u8>, r: ProgressSpec, suf: Seq<u8>, r0: ProgressSpec)
    requires
        r.jumps_completed_per_class.len() == 5,
        r.levels_earned_per_class.len() == 5,
    ensures
        sp_block2(pre + (enc_block2(r) + suf), pre.len() as int, r0) == Some(
            (ProgressSpec { jumps_completed: r.jumps_completed, jumps_completed_per_class: r.jumps_completed_per_class, blind_jumps_completed: r.blind_jumps_completed, levels_earned: r.levels_earned, levels_earned_per_class: r.levels_earned_per_class, pawn_deaths_total: r.pawn_deaths_total, crew_deaths_total: r.crew_deaths_total, biscuits_sold_individual_total: r.biscuits_sold_individual_total, max_crew_level_reached: r.max_crew_level_reached, missions_completed: r.missions_completed, vulrog_discovered: r.vulrog_discovered, ..r0 }, pre.len() as int + 73),
        ),
{
    lemma_auto_spec_u32_to_from_le_bytes();
    let b = pre + (enc_block2(r) + suf);
    let a1 = i32_le(r.jumps_completed);
    let a2 = i32s_le(r.jumps_completed_per_class);
    let a3 = i32_le(r.blind_jumps_completed);
    let a4 = i32_le(r.levels_earned);
    let a5 = i32s_le(r.levels_earned_per_class);
    let a6 = i32_le(r.pawn_deaths_total);
    let a7 = i32_le(r.crew_deaths_total);
    let a8 = i32_le(r.biscuits_sold_individual_total);
    let a9 = i32_le(r.max_crew_level_reached);
    let a10 = i32_le(r.missions_completed);
    let a11 = bool_le(r.vulrog_discovered);
    let c11 = a11;
    let c10 = a10 + c11;
    let c9 = a9 + c10;
    let c8 = a8 + c9;
    let c7 = a7 + c8;
    let c6 = a6 + c7;
    let c5 = a5 + c6;
    let c4 = a4 + c5;
    let c3 = a3 + c4;
    let c2 = a2 + c3;
    let c1 = a1 + c2;
    assert(enc_block2(r) == c1);
    let e11 = a11 + suf;
    let e10 = a10 + e11;
    let e9 = a9 + e10;
    let e8 = a8 + e9;
    let e7 = a7 + e8;
    let e6 = a6 + e7;
    let e5 = a5 + e6;
    let e4 = a4 + e5;
    let e3 = a3 + e4;
    let e2 = a2 + e3;
    let e1 = a1 + e2;
    assert(c11 + suf == e11);
    lemma_concat_associative(a10, c11, suf);
    assert(c10 + suf == e10);
    lemma_concat_associative(a9, c10, suf);
    assert(c9 + suf == e9);
    lemma_concat_associative(a8, c9, suf);
    assert(c8 + suf == e8);
    lemma_concat_associative(a7, c8, suf);
    assert(c7 + suf == e7);
    lemma_concat_associative(a6, c7, suf);
    assert(c6 + suf == e6);
    lemma_concat_associative(a5, c6, suf);
    assert(c5 + suf == e5);
    lemma_concat_associative(a4, c5, suf);
    assert(c4 + suf == e4);
    lemma_concat_associative(a3, c4, suf);
    assert(c3 + suf == e3);
    lemma_concat_associative(a2, c3, suf);
    assert(c2 + suf == e2);
    lemma_concat_associative(a1, c2, suf);
    assert(c1 + suf == e1);
    assert(b == pre + e1);
    lemma_sp_i32_at(pre, r.jumps_completed, e2);
    let p1 = pre + a1;
    lemma_concat_associative(pre, a1, e2);
    assert(b == p1 + e2);
    lemma_sp_i32_seq_at(p1, r.jumps_completed_per_class, e3);
    let p2 = p1 + a2;
    lemma_concat_associative(p1, a2, e3);
    assert(b == p2 + e3);
    lemma_sp_i32_at(p2, r.blind_jumps_completed, e4);
    let p3 = p2 + a3;
    lemma_concat_associative(p2, a3, e4);
    assert(b == p3 + e4);
    lemma_sp_i32_at(p3, r.levels_earned, e5);
    let p4 = p3 + a4;
    lemma_concat_associative(p3, a4, e5);
    assert(b == p4 + e5);
    lemma_sp_i32_seq_at(p4, r.levels_earned_per_class, e6);
    let p5 = p4 + a5;
    lemma_concat_associative(p4, a5, e6);
    assert(b == p5 + e6);
    lemma_sp_i32_at(p5, r.pawn_deaths_total, e7);
    let p6 = p5 + a6;
    lemma_concat_associative(p5, a6, e7);
    assert(b == p6 + e7);
    lemma_sp_i32_at(p6, r.crew_deaths_total, e8);
    let p7 = p6 + a7;
    lemma_concat_associative(p6, a7, e8);
    assert(b == p7 + e8);
    lemma_sp_i32_at(p7, r.biscuits_sold_individual_total, e9);
    let p8 = p7 + a8;
    lemma_concat_associative(p7, a8, e9);
    assert(b == p8 + e9);
    lemma_sp_i32_at(p8, r.max_crew_level_reached, e10);
    let p9 = p8 + a9;
    lemma_concat_associative(p8, a9, e10);
    assert(b == p9 + e10);
    lemma_sp_i32_at(p9, r.missions_completed, e11);
    let p10 = p9 + a10;
    lemma_concat_associative(p9, a10, e11);
    assert(b == p10 + e11);
    lemma_sp_bool_at(p10, r.vulrog_discovered, suf);
    let p11 = p10 + a11;
    lemma_concat_associative(p10, a11, suf);
    lemma_i32s_le_len(r.jumps_completed_per_class);
    lemma_i32s_le_len(r.levels_earned_per_class);
}

/// Parsing the revision-3 block straight after `pre`, out of the bytes
/// that [`enc_block3`] writes for `r`, yields exactly the fields of `r`.
#[verifier::rlimit(100)]
proof fn lemma_block3_parses(pre: Seq<u8>, r: ProgressSpec, suf: Seq<u8>, r0: ProgressSpec)
    requires
        r.levels_earned_per_faction.len() == 6,
    ensures
        sp_block3(pre + (enc_block3(r) + suf), pre.len() as int, r0) == Some(
            (ProgressSpec { levels_earned_per_faction: r.levels_earned_per_faction, enemy_ships_destroyed: r.enemy_ships_destroyed, talents_unlocked: r.talents_unlocked, credits_earned: r.credits_earned, credits_spent: r.credits_spent, damage_dealt_pawn: r.damage_dealt_pawn, damage_taken_pawn: r.damage_taken_pawn, damage_dealt_ship: r.damage_dealt_ship, damage_taken_ship: r.damage_taken_ship, shots_fired: r.shots_fired, system_health_healed_bits: r.system_health_healed_bits, footsteps_taken: r.footsteps_taken, max_chaos_level_reached_bits: r.max_chaos_level_reached_bits, ..r0 }, pre.len() as int + 72),
        ),
{
    lemma_auto_spec_u32_to_from_le_bytes();
    let b = pre + (enc_block3(r) + suf);
    let a1 = i32s_le(r.levels_earned_per_faction);
    let a2 = i32_le(r.enemy_ships_destroyed);
    let a3 = i32_le(r.talents_unlocked);
    let a4 = i32_le(r.credits_earned);
    let a5 = i32_le(r.credits_spent);
    let a6 = i32_le(r.damage_dealt_pawn);
    let a7 = i32_le(r.damage_taken_pawn);
    let a8 = i32_le(r.damage_dealt_ship);
    let a9 = i32_le(r.damage_taken_ship);
    let a10 = i32_le(r.shots_fired);
    let a11 = u32_le(r.system_health_healed_bits);
    let a12 = i32_le(r.footsteps_taken);
    let a13 = u32_le(r.max_chaos_level_reached_bits);
    let c13 = a13;
    let c12 = a12 + c13;
    let c11 = a11 + c12;
    let c10 = a10 + c11;
    let c9 = a9 + c10;
    let c8 = a8 + c9;
    let c7 = a7 + c8;
    let c6 = a6 + c7;
    let c5 = a5 + c6;
    let c4 = a4 + c5;
    let c3 = a3 + c4;
    let c2 = a2 + c3;
    let c1 = a1 + c2;
    assert(enc_block3(r) == c1);
    let e13 = a13 + suf;
    let e12 = a12 + e13;
    let e11 = a11 + e12;
    let e10 = a10 + e11;
    let e9 = a9 + e10;
    let e8 = a8 + e9;
    let e7 = a7 + e8;
    let e6 = a6 + e7;
    let e5 = a5 + e6;
    let e4 = a4 + e5;
    let e3 = a3 + e4;
    let e2 = a2 + e3;
    let e1 = a1 + e2;
    assert(c13 + suf == e13);
    lemma_concat_associative(a12, c13, suf);
    assert(c12 + suf == e12);
    lemma_concat_associative(a11, c12, suf);
    assert(c11 + suf == e11);
    lemma_concat_associative(a10, c11, suf);
    assert(c10 + suf == e10);
    lemma_concat_associative(a9, c10, suf);
    assert(c9 + suf == e9);
    lemma_concat_associative(a8, c9, suf);
    assert(c8 + suf == e8);
    lemma_concat_associative(a7, c8, suf);
    assert(c7 + suf == e7);
    lemma_concat_associative(a6, c7, suf);
    assert(c6 + suf == e6);
    lemma_concat_associative(a5, c6, suf);
    assert(c5 + suf == e5);
    lemma_concat_associative(a4, c5, suf);
    assert(c4 + suf == e4);
    lemma_concat_associative(a3, c4, suf);
    assert(c3 + suf == e3);
    lemma_concat_associative(a2, c3, suf);
    assert(c2 + suf == e2);
    lemma_concat_associative(a1, c2, suf);
    assert(c1 + suf == e1);
    assert(b == pre + e1);
    lemma_sp_i32_seq_at(pre, r.levels_earned_per_faction, e2);
    let p1 = pre + a1;
    lemma_concat_associative(pre, a1, e2);
    assert(b == p1 + e2);
    lemma_sp_i32_at(p1, r.enemy_ships_destroyed, e3);
    let p2 = p1 + a2;
    lemma_concat_associative(p1, a2, e3);
    assert(b == p2 + e3);
    lemma_sp_i32_at(p2, r.talents_unlocked, e4);
    let p3 = p2 + a3;
    lemma_concat_associative(p2, a3, e4);
    assert(b == p3 + e4);
    lemma_sp_i32_at(p3, r.credits_earned, e5);
    let p4 = p3 + a4;
    lemma_concat_associative(p3, a4, e5);
    assert(b == p4 + e5);
    lemma_sp_i32_at(p4, r.credits_spent, e6);
    let p5 = p4 + a5;
    lemma_concat_associative(p4, a5, e6);
    assert(b == p5 + e6);
    lemma_sp_i32_at(p5, r.damage_dealt_pawn, e7);
    let p6 = p5 + a6;
    lemma_concat_associative(p5, a6, e7);
    assert(b == p6 + e7);
    lemma_sp_i32_at(p6, r.damage_taken_pawn, e8);
    let p7 = p6 + a7;
    lemma_concat_associative(p6, a7, e8);
    assert(b == p7 + e8);
    lemma_sp_i32_at(p7, r.damage_dealt_ship, e9);
    let p8 = p7 + a8;
    lemma_concat_associative(p7, a8, e9);
    assert(b == p8 + e9);
    lemma_sp_i32_at(p8, r.damage_taken_ship, e10);
    let p9 = p8 + a9;
    lemma_concat_associative(p8, a9, e10);
    assert(b == p9 + e10);
    lemma_sp_i32_at(p9, r.shots_fired, e11);
    let p10 = p9 + a10;
    lemma_concat_associative(p9, a10, e11);
    assert(b == p10 + e11);
    lemma_sp_u32_at(p10, r.system_health_healed_bits, e12);
    let p11 = p10 + a11;
    lemma_concat_associative(p10, a11, e12);
    assert(b == p11 + e12);
    lemma_sp_i32_at(p11, r.footsteps_taken, e13);
    let p12 = p11 + a12;
    lemma_concat_associative(p11, a12, e13);
    assert(b == p12 + e13);
    lemma_sp_u32_at(p12, r.max_chaos_level_reached_bits, suf);
    let p13 = p12 + a13;
    lemma_concat_associative(p12, a13, suf);
    lemma_i32s_le_len(r.levels_earned_per_faction);
}

/// Parsing the revision-6 block straight after `pre`, out of the bytes
/// that [`enc_block6`] writes for `r`, yields exactly the fields of `r`.
proof fn lemma_block6_parses(pre: Seq<u8>, r: ProgressSpec, suf: Seq<u8>, r0: ProgressSpec)
    ensures
        sp_block6(pre + (enc_block6(r) + suf), pre.len() as int, r0) == Some(
            (ProgressSpec { extorts_attempted: r.extorts_attempted, diplomacy_attempted: r.diplomacy_attempted, pawn_hp_healed_bits: r.pawn_hp_healed_bits, ..r0 }, pre.len() as int + 12),
        ),
{
    lemma_auto_spec_u32_to_from_le_bytes();
    let b = pre + (enc_block6(r) + suf);
    let a1 = i32_le(r.extorts_attempted);
    let a2 = i32_le(r.diplomacy_attempted);
    let a3 = u32_le(r.pawn_hp_healed_bits);
    let c3 = a3;
    let c2 = a2 + c3;
    let c1 = a1 + c2;
    assert(enc_block6(r) == c1);
    let e3 = a3 + suf;
    let e2 = a2 + e3;
    let e1 = a1 + e2;
    assert(c3 + suf == e3);
    lemma_concat_associative(a2, c3, suf);
    assert(c2 + suf == e2);
    lemma_concat_associative(a1, c2, suf);
    assert(c1 + suf == e1);
    assert(b == pre + e1);
    lemma_sp_i32_at(pre, r.extorts_attempted, e2);
    let p1 = pre + a1;
    lemma_concat_associative(pre, a1, e2);
    assert(b == p1 + e2);
    lemma_sp_i32_at(p1, r.diplomacy_attempted, e3);
    let p2 = p1 + a2;
    lemma_concat_associative(p1, a2, e3);
    assert(b == p2 + e3);
    lemma_sp_u32_at(p2, r.pawn_hp_healed_bits, suf);
    let p3 = p2 + a3;
    lemma_concat_associative(p2, a3, suf);
}

/// Parsing the revision-7 block straight after `pre`, out of the bytes
/// that [`enc_block7`] writes for `r`, yields exactly the fields of `r`.
#[verifier::rlimit(100)]
proof fn lemma_block7_parses(pre: Seq<u8>, r: ProgressSpec, suf: Seq<u8>, r0: ProgressSpec)
    ensures
        sp_block7(pre + (enc_block7(r) + suf), pre.len() as int, r0) == Some(
            (ProgressSpec { any_ending_completed: r.any_ending_completed, cu_ending_completed: r.cu_ending_completed, aog_ending_completed: r.aog_ending_completed, wd_ending_completed: r.wd_ending_completed, fb_ending_completed: r.fb_ending_completed, keep_it_ending_completed: r.keep_it_ending_completed, free_it_ending_completed: r.free_it_ending_completed, destroy_it_ending_completed: r.destroy_it_ending_completed, ..r0 }, pre.len() as int + 8),
        ),
{
    lemma_auto_spec_u32_to_from_le_bytes();
    let b = pre + (enc_block7(r) + suf);
    let a1 = bool_le(r.any_ending_completed);
    let a2 = bool_le(r.cu_ending_completed);
    let a3 = bool_le(r.aog_ending_completed);
    let a4 = bool_le(r.wd_ending_completed);
    let a5 = bool_le(r.fb_ending_completed);
    let a6 = bool_le(r.keep_it_ending_completed);
    let a7 = bool_le(r.free_it_ending_completed);
    let a8 = bool_le(r.destroy_it_ending_completed);
    let c8 = a8;
    let c7 = a7 + c8;
    let c6 = a6 + c7;
    let c5 = a5 + c6;
    let c4 = a4 + c5;
    let c3 = a3 + c4;
    let c2 = a2 + c3;
    let c1 = a1 + c2;
    assert(enc_block7(r) == c1);
    let e8 = a8 + suf;
    let e7 = a7 + e8;
    let e6 = a6 + e7;
    let e5 = a5 + e6;
    let e4 = a4 + e5;
    let e3 = a3 + e4;
    let e2 = a2 + e3;
    let e1 = a1 + e2;
    assert(c8 + suf == e8);
    lemma_concat_associative(a7, c8, suf);
    assert(c7 + suf == e7);
    lemma_concat_associative(a6, c7, suf);
    assert(c6 + suf == e6);
    lemma_concat_associative(a5, c6, suf);
    assert(c5 + suf == e5);
    lemma_concat_associative(a4, c5, suf);
    assert(c4 + suf == e4);
    lemma_concat_associative(a3, c4, suf);
    assert(c3 + suf == e3);
    lemma_concat_associative(a2, c3, suf);
    assert(c2 + suf == e2);
    lemma_concat_associative(a1, c2, suf);
    assert(c1 + suf == e1);
    assert(b == pre + e1);
    lemma_sp_bool_at(pre, r.any_ending_completed, e2);
    let p1 = pre + a1;
    lemma_concat_associative(pre, a1, e2);
    assert(b == p1 + e2);
    lemma_sp_bool_at(p1, r.cu_ending_completed, e3);
    let p2 = p1 + a2;
    lemma_concat_associative(p1, a2, e3);
    assert(b == p2 + e3);
    lemma_sp_bool_at(p2, r.aog_ending_completed, e4);
    let p3 = p2 + a3;
    lemma_concat_associative(p2, a3, e4);
    assert(b == p3 + e4);
    lemma_sp_bool_at(p3, r.wd_ending_completed, e5);
    let p4 = p3 + a4;
    lemma_concat_associative(p3, a4, e5);
    assert(b == p4 + e5);
    lemma_sp_bool_at(p4, r.fb_ending_completed, e6);
    let p5 = p4 + a5;
    lemma_concat_associative(p4, a5, e6);
    assert(b == p5 + e6);
    lemma_sp_bool_at(p5, r.keep_it_ending_completed, e7);
    let p6 = p5 + a6;
    lemma_concat_associative(p5, a6, e7);
    assert(b == p6 + e7);
    lemma_sp_bool_at(p6, r.free_it_ending_completed, e8);
    let p7 = p6 + a7;
    lemma_concat_associative(p6, a7, e8);
    assert(b == p7 + e8);
    lemma_sp_bool_at(p7, r.destroy_it_ending_completed, suf);
    let p8 = p7 + a8;
    lemma_concat_associative(p7, a8, suf);
}

/// Parsing the revision-1 block straight after `pre`, out of the bytes that
/// [`enc_block1`] writes for `r`, yields exactly the fields of `r`.
proof fn lemma_block1_parses(pre: Seq<u8>, r: ProgressSpec, suf: Seq<u8>, r0: ProgressSpec)
    ensures
        sp_block1(pre + (enc_block1(r) + suf), pre.len() as int, r0) == Some(
            (ProgressSpec { completed_fb_campaign: r.completed_fb_campaign, ..r0 }, pre.len() as int + 1),
        ),
{
    lemma_sp_bool_at(pre, r.completed_fb_campaign, suf);
}

/// Parsing the revision-4 block straight after `pre`, out of the bytes that
/// [`enc_block4`] writes for `r`, yields exactly the fields of `r`.
proof fn lemma_block4_parses(pre: Seq<u8>, r: ProgressSpec, suf: Seq<u8>, r0: ProgressSpec)
    requires
        r.missions_ids_completed.len() <= 0x7fff_ffff,
        r.unlocks_opened.len() <= 0x7fff_ffff,
    ensures
        sp_block4(pre + (enc_block4(r) + suf), pre.len() as int, r0) == Some(
            (
                ProgressSpec {
                    missions_ids_completed: r.missions_ids_completed,
                    unlocks_opened: r.unlocks_opened,
                    turret_shots_fired: r.turret_shots_fired,
                    ..r0
                },
                pre.len() as int + 12 + 4 * r.missions_ids_completed.len() + 12
                    * r.unlocks_opened.len(),
            ),
        ),
{
    lemma_auto_spec_u32_to_from_le_bytes();
    let b = pre + (enc_block4(r) + suf);
    let mc = r.missions_ids_completed.len() as i32;
    let uc = r.unlocks_opened.len() as i32;
    let a1 = i32_le(mc);
    let a2 = i32s_le(r.missions_ids_completed);
    let a3 = i32_le(uc);
    let a4 = unlocks_le(r.unlocks_opened);
    let a5 = i32_le(r.turret_shots_fired);
    let c5 = a5;
    let c4 = a4 + c5;
    let c3 = a3 + c4;
    let c2 = a2 + c3;
    let c1 = a1 + c2;
    assert(enc_block4(r) == c1);
    let e5 = a5 + suf;
    let e4 = a4 + e5;
    let e3 = a3 + e4;
    let e2 = a2 + e3;
    let e1 = a1 + e2;
    assert(c5 + suf == e5);
    lemma_concat_associative(a4, c5, suf);
    assert(c4 + suf == e4);
    lemma_concat_associative(a3, c4, suf);
    assert(c3 + suf == e3);
    lemma_concat_associative(a2, c3, suf);
    assert(c2 + suf == e2);
    lemma_concat_associative(a1, c2, suf);
    assert(c1 + suf == e1);
    assert(b == pre + e1);
    assert(count_len(mc) == r.missions_ids_completed.len());
    assert(count_len(uc) == r.unlocks_opened.len());
    lemma_sp_i32_at(pre, mc, e2);
    let p1 = pre + a1;
    lemma_concat_associative(pre, a1, e2);
    assert(b == p1 + e2);
    lemma_sp_i32_seq_at(p1, r.missions_ids_completed, e3);
    let p2 = p1 + a2;
    lemma_concat_associative(p1, a2, e3);
    assert(b == p2 + e3);
    lemma_sp_i32_at(p2, uc, e4);
    let p3 = p2 + a3;
    lemma_concat_associative(p2, a3, e4);
    assert(b == p3 + e4);
    lemma_sp_unlock_seq_at(p3, r.unlocks_opened, e5);
    let p4 = p3 + a4;
    lemma_concat_associative(p3, a4, e5);
    assert(b == p4 + e5);
    lemma_sp_i32_at(p4, r.turret_shots_fired, suf);
    lemma_i32s_le_len(r.missions_ids_completed);
    lemma_unlocks_le_len(r.unlocks_opened);
}

/// Parsing the revision-5 block straight after `pre`, out of the bytes that
/// [`enc_block5`] writes for `r`, yields exactly the fields of `r`.
proof fn lemma_block5_parses(pre: Seq<u8>, r: ProgressSpec, suf: Seq<u8>, r0: ProgressSpec)
    ensures
        sp_block5(pre + (enc_block5(r) + suf), pre.len() as int, r0) == Some(
            (
                ProgressSpec { races_completed_bit_field: r.races_completed_bit_field, ..r0 },
                pre.len() as int + 4,
            ),
        ),
{
    lemma_sp_i32_at(pre, r.races_completed_bit_field, suf);
}

/// Parsing the revision-8 block straight after `pre`, out of the bytes that
/// [`enc_block8`] writes for `r`, yields exactly the fields of `r`.
proof fn lemma_block8_parses(pre: Seq<u8>, r: ProgressSpec, suf: Seq<u8>, r0: ProgressSpec)
    requires
        r.opened_ship_unlocks.len() <= 0x7fff_ffff,
    ensures
        sp_block8(pre + (enc_block8(r) + suf), pre.len() as int, r0) == Some(
            (
                ProgressSpec { opened_ship_unlocks: r.opened_ship_unlocks, ..r0 },
                pre.len() as int + 4 + 8 * r.opened_ship_unlocks.len(),
            ),
        ),
{
    lemma_auto_spec_u32_to_from_le_bytes();
    let b = pre + (enc_block8(r) + suf);
    let sc = r.opened_ship_unlocks.len() as i32;
    let a1 = i32_le(sc);
    let a2 = ship_unlocks_le(r.opened_ship_unlocks);
    let e2 = a2 + suf;
    let e1 = a1 + e2;
    lemma_concat_associative(a1, a2, suf);
    assert(enc_block8(r) + suf == e1);
    assert(b == pre + e1);
    assert(count_len(sc) == r.opened_ship_unlocks.len());
    lemma_sp_i32_at(pre, sc, e2);
    let p1 = pre + a1;
    lemma_concat_associative(pre, a1, e2);
    assert(b == p1 + e2);
    lemma_sp_ship_unlock_seq_at(p1, r.opened_ship_unlocks, suf);
    lemma_ship_unlocks_le_len(r.opened_ship_unlocks);
}

/// Parsing the revision-9 block straight after `pre`, out of the bytes that
/// [`enc_block9`] writes for `r`, yields exactly the fields of `r`.
proof fn lemma_block9_parses(pre: Seq<u8>, r: ProgressSpec, suf: Seq<u8>, r0: ProgressSpec)
    ensures
        sp_block9(pre + (enc_block9(r) + suf), pre.len() as int, r0) == Some(
            (
                ProgressSpec { abyss_ending_completed: r.abyss_ending_completed, ..r0 },
                pre.len() as int + 1,
            ),
        ),
{
    lemma_sp_bool_at(pre, r.abyss_ending_completed, suf);
}

/// Blocks 1 through 4, parsed in sequence out of their encodings.
#[verifier::rlimit(100)]
#[verifier::spinoff_prover]
proof fn lemma_from1_to_5(q: Seq<u8>, r: ProgressSpec, r0: ProgressSpec, w: Seq<u8>)
    requires
        r.wf(),
    ensures
        sp_from1(
            q + (enc_block1(r) + (enc_block2(r) + (enc_block3(r) + (enc_block4(r) + w)))),
            q.len() as int,
            CURRENT_VERSION,
            r0,
        ) == sp_from5(
            q + (enc_block1(r) + (enc_block2(r) + (enc_block3(r) + (enc_block4(r) + w)))),
            q.len() as int + 158 + 4 * r.missions_ids_completed.len() + 12
                * r.unlocks_opened.len(),
            CURRENT_VERSION,
            ProgressSpec {
                completed_fb_campaign: r.completed_fb_campaign,
                jumps_completed: r.jumps_completed,
                jumps_completed_per_class: r.jumps_completed_per_class,
                blind_jumps_completed: r.blind_jumps_completed,
                levels_earned: r.levels_earned,
                levels_earned_per_class: r.levels_earned_per_class,
                pawn_deaths_total: r.pawn_deaths_total,
                crew_deaths_total: r.crew_deaths_total,
                biscuits_sold_individual_total: r.biscuits_sold_individual_total,
                max_crew_level_reached: r.max_crew_level_reached,
                missions_completed: r.missions_completed,
                vulrog_discovered: r.vulrog_discovered,
                levels_earned_per_faction: r.levels_earned_per_faction,
                enemy_ships_destroyed: r.enemy_ships_destroyed,
                talents_unlocked: r.talents_unlocked,
                credits_earned: r.credits_earned,
                credits_spent: r.credits_spent,
                damage_dealt_pawn: r.damage_dealt_pawn,
                damage_taken_pawn: r.damage_taken_pawn,
                damage_dealt_ship: r.damage_dealt_ship,
                damage_taken_ship: r.damage_taken_ship,
                shots_fired: r.shots_fired,
                system_health_healed_bits: r.system_health_healed_bits,
                footsteps_taken: r.footsteps_taken,
                max_chaos_level_reached_bits: r.max_chaos_level_reached_bits,
                missions_ids_completed: r.missions_ids_completed,
                unlocks_opened: r.unlocks_opened,
                turret_shots_fired: r.turret_shots_fired,
                ..r0
            },
        ),
{
    lemma_auto_spec_u32_to_from_le_bytes();
    let a1 = enc_block1(r);
    let a2 = enc_block2(r);
    let a3 = enc_block3(r);
    let a4 = enc_block4(r);
    let w4 = a4 + w;
    let w3 = a3 + w4;
    let w2 = a2 + w3;
    let w1 = a1 + w2;
    let b = q + w1;
    lemma_block1_parses(q, r, w2, r0);
    let r1 = ProgressSpec { completed_fb_campaign: r.completed_fb_campaign, ..r0 };
    let q6 = q + a1;
    lemma_concat_associative(q, a1, w2);
    assert(b == q6 + w2);
    assert(q6.len() == q.len() + 1);
    assert(sp_from1(b, q.len() as int, CURRENT_VERSION, r0) == sp_from2(
        b,
        q6.len() as int,
        CURRENT_VERSION,
        r1,
    ));
    lemma_i32s_le_len(r.jumps_completed_per_class);
    lemma_i32s_le_len(r.levels_earned_per_class);
    lemma_block2_parses(q6, r, w3, r1);
    let r2 = ProgressSpec {
        jumps_completed: r.jumps_completed,
        jumps_completed_per_class: r.jumps_completed_per_class,
        blind_jumps_completed: r.blind_jumps_completed,
        levels_earned: r.levels_earned,
        levels_earned_per_class: r.levels_earned_per_class,
        pawn_deaths_total: r.pawn_deaths_total,
        crew_deaths_total: r.crew_deaths_total,
        biscuits_sold_individual_total: r.biscuits_sold_individual_total,
        max_crew_level_reached: r.max_crew_level_reached,
        missions_completed: r.missions_completed,
        vulrog_discovered: r.vulrog_discovered,
        ..r1
    };
    let q7 = q6 + a2;
    lemma_concat_associative(q6, a2, w3);
    assert(b == q7 + w3);
    assert(a2.len() == 73);
    assert(sp_from2(b, q6.len() as int, CURRENT_VERSION, r1) == sp_from3(
        b,
        q7.len() as int,
        CURRENT_VERSION,
        r2,
    ));
    lemma_i32s_le_len(r.levels_earned_per_faction);
    lemma_block3_parses(q7, r, w4, r2);
    let r3 = ProgressSpec {
        levels_earned_per_faction: r.levels_earned_per_faction,
        enemy_ships_destroyed: r.enemy_ships_destroyed,
        talents_unlocked: r.talents_unlocked,
        credits_earned: r.credits_earned,
        credits_spent: r.credits_spent,
        damage_dealt_pawn: r.damage_dealt_pawn,
        damage_taken_pawn: r.damage_taken_pawn,
        damage_dealt_ship: r.damage_dealt_ship,
        damage_taken_ship: r.damage_taken_ship,
        shots_fired: r.shots_fired,
        system_health_healed_bits: r.system_health_healed_bits,
        footsteps_taken: r.footsteps_taken,
        max_chaos_level_reached_bits: r.max_chaos_level_reached_bits,
        ..r2
    };
    let q8 = q7 + a3;
    lemma_concat_associative(q7, a3, w4);
    assert(b == q8 + w4);
    assert(a3.len() == 72);
    assert(sp_from3(b, q7.len() as int, CURRENT_VERSION, r2) == sp_from4(
        b,
        q8.len() as int,
        CURRENT_VERSION,
        r3,
    ));
    lemma_i32s_le_len(r.missions_ids_completed);
    lemma_unlocks_le_len(r.unlocks_opened);
    lemma_block4_parses(q8, r, w, r3);
    let r4 = ProgressSpec {
        missions_ids_completed: r.missions_ids_completed,
        unlocks_opened: r.unlocks_opened,
        turret_shots_fired: r.turret_shots_fired,
        ..r3
    };
    let q9 = q8 + a4;
    lemma_concat_associative(q8, a4, w);
    assert(b == q9 + w);
    assert(a4.len() == 12 + 4 * r.missions_ids_completed.len() + 12 * r.unlocks_opened.len());
    assert(sp_from4(b, q8.len() as int, CURRENT_VERSION, r3) == sp_from5(
        b,
        q9.len() as int,
        CURRENT_VERSION,
        r4,
    ));
}

/// Blocks 5 through 7, parsed in sequence out of their encodings.
#[verifier::rlimit(100)]
#[verifier::spinoff_prover]
proof fn lemma_from5_to_8(q: Seq<u8>, r: ProgressSpec, r4: ProgressSpec, w: Seq<u8>)
    ensures
        sp_from5(
            q + (enc_block5(r) + (enc_block6(r) + (enc_block7(r) + w))),
            q.len() as int,
            CURRENT_VERSION,
            r4,
        ) == sp_from8(
            q + (enc_block5(r) + (enc_block6(r) + (enc_block7(r) + w))),
            q.len() as int + 24,
            CURRENT_VERSION,
            ProgressSpec {
                races_completed_bit_field: r.races_completed_bit_field,
                extorts_attempted: r.extorts_attempted,
                diplomacy_attempted: r.diplomacy_attempted,
                pawn_hp_healed_bits: r.pawn_hp_healed_bits,
                any_ending_completed: r.any_ending_completed,
                cu_ending_completed: r.cu_ending_completed,
                aog_ending_completed: r.aog_ending_completed,
                wd_ending_completed: r.wd_ending_completed,
                fb_ending_completed: r.fb_ending_completed,
                keep_it_ending_completed: r.keep_it_ending_completed,
                free_it_ending_completed: r.free_it_ending_completed,
                destroy_it_ending_completed: r.destroy_it_ending_completed,
                ..r4
            },
        ),
{
    lemma_auto_spec_u32_to_from_le_bytes();
    let a5 = enc_block5(r);
    let a6 = enc_block6(r);
    let a7 = enc_block7(r);
    let w7 = a7 + w;
    let w6 = a6 + w7;
    let w5 = a5 + w6;
    let b = q + w5;
    lemma_block5_parses(q, r, w6, r4);
    let r5 = ProgressSpec { races_completed_bit_field: r.races_completed_bit_field, ..r4 };
    let q10 = q + a5;
    lemma_concat_associative(q, a5, w6);
    assert(b == q10 + w6);
    assert(a5.len() == 4);
    assert(sp_from5(b, q.len() as int, CURRENT_VERSION, r4) == sp_from6(
        b,
        q10.len() as int,
        CURRENT_VERSION,
        r5,
    ));
    lemma_block6_parses(q10, r, w7, r5);
    let r6 = ProgressSpec {
        extorts_attempted: r.extorts_attempted,
        diplomacy_attempted: r.diplomacy_attempted,
        pawn_hp_healed_bits: r.pawn_hp_healed_bits,
        ..r5
    };
    let q11 = q10 + a6;
    lemma_concat_associative(q10, a6, w7);
    assert(b == q11 + w7);
    assert(a6.len() == 12);
    assert(sp_from6(b, q10.len() as int, CURRENT_VERSION, r5) == sp_from7(
        b,
        q11.len() as int,
        CURRENT_VERSION,
        r6,
    ));
    lemma_block7_parses(q11, r, w, r6);
    let r7 = ProgressSpec {
        any_ending_completed: r.any_ending_completed,
        cu_ending_completed: r.cu_ending_completed,
        aog_ending_completed: r.aog_ending_completed,
        wd_ending_completed: r.wd_ending_completed,
        fb_ending_completed: r.fb_ending_completed,
        keep_it_ending_completed: r.keep_it_ending_completed,
        free_it_ending_completed: r.free_it_ending_completed,
        destroy_it_ending_completed: r.destroy_it_ending_completed,
        ..r6
    };
    let q12 = q11 + a7;
    lemma_concat_associative(q11, a7, w);
    assert(b == q12 + w);
    assert(a7.len() == 8);
    assert(sp_from7(b, q11.len() as int, CURRENT_VERSION, r6) == sp_from8(
        b,
        q12.len() as int,
        CURRENT_VERSION,
        r7,
    ));
}

/// Blocks 8 and 9, parsed out of their encodings, end the stream.
#[verifier::rlimit(100)]
#[verifier::spinoff_prover]
proof fn lemma_from8_to_end(q: Seq<u8>, r: ProgressSpec, r7: ProgressSpec)
    requires
        r.opened_ship_unlocks.len() <= 0x7fff_ffff,
    ensures
        sp_from8(q + (enc_block8(r) + enc_block9(r)), q.len() as int, CURRENT_VERSION, r7) == (
        SpecParse::Parsed {
            rec: ProgressSpec {
                opened_ship_unlocks: r.opened_ship_unlocks,
                abyss_ending_completed: r.abyss_ending_completed,
                ..r7
            },
            end: q.len() as int + 5 + 8 * r.opened_ship_unlocks.len(),
        }),
{
    lemma_auto_spec_u32_to_from_le_bytes();
    let a8 = enc_block8(r);
    let a9 = enc_block9(r);
    let b = q + (a8 + a9);
    lemma_ship_unlocks_le_len(r.opened_ship_unlocks);
    lemma_block8_parses(q, r, a9, r7);
    let r8 = ProgressSpec { opened_ship_unlocks: r.opened_ship_unlocks, ..r7 };
    let q13 = q + a8;
    lemma_concat_associative(q, a8, a9);
    assert(b == q13 + a9);
    assert(a8.len() == 4 + 8 * r.opened_ship_unlocks.len());
    assert(sp_from8(b, q.len() as int, CURRENT_VERSION, r7) == sp_from9(
        b,
        q13.len() as int,
        CURRENT_VERSION,
        r8,
    ));
    assert(b =~= q13 + (a9 + Seq::<u8>::empty()));
    lemma_block9_parses(q13, r, Seq::<u8>::empty(), r8);
    let r9 = ProgressSpec { abyss_ending_completed: r.abyss_ending_completed, ..r8 };
    assert(sp_from9(b, q13.len() as int, CURRENT_VERSION, r8) == (SpecParse::Parsed {
        rec: r9,
        end: q13.len() as int + 1,
    }));
}

/// The header of a canonical stream parses back to its fields, whatever
/// bytes follow it, and hands the version-gated tail the all-default record
/// with the header fields filled in.
#[verifier::rlimit(100)]
#[verifier::spinoff_prover]
proof fn lemma_header_parses(r: ProgressSpec, w: Seq<u8>)
    requires
        r.wf(),
    ensures
        enc_header(r).len() == 16 + 4 * r.visited_sector_types_datasets.len(),
        sp_decode(enc_header(r) + w) == sp_from1(
            enc_header(r) + w,
            16 + 4 * r.visited_sector_types_datasets.len() as int,
            CURRENT_VERSION,
            ProgressSpec {
                visited_sector_type_max_entry_id: r.visited_sector_type_max_entry_id,
                visited_sector_types_datasets: r.visited_sector_types_datasets,
                ..ProgressSpec::defaults()
            },
        ),
{
    lemma_auto_spec_u32_to_from_le_bytes();
    let b = enc_header(r) + w;
    let ds = r.visited_sector_types_datasets;
    let cnt = ds.len() as i32;
    let h1 = i32_le(MAGIC);
    let h2 = i32_le(r.visited_sector_type_max_entry_id);
    let h3 = i32_le(cnt);
    let h4 = i32s_le(ds);
    let h5 = i32_le(CURRENT_VERSION);
    let e5 = h5 + w;
    let e4 = h4 + e5;
    let e3 = h3 + e4;
    let e2 = h2 + e3;
    let e1 = h1 + e2;
    lemma_concat_associative(h4, h5, w);
    lemma_concat_associative(h3, h4 + h5, w);
    lemma_concat_associative(h2, h3 + (h4 + h5), w);
    lemma_concat_associative(h1, h2 + (h3 + (h4 + h5)), w);
    assert(b == e1);
    lemma_i32s_le_len(ds);
    let q0 = Seq::<u8>::empty();
    assert(q0 + e1 =~= e1);
    lemma_sp_i32_at(q0, MAGIC, e2);
    assert(sp_i32(b, 0) == Some((MAGIC, 4int)));
    let q1 = q0 + h1;
    lemma_concat_associative(q0, h1, e2);
    assert(b == q1 + e2);
    assert(q1.len() == 4);
    lemma_sp_i32_at(q1, r.visited_sector_type_max_entry_id, e3);
    let q2 = q1 + h2;
    lemma_concat_associative(q1, h2, e3);
    assert(b == q2 + e3);
    assert(q2.len() == 8);
    lemma_sp_i32_at(q2, cnt, e4);
    let q3 = q2 + h3;
    lemma_concat_associative(q2, h3, e4);
    assert(b == q3 + e4);
    assert(q3.len() == 12);
    assert(count_len(cnt) == ds.len());
    lemma_sp_i32_seq_at(q3, ds, e5);
    let q4 = q3 + h4;
    lemma_concat_associative(q3, h4, e5);
    assert(b == q4 + e5);
    assert(q4.len() == 12 + 4 * ds.len());
    lemma_sp_i32_at(q4, CURRENT_VERSION, w);
}

/// **Round trip**: decoding the canonical encoding of any well-formed record
/// yields exactly that record back, consuming the whole stream.
#[verifier::rlimit(100)]
#[verifier::spinoff_prover]
pub proof fn lemma_decode_encode(r: ProgressSpec)
    requires
        r.wf(),
    ensures
        sp_decode(spec_encode(r)) == (SpecParse::Parsed {
            rec: r,
            end: spec_encode(r).len() as int,
        }),
{
    lemma_auto_spec_u32_to_from_le_bytes();
    let b = spec_encode(r);
    let h = enc_header(r);
    let a1 = enc_block1(r);
    let a2 = enc_block2(r);
    let a3 = enc_block3(r);
    let a4 = enc_block4(r);
    let a5 = enc_block5(r);
    let a6 = enc_block6(r);
    let a7 = enc_block7(r);
    let a8 = enc_block8(r);
    let a9 = enc_block9(r);
    let w8 = a8 + a9;
    let w7 = a7 + w8;
    let w6 = a6 + w7;
    let w5 = a5 + w6;
    let w4 = a4 + w5;
    let w3 = a3 + w4;
    let w2 = a2 + w3;
    let w1 = a1 + w2;
    assert(b == h + w1);
    let r0 = ProgressSpec {
        visited_sector_type_max_entry_id: r.visited_sector_type_max_entry_id,
        visited_sector_types_datasets: r.visited_sector_types_datasets,
        ..ProgressSpec::defaults()
    };
    lemma_header_parses(r, w1);
    assert(sp_decode(b) == sp_from1(b, h.len() as int, CURRENT_VERSION, r0));
    lemma_from1_to_5(h, r, r0, w5);
    let r4 = ProgressSpec {
        completed_fb_campaign: r.completed_fb_campaign,
        jumps_completed: r.jumps_completed,
        jumps_completed_per_class: r.jumps_completed_per_class,
        blind_jumps_completed: r.blind_jumps_completed,
        levels_earned: r.levels_earned,
        levels_earned_per_class: r.levels_earned_per_class,
        pawn_deaths_total: r.pawn_deaths_total,
        crew_deaths_total: r.crew_deaths_total,
        biscuits_sold_individual_total: r.biscuits_sold_individual_total,
        max_crew_level_reached: r.max_crew_level_reached,
        missions_completed: r.missions_completed,
        vulrog_discovered: r.vulrog_discovered,
        levels_earned_per_faction: r.levels_earned_per_faction,
        enemy_ships_destroyed: r.enemy_ships_destroyed,
        talents_unlocked: r.talents_unlocked,
        credits_earned: r.credits_earned,
        credits_spent: r.credits_spent,
        damage_dealt_pawn: r.damage_dealt_pawn,
        damage_taken_pawn: r.damage_taken_pawn,
        damage_dealt_ship: r.damage_dealt_ship,
        damage_taken_ship: r.damage_taken_ship,
        shots_fired: r.shots_fired,
        system_health_healed_bits: r.system_health_healed_bits,
        footsteps_taken: r.footsteps_taken,
        max_chaos_level_reached_bits: r.max_chaos_level_reached_bits,
        missions_ids_completed: r.missions_ids_completed,
        unlocks_opened: r.unlocks_opened,
        turret_shots_fired: r.turret_shots_fired,
        ..r0
    };
    let p5 = h.len() as int + 158 + 4 * r.missions_ids_completed.len() + 12
        * r.unlocks_opened.len();
    assert(sp_decode(b) == sp_from5(b, p5, CURRENT_VERSION, r4));
    lemma_concat_associative(a3, a4, w5);
    lemma_concat_associative(a2, a3 + a4, w5);
    lemma_concat_associative(a1, a2 + (a3 + a4), w5);
    lemma_concat_associative(h, a1 + (a2 + (a3 + a4)), w5);
    let qb = h + (a1 + (a2 + (a3 + a4)));
    assert(b == qb + w5);
    assert(qb.len() == p5) by {
        lemma_i32s_le_len(r.jumps_completed_per_class);
        lemma_i32s_le_len(r.levels_earned_per_class);
        lemma_i32s_le_len(r.levels_earned_per_faction);
        lemma_i32s_le_len(r.missions_ids_completed);
        lemma_unlocks_le_len(r.unlocks_opened);
        assert(a1.len() == 1);
        assert(a2.len() == 73);
        assert(a3.len() == 72);
        assert(a4.len() == 12 + 4 * r.missions_ids_completed.len() + 12
            * r.unlocks_opened.len());
    }
    lemma_from5_to_8(qb, r, r4, w8);
    let r7 = ProgressSpec {
        races_completed_bit_field: r.races_completed_bit_field,
        extorts_attempted: r.extorts_attempted,
        diplomacy_attempted: r.diplomacy_attempted,
        pawn_hp_healed_bits: r.pawn_hp_healed_bits,
        any_ending_completed: r.any_ending_completed,
        cu_ending_completed: r.cu_ending_completed,
        aog_ending_completed: r.aog_ending_completed,
        wd_ending_completed: r.wd_ending_completed,
        fb_ending_completed: r.fb_ending_completed,
        keep_it_ending_completed: r.keep_it_ending_completed,
        free_it_ending_completed: r.free_it_ending_completed,
        destroy_it_ending_completed: r.destroy_it_ending_completed,
        ..r4
    };
    assert(sp_decode(b) == sp_from8(b, p5 + 24, CURRENT_VERSION, r7));
    lemma_concat_associative(a5, a6, a7 + w8);
    lemma_concat_associative(a5 + a6, a7, w8);
    lemma_concat_associative(qb, a5 + (a6 + a7), w8);
    let qc = qb + (a5 + (a6 + a7));
    assert(a5 + (a6 + (a7 + w8)) == (a5 + (a6 + a7)) + w8) by {
        lemma_concat_associative(a6, a7, w8);
        lemma_concat_associative(a5, a6 + a7, w8);
    }
    assert(b == qc + w8);
    assert(qc.len() == p5 + 24) by {
        assert(a5.len() == 4);
        assert(a6.len() == 12);
        assert(a7.len() == 8);
    }
    lemma_from8_to_end(qc, r, r7);
    let r9 = ProgressSpec {
        opened_ship_unlocks: r.opened_ship_unlocks,
        abyss_ending_completed: r.abyss_ending_completed,
        ..r7
    };
    assert(sp_decode(b) == (SpecParse::Parsed {
        rec: r9,
        end: qc.len() as int + 5 + 8 * r.opened_ship_unlocks.len(),
    }));
    assert(r9 =~= r);
    assert(b.len() == qc.len() + 5 + 8 * r.opened_ship_unlocks.len()) by {
        lemma_ship_unlocks_le_len(r.opened_ship_unlocks);
        assert(a8.len() == 4 + 8 * r.opened_ship_unlocks.len());
        assert(a9.len() == 1);
    }
}

/// **Byte round trip**: any stream this codec itself produced decodes
/// successfully, and re-encoding the decoded record reproduces the stream
/// byte for byte.
pub proof fn lemma_byte_round_trip(b: Seq<u8>)
    requires
        exists|r: ProgressSpec| r.wf() && b == spec_encode(r),
    ensures
        sp_decode(b) matches SpecParse::Parsed { rec, end } && spec_encode(rec) == b && end
            == b.len(),
{
    let r = choose|r: ProgressSpec| r.wf() && b == spec_encode(r);
    lemma_decode_encode(r);
}

/// **Magic rejection**: a stream whose first four bytes are readable but do
/// not store the magic sentinel is rejected as not being this format,
/// whatever the rest of the stream holds.
pub proof fn lemma_magic_rejection(b: Seq<u8>)
    requires
        b.len() >= 4,
        spec_u32_from_le_bytes(b.subrange(0, 4)) as i32 != MAGIC,
    ensures
        sp_decode(b) == SpecParse::BadMagic,
{
}

} // verus!
