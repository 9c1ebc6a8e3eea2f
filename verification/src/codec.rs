//! The versioned binary codec: the decoder that reads a byte stream into a
//! [`ProgressData`] record, gated by the stored schema version, and the
//! encoder that writes any record back as a canonical stream of the highest
//! revision.
//!
//! The wire layout is little-endian throughout. A stream is the magic
//! sentinel, the unconditional header fields, the stored schema version, and
//! then one block of fields per revision threshold `v >= k` for `k` from 1 to
//! 9; a block is read if and only if its threshold holds, and skipped blocks
//! leave their fields at defaults.

use crate::record::{DecodeError, ProgressData, ProgressSpec, ShipUnlockId, UnlockId, CURRENT_VERSION, MAGIC};
use crate::wire::{
    bool_le, i32_le, i32s_le, lemma_i32s_le_push, lemma_sp_bool_at, lemma_sp_i32_at,
    lemma_sp_i32_seq_at, lemma_sp_u32_at, lemma_i32s_le_len, read_bool, read_i32, read_i32_vec,
    read_u32, sp_bool, sp_i32, sp_i32_seq, sp_u32, u32_le, write_bool, write_i32, write_i32_vec,
    write_u32,
};
use vstd::prelude::*;

verus! {

/// How many elements a stored signed count stands for: negative counts read
/// as zero elements, exactly as a loop over `0..j` would run.
pub open spec fn count_len(j: i32) -> nat {
    if j > 0 {
        j as nat
    } else {
        0
    }
}

/// Little-endian encoding of one unlock record: three 32-bit scalars.
pub open spec fn unlock_le(u: UnlockId) -> Seq<u8> {
    i32_le(u.pawn_type) + (i32_le(u.cosmetic_type) + i32_le(u.cosmetic_id))
}

/// Concatenated encodings of a sequence of unlock records.
pub open spec fn unlocks_le(s: Seq<UnlockId>) -> Seq<u8>
    decreases s.len(),
{
    if s.len() == 0 {
        Seq::<u8>::empty()
    } else {
        unlock_le(s[0]) + unlocks_le(s.drop_first())
    }
}

/// Little-endian encoding of one ship-unlock record: two 32-bit scalars.
pub open spec fn ship_unlock_le(u: ShipUnlockId) -> Seq<u8> {
    i32_le(u.ship_type) + i32_le(u.variant)
}

/// Concatenated encodings of a sequence of ship-unlock records.
pub open spec fn ship_unlocks_le(s: Seq<ShipUnlockId>) -> Seq<u8>
    decreases s.len(),
{
    if s.len() == 0 {
        Seq::<u8>::empty()
    } else {
        ship_unlock_le(s[0]) + ship_unlocks_le(s.drop_first())
    }
}

/// Reads one unlock record at `pos`.
pub open spec fn sp_unlock(b: Seq<u8>, pos: int) -> Option<(UnlockId, int)> {
    match sp_i32(b, pos) {
        Some((pawn_type, p)) => match sp_i32(b, p) {
            Some((cosmetic_type, p)) => match sp_i32(b, p) {
                Some((cosmetic_id, p)) => Some(
                    (UnlockId { pawn_type, cosmetic_type, cosmetic_id }, p),
                ),
                None => None,
            },
            None => None,
        },
        None => None,
    }
}

/// Reads `n` consecutive unlock records starting at `pos`.
pub open spec fn sp_unlock_seq(b: Seq<u8>, pos: int, n: nat) -> Option<(Seq<UnlockId>, int)>
    decreases n,
{
    if n == 0 {
        Some((Seq::<UnlockId>::empty(), pos))
    } else {
        match sp_unlock(b, pos) {
            Some((u, p)) => match sp_unlock_seq(b, p, (n - 1) as nat) {
                Some((s, p2)) => Some((seq![u] + s, p2)),
                None => None,
            },
            None => None,
        }
    }
}

/// Reads one ship-unlock record at `pos`.
pub open spec fn sp_ship_unlock(b: Seq<u8>, pos: int) -> Option<(ShipUnlockId, int)> {
    match sp_i32(b, pos) {
        Some((ship_type, p)) => match sp_i32(b, p) {
            Some((variant, p)) => Some((ShipUnlockId { ship_type, variant }, p)),
            None => None,
        },
        None => None,
    }
}

/// Reads `n` consecutive ship-unlock records starting at `pos`.
pub open spec fn sp_ship_unlock_seq(b: Seq<u8>, pos: int, n: nat) -> Option<
    (Seq<ShipUnlockId>, int),
>
    decreases n,
{
    if n == 0 {
        Some((Seq::<ShipUnlockId>::empty(), pos))
    } else {
        match sp_ship_unlock(b, pos) {
            Some((u, p)) => match sp_ship_unlock_seq(b, p, (n - 1) as nat) {
                Some((s, p2)) => Some((seq![u] + s, p2)),
                None => None,
            },
            None => None,
        }
    }
}

/// Revision 1: one campaign flag.
pub open spec fn sp_block1(b: Seq<u8>, pos: int, r: ProgressSpec) -> Option<(ProgressSpec, int)> {
    match sp_bool(b, pos) {
        Some((completed_fb_campaign, p)) => Some(
            (ProgressSpec { completed_fb_campaign, ..r }, p),
        ),
        None => None,
    }
}

/// Revision 2: jump, level, death and mission statistics, and one flag.
pub open spec fn sp_block2(b: Seq<u8>, pos: int, r: ProgressSpec) -> Option<(ProgressSpec, int)> {
    match sp_i32(b, pos) {
        Some((jumps_completed, p)) => match sp_i32_seq(b, p, 5) {
            Some((jumps_completed_per_class, p)) => match sp_i32(b, p) {
                Some((blind_jumps_completed, p)) => match sp_i32(b, p) {
                    Some((levels_earned, p)) => match sp_i32_seq(b, p, 5) {
                        Some((levels_earned_per_class, p)) => match sp_i32(b, p) {
                            Some((pawn_deaths_total, p)) => match sp_i32(b, p) {
                                Some((crew_deaths_total, p)) => match sp_i32(b, p) {
                                    Some((biscuits_sold_individual_total, p)) => match sp_i32(
                                        b,
                                        p,
                                    ) {
                                        Some((max_crew_level_reached, p)) => match sp_i32(b, p) {
                                            Some((missions_completed, p)) => match sp_bool(b, p) {
                                                Some((vulrog_discovered, p)) => Some(
                                                    (
                                                        ProgressSpec {
                                                            jumps_completed,
                                                            jumps_completed_per_class,
                                                            blind_jumps_completed,
                                                            levels_earned,
                                                            levels_earned_per_class,
                                                            pawn_deaths_total,
                                                            crew_deaths_total,
                                                            biscuits_sold_individual_total,
                                                            max_crew_level_reached,
                                                            missions_completed,
                                                            vulrog_discovered,
                                                            ..r
                                                        },
                                                        p,
                                                    ),
                                                ),
                                                None => None,
                                            },
                                            None => None,
                                        },
                                        None => None,
                                    },
                                    None => None,
                                },
                                None => None,
                            },
                            None => None,
                        },
                        None => None,
                    },
                    None => None,
                },
                None => None,
            },
            None => None,
        },
        None => None,
    }
}

/// Revision 3: faction levels, combat and economy statistics; two of the
/// scalars carry IEEE-754 bit patterns.
pub open spec fn sp_block3(b: Seq<u8>, pos: int, r: ProgressSpec) -> Option<(ProgressSpec, int)> {
    match sp_i32_seq(b, pos, 6) {
        Some((levels_earned_per_faction, p)) => match sp_i32(b, p) {
            Some((enemy_ships_destroyed, p)) => match sp_i32(b, p) {
                Some((talents_unlocked, p)) => match sp_i32(b, p) {
                    Some((credits_earned, p)) => match sp_i32(b, p) {
                        Some((credits_spent, p)) => match sp_i32(b, p) {
                            Some((damage_dealt_pawn, p)) => match sp_i32(b, p) {
                                Some((damage_taken_pawn, p)) => match sp_i32(b, p) {
                                    Some((damage_dealt_ship, p)) => match sp_i32(b, p) {
                                        Some((damage_taken_ship, p)) => match sp_i32(b, p) {
                                            Some((shots_fired, p)) => match sp_u32(b, p) {
                                                Some((system_health_healed_bits, p)) => match sp_i32(
                                                    b,
                                                    p,
                                                ) {
                                                    Some((footsteps_taken, p)) => match sp_u32(
                                                        b,
                                                        p,
                                                    ) {
                                                        Some((max_chaos_level_reached_bits, p)) =>
                                                            Some(
                                                            (
                                                                ProgressSpec {
                                                                    levels_earned_per_faction,
                                                                    enemy_ships_destroyed,
                                                                    talents_unlocked,
                                                                    credits_earned,
                                                                    credits_spent,
                                                                    damage_dealt_pawn,
                                                                    damage_taken_pawn,
                                                                    damage_dealt_ship,
                                                                    damage_taken_ship,
                                                                    shots_fired,
                                                                    system_health_healed_bits,
                                                                    footsteps_taken,
                                                                    max_chaos_level_reached_bits,
                                                                    ..r
                                                                },
                                                                p,
                                                            ),
                                                        ),
                                                        None => None,
                                                    },
                                                    None => None,
                                                },
                                                None => None,
                                            },
                                            None => None,
                                        },
                                        None => None,
                                    },
                                    None => None,
                                },
                                None => None,
                            },
                            None => None,
                        },
                        None => None,
                    },
                    None => None,
                },
                None => None,
            },
            None => None,
        },
        None => None,
    }
}

/// Revision 4: two count-prefixed collections and one scalar.
pub open spec fn sp_block4(b: Seq<u8>, pos: int, r: ProgressSpec) -> Option<(ProgressSpec, int)> {
    match sp_i32(b, pos) {
        Some((mc, p)) => match sp_i32_seq(b, p, count_len(mc)) {
            Some((missions_ids_completed, p)) => match sp_i32(b, p) {
                Some((uc, p)) => match sp_unlock_seq(b, p, count_len(uc)) {
                    Some((unlocks_opened, p)) => match sp_i32(b, p) {
                        Some((turret_shots_fired, p)) => Some(
                            (
                                ProgressSpec {
                                    missions_ids_completed,
                                    unlocks_opened,
                                    turret_shots_fired,
                                    ..r
                                },
                                p,
                            ),
                        ),
                        None => None,
                    },
                    None => None,
                },
                None => None,
            },
            None => None,
        },
        None => None,
    }
}

/// Revision 5: one bit-field scalar.
pub open spec fn sp_block5(b: Seq<u8>, pos: int, r: ProgressSpec) -> Option<(ProgressSpec, int)> {
    match sp_i32(b, pos) {
        Some((races_completed_bit_field, p)) => Some(
            (ProgressSpec { races_completed_bit_field, ..r }, p),
        ),
        None => None,
    }
}

/// Revision 6: two scalars and one IEEE-754 bit pattern.
pub open spec fn sp_block6(b: Seq<u8>, pos: int, r: ProgressSpec) -> Option<(ProgressSpec, int)> {
    match sp_i32(b, pos) {
        Some((extorts_attempted, p)) => match sp_i32(b, p) {
            Some((diplomacy_attempted, p)) => match sp_u32(b, p) {
                Some((pawn_hp_healed_bits, p)) => Some(
                    (ProgressSpec { extorts_attempted, diplomacy_attempted, pawn_hp_healed_bits, ..r }, p),
                ),
                None => None,
            },
            None => None,
        },
        None => None,
    }
}

/// Revision 7: eight ending flags.
pub open spec fn sp_block7(b: Seq<u8>, pos: int, r: ProgressSpec) -> Option<(ProgressSpec, int)> {
    match sp_bool(b, pos) {
        Some((any_ending_completed, p)) => match sp_bool(b, p) {
            Some((cu_ending_completed, p)) => match sp_bool(b, p) {
                Some((aog_ending_completed, p)) => match sp_bool(b, p) {
                    Some((wd_ending_completed, p)) => match sp_bool(b, p) {
                        Some((fb_ending_completed, p)) => match sp_bool(b, p) {
                            Some((keep_it_ending_completed, p)) => match sp_bool(b, p) {
                                Some((free_it_ending_completed, p)) => match sp_bool(b, p) {
                                    Some((destroy_it_ending_completed, p)) => Some(
                                        (
                                            ProgressSpec {
                                                any_ending_completed,
                                                cu_ending_completed,
                                                aog_ending_completed,
                                                wd_ending_completed,
                                                fb_ending_completed,
                                                keep_it_ending_completed,
                                                free_it_ending_completed,
                                                destroy_it_ending_completed,
                                                ..r
                                            },
                                            p,
                                        ),
                                    ),
                                    None => None,
                                },
                                None => None,
                            },
                            None => None,
                        },
                        None => None,
                    },
                    None => None,
                },
                None => None,
            },
            None => None,
        },
        None => None,
    }
}

/// Revision 8: one count-prefixed collection of ship unlocks.
pub open spec fn sp_block8(b: Seq<u8>, pos: int, r: ProgressSpec) -> Option<(ProgressSpec, int)> {
    match sp_i32(b, pos) {
        Some((sc, p)) => match sp_ship_unlock_seq(b, p, count_len(sc)) {
            Some((opened_ship_unlocks, p)) => Some(
                (ProgressSpec { opened_ship_unlocks, ..r }, p),
            ),
            None => None,
        },
        None => None,
    }
}

/// Revision 9: one ending flag.
pub open spec fn sp_block9(b: Seq<u8>, pos: int, r: ProgressSpec) -> Option<(ProgressSpec, int)> {
    match sp_bool(b, pos) {
        Some((abyss_ending_completed, p)) => Some(
            (ProgressSpec { abyss_ending_completed, ..r }, p),
        ),
        None => None,
    }
}

/// What decoding a stream yields: a record together with the position one
/// past the last byte read, or one of the two failures.
#[verifier::ext_equal]
pub ghost enum SpecParse {
    Parsed { rec: ProgressSpec, end: int },
    BadMagic,
    Truncated,
}

/// The version-gated tail of the stream from block 9 on.
pub open spec fn sp_from9(b: Seq<u8>, pos: int, v: i32, r: ProgressSpec) -> SpecParse {
    if v < 9 {
        SpecParse::Parsed { rec: r, end: pos }
    } else {
        match sp_block9(b, pos, r) {
            Some((r2, p2)) => SpecParse::Parsed { rec: r2, end: p2 },
            None => SpecParse::Truncated,
        }
    }
}

/// The version-gated tail of the stream from block 8 on.
pub open spec fn sp_from8(b: Seq<u8>, pos: int, v: i32, r: ProgressSpec) -> SpecParse {
    if v < 8 {
        SpecParse::Parsed { rec: r, end: pos }
    } else {
        match sp_block8(b, pos, r) {
            Some((r2, p2)) => sp_from9(b, p2, v, r2),
            None => SpecParse::Truncated,
        }
    }
}

/// The version-gated tail of the stream from block 7 on.
pub open spec fn sp_from7(b: Seq<u8>, pos: int, v: i32, r: ProgressSpec) -> SpecParse {
    if v < 7 {
        SpecParse::Parsed { rec: r, end: pos }
    } else {
        match sp_block7(b, pos, r) {
            Some((r2, p2)) => sp_from8(b, p2, v, r2),
            None => SpecParse::Truncated,
        }
    }
}

/// The version-gated tail of the stream from block 6 on.
pub open spec fn sp_from6(b: Seq<u8>, pos: int, v: i32, r: ProgressSpec) -> SpecParse {
    if v < 6 {
        SpecParse::Parsed { rec: r, end: pos }
    } else {
        match sp_block6(b, pos, r) {
            Some((r2, p2)) => sp_from7(b, p2, v, r2),
            None => SpecParse::Truncated,
        }
    }
}

/// The version-gated tail of the stream from block 5 on.
pub open spec fn sp_from5(b: Seq<u8>, pos: int, v: i32, r: ProgressSpec) -> SpecParse {
    if v < 5 {
        SpecParse::Parsed { rec: r, end: pos }
    } else {
        match sp_block5(b, pos, r) {
            Some((r2, p2)) => sp_from6(b, p2, v, r2),
            None => SpecParse::Truncated,
        }
    }
}

/// The version-gated tail of the stream from block 4 on.
pub open spec fn sp_from4(b: Seq<u8>, pos: int, v: i32, r: ProgressSpec) -> SpecParse {
    if v < 4 {
        SpecParse::Parsed { rec: r, end: pos }
    } else {
        match sp_block4(b, pos, r) {
            Some((r2, p2)) => sp_from5(b, p2, v, r2),
            None => SpecParse::Truncated,
        }
    }
}

/// The version-gated tail of the stream from block 3 on.
pub open spec fn sp_from3(b: Seq<u8>, pos: int, v: i32, r: ProgressSpec) -> SpecParse {
    if v < 3 {
        SpecParse::Parsed { rec: r, end: pos }
    } else {
        match sp_block3(b, pos, r) {
            Some((r2, p2)) => sp_from4(b, p2, v, r2),
            None => SpecParse::Truncated,
        }
    }
}

/// The version-gated tail of the stream from block 2 on.
pub open spec fn sp_from2(b: Seq<u8>, pos: int, v: i32, r: ProgressSpec) -> SpecParse {
    if v < 2 {
        SpecParse::Parsed { rec: r, end: pos }
    } else {
        match sp_block2(b, pos, r) {
            Some((r2, p2)) => sp_from3(b, p2, v, r2),
            None => SpecParse::Truncated,
        }
    }
}

/// The version-gated tail of the stream from block 1 on.
pub open spec fn sp_from1(b: Seq<u8>, pos: int, v: i32, r: ProgressSpec) -> SpecParse {
    if v < 1 {
        SpecParse::Parsed { rec: r, end: pos }
    } else {
        match sp_block1(b, pos, r) {
            Some((r2, p2)) => sp_from2(b, p2, v, r2),
            None => SpecParse::Truncated,
        }
    }
}

/// The whole decoder, as a function on the byte stream: magic sentinel, the
/// unconditional header fields, the stored schema version, then the
/// version-gated blocks in ascending order.
pub open spec fn sp_decode(b: Seq<u8>) -> SpecParse {
    match sp_i32(b, 0) {
        None => SpecParse::Truncated,
        Some((magic, p)) => if magic != MAGIC {
            SpecParse::BadMagic
        } else {
            match sp_i32(b, p) {
                None => SpecParse::Truncated,
                Some((max_id, p)) => match sp_i32(b, p) {
                    None => SpecParse::Truncated,
                    Some((j, p)) => match sp_i32_seq(b, p, count_len(j)) {
                        None => SpecParse::Truncated,
                        Some((ds, p)) => match sp_i32(b, p) {
                            None => SpecParse::Truncated,
                            Some((v, p)) => sp_from1(
                                b,
                                p,
                                v,
                                ProgressSpec {
                                    visited_sector_type_max_entry_id: max_id,
                                    visited_sector_types_datasets: ds,
                                    ..ProgressSpec::defaults()
                                },
                            ),
                        },
                    },
                },
            }
        },
    }
}

/// The schema version an otherwise-readable stream stores, ignoring whether
/// the magic sentinel is right.
pub open spec fn sp_version(b: Seq<u8>) -> Option<i32> {
    match sp_i32(b, 0) {
        None => None,
        Some((_, p)) => match sp_i32(b, p) {
            None => None,
            Some((_, p)) => match sp_i32(b, p) {
                None => None,
                Some((j, p)) => match sp_i32_seq(b, p, count_len(j)) {
                    None => None,
                    Some((_, p)) => match sp_i32(b, p) {
                        None => None,
                        Some((v, _)) => Some(v),
                    },
                },
            },
        },
    }
}

/// Reads one unlock record.
fn read_unlock(b: &[u8], pos: usize) -> (r: Option<(UnlockId, usize)>)
    ensures
        match r {
            Some((u, p)) => sp_unlock(b@, pos as int) == Some((u, p as int)) && p == pos + 12 && p
                <= b@.len(),
            None => sp_unlock(b@, pos as int) is None,
        },
{
    let (pawn_type, p) = match read_i32(b, pos) {
        Some(x) => x,
        None => return None,
    };
    let (cosmetic_type, p) = match read_i32(b, p) {
        Some(x) => x,
        None => return None,
    };
    let (cosmetic_id, p) = match read_i32(b, p) {
        Some(x) => x,
        None => return None,
    };
    Some((UnlockId { pawn_type, cosmetic_type, cosmetic_id }, p))
}

/// Reads `n` consecutive unlock records into a vector.
fn read_unlock_vec(b: &[u8], pos: usize, n: usize) -> (r: Option<(Vec<UnlockId>, usize)>)
    requires
        pos <= b@.len(),
    ensures
        match r {
            Some((vs, p)) => sp_unlock_seq(b@, pos as int, n as nat) == Some((vs@, p as int)) && p
                <= b@.len() && vs@.len() == n,
            None => sp_unlock_seq(b@, pos as int, n as nat) is None,
        },
{
    let mut acc: Vec<UnlockId> = Vec::new();
    let mut cur: usize = pos;
    let mut i: usize = 0;
    while i < n
        invariant
            i <= n,
            acc@.len() == i,
            cur <= b@.len(),
            match sp_unlock_seq(b@, cur as int, (n - i) as nat) {
                Some((s, p)) => sp_unlock_seq(b@, pos as int, n as nat) == Some((acc@ + s, p)),
                None => sp_unlock_seq(b@, pos as int, n as nat) is None,
            },
        decreases n - i,
    {
        match read_unlock(b, cur) {
            Some((u, p2)) => {
                proof {
                    let tail = sp_unlock_seq(b@, p2 as int, (n - i - 1) as nat);
                    match tail {
                        Some((s, pend)) => {
                            assert(acc@ + (seq![u] + s) =~= acc@.push(u) + s);
                        },
                        None => {},
                    }
                }
                acc.push(u);
                cur = p2;
                i = i + 1;
            },
            None => {
                return None;
            },
        }
    }
    proof {
        assert(acc@ + Seq::<UnlockId>::empty() =~= acc@);
    }
    Some((acc, cur))
}

/// Reads one ship-unlock record.
fn read_ship_unlock(b: &[u8], pos: usize) -> (r: Option<(ShipUnlockId, usize)>)
    ensures
        match r {
            Some((u, p)) => sp_ship_unlock(b@, pos as int) == Some((u, p as int)) && p == pos + 8
                && p <= b@.len(),
            None => sp_ship_unlock(b@, pos as int) is None,
        },
{
    let (ship_type, p) = match read_i32(b, pos) {
        Some(x) => x,
        None => return None,
    };
    let (variant, p) = match read_i32(b, p) {
        Some(x) => x,
        None => return None,
    };
    Some((ShipUnlockId { ship_type, variant }, p))
}

/// Reads `n` consecutive ship-unlock records into a vector.
fn read_ship_unlock_vec(b: &[u8], pos: usize, n: usize) -> (r: Option<(Vec<ShipUnlockId>, usize)>)
    requires
        pos <= b@.len(),
    ensures
        match r {
            Some((vs, p)) => sp_ship_unlock_seq(b@, pos as int, n as nat) == Some((vs@, p as int))
                && p <= b@.len() && vs@.len() == n,
            None => sp_ship_unlock_seq(b@, pos as int, n as nat) is None,
        },
{
    let mut acc: Vec<ShipUnlockId> = Vec::new();
    let mut cur: usize = pos;
    let mut i: usize = 0;
    while i < n
        invariant
            i <= n,
            acc@.len() == i,
            cur <= b@.len(),
            match sp_ship_unlock_seq(b@, cur as int, (n - i) as nat) {
                Some((s, p)) => sp_ship_unlock_seq(b@, pos as int, n as nat) == Some(
                    (acc@ + s, p),
                ),
                None => sp_ship_unlock_seq(b@, pos as int, n as nat) is None,
            },
        decreases n - i,
    {
        match read_ship_unlock(b, cur) {
            Some((u, p2)) => {
                proof {
                    let tail = sp_ship_unlock_seq(b@, p2 as int, (n - i - 1) as nat);
                    match tail {
                        Some((s, pend)) => {
                            assert(acc@ + (seq![u] + s) =~= acc@.push(u) + s);
                        },
                        None => {},
                    }
                }
                acc.push(u);
                cur = p2;
                i = i + 1;
            },
            None => {
                return None;
            },
        }
    }
    proof {
        assert(acc@ + Seq::<ShipUnlockId>::empty() =~= acc@);
    }
    Some((acc, cur))
}

/// Reads the revision-1 block into the record.
fn read_block1(b: &[u8], pos: usize, r: &mut ProgressData) -> (res: Option<usize>)
    ensures
        match sp_block1(b@, pos as int, old(r)@) {
            Some((r2, p2)) => res matches Some(p) && p == p2 && final(r)@ == r2 && p <= b@.len()
                && (old(r)@.wf() ==> r2.wf()),
            None => res is None,
        },
{
    let (completed_fb_campaign, p) = match read_bool(b, pos) {
        Some(x) => x,
        None => return None,
    };
    r.completed_fb_campaign = completed_fb_campaign;
    Some(p)
}

/// Reads the revision-2 block into the record.
fn read_block2(b: &[u8], pos: usize, r: &mut ProgressData) -> (res: Option<usize>)
    ensures
        match sp_block2(b@, pos as int, old(r)@) {
            Some((r2, p2)) => res matches Some(p) && p == p2 && final(r)@ == r2 && p <= b@.len()
                && (old(r)@.wf() ==> r2.wf()),
            None => res is None,
        },
{
    let (jumps_completed, p) = match read_i32(b, pos) {
        Some(x) => x,
        None => return None,
    };
    let (jumps_completed_per_class, p) = match read_i32_vec(b, p, 5) {
        Some(x) => x,
        None => return None,
    };
    let (blind_jumps_completed, p) = match read_i32(b, p) {
        Some(x) => x,
        None => return None,
    };
    let (levels_earned, p) = match read_i32(b, p) {
        Some(x) => x,
        None => return None,
    };
    let (levels_earned_per_class, p) = match read_i32_vec(b, p, 5) {
        Some(x) => x,
        None => return None,
    };
    let (pawn_deaths_total, p) = match read_i32(b, p) {
        Some(x) => x,
        None => return None,
    };
    let (crew_deaths_total, p) = match read_i32(b, p) {
        Some(x) => x,
        None => return None,
    };
    let (biscuits_sold_individual_total, p) = match read_i32(b, p) {
        Some(x) => x,
        None => return None,
    };
    let (max_crew_level_reached, p) = match read_i32(b, p) {
        Some(x) => x,
        None => return None,
    };
    let (missions_completed, p) = match read_i32(b, p) {
        Some(x) => x,
        None => return None,
    };
    let (vulrog_discovered, p) = match read_bool(b, p) {
        Some(x) => x,
        None => return None,
    };
    r.jumps_completed = jumps_completed;
    r.jumps_completed_per_class = jumps_completed_per_class;
    r.blind_jumps_completed = blind_jumps_completed;
    r.levels_earned = levels_earned;
    r.levels_earned_per_class = levels_earned_per_class;
    r.pawn_deaths_total = pawn_deaths_total;
    r.crew_deaths_total = crew_deaths_total;
    r.biscuits_sold_individual_total = biscuits_sold_individual_total;
    r.max_crew_level_reached = max_crew_level_reached;
    r.missions_completed = missions_completed;
    r.vulrog_discovered = vulrog_discovered;
    Some(p)
}

/// Reads the revision-3 block into the record.
fn read_block3(b: &[u8], pos: usize, r: &mut ProgressData) -> (res: Option<usize>)
    requires
        pos <= b@.len(),
    ensures
        match sp_block3(b@, pos as int, old(r)@) {
            Some((r2, p2)) => res matches Some(p) && p == p2 && final(r)@ == r2 && p <= b@.len()
                && (old(r)@.wf() ==> r2.wf()),
            None => res is None,
        },
{
    let (levels_earned_per_faction, p) = match read_i32_vec(b, pos, 6) {
        Some(x) => x,
        None => return None,
    };
    let (enemy_ships_destroyed, p) = match read_i32(b, p) {
        Some(x) => x,
        None => return None,
    };
    let (talents_unlocked, p) = match read_i32(b, p) {
        Some(x) => x,
        None => return None,
    };
    let (credits_earned, p) = match read_i32(b, p) {
        Some(x) => x,
        None => return None,
    };
    let (credits_spent, p) = match read_i32(b, p) {
        Some(x) => x,
        None => return None,
    };
    let (damage_dealt_pawn, p) = match read_i32(b, p) {
        Some(x) => x,
        None => return None,
    };
    let (damage_taken_pawn, p) = match read_i32(b, p) {
        Some(x) => x,
        None => return None,
    };
    let (damage_dealt_ship, p) = match read_i32(b, p) {
        Some(x) => x,
        None => return None,
    };
    let (damage_taken_ship, p) = match read_i32(b, p) {
        Some(x) => x,
        None => return None,
    };
    let (shots_fired, p) = match read_i32(b, p) {
        Some(x) => x,
        None => return None,
    };
    let (system_health_healed_bits, p) = match read_u32(b, p) {
        Some(x) => x,
        None => return None,
    };
    let (footsteps_taken, p) = match read_i32(b, p) {
        Some(x) => x,
        None => return None,
    };
    let (max_chaos_level_reached_bits, p) = match read_u32(b, p) {
        Some(x) => x,
        None => return None,
    };
    r.levels_earned_per_faction = levels_earned_per_faction;
    r.enemy_ships_destroyed = enemy_ships_destroyed;
    r.talents_unlocked = talents_unlocked;
    r.credits_earned = credits_earned;
    r.credits_spent = credits_spent;
    r.damage_dealt_pawn = damage_dealt_pawn;
    r.damage_taken_pawn = damage_taken_pawn;
    r.damage_dealt_ship = damage_dealt_ship;
    r.damage_taken_ship = damage_taken_ship;
    r.shots_fired = shots_fired;
    r.system_health_healed_bits = system_health_healed_bits;
    r.footsteps_taken = footsteps_taken;
    r.max_chaos_level_reached_bits = max_chaos_level_reached_bits;
    Some(p)
}

/// Reads the revision-4 block into the record.
#[verifier::rlimit(100)]
fn read_block4(b: &[u8], pos: usize, r: &mut ProgressData) -> (res: Option<usize>)
    ensures
        match sp_block4(b@, pos as int, old(r)@) {
            Some((r2, p2)) => res matches Some(p) && p == p2 && final(r)@ == r2 && p <= b@.len()
                && (old(r)@.wf() ==> r2.wf()),
            None => res is None,
        },
{
    let (mc, p) = match read_i32(b, pos) {
        Some(x) => x,
        None => return None,
    };
    let nm: usize = if mc > 0 {
        mc as usize
    } else {
        0
    };
    let (missions_ids_completed, p) = match read_i32_vec(b, p, nm) {
        Some(x) => x,
        None => return None,
    };
    let (uc, p) = match read_i32(b, p) {
        Some(x) => x,
        None => return None,
    };
    let nu: usize = if uc > 0 {
        uc as usize
    } else {
        0
    };
    let (unlocks_opened, p) = match read_unlock_vec(b, p, nu) {
        Some(x) => x,
        None => return None,
    };
    let (turret_shots_fired, p) = match read_i32(b, p) {
        Some(x) => x,
        None => return None,
    };
    r.missions_ids_completed = missions_ids_completed;
    r.unlocks_opened = unlocks_opened;
    r.turret_shots_fired = turret_shots_fired;
    Some(p)
}

/// Reads the revision-5 block into the record.
fn read_block5(b: &[u8], pos: usize, r: &mut ProgressData) -> (res: Option<usize>)
    ensures
        match sp_block5(b@, pos as int, old(r)@) {
            Some((r2, p2)) => res matches Some(p) && p == p2 && final(r)@ == r2 && p <= b@.len()
                && (old(r)@.wf() ==> r2.wf()),
            None => res is None,
        },
{
    let (races_completed_bit_field, p) = match read_i32(b, pos) {
        Some(x) => x,
        None => return None,
    };
    r.races_completed_bit_field = races_completed_bit_field;
    Some(p)
}

/// Reads the revision-6 block into the record.
fn read_block6(b: &[u8], pos: usize, r: &mut ProgressData) -> (res: Option<usize>)
    ensures
        match sp_block6(b@, pos as int, old(r)@) {
            Some((r2, p2)) => res matches Some(p) && p == p2 && final(r)@ == r2 && p <= b@.len()
                && (old(r)@.wf() ==> r2.wf()),
            None => res is None,
        },
{
    let (extorts_attempted, p) = match read_i32(b, pos) {
        Some(x) => x,
        None => return None,
    };
    let (diplomacy_attempted, p) = match read_i32(b, p) {
        Some(x) => x,
        None => return None,
    };
    let (pawn_hp_healed_bits, p) = match read_u32(b, p) {
        Some(x) => x,
        None => return None,
    };
    r.extorts_attempted = extorts_attempted;
    r.diplomacy_attempted = diplomacy_attempted;
    r.pawn_hp_healed_bits = pawn_hp_healed_bits;
    Some(p)
}

/// Reads the revision-7 block into the record.
fn read_block7(b: &[u8], pos: usize, r: &mut ProgressData) -> (res: Option<usize>)
    ensures
        match sp_block7(b@, pos as int, old(r)@) {
            Some((r2, p2)) => res matches Some(p) && p == p2 && final(r)@ == r2 && p <= b@.len()
                && (old(r)@.wf() ==> r2.wf()),
            None => res is None,
        },
{
    let (any_ending_completed, p) = match read_bool(b, pos) {
        Some(x) => x,
        None => return None,
    };
    let (cu_ending_completed, p) = match read_bool(b, p) {
        Some(x) => x,
        None => return None,
    };
    let (aog_ending_completed, p) = match read_bool(b, p) {
        Some(x) => x,
        None => return None,
    };
    let (wd_ending_completed, p) = match read_bool(b, p) {
        Some(x) => x,
        None => return None,
    };
    let (fb_ending_completed, p) = match read_bool(b, p) {
        Some(x) => x,
        None => return None,
    };
    let (keep_it_ending_completed, p) = match read_bool(b, p) {
        Some(x) => x,
        None => return None,
    };
    let (free_it_ending_completed, p) = match read_bool(b, p) {
        Some(x) => x,
        None => return None,
    };
    let (destroy_it_ending_completed, p) = match read_bool(b, p) {
        Some(x) => x,
        None => return None,
    };
    r.any_ending_completed = any_ending_completed;
    r.cu_ending_completed = cu_ending_completed;
    r.aog_ending_completed = aog_ending_completed;
    r.wd_ending_completed = wd_ending_completed;
    r.fb_ending_completed = fb_ending_completed;
    r.keep_it_ending_completed = keep_it_ending_completed;
    r.free_it_ending_completed = free_it_ending_completed;
    r.destroy_it_ending_completed = destroy_it_ending_completed;
    Some(p)
}

/// Reads the revision-8 block into the record.
fn read_block8(b: &[u8], pos: usize, r: &mut ProgressData) -> (res: Option<usize>)
    ensures
        match sp_block8(b@, pos as int, old(r)@) {
            Some((r2, p2)) => res matches Some(p) && p == p2 && final(r)@ == r2 && p <= b@.len()
                && (old(r)@.wf() ==> r2.wf()),
            None => res is None,
        },
{
    let (sc, p) = match read_i32(b, pos) {
        Some(x) => x,
        None => return None,
    };
    let ns: usize = if sc > 0 {
        sc as usize
    } else {
        0
    };
    let (opened_ship_unlocks, p) = match read_ship_unlock_vec(b, p, ns) {
        Some(x) => x,
        None => return None,
    };
    r.opened_ship_unlocks = opened_ship_unlocks;
    Some(p)
}

/// Reads the revision-9 block into the record.
fn read_block9(b: &[u8], pos: usize, r: &mut ProgressData) -> (res: Option<usize>)
    ensures
        match sp_block9(b@, pos as int, old(r)@) {
            Some((r2, p2)) => res matches Some(p) && p == p2 && final(r)@ == r2 && p <= b@.len()
                && (old(r)@.wf() ==> r2.wf()),
            None => res is None,
        },
{
    let (abyss_ending_completed, p) = match read_bool(b, pos) {
        Some(x) => x,
        None => return None,
    };
    r.abyss_ending_completed = abyss_ending_completed;
    Some(p)
}

/// Decodes a byte stream into a Progress Record.
///
/// Succeeds exactly when the spec-level parser [`sp_decode`] does, and then
/// returns exactly the record it describes. Fails with
/// [`DecodeError::MagicMismatch`] when the stream starts with four readable bytes
/// other than the magic sentinel, and with [`DecodeError::TruncatedStream`] when
/// the stream ends before a required value could be read.
#[verifier::rlimit(80)]
pub fn decode_progress(b: &[u8]) -> (res: Result<ProgressData, DecodeError>)
    ensures
        sp_decode(b@) matches SpecParse::Parsed { rec, end } ==> res matches Ok(r) && r@ == rec
            && rec.wf(),
        sp_decode(b@) is BadMagic ==> res == Err::<ProgressData, DecodeError>(DecodeError::MagicMismatch),
        sp_decode(b@) is Truncated ==> res == Err::<ProgressData, DecodeError>(DecodeError::TruncatedStream),
{
    let (magic, p) = match read_i32(b, 0) {
        Some(x) => x,
        None => return Err(DecodeError::TruncatedStream),
    };
    if magic != MAGIC {
        return Err(DecodeError::MagicMismatch);
    }
    let (max_id, p) = match read_i32(b, p) {
        Some(x) => x,
        None => return Err(DecodeError::TruncatedStream),
    };
    let (j, p) = match read_i32(b, p) {
        Some(x) => x,
        None => return Err(DecodeError::TruncatedStream),
    };
    let n: usize = if j > 0 {
        j as usize
    } else {
        0
    };
    let (ds, p) = match read_i32_vec(b, p, n) {
        Some(x) => x,
        None => return Err(DecodeError::TruncatedStream),
    };
    let (v, p) = match read_i32(b, p) {
        Some(x) => x,
        None => return Err(DecodeError::TruncatedStream),
    };
    let mut rec = ProgressData::new();
    rec.visited_sector_type_max_entry_id = max_id;
    rec.visited_sector_types_datasets = ds;
    let mut p = p;
    proof {
        assert(rec@ =~= ProgressSpec {
            visited_sector_type_max_entry_id: max_id,
            visited_sector_types_datasets: rec.visited_sector_types_datasets@,
            ..ProgressSpec::defaults()
        });
        assert(sp_decode(b@) == sp_from1(b@, p as int, v, rec@));
    }
    if v >= 1 {
        p = match read_block1(b, p, &mut rec) {
            Some(x) => x,
            None => return Err(DecodeError::TruncatedStream),
        };
    }
    assert(sp_decode(b@) == sp_from2(b@, p as int, v, rec@));
    if v >= 2 {
        p = match read_block2(b, p, &mut rec) {
            Some(x) => x,
            None => return Err(DecodeError::TruncatedStream),
        };
    }
    assert(sp_decode(b@) == sp_from3(b@, p as int, v, rec@));
    if v >= 3 {
        p = match read_block3(b, p, &mut rec) {
            Some(x) => x,
            None => return Err(DecodeError::TruncatedStream),
        };
    }
    assert(sp_decode(b@) == sp_from4(b@, p as int, v, rec@));
    if v >= 4 {
        p = match read_block4(b, p, &mut rec) {
            Some(x) => x,
            None => return Err(DecodeError::TruncatedStream),
        };
    }
    assert(sp_decode(b@) == sp_from5(b@, p as int, v, rec@));
    if v >= 5 {
        p = match read_block5(b, p, &mut rec) {
            Some(x) => x,
            None => return Err(DecodeError::TruncatedStream),
        };
    }
    assert(sp_decode(b@) == sp_from6(b@, p as int, v, rec@));
    if v >= 6 {
        p = match read_block6(b, p, &mut rec) {
            Some(x) => x,
            None => return Err(DecodeError::TruncatedStream),
        };
    }
    assert(sp_decode(b@) == sp_from7(b@, p as int, v, rec@));
    if v >= 7 {
        p = match read_block7(b, p, &mut rec) {
            Some(x) => x,
            None => return Err(DecodeError::TruncatedStream),
        };
    }
    assert(sp_decode(b@) == sp_from8(b@, p as int, v, rec@));
    if v >= 8 {
        p = match read_block8(b, p, &mut rec) {
            Some(x) => x,
            None => return Err(DecodeError::TruncatedStream),
        };
    }
    assert(sp_decode(b@) == sp_from9(b@, p as int, v, rec@));
    if v >= 9 {
        p = match read_block9(b, p, &mut rec) {
            Some(x) => x,
            None => return Err(DecodeError::TruncatedStream),
        };
    }
    assert(sp_decode(b@) == (SpecParse::Parsed { rec: rec@, end: p as int }));
    Ok(rec)
}

/// Bytes of the unconditional header: magic sentinel, the maximum dataset
/// entry id, the count-prefixed dataset sequence, and the schema version,
/// which the encoder always writes as the highest revision.
pub open spec fn enc_header(r: ProgressSpec) -> Seq<u8> {
    i32_le(MAGIC) + (i32_le(r.visited_sector_type_max_entry_id) + (i32_le(
        r.visited_sector_types_datasets.len() as i32,
    ) + (i32s_le(r.visited_sector_types_datasets) + i32_le(CURRENT_VERSION))))
}

/// Bytes of the revision-1 block.
pub open spec fn enc_block1(r: ProgressSpec) -> Seq<u8> {
    bool_le(r.completed_fb_campaign)
}

/// Bytes of the revision-2 block.
pub open spec fn enc_block2(r: ProgressSpec) -> Seq<u8> {
    i32_le(r.jumps_completed) + (i32s_le(r.jumps_completed_per_class) + (i32_le(
        r.blind_jumps_completed,
    ) + (i32_le(r.levels_earned) + (i32s_le(r.levels_earned_per_class) + (i32_le(
        r.pawn_deaths_total,
    ) + (i32_le(r.crew_deaths_total) + (i32_le(r.biscuits_sold_individual_total) + (i32_le(
        r.max_crew_level_reached,
    ) + (i32_le(r.missions_completed) + bool_le(r.vulrog_discovered))))))))))
}

/// Bytes of the revision-3 block.
pub open spec fn enc_block3(r: ProgressSpec) -> Seq<u8> {
    i32s_le(r.levels_earned_per_faction) + (i32_le(r.enemy_ships_destroyed) + (i32_le(
        r.talents_unlocked,
    ) + (i32_le(r.credits_earned) + (i32_le(r.credits_spent) + (i32_le(r.damage_dealt_pawn) + (
    i32_le(r.damage_taken_pawn) + (i32_le(r.damage_dealt_ship) + (i32_le(r.damage_taken_ship) + (
    i32_le(r.shots_fired) + (u32_le(r.system_health_healed_bits) + (i32_le(r.footsteps_taken)
        + u32_le(r.max_chaos_level_reached_bits))))))))))))
}

/// Bytes of the revision-4 block.
pub open spec fn enc_block4(r: ProgressSpec) -> Seq<u8> {
    i32_le(r.missions_ids_completed.len() as i32) + (i32s_le(r.missions_ids_completed) + (i32_le(
        r.unlocks_opened.len() as i32,
    ) + (unlocks_le(r.unlocks_opened) + i32_le(r.turret_shots_fired))))
}

/// Bytes of the revision-5 block.
pub open spec fn enc_block5(r: ProgressSpec) -> Seq<u8> {
    i32_le(r.races_completed_bit_field)
}

/// Bytes of the revision-6 block.
pub open spec fn enc_block6(r: ProgressSpec) -> Seq<u8> {
    i32_le(r.extorts_attempted) + (i32_le(r.diplomacy_attempted) + u32_le(r.pawn_hp_healed_bits))
}

/// Bytes of the revision-7 block.
pub open spec fn enc_block7(r: ProgressSpec) -> Seq<u8> {
    bool_le(r.any_ending_completed) + (bool_le(r.cu_ending_completed) + (bool_le(
        r.aog_ending_completed,
    ) + (bool_le(r.wd_ending_completed) + (bool_le(r.fb_ending_completed) + (bool_le(
        r.keep_it_ending_completed,
    ) + (bool_le(r.free_it_ending_completed) + bool_le(r.destroy_it_ending_completed)))))))
}

/// Bytes of the revision-8 block.
pub open spec fn enc_block8(r: ProgressSpec) -> Seq<u8> {
    i32_le(r.opened_ship_unlocks.len() as i32) + ship_unlocks_le(r.opened_ship_unlocks)
}

/// Bytes of the revision-9 block.
pub open spec fn enc_block9(r: ProgressSpec) -> Seq<u8> {
    bool_le(r.abyss_ending_completed)
}

/// The canonical byte stream for a record: the header followed by every
/// block of revisions 1 through 9, unconditionally and in order.
pub open spec fn spec_encode(r: ProgressSpec) -> Seq<u8> {
    enc_header(r) + (enc_block1(r) + (enc_block2(r) + (enc_block3(r) + (enc_block4(r) + (enc_block5(
        r,
    ) + (enc_block6(r) + (enc_block7(r) + (enc_block8(r) + enc_block9(r)))))))))
}

/// Appending one more unlock record appends its twelve bytes to the
/// sequence's encoding.
proof fn lemma_unlocks_le_push(s: Seq<UnlockId>, u: UnlockId)
    ensures
        unlocks_le(s.push(u)) == unlocks_le(s) + unlock_le(u),
    decreases s.len(),
{
    let sp = s.push(u);
    if s.len() == 0 {
        assert(sp.drop_first() =~= Seq::<UnlockId>::empty());
        assert(unlocks_le(sp) == unlock_le(sp[0]) + unlocks_le(sp.drop_first()));
        assert(sp[0] == u);
        assert(unlock_le(u) + Seq::<u8>::empty() =~= unlock_le(u));
        assert(Seq::<u8>::empty() + unlock_le(u) =~= unlock_le(u));
    } else {
        assert(sp.drop_first() =~= s.drop_first().push(u));
        assert(unlocks_le(sp) == unlock_le(sp[0]) + unlocks_le(sp.drop_first()));
        assert(sp[0] == s[0]);
        lemma_unlocks_le_push(s.drop_first(), u);
        assert(unlock_le(s[0]) + (unlocks_le(s.drop_first()) + unlock_le(u)) =~= (unlock_le(s[0])
            + unlocks_le(s.drop_first())) + unlock_le(u));
    }
}

/// Appending one more ship-unlock record appends its eight bytes to the
/// sequence's encoding.
proof fn lemma_ship_unlocks_le_push(s: Seq<ShipUnlockId>, u: ShipUnlockId)
    ensures
        ship_unlocks_le(s.push(u)) == ship_unlocks_le(s) + ship_unlock_le(u),
    decreases s.len(),
{
    let sp = s.push(u);
    if s.len() == 0 {
        assert(sp.drop_first() =~= Seq::<ShipUnlockId>::empty());
        assert(ship_unlocks_le(sp) == ship_unlock_le(sp[0]) + ship_unlocks_le(sp.drop_first()));
        assert(sp[0] == u);
        assert(ship_unlock_le(u) + Seq::<u8>::empty() =~= ship_unlock_le(u));
        assert(Seq::<u8>::empty() + ship_unlock_le(u) =~= ship_unlock_le(u));
    } else {
        assert(sp.drop_first() =~= s.drop_first().push(u));
        assert(ship_unlocks_le(sp) == ship_unlock_le(sp[0]) + ship_unlocks_le(sp.drop_first()));
        assert(sp[0] == s[0]);
        lemma_ship_unlocks_le_push(s.drop_first(), u);
        assert(ship_unlock_le(s[0]) + (ship_unlocks_le(s.drop_first()) + ship_unlock_le(u)) =~= (
        ship_unlock_le(s[0]) + ship_unlocks_le(s.drop_first())) + ship_unlock_le(u));
    }
}

/// Appends the encodings of every unlock record in the vector, in order.
fn write_unlock_vec(out: &mut Vec<u8>, vs: &Vec<UnlockId>)
    ensures
        final(out)@ == old(out)@ + unlocks_le(vs@),
{
    let mut i: usize = 0;
    proof {
        assert(out@ + unlocks_le(vs@.take(0)) =~= out@);
    }
    while i < vs.len()
        invariant
            i <= vs@.len(),
            out@ == old(out)@ + unlocks_le(vs@.take(i as int)),
        decreases vs@.len() - i,
    {
        let u = vs[i];
        proof {
            lemma_unlocks_le_push(vs@.take(i as int), vs@[i as int]);
            assert(vs@.take(i as int).push(vs@[i as int]) =~= vs@.take(i + 1 as int));
        }
        write_i32(out, u.pawn_type);
        write_i32(out, u.cosmetic_type);
        write_i32(out, u.cosmetic_id);
        proof {
            let base = old(out)@ + unlocks_le(vs@.take(i as int));
            assert(((base + i32_le(u.pawn_type)) + i32_le(u.cosmetic_type)) + i32_le(u.cosmetic_id)
                =~= base + (i32_le(u.pawn_type) + (i32_le(u.cosmetic_type) + i32_le(
                u.cosmetic_id,
            ))));
            assert(base + unlock_le(vs@[i as int]) =~= old(out)@ + (unlocks_le(vs@.take(i as int))
                + unlock_le(vs@[i as int])));
        }
        i = i + 1;
    }
    proof {
        assert(vs@.take(vs@.len() as int) =~= vs@);
    }
}

/// Appends the encodings of every ship-unlock record in the vector, in
/// order.
fn write_ship_unlock_vec(out: &mut Vec<u8>, vs: &Vec<ShipUnlockId>)
    ensures
        final(out)@ == old(out)@ + ship_unlocks_le(vs@),
{
    let mut i: usize = 0;
    proof {
        assert(out@ + ship_unlocks_le(vs@.take(0)) =~= out@);
    }
    while i < vs.len()
        invariant
            i <= vs@.len(),
            out@ == old(out)@ + ship_unlocks_le(vs@.take(i as int)),
        decreases vs@.len() - i,
    {
        let u = vs[i];
        proof {
            lemma_ship_unlocks_le_push(vs@.take(i as int), vs@[i as int]);
            assert(vs@.take(i as int).push(vs@[i as int]) =~= vs@.take(i + 1 as int));
        }
        write_i32(out, u.ship_type);
        write_i32(out, u.variant);
        proof {
            let base = old(out)@ + ship_unlocks_le(vs@.take(i as int));
            assert((base + i32_le(u.ship_type)) + i32_le(u.variant) =~= base + (i32_le(u.ship_type)
                + i32_le(u.variant)));
            assert(base + ship_unlock_le(vs@[i as int]) =~= old(out)@ + (ship_unlocks_le(
                vs@.take(i as int),
            ) + ship_unlock_le(vs@[i as int])));
        }
        i = i + 1;
    }
    proof {
        assert(vs@.take(vs@.len() as int) =~= vs@);
    }
}

/// Writes the unconditional header: magic, maximum dataset entry id, the
/// count-prefixed dataset sequence, and the highest schema revision.
#[verifier::rlimit(100)]
fn write_header(out: &mut Vec<u8>, data: &ProgressData)
    requires
        data@.wf(),
    ensures
        final(out)@ == old(out)@ + enc_header(data@),
{
    write_i32(out, MAGIC);
    write_i32(out, data.visited_sector_type_max_entry_id);
    write_i32(out, #[verifier::truncate] (data.visited_sector_types_datasets.len() as i32));
    write_i32_vec(out, &data.visited_sector_types_datasets);
    write_i32(out, CURRENT_VERSION);
    proof {
        assert(final(out)@ =~= old(out)@ + enc_header(data@));
    }
}

/// Writes the revision-2 block.
#[verifier::rlimit(100)]
fn write_block2(out: &mut Vec<u8>, data: &ProgressData)
    ensures
        final(out)@ == old(out)@ + enc_block2(data@),
{
    write_i32(out, data.jumps_completed);
    write_i32_vec(out, &data.jumps_completed_per_class);
    write_i32(out, data.blind_jumps_completed);
    write_i32(out, data.levels_earned);
    write_i32_vec(out, &data.levels_earned_per_class);
    write_i32(out, data.pawn_deaths_total);
    write_i32(out, data.crew_deaths_total);
    write_i32(out, data.biscuits_sold_individual_total);
    write_i32(out, data.max_crew_level_reached);
    write_i32(out, data.missions_completed);
    write_bool(out, data.vulrog_discovered);
    proof {
        assert(final(out)@ =~= old(out)@ + enc_block2(data@));
    }
}

/// Writes the revision-3 block.
fn write_block3(out: &mut Vec<u8>, data: &ProgressData)
    ensures
        final(out)@ == old(out)@ + enc_block3(data@),
{
    write_i32_vec(out, &data.levels_earned_per_faction);
    write_i32(out, data.enemy_ships_destroyed);
    write_i32(out, data.talents_unlocked);
    write_i32(out, data.credits_earned);
    write_i32(out, data.credits_spent);
    write_i32(out, data.damage_dealt_pawn);
    write_i32(out, data.damage_taken_pawn);
    write_i32(out, data.damage_dealt_ship);
    write_i32(out, data.damage_taken_ship);
    write_i32(out, data.shots_fired);
    write_u32(out, data.system_health_healed_bits);
    write_i32(out, data.footsteps_taken);
    write_u32(out, data.max_chaos_level_reached_bits);
    proof {
        let r = data@;
        let a1 = i32s_le(r.levels_earned_per_faction);
        let a2 = i32_le(r.enemy_ships_destroyed);
        let a3 = i32_le(r.talents_unlocked);
        let a4 = i32_le(r.credits_earned);
        let a5 = i32_le(r.credits_spent);
        let a6 = i32_le(r.damage_dealt_pawn);
        let a7 = i32_le(r.damage_taken_pawn);
        let a8 = i32_le(r.damage_dealt_ship);
        let a9 = i32_le(r.damage_taken_ship);
        let a10 = i32_le(r.shots_fired);
        let a11 = u32_le(r.system_health_healed_bits);
        let a12 = i32_le(r.footsteps_taken);
        let a13 = u32_le(r.max_chaos_level_reached_bits);
        let c13 = a13;
        let c12 = a12 + c13;
        let c11 = a11 + c12;
        let c10 = a10 + c11;
        let c9 = a9 + c10;
        let c8 = a8 + c9;
        let c7 = a7 + c8;
        let c6 = a6 + c7;
        let c5 = a5 + c6;
        let c4 = a4 + c5;
        let c3 = a3 + c4;
        let c2 = a2 + c3;
        let c1 = a1 + c2;
        assert(enc_block3(r) == c1);
        let o = old(out)@;
        let d1 = o + a1;
        let d2 = d1 + a2;
        let d3 = d2 + a3;
        let d4 = d3 + a4;
        let d5 = d4 + a5;
        let d6 = d5 + a6;
        let d7 = d6 + a7;
        let d8 = d7 + a8;
        let d9 = d8 + a9;
        let d10 = d9 + a10;
        let d11 = d10 + a11;
        let d12 = d11 + a12;
        let d13 = d12 + a13;
        assert(final(out)@ == d13);
        vstd::seq_lib::lemma_concat_associative(d11, a12, c13);
        vstd::seq_lib::lemma_concat_associative(d10, a11, c12);
        vstd::seq_lib::lemma_concat_associative(d9, a10, c11);
        vstd::seq_lib::lemma_concat_associative(d8, a9, c10);
        vstd::seq_lib::lemma_concat_associative(d7, a8, c9);
        vstd::seq_lib::lemma_concat_associative(d6, a7, c8);
        vstd::seq_lib::lemma_concat_associative(d5, a6, c7);
        vstd::seq_lib::lemma_concat_associative(d4, a5, c6);
        vstd::seq_lib::lemma_concat_associative(d3, a4, c5);
        vstd::seq_lib::lemma_concat_associative(d2, a3, c4);
        vstd::seq_lib::lemma_concat_associative(d1, a2, c3);
        vstd::seq_lib::lemma_concat_associative(o, a1, c2);
        assert(final(out)@ == o + c1);
    }
}

/// Writes the revision-4 block.
#[verifier::rlimit(100)]
fn write_block4(out: &mut Vec<u8>, data: &ProgressData)
    requires
        data@.wf(),
    ensures
        final(out)@ == old(out)@ + enc_block4(data@),
{
    write_i32(out, #[verifier::truncate] (data.missions_ids_completed.len() as i32));
    write_i32_vec(out, &data.missions_ids_completed);
    write_i32(out, #[verifier::truncate] (data.unlocks_opened.len() as i32));
    write_unlock_vec(out, &data.unlocks_opened);
    write_i32(out, data.turret_shots_fired);
    proof {
        assert(final(out)@ =~= old(out)@ + enc_block4(data@));
    }
}

/// Writes the revision-6 block.
#[verifier::rlimit(100)]
fn write_block6(out: &mut Vec<u8>, data: &ProgressData)
    ensures
        final(out)@ == old(out)@ + enc_block6(data@),
{
    write_i32(out, data.extorts_attempted);
    write_i32(out, data.diplomacy_attempted);
    write_u32(out, data.pawn_hp_healed_bits);
    proof {
        assert(final(out)@ =~= old(out)@ + enc_block6(data@));
    }
}

/// Writes the revision-7 block.
fn write_block7(out: &mut Vec<u8>, data: &ProgressData)
    ensures
        final(out)@ == old(out)@ + enc_block7(data@),
{
    write_bool(out, data.any_ending_completed);
    write_bool(out, data.cu_ending_completed);
    write_bool(out, data.aog_ending_completed);
    write_bool(out, data.wd_ending_completed);
    write_bool(out, data.fb_ending_completed);
    write_bool(out, data.keep_it_ending_completed);
    write_bool(out, data.free_it_ending_completed);
    write_bool(out, data.destroy_it_ending_completed);
    proof {
        let r = data@;
        let a1 = bool_le(r.any_ending_completed);
        let a2 = bool_le(r.cu_ending_completed);
        let a3 = bool_le(r.aog_ending_completed);
        let a4 = bool_le(r.wd_ending_completed);
        let a5 = bool_le(r.fb_ending_completed);
        let a6 = bool_le(r.keep_it_ending_completed);
        let a7 = bool_le(r.free_it_ending_completed);
        let a8 = bool_le(r.destroy_it_ending_completed);
        let c8 = a8;
        let c7 = a7 + c8;
        let c6 = a6 + c7;
        let c5 = a5 + c6;
        let c4 = a4 + c5;
        let c3 = a3 + c4;
        let c2 = a2 + c3;
        let c1 = a1 + c2;
        assert(enc_block7(r) == c1);
        let o = old(out)@;
        let d1 = o + a1;
        let d2 = d1 + a2;
        let d3 = d2 + a3;
        let d4 = d3 + a4;
        let d5 = d4 + a5;
        let d6 = d5 + a6;
        let d7 = d6 + a7;
        let d8 = d7 + a8;
        assert(final(out)@ == d8);
        vstd::seq_lib::lemma_concat_associative(d6, a7, c8);
        vstd::seq_lib::lemma_concat_associative(d5, a6, c7);
        vstd::seq_lib::lemma_concat_associative(d4, a5, c6);
        vstd::seq_lib::lemma_concat_associative(d3, a4, c5);
        vstd::seq_lib::lemma_concat_associative(d2, a3, c4);
        vstd::seq_lib::lemma_concat_associative(d1, a2, c3);
        vstd::seq_lib::lemma_concat_associative(o, a1, c2);
        assert(final(out)@ == o + c1);
    }
}

/// Writes the revision-8 block.
#[verifier::rlimit(100)]
fn write_block8(out: &mut Vec<u8>, data: &ProgressData)
    requires
        data@.wf(),
    ensures
        final(out)@ == old(out)@ + enc_block8(data@),
{
    write_i32(out, #[verifier::truncate] (data.opened_ship_unlocks.len() as i32));
    write_ship_unlock_vec(out, &data.opened_ship_unlocks);
    proof {
        assert(final(out)@ =~= old(out)@ + enc_block8(data@));
    }
}

/// Encodes a Progress Record as the canonical byte stream of the highest
/// schema revision.
///
/// Pure and total: every field is written, in the fixed order of
/// [`spec_encode`], with the schema version always stored as
/// [`CURRENT_VERSION`] — a deliberate one-way upgrade for records that
/// originated from older streams.
pub fn encode_progress(data: &ProgressData) -> (out: Vec<u8>)
    requires
        data@.wf(),
    ensures
        out@ == spec_encode(data@),
{
    let mut out: Vec<u8> = Vec::new();
    write_header(&mut out, data);
    proof {
        assert(out@ =~= enc_header(data@));
    }
    write_bool(&mut out, data.completed_fb_campaign);
    write_block2(&mut out, data);
    write_block3(&mut out, data);
    write_block4(&mut out, data);
    write_i32(&mut out, data.races_completed_bit_field);
    write_block6(&mut out, data);
    write_block7(&mut out, data);
    write_block8(&mut out, data);
    write_bool(&mut out, data.abyss_ending_completed);
    proof {
        let r = data@;
        let h = enc_header(r);
        let a1 = enc_block1(r);
        let a2 = enc_block2(r);
        let a3 = enc_block3(r);
        let a4 = enc_block4(r);
        let a5 = enc_block5(r);
        let a6 = enc_block6(r);
        let a7 = enc_block7(r);
        let a8 = enc_block8(r);
        let a9 = enc_block9(r);
        let c9 = a9;
        let c8 = a8 + c9;
        let c7 = a7 + c8;
        let c6 = a6 + c7;
        let c5 = a5 + c6;
        let c4 = a4 + c5;
        let c3 = a3 + c4;
        let c2 = a2 + c3;
        let c1 = a1 + c2;
        assert(spec_encode(r) == h + c1);
        let d1 = h + a1;
        let d2 = d1 + a2;
        let d3 = d2 + a3;
        let d4 = d3 + a4;
        let d5 = d4 + a5;
        let d6 = d5 + a6;
        let d7 = d6 + a7;
        let d8 = d7 + a8;
        let d9 = d8 + a9;
        assert(out@ == d9);
        vstd::seq_lib::lemma_concat_associative(d7, a8, c9);
        vstd::seq_lib::lemma_concat_associative(d6, a7, c8);
        vstd::seq_lib::lemma_concat_associative(d5, a6, c7);
        vstd::seq_lib::lemma_concat_associative(d4, a5, c6);
        vstd::seq_lib::lemma_concat_associative(d3, a4, c5);
        vstd::seq_lib::lemma_concat_associative(d2, a3, c4);
        vstd::seq_lib::lemma_concat_associative(d1, a2, c3);
        vstd::seq_lib::lemma_concat_associative(h, a1, c2);
        assert(out@ == h + c1);
    }
    out
}

} // verus!
