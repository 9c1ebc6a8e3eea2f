//! The Progress Record: the structured form of one save-data blob, its
//! spec-level model, and the codec's error taxonomy.
//!
//! The record is a plain value: a flat collection of 32-bit scalars,
//! one-byte flags and ordered collections. The two float-valued statistics
//! are carried as their raw IEEE-754 bit patterns, which the codec treats as
//! opaque 32-bit values; interpreting them as floats is the callers' affair.

use vstd::prelude::*;

verus! {

/// The sentinel that every well-formed stream starts with.
pub const MAGIC: i32 = -9854;

/// The highest schema revision this codec knows; the encoder always emits it.
pub const CURRENT_VERSION: i32 = 9;

/// Largest length a count-prefixed collection can carry, since counts are
/// stored as signed 32-bit scalars.
pub const MAX_COUNT: usize = 0x7fff_ffff;

/// A human-readable error message, the form in which the surrounding
/// tooling reports failures.
#[derive(Debug)]
pub struct Error(pub String);

/// Why a decode failed.
#[derive(Clone, Copy, Debug, PartialEq, Eq, Structural)]
pub enum DecodeError {
    /// The first four bytes are not the magic sentinel: the stream is not
    /// this format.
    MagicMismatch,
    /// The stream ended before a required value could be read in full.
    TruncatedStream,
}

/// One unlocked cosmetic: which pawn, which slot, which item.
#[derive(Clone, Copy, Debug, PartialEq, Eq, Structural)]
pub struct UnlockId {
    pub pawn_type: i32,
    pub cosmetic_type: i32,
    pub cosmetic_id: i32,
}

/// One unlocked ship variant.
#[derive(Clone, Copy, Debug, PartialEq, Eq, Structural)]
pub struct ShipUnlockId {
    pub ship_type: i32,
    pub variant: i32,
}

/// The structured form of one save-data blob.
///
/// Fields are grouped by the schema revision that introduced them; decoding a
/// stream of an older revision leaves every later group at its default.
/// The three `per_class` / `per_faction` vectors have fixed lengths (5, 5 and
/// 6), recorded by [`ProgressSpec::wf`].
#[derive(Debug, Clone, PartialEq)]
pub struct ProgressData {
    // Present in every revision.
    pub visited_sector_type_max_entry_id: i32,
    pub visited_sector_types_datasets: Vec<i32>,
    // Revision 1.
    pub completed_fb_campaign: bool,
    // Revision 2.
    pub jumps_completed: i32,
    pub jumps_completed_per_class: Vec<i32>,
    pub blind_jumps_completed: i32,
    pub levels_earned: i32,
    pub levels_earned_per_class: Vec<i32>,
    pub pawn_deaths_total: i32,
    pub crew_deaths_total: i32,
    pub biscuits_sold_individual_total: i32,
    pub max_crew_level_reached: i32,
    pub missions_completed: i32,
    pub vulrog_discovered: bool,
    // Revision 3.
    pub levels_earned_per_faction: Vec<i32>,
    pub enemy_ships_destroyed: i32,
    pub talents_unlocked: i32,
    pub credits_earned: i32,
    pub credits_spent: i32,
    pub damage_dealt_pawn: i32,
    pub damage_taken_pawn: i32,
    pub damage_dealt_ship: i32,
    pub damage_taken_ship: i32,
    pub shots_fired: i32,
    /// IEEE-754 bit pattern of a float-valued statistic.
    pub system_health_healed_bits: u32,
    pub footsteps_taken: i32,
    /// IEEE-754 bit pattern of a float-valued statistic.
    pub max_chaos_level_reached_bits: u32,
    // Revision 4.
    pub missions_ids_completed: Vec<i32>,
    pub unlocks_opened: Vec<UnlockId>,
    pub turret_shots_fired: i32,
    // Revision 5.
    pub races_completed_bit_field: i32,
    // Revision 6.
    pub extorts_attempted: i32,
    pub diplomacy_attempted: i32,
    /// IEEE-754 bit pattern of a float-valued statistic.
    pub pawn_hp_healed_bits: u32,
    // Revision 7.
    pub any_ending_completed: bool,
    pub cu_ending_completed: bool,
    pub aog_ending_completed: bool,
    pub wd_ending_completed: bool,
    pub fb_ending_completed: bool,
    pub keep_it_ending_completed: bool,
    pub free_it_ending_completed: bool,
    pub destroy_it_ending_completed: bool,
    // Revision 8.
    pub opened_ship_unlocks: Vec<ShipUnlockId>,
    // Revision 9.
    pub abyss_ending_completed: bool,
}

/// The mathematical model of a [`ProgressData`] value: the same fields with
/// every vector abstracted to a sequence.
#[verifier::ext_equal]
pub ghost struct ProgressSpec {
    pub visited_sector_type_max_entry_id: i32,
    pub visited_sector_types_datasets: Seq<i32>,
    pub completed_fb_campaign: bool,
    pub jumps_completed: i32,
    pub jumps_completed_per_class: Seq<i32>,
    pub blind_jumps_completed: i32,
    pub levels_earned: i32,
    pub levels_earned_per_class: Seq<i32>,
    pub pawn_deaths_total: i32,
    pub crew_deaths_total: i32,
    pub biscuits_sold_individual_total: i32,
    pub max_crew_level_reached: i32,
    pub missions_completed: i32,
    pub vulrog_discovered: bool,
    pub levels_earned_per_faction: Seq<i32>,
    pub enemy_ships_destroyed: i32,
    pub talents_unlocked: i32,
    pub credits_earned: i32,
    pub credits_spent: i32,
    pub damage_dealt_pawn: i32,
    pub damage_taken_pawn: i32,
    pub damage_dealt_ship: i32,
    pub damage_taken_ship: i32,
    pub shots_fired: i32,
    pub system_health_healed_bits: u32,
    pub footsteps_taken: i32,
    pub max_chaos_level_reached_bits: u32,
    pub missions_ids_completed: Seq<i32>,
    pub unlocks_opened: Seq<UnlockId>,
    pub turret_shots_fired: i32,
    pub races_completed_bit_field: i32,
    pub extorts_attempted: i32,
    pub diplomacy_attempted: i32,
    pub pawn_hp_healed_bits: u32,
    pub any_ending_completed: bool,
    pub cu_ending_completed: bool,
    pub aog_ending_completed: bool,
    pub wd_ending_completed: bool,
    pub fb_ending_completed: bool,
    pub keep_it_ending_completed: bool,
    pub free_it_ending_completed: bool,
    pub destroy_it_ending_completed: bool,
    pub opened_ship_unlocks: Seq<ShipUnlockId>,
    pub abyss_ending_completed: bool,
}

impl ProgressSpec {
    /// Well-formedness: the three per-category vectors have their fixed
    /// lengths, and every count-prefixed collection fits a signed 32-bit
    /// count.
    pub open spec fn wf(self) -> bool {
        &&& self.jumps_completed_per_class.len() == 5
        &&& self.levels_earned_per_class.len() == 5
        &&& self.levels_earned_per_faction.len() == 6
        &&& self.visited_sector_types_datasets.len() <= MAX_COUNT
        &&& self.missions_ids_completed.len() <= MAX_COUNT
        &&& self.unlocks_opened.len() <= MAX_COUNT
        &&& self.opened_ship_unlocks.len() <= MAX_COUNT
    }

    /// The all-default record: zero scalars, false flags, empty collections,
    /// zero-filled per-category vectors.
    pub open spec fn defaults() -> ProgressSpec {
        ProgressSpec {
            visited_sector_type_max_entry_id: 0,
            visited_sector_types_datasets: Seq::<i32>::empty(),
            completed_fb_campaign: false,
            jumps_completed: 0,
            jumps_completed_per_class: seq![0i32, 0i32, 0i32, 0i32, 0i32],
            blind_jumps_completed: 0,
            levels_earned: 0,
            levels_earned_per_class: seq![0i32, 0i32, 0i32, 0i32, 0i32],
            pawn_deaths_total: 0,
            crew_deaths_total: 0,
            biscuits_sold_individual_total: 0,
            max_crew_level_reached: 0,
            missions_completed: 0,
            vulrog_discovered: false,
            levels_earned_per_faction: seq![0i32, 0i32, 0i32, 0i32, 0i32, 0i32],
            enemy_ships_destroyed: 0,
            talents_unlocked: 0,
            credits_earned: 0,
            credits_spent: 0,
            damage_dealt_pawn: 0,
            damage_taken_pawn: 0,
            damage_dealt_ship: 0,
            damage_taken_ship: 0,
            shots_fired: 0,
            system_health_healed_bits: 0,
            footsteps_taken: 0,
            max_chaos_level_reached_bits: 0,
            missions_ids_completed: Seq::<i32>::empty(),
            unlocks_opened: Seq::<UnlockId>::empty(),
            turret_shots_fired: 0,
            races_completed_bit_field: 0,
            extorts_attempted: 0,
            diplomacy_attempted: 0,
            pawn_hp_healed_bits: 0,
            any_ending_completed: false,
            cu_ending_completed: false,
            aog_ending_completed: false,
            wd_ending_completed: false,
            fb_ending_completed: false,
            keep_it_ending_completed: false,
            free_it_ending_completed: false,
            destroy_it_ending_completed: false,
            opened_ship_unlocks: Seq::<ShipUnlockId>::empty(),
            abyss_ending_completed: false,
        }
    }
}

impl View for ProgressData {
    type V = ProgressSpec;

    open spec fn view(&self) -> ProgressSpec {
        ProgressSpec {
            visited_sector_type_max_entry_id: self.visited_sector_type_max_entry_id,
            visited_sector_types_datasets: self.visited_sector_types_datasets@,
            completed_fb_campaign: self.completed_fb_campaign,
            jumps_completed: self.jumps_completed,
            jumps_completed_per_class: self.jumps_completed_per_class@,
            blind_jumps_completed: self.blind_jumps_completed,
            levels_earned: self.levels_earned,
            levels_earned_per_class: self.levels_earned_per_class@,
            pawn_deaths_total: self.pawn_deaths_total,
            crew_deaths_total: self.crew_deaths_total,
            biscuits_sold_individual_total: self.biscuits_sold_individual_total,
            max_crew_level_reached: self.max_crew_level_reached,
            missions_completed: self.missions_completed,
            vulrog_discovered: self.vulrog_discovered,
            levels_earned_per_faction: self.levels_earned_per_faction@,
            enemy_ships_destroyed: self.enemy_ships_destroyed,
            talents_unlocked: self.talents_unlocked,
            credits_earned: self.credits_earned,
            credits_spent: self.credits_spent,
            damage_dealt_pawn: self.damage_dealt_pawn,
            damage_taken_pawn: self.damage_taken_pawn,
            damage_dealt_ship: self.damage_dealt_ship,
            damage_taken_ship: self.damage_taken_ship,
            shots_fired: self.shots_fired,
            system_health_healed_bits: self.system_health_healed_bits,
            footsteps_taken: self.footsteps_taken,
            max_chaos_level_reached_bits: self.max_chaos_level_reached_bits,
            missions_ids_completed: self.missions_ids_completed@,
            unlocks_opened: self.unlocks_opened@,
            turret_shots_fired: self.turret_shots_fired,
            races_completed_bit_field: self.races_completed_bit_field,
            extorts_attempted: self.extorts_attempted,
            diplomacy_attempted: self.diplomacy_attempted,
            pawn_hp_healed_bits: self.pawn_hp_healed_bits,
            any_ending_completed: self.any_ending_completed,
            cu_ending_completed: self.cu_ending_completed,
            aog_ending_completed: self.aog_ending_completed,
            wd_ending_completed: self.wd_ending_completed,
            fb_ending_completed: self.fb_ending_completed,
            keep_it_ending_completed: self.keep_it_ending_completed,
            free_it_ending_completed: self.free_it_ending_completed,
            destroy_it_ending_completed: self.destroy_it_ending_completed,
            opened_ship_unlocks: self.opened_ship_unlocks@,
            abyss_ending_completed: self.abyss_ending_completed,
        }
    }
}

impl ProgressData {
    /// Builds the all-default record.
    pub fn new() -> (r: ProgressData)
        ensures
            r@ == ProgressSpec::defaults(),
            r@.wf(),
    {
        let r = ProgressData {
            visited_sector_type_max_entry_id: 0,
            visited_sector_types_datasets: Vec::new(),
            completed_fb_campaign: false,
            jumps_completed: 0,
            jumps_completed_per_class: zero_vec5(),
            blind_jumps_completed: 0,
            levels_earned: 0,
            levels_earned_per_class: zero_vec5(),
            pawn_deaths_total: 0,
            crew_deaths_total: 0,
            biscuits_sold_individual_total: 0,
            max_crew_level_reached: 0,
            missions_completed: 0,
            vulrog_discovered: false,
            levels_earned_per_faction: zero_vec6(),
            enemy_ships_destroyed: 0,
            talents_unlocked: 0,
            credits_earned: 0,
            credits_spent: 0,
            damage_dealt_pawn: 0,
            damage_taken_pawn: 0,
            damage_dealt_ship: 0,
            damage_taken_ship: 0,
            shots_fired: 0,
            system_health_healed_bits: 0,
            footsteps_taken: 0,
            max_chaos_level_reached_bits: 0,
            missions_ids_completed: Vec::new(),
            unlocks_opened: Vec::new(),
            turret_shots_fired: 0,
            races_completed_bit_field: 0,
            extorts_attempted: 0,
            diplomacy_attempted: 0,
            pawn_hp_healed_bits: 0,
            any_ending_completed: false,
            cu_ending_completed: false,
            aog_ending_completed: false,
            wd_ending_completed: false,
            fb_ending_completed: false,
            keep_it_ending_completed: false,
            free_it_ending_completed: false,
            destroy_it_ending_completed: false,
            opened_ship_unlocks: Vec::new(),
            abyss_ending_completed: false,
        };
        proof {
            assert(r@ =~= ProgressSpec::defaults());
        }
        r
    }
}

/// A vector of five zero scalars.
fn zero_vec5() -> (r: Vec<i32>)
    ensures
        r@ == seq![0i32, 0i32, 0i32, 0i32, 0i32],
{
    let mut v: Vec<i32> = Vec::new();
    v.push(0);
    v.push(0);
    v.push(0);
    v.push(0);
    v.push(0);
    proof {
        assert(v@ =~= seq![0i32, 0i32, 0i32, 0i32, 0i32]);
    }
    v
}

/// A vector of six zero scalars.
fn zero_vec6() -> (r: Vec<i32>)
    ensures
        r@ == seq![0i32, 0i32, 0i32, 0i32, 0i32, 0i32],
{
    let mut v: Vec<i32> = Vec::new();
    v.push(0);
    v.push(0);
    v.push(0);
    v.push(0);
    v.push(0);
    v.push(0);
    proof {
        assert(v@ =~= seq![0i32, 0i32, 0i32, 0i32, 0i32, 0i32]);
    }
    v
}

} // verus!
