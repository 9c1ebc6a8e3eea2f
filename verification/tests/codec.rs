use progress_codec::codec::{decode_progress, encode_progress};
use progress_codec::record::{DecodeError, ProgressData, ShipUnlockId, UnlockId};

fn le(v: i32) -> [u8; 4] {
    v.to_le_bytes()
}

fn push_i32(out: &mut Vec<u8>, v: i32) {
    out.extend_from_slice(&le(v));
}

/// A record with every field populated with a distinctive value.
fn full_record() -> ProgressData {
    let mut r = ProgressData::new();
    r.visited_sector_type_max_entry_id = 42;
    r.visited_sector_types_datasets = vec![3, 1, 4, 1, 5];
    r.completed_fb_campaign = true;
    r.jumps_completed = 100;
    r.jumps_completed_per_class = vec![1, 2, 3, 4, 5];
    r.blind_jumps_completed = -7;
    r.levels_earned = 55;
    r.levels_earned_per_class = vec![9, 8, 7, 6, 5];
    r.pawn_deaths_total = 13;
    r.crew_deaths_total = 17;
    r.biscuits_sold_individual_total = 19;
    r.max_crew_level_reached = 23;
    r.missions_completed = 29;
    r.vulrog_discovered = true;
    r.levels_earned_per_faction = vec![1, 1, 2, 3, 5, 8];
    r.enemy_ships_destroyed = 31;
    r.talents_unlocked = 37;
    r.credits_earned = 41;
    r.credits_spent = 43;
    r.damage_dealt_pawn = 47;
    r.damage_taken_pawn = 53;
    r.damage_dealt_ship = 59;
    r.damage_taken_ship = 61;
    r.shots_fired = 67;
    r.system_health_healed_bits = 12.5f32.to_bits();
    r.footsteps_taken = 71;
    r.max_chaos_level_reached_bits = 0.25f32.to_bits();
    r.missions_ids_completed = vec![10, 20, 30];
    r.unlocks_opened = vec![
        UnlockId { pawn_type: 1, cosmetic_type: 2, cosmetic_id: 3 },
        UnlockId { pawn_type: 4, cosmetic_type: 5, cosmetic_id: 6 },
    ];
    r.turret_shots_fired = 73;
    r.races_completed_bit_field = 0b1011;
    r.extorts_attempted = 79;
    r.diplomacy_attempted = 83;
    r.pawn_hp_healed_bits = 3.5f32.to_bits();
    r.any_ending_completed = true;
    r.cu_ending_completed = false;
    r.aog_ending_completed = true;
    r.wd_ending_completed = false;
    r.fb_ending_completed = true;
    r.keep_it_ending_completed = false;
    r.free_it_ending_completed = true;
    r.destroy_it_ending_completed = false;
    r.opened_ship_unlocks = vec![ShipUnlockId { ship_type: 2, variant: 9 }];
    r.abyss_ending_completed = true;
    r
}

#[test]
fn round_trip_full_record() {
    let r = full_record();
    let bytes = encode_progress(&r);
    let back = decode_progress(&bytes).unwrap();
    assert_eq!(back, r);
}

#[test]
fn byte_round_trip() {
    let bytes = encode_progress(&full_record());
    let again = encode_progress(&decode_progress(&bytes).unwrap());
    assert_eq!(again, bytes);
}

#[test]
fn scenario_version_one_stream() {
    let mut b = Vec::new();
    push_i32(&mut b, -9854);
    push_i32(&mut b, 7);
    push_i32(&mut b, 0);
    push_i32(&mut b, 1);
    b.push(0x01);
    let r = decode_progress(&b).unwrap();
    assert_eq!(r.visited_sector_type_max_entry_id, 7);
    assert!(r.visited_sector_types_datasets.is_empty());
    assert!(r.completed_fb_campaign);
    let mut expected = ProgressData::new();
    expected.visited_sector_type_max_entry_id = 7;
    expected.completed_fb_campaign = true;
    assert_eq!(r, expected);
}

#[test]
fn magic_rejection() {
    let mut b = Vec::new();
    push_i32(&mut b, 1234);
    push_i32(&mut b, 7);
    assert_eq!(decode_progress(&b), Err(DecodeError::MagicMismatch));
    let short = le(5);
    assert_eq!(decode_progress(&short), Err(DecodeError::MagicMismatch));
}

#[test]
fn truncated_stream() {
    let mut b = Vec::new();
    push_i32(&mut b, -9854);
    b.push(7);
    assert_eq!(decode_progress(&b), Err(DecodeError::TruncatedStream));
    assert_eq!(decode_progress(&[]), Err(DecodeError::TruncatedStream));
    // Header complete but the version-1 flag missing at version 1.
    let mut c = Vec::new();
    push_i32(&mut c, -9854);
    push_i32(&mut c, 0);
    push_i32(&mut c, 0);
    push_i32(&mut c, 1);
    assert_eq!(decode_progress(&c), Err(DecodeError::TruncatedStream));
}

#[test]
fn version_gated_defaults_after_version_three() {
    // A stream truncated right after the version-3 block.
    let mut b = Vec::new();
    push_i32(&mut b, -9854);
    push_i32(&mut b, 2);
    push_i32(&mut b, 1);
    push_i32(&mut b, 99);
    push_i32(&mut b, 3);
    b.push(1); // version-1 flag
    for _ in 0..8 {
        push_i32(&mut b, 11);
    }
    for _ in 0..10 {
        push_i32(&mut b, 12);
    }
    b.push(0); // vulrog flag closes the version-2 block (73 bytes in all)
    for _ in 0..18 {
        push_i32(&mut b, 13);
    }
    let r = decode_progress(&b).unwrap();
    assert!(r.missions_ids_completed.is_empty());
    assert!(r.unlocks_opened.is_empty());
    assert_eq!(r.turret_shots_fired, 0);
    assert_eq!(r.races_completed_bit_field, 0);
    assert_eq!(r.extorts_attempted, 0);
    assert_eq!(r.diplomacy_attempted, 0);
    assert_eq!(r.pawn_hp_healed_bits, 0);
    assert!(!r.any_ending_completed);
    assert!(!r.abyss_ending_completed);
    assert!(r.opened_ship_unlocks.is_empty());
}

#[test]
fn upgrade_from_version_two_emits_version_nine() {
    let mut b = Vec::new();
    push_i32(&mut b, -9854);
    push_i32(&mut b, 5);
    push_i32(&mut b, 0);
    push_i32(&mut b, 2);
    b.push(1);
    push_i32(&mut b, 77); // jumps_completed
    for _ in 0..7 {
        push_i32(&mut b, 1);
    }
    for _ in 0..10 {
        push_i32(&mut b, 2);
    }
    b.push(1); // vulrog flag
    let r = decode_progress(&b).unwrap();
    assert_eq!(r.jumps_completed, 77);
    let out = encode_progress(&r);
    // No datasets, so the stored schema version sits at bytes 12..16.
    assert_eq!(&out[12..16], &le(9));
    // Version-3 fields were defaulted.
    assert_eq!(r.levels_earned_per_faction, vec![0; 6]);
    assert_eq!(r.enemy_ships_destroyed, 0);
    assert_eq!(r.system_health_healed_bits, 0);
    // The upgraded stream holds every block: 203 bytes with all
    // collections empty.
    assert_eq!(out.len(), 203);
}

#[test]
fn collection_fidelity_empty() {
    let r = ProgressData::new();
    let out = encode_progress(&r);
    assert_eq!(&out[8..12], &le(0));
    assert_eq!(&out[12..16], &le(9));
    assert_eq!(out.len(), 203);
}

#[test]
fn collection_fidelity_order() {
    let mut r = ProgressData::new();
    r.visited_sector_types_datasets = vec![9, -1, 9, 42];
    let out = encode_progress(&r);
    assert_eq!(&out[8..12], &le(4));
    assert_eq!(&out[12..16], &le(9));
    assert_eq!(&out[16..20], &le(-1));
    let back = decode_progress(&out).unwrap();
    assert_eq!(back.visited_sector_types_datasets, vec![9, -1, 9, 42]);
}

#[test]
fn negative_count_reads_no_elements() {
    let mut b = Vec::new();
    push_i32(&mut b, -9854);
    push_i32(&mut b, 1);
    push_i32(&mut b, -5);
    push_i32(&mut b, 0);
    let r = decode_progress(&b).unwrap();
    assert!(r.visited_sector_types_datasets.is_empty());
    assert_eq!(r.visited_sector_type_max_entry_id, 1);
}

#[test]
fn any_nonzero_byte_is_true() {
    let mut b = Vec::new();
    push_i32(&mut b, -9854);
    push_i32(&mut b, 0);
    push_i32(&mut b, 0);
    push_i32(&mut b, 1);
    b.push(0x7f);
    let r = decode_progress(&b).unwrap();
    assert!(r.completed_fb_campaign);
}

#[test]
fn version_zero_reads_header_only() {
    let mut b = Vec::new();
    push_i32(&mut b, -9854);
    push_i32(&mut b, 3);
    push_i32(&mut b, 2);
    push_i32(&mut b, 6);
    push_i32(&mut b, 7);
    push_i32(&mut b, 0);
    let r = decode_progress(&b).unwrap();
    assert_eq!(r.visited_sector_types_datasets, vec![6, 7]);
    assert!(!r.completed_fb_campaign);
    assert_eq!(r.jumps_completed, 0);
}

#[test]
fn future_version_is_permissive() {
    // Version 12: all known blocks are read, no error for the version itself.
    let r = full_record();
    let mut bytes = encode_progress(&r);
    // Five dataset entries, so the stored version sits at bytes 32..36.
    assert_eq!(&bytes[32..36], &le(9));
    bytes[32..36].copy_from_slice(&le(12));
    let back = decode_progress(&bytes).unwrap();
    assert_eq!(back, r);
}

#[test]
fn exact_bytes_of_small_record() {
    let mut r = ProgressData::new();
    r.visited_sector_type_max_entry_id = 1;
    r.visited_sector_types_datasets = vec![2];
    let out = encode_progress(&r);
    let mut expected = Vec::new();
    push_i32(&mut expected, -9854);
    push_i32(&mut expected, 1);
    push_i32(&mut expected, 1);
    push_i32(&mut expected, 2);
    push_i32(&mut expected, 9);
    assert_eq!(&out[..20], &expected[..]);
    assert_eq!(out.len(), 207);
    // Everything after the header is zero bytes: defaults throughout.
    assert!(out[20..].iter().all(|&x| x == 0));
}
