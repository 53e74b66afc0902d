use memprobe::image::MemImage;
use memprobe::scanner::{core_scan_ue_chain, core_scan_player_chain, core_scan_actors_array};

fn image_with(base: u64, len: usize) -> MemImage {
    MemImage { base, bytes: vec![0u8; len] }
}

fn put_u64(img: &mut MemImage, addr: u64, v: u64) {
    let off = (addr - img.base) as usize;
    img.bytes[off..off + 8].copy_from_slice(&v.to_le_bytes());
}

const UE_BASE: u64 = 0x0010_0000;

#[test]
fn bulk_scan_finds_strong_match_offset() {
    let mut img = image_with(UE_BASE, 0x2000);
    let cand: u64 = UE_BASE + 0x800;
    put_u64(&mut img, UE_BASE + 0x10, cand); // the candidate root pointer
    put_u64(&mut img, cand + 0x30, 0x0020_0000); // plausible level field
    put_u64(&mut img, cand + 0x180, 0x0030_0000); // plausible instance field
    assert_eq!(core_scan_ue_chain(&img, UE_BASE), 0x10);
}

#[test]
fn bulk_scan_reports_first_of_two_matches() {
    let mut img = image_with(UE_BASE, 0x2000);
    for &off in &[0x1400u64, 0x20] {
        let cand: u64 = UE_BASE + 0x800 + off;
        put_u64(&mut img, UE_BASE + off, cand);
        put_u64(&mut img, cand + 0x30, 0x0020_0000);
        put_u64(&mut img, cand + 0x190, 0x0030_0000);
    }
    assert_eq!(core_scan_ue_chain(&img, UE_BASE), 0x20);
}

#[test]
fn bulk_scan_skips_weak_candidates() {
    let mut img = image_with(UE_BASE, 0x2000);
    let cand: u64 = UE_BASE + 0x800;
    put_u64(&mut img, UE_BASE + 0x10, cand);
    put_u64(&mut img, cand + 0x30, 0x0020_0000);
    // No plausible field at 0x180/0x190/0x1A0: a weak candidate only.
    assert_eq!(core_scan_ue_chain(&img, UE_BASE), 0);
}

#[test]
fn bulk_scan_over_implausible_image_returns_zero() {
    let mut img = image_with(UE_BASE, 0x2000);
    // Words below the plausible band everywhere.
    for i in 0..(0x2000 / 8) {
        put_u64(&mut img, UE_BASE + (i as u64) * 8, 0xFFFF);
    }
    assert_eq!(core_scan_ue_chain(&img, UE_BASE), 0);
}

fn fill_pseudo_random(img: &mut MemImage, seed: u64) {
    // A fixed linear-congruential fill: deterministic noise with no
    // injected chain.
    let mut s = seed;
    for b in img.bytes.iter_mut() {
        s = s.wrapping_mul(6364136223846793005).wrapping_add(1442695040888963407);
        *b = (s >> 56) as u8;
    }
}

#[test]
fn bulk_scan_over_randomized_image_returns_zero() {
    let mut img = image_with(UE_BASE, 0x2000);
    fill_pseudo_random(&mut img, 0x5EED);
    assert_eq!(core_scan_ue_chain(&img, UE_BASE), 0);
}

#[test]
fn bulk_scan_without_base_returns_zero() {
    let img = image_with(UE_BASE, 0x100);
    assert_eq!(core_scan_ue_chain(&img, 0), 0);
}

// A snapshot base inside the high heap band, so pointers into the
// snapshot pass the chain searches' plausibility bands.
const HEAP_BASE: u64 = 0x0100_0000_0000;

fn chain_image() -> MemImage {
    let mut img = image_with(HEAP_BASE, 0x4000);
    let gi: u64 = HEAP_BASE + 0x1000;
    let arr: u64 = HEAP_BASE + 0x2000;
    let first_lp: u64 = HEAP_BASE + 0x2800;
    let pc: u64 = HEAP_BASE + 0x3000;
    put_u64(&mut img, HEAP_BASE + 0x180, gi); // root + 0x180 -> instance
    put_u64(&mut img, gi + 0x40, arr); // instance + 0x40 -> player array
    put_u64(&mut img, gi + 0x48, 2 | (4u64 << 32)); // count 2, capacity 4
    put_u64(&mut img, arr, first_lp); // array[0]
    put_u64(&mut img, first_lp + 0x30, pc); // first controller try hits
    img
}

#[test]
fn chain_scan_returns_injected_offsets() {
    let mut img = chain_image();
    let pc: u64 = HEAP_BASE + 0x3000;
    put_u64(&mut img, pc + 0x2B0, HEAP_BASE + 0x100); // the pawn probe hit
    let r = core_scan_player_chain(&img, HEAP_BASE);
    assert_eq!(r.game_instance_offset, 0x180);
    assert_eq!(r.local_players_offset, 0x40);
    assert_eq!(r.player_controller_offset, 0x30);
    assert_eq!(r.pawn_offset, 0x2B0);
}

#[test]
fn chain_scan_defaults_pawn_offset_when_no_probe_hits() {
    let img = chain_image();
    let r = core_scan_player_chain(&img, HEAP_BASE);
    assert_eq!(r.game_instance_offset, 0x180);
    assert_eq!(r.pawn_offset, 0x308);
}

#[test]
fn chain_scan_rejects_oversized_count() {
    let mut img = chain_image();
    let gi: u64 = HEAP_BASE + 0x1000;
    put_u64(&mut img, gi + 0x48, 12 | (16u64 << 32)); // count 12: not small
    let r = core_scan_player_chain(&img, HEAP_BASE);
    assert_eq!(r.game_instance_offset, 0);
    assert_eq!(r.local_players_offset, 0);
    assert_eq!(r.player_controller_offset, 0);
    assert_eq!(r.pawn_offset, 0);
}

#[test]
fn chain_scan_rejects_count_above_capacity() {
    let mut img = chain_image();
    let gi: u64 = HEAP_BASE + 0x1000;
    put_u64(&mut img, gi + 0x48, 3 | (1u64 << 32)); // count 3 over capacity 1
    let r = core_scan_player_chain(&img, HEAP_BASE);
    assert_eq!(r.game_instance_offset, 0);
}

#[test]
fn chain_scan_over_empty_image_returns_zeros() {
    let img = image_with(HEAP_BASE, 0x4000);
    let r = core_scan_player_chain(&img, HEAP_BASE);
    assert_eq!(r.game_instance_offset, 0);
    assert_eq!(r.local_players_offset, 0);
    assert_eq!(r.player_controller_offset, 0);
    assert_eq!(r.pawn_offset, 0);
}

#[test]
fn chain_scan_over_randomized_image_returns_zeros() {
    let mut img = image_with(HEAP_BASE, 0x4000);
    fill_pseudo_random(&mut img, 0xCAFE);
    let r = core_scan_player_chain(&img, HEAP_BASE);
    assert_eq!(r.game_instance_offset, 0);
    assert_eq!(r.local_players_offset, 0);
    assert_eq!(r.player_controller_offset, 0);
    assert_eq!(r.pawn_offset, 0);
}

#[test]
fn chain_scan_rejects_low_root() {
    let img = chain_image();
    let r = core_scan_player_chain(&img, 0xFFFF);
    assert_eq!(r.game_instance_offset, 0);
}

const PAWN: u64 = 0x55AA_55AA_55AA;

fn actors_image(with_pawn: bool) -> MemImage {
    let mut img = image_with(HEAP_BASE, 0x4000);
    let level: u64 = HEAP_BASE + 0x1000;
    let arr: u64 = HEAP_BASE + 0x2000;
    put_u64(&mut img, HEAP_BASE + 0x30, level); // root + 0x30 -> level
    put_u64(&mut img, level + 0x60, arr); // level + 0x60 -> actors
    put_u64(&mut img, level + 0x68, 20 | (32u64 << 32)); // count 20, capacity 32
    if with_pawn {
        put_u64(&mut img, arr + 3 * 8, PAWN); // the known pawn at index 3
    }
    img
}

#[test]
fn actor_scan_packs_winning_offsets_when_pawn_present() {
    let img = actors_image(true);
    let r = core_scan_actors_array(&img, HEAP_BASE, PAWN);
    assert_eq!(r, (0x30u64 << 32) | 0x60);
}

#[test]
fn actor_scan_returns_zero_when_pawn_absent() {
    let img = actors_image(false);
    assert_eq!(core_scan_actors_array(&img, HEAP_BASE, PAWN), 0);
}

#[test]
fn actor_scan_rejects_count_out_of_band() {
    let mut img = actors_image(true);
    let level: u64 = HEAP_BASE + 0x1000;
    put_u64(&mut img, level + 0x68, 5 | (32u64 << 32)); // count 5: too few
    assert_eq!(core_scan_actors_array(&img, HEAP_BASE, PAWN), 0);
}

#[test]
fn actor_scan_rejects_low_root() {
    let img = actors_image(true);
    assert_eq!(core_scan_actors_array(&img, 0x100, PAWN), 0);
}
