//! The heuristic chain scanner: blind, read-only searches over a snapshot
//! of a target's memory that locate runtime structures without any known
//! address, by plausibility alone.
//!
//! Three searches. The bulk plausibility scan walks a large span in fixed
//! windows and reports the first aligned word that looks like a root
//! pointer with plausible secondary fields. The chain discovery search
//! brute-forces nested offset ranges below a confirmed root until a
//! small-array shape and a further pointer chain all look plausible. The
//! actor-array search brute-forces a pair of offsets and accepts it only
//! when a known pointer value actually appears among the candidate
//! array's leading elements.
//!
//! Every search is deterministic over the snapshot, returns the first
//! candidate in nested lowest-to-highest order that satisfies its
//! predicates, and returns zeros when the bounds are exhausted without a
//! match. A window that cannot be read is skipped, never fatal.

use vstd::prelude::*;
use crate::image::MemImage;
use crate::image::le64_at;

verus! {

/// Span of the bulk scan: how far past the base it looks.
pub const SCAN_SPAN: u64 = 0x1F400000;

/// Window of the bulk scan: how many bytes one read asks for.
pub const SCAN_CHUNK: u64 = 0x1000;

/// Lowest value the bulk scan accepts as a user-mode pointer.
pub const PTR_MIN: u64 = 0x10000;

/// Top of the canonical user-mode address range.
pub const PTR_MAX: u64 = 0x7FFF_FFFF_FFFF;

/// Lowest value the chain searches accept as a heap pointer.
pub const HEAP_MIN: u64 = 0x100_0000_0000;

/// Plausible user-mode pointer, wide band: above the null pages, strictly
/// inside the canonical range.
pub open spec fn spec_plaus_user(v: u64) -> bool {
    PTR_MIN < v && v < PTR_MAX
}

/// Plausible heap pointer, high band, ends allowed.
pub open spec fn spec_plaus_heap(v: u64) -> bool {
    HEAP_MIN <= v && v <= PTR_MAX
}

/// Plausible heap pointer, high band, ends refused; the pawn probe's test.
pub open spec fn spec_plaus_heap_strict(v: u64) -> bool {
    HEAP_MIN < v && v < PTR_MAX
}

fn plaus_user(v: u64) -> (r: bool)
    ensures
        r == spec_plaus_user(v),
{
    PTR_MIN < v && v < PTR_MAX
}

fn plaus_heap(v: u64) -> (r: bool)
    ensures
        r == spec_plaus_heap(v),
{
    HEAP_MIN <= v && v <= PTR_MAX
}

fn plaus_heap_strict(v: u64) -> (r: bool)
    ensures
        r == spec_plaus_heap_strict(v),
{
    HEAP_MIN < v && v < PTR_MAX
}

/// The window an offset of the bulk scan falls into.
pub open spec fn spec_chunk_of(o: u64) -> u64 {
    ((o / SCAN_CHUNK) * SCAN_CHUNK) as u64
}

/// A strong match of the bulk scan: the word is a plausible pointer, the
/// field at 0x30 below it holds another, and at least one of the fields
/// at 0x180, 0x190 and 0x1A0 holds a third.
pub open spec fn spec_strong_match(img: MemImage, v: u64) -> bool {
    &&& spec_plaus_user(v)
    &&& spec_plaus_user(img.spec_read64((v + 0x30) as u64))
    &&& {
        ||| spec_plaus_user(img.spec_read64((v + 0x180) as u64))
        ||| spec_plaus_user(img.spec_read64((v + 0x190) as u64))
        ||| spec_plaus_user(img.spec_read64((v + 0x1A0) as u64))
    }
}

/// Is the word a strong match? Probes the snapshot at the fixed secondary
/// offsets; a probe outside the snapshot reads zero and fails the band.
fn is_strong_match(img: &MemImage, v: u64) -> (r: bool)
    ensures
        r == spec_strong_match(*img, v),
{
    if !plaus_user(v) {
        return false;
    }
    let level = img.read_u64(v + 0x30);
    if !plaus_user(level) {
        return false;
    }
    let g1 = img.read_u64(v + 0x180);
    let g2 = img.read_u64(v + 0x190);
    let g3 = img.read_u64(v + 0x1A0);
    plaus_user(g1) || plaus_user(g2) || plaus_user(g3)
}

/// Does the bulk scan examine offset `o` at all: aligned, inside the span,
/// and inside a window that could be read in full.
pub open spec fn spec_ue_candidate(img: MemImage, base: u64, o: u64) -> bool {
    &&& o % 8 == 0
    &&& o < SCAN_SPAN
    &&& img.spec_in_range((base + spec_chunk_of(o)) as u64, SCAN_CHUNK as int)
}

/// A hit of the bulk scan: an examined offset whose word is a strong match.
pub open spec fn spec_ue_hit(img: MemImage, base: u64, o: u64) -> bool {
    &&& spec_ue_candidate(img, base, o)
    &&& spec_strong_match(img, img.spec_read64((base + o) as u64))
}

/// Can the bulk scan run from this base: a base was found, and the span
/// above it stays inside the address space.
pub open spec fn spec_ue_base_ok(base: u64) -> bool {
    base != 0 && base <= u64::MAX - SCAN_SPAN
}

/// Bulk plausibility scan: walk `SCAN_SPAN` bytes above `base` in fixed
/// windows and report the offset of the first aligned word that is a
/// strong match; zero when the span holds none. Windows that cannot be
/// read in full are skipped.
pub fn core_scan_ue_chain(img: &MemImage, base: u64) -> (r: u64)
    ensures
        !spec_ue_base_ok(base) ==> r == 0,
        spec_ue_base_ok(base) && (forall|o: u64| !spec_ue_hit(*img, base, o)) ==> r == 0,
        spec_ue_base_ok(base) && (exists|o: u64| spec_ue_hit(*img, base, o)) ==> spec_ue_hit(
            *img,
            base,
            r,
        ) && (forall|o: u64| o < r ==> !spec_ue_hit(*img, base, o)),
{
    if base == 0 || base > u64::MAX - SCAN_SPAN {
        return 0;
    }
    let mut chunk: u64 = 0;
    while chunk < SCAN_SPAN
        invariant
            spec_ue_base_ok(base),
            chunk % SCAN_CHUNK == 0,
            chunk <= SCAN_SPAN,
            forall|o: u64| o < chunk ==> !spec_ue_hit(*img, base, o),
        decreases SCAN_SPAN - chunk,
    {
        match img.read_window(base + chunk, SCAN_CHUNK as usize) {
            None => {
                proof {
                    assert forall|o: u64| o < chunk + SCAN_CHUNK implies !spec_ue_hit(
                        *img,
                        base,
                        o,
                    ) by {
                        if chunk <= o {
                            assert(spec_chunk_of(o) == chunk);
                        }
                    }
                }
            },
            Some(window) => {
                let ghost woff = base + chunk - img.base;
                let mut i: usize = 0;
                while i < (SCAN_CHUNK / 8) as usize
                    invariant
                        spec_ue_base_ok(base),
                        chunk % SCAN_CHUNK == 0,
                        chunk + SCAN_CHUNK <= SCAN_SPAN,
                        i <= SCAN_CHUNK / 8,
                        img.spec_in_range((base + chunk) as u64, SCAN_CHUNK as int),
                        woff == base + chunk - img.base,
                        window@ == img.bytes@.subrange(woff, woff + SCAN_CHUNK),
                        forall|o: u64| o < chunk + 8 * i ==> !spec_ue_hit(*img, base, o),
                    decreases SCAN_CHUNK / 8 - i,
                {
                    let v = le64_at(&window, i * 8);
                    proof {
                        assert(window@.subrange(8 * i as int, 8 * i + 8) =~= img.bytes@.subrange(
                            woff + 8 * i,
                            woff + 8 * i + 8,
                        ));
                        assert(img.spec_in_range((base + chunk + 8 * i) as u64, 8));
                        assert(v == img.spec_read64((base + chunk + 8 * i) as u64));
                    }
                    if is_strong_match(img, v) {
                        let found: u64 = chunk + (i as u64) * 8;
                        proof {
                            assert(spec_chunk_of(found) == chunk);
                            assert(spec_ue_hit(*img, base, found));
                        }
                        return found;
                    }
                    proof {
                        assert forall|o: u64| o < chunk + 8 * (i + 1) implies !spec_ue_hit(
                            *img,
                            base,
                            o,
                        ) by {
                            if chunk + 8 * i <= o {
                                if o % 8 == 0 {
                                    assert(o == chunk + 8 * i);
                                }
                            }
                        }
                    }
                    i = i + 1;
                }
            },
        }
        chunk = chunk + SCAN_CHUNK;
    }
    proof {
        assert forall|o: u64| !spec_ue_hit(*img, base, o) by {
            if o < SCAN_SPAN {
            } else {
            }
        }
    }
    0
}

/// The four discovered offsets of the player chain, relative to the chain's
/// root: all zero when the search exhausted its bounds without a match.
#[derive(Clone, Copy, Debug)]
pub struct PlayerChainResult {
    pub game_instance_offset: u64,
    pub local_players_offset: u64,
    pub player_controller_offset: u64,
    pub pawn_offset: u64,
}

/// The all-zero result of a failed chain search.
pub open spec fn spec_zero_chain() -> PlayerChainResult {
    PlayerChainResult {
        game_instance_offset: 0,
        local_players_offset: 0,
        player_controller_offset: 0,
        pawn_offset: 0,
    }
}

/// Is the root a plausible address to search under: past the null pages
/// and inside the canonical range.
pub open spec fn spec_root_ok(root: u64) -> bool {
    PTR_MIN <= root && root <= PTR_MAX
}

/// The outer offsets the chain search tries below the root.
pub open spec fn spec_gi_off_valid(g: u64) -> bool {
    0x100 <= g && g < 0x300 && g % 8 == 0
}

/// The array offsets the chain search tries below an instance candidate.
pub open spec fn spec_lp_off_valid(l: u64) -> bool {
    l < 0x200 && l % 8 == 0
}

/// The fixed controller offsets tried below the array's first element, in
/// the order they are tried.
pub open spec fn spec_pc_offset(j: int) -> u64 {
    if j == 0 {
        0x30
    } else if j == 1 {
        0x40
    } else if j == 2 {
        0x28
    } else if j == 3 {
        0x50
    } else if j == 4 {
        0x38
    } else {
        0x60
    }
}

/// Does one 64-bit word look like a small array's bookkeeping: its low
/// half a count that is positive and small, its high half a capacity at
/// least the count.
pub open spec fn spec_small_array(cm: u64) -> bool {
    &&& 0 < (cm & 0xFFFFFFFF)
    &&& (cm & 0xFFFFFFFF) < 10
    &&& (cm & 0xFFFFFFFF) <= (cm >> 32)
}

/// The instance candidate below the root at outer offset `g`.
pub open spec fn spec_gi_ptr(img: MemImage, root: u64, g: u64) -> u64 {
    img.spec_read64((root + g) as u64)
}

/// The array candidate below an instance candidate at offset `l`.
pub open spec fn spec_lp_arr_ptr(img: MemImage, root: u64, g: u64, l: u64) -> u64 {
    img.spec_read64((spec_gi_ptr(img, root, g) + l) as u64)
}

/// The count/capacity word beside the array candidate.
pub open spec fn spec_lp_cnt_max(img: MemImage, root: u64, g: u64, l: u64) -> u64 {
    img.spec_read64((spec_gi_ptr(img, root, g) + l + 8) as u64)
}

/// The array candidate's first element.
pub open spec fn spec_first_lp(img: MemImage, root: u64, g: u64, l: u64) -> u64 {
    img.spec_read64(spec_lp_arr_ptr(img, root, g, l))
}

/// The controller candidate below the first element at the `j`-th fixed
/// offset.
pub open spec fn spec_pc_val(img: MemImage, root: u64, g: u64, l: u64, j: int) -> u64 {
    img.spec_read64((spec_first_lp(img, root, g, l) + spec_pc_offset(j)) as u64)
}

/// A hit of the chain search: at offsets (g, l) and controller try `j`,
/// every link of the chain looks plausible — instance pointer, array
/// pointer with small-array bookkeeping, first element, controller.
pub open spec fn spec_chain_hit(img: MemImage, root: u64, g: u64, l: u64, j: int) -> bool {
    &&& spec_gi_off_valid(g)
    &&& spec_lp_off_valid(l)
    &&& 0 <= j < 6
    &&& spec_plaus_heap(spec_gi_ptr(img, root, g))
    &&& spec_plaus_heap(spec_lp_arr_ptr(img, root, g, l))
    &&& spec_small_array(spec_lp_cnt_max(img, root, g, l))
    &&& spec_plaus_heap(spec_first_lp(img, root, g, l))
    &&& spec_plaus_heap(spec_pc_val(img, root, g, l, j))
}

/// The order the chain search tries candidates in: outer offset first,
/// then array offset, then the controller try.
pub open spec fn spec_chain_earlier(
    g1: u64,
    l1: u64,
    j1: int,
    g2: u64,
    l2: u64,
    j2: int,
) -> bool {
    ||| g1 < g2
    ||| (g1 == g2 && l1 < l2)
    ||| (g1 == g2 && l1 == l2 && j1 < j2)
}

/// The pawn offsets probed below a found controller.
pub open spec fn spec_pawn_off_valid(p: u64) -> bool {
    0x2A0 <= p && p < 0x600 && p % 8 == 0
}

/// A pawn probe hit: the word below the controller at offset `p` is a
/// strictly plausible heap pointer.
pub open spec fn spec_pawn_hit(img: MemImage, pc: u64, p: u64) -> bool {
    spec_pawn_off_valid(p) && spec_plaus_heap_strict(img.spec_read64((pc + p) as u64))
}

/// The controller offset of try `j`.
fn pc_offset(j: usize) -> (r: u64)
    requires
        j < 6,
    ensures
        r == spec_pc_offset(j as int),
{
    if j == 0 {
        0x30
    } else if j == 1 {
        0x40
    } else if j == 2 {
        0x28
    } else if j == 3 {
        0x50
    } else if j == 4 {
        0x38
    } else {
        0x60
    }
}

/// Chain discovery: below a confirmed root, brute-force the outer offset,
/// the array offset and the fixed controller offsets in nested
/// lowest-to-highest order, and report the first combination whose every
/// link looks plausible; all zeros when the bounds are exhausted. The
/// pawn offset reported with a found chain is the first probe below the
/// found controller that hits, or 0x308 when none does.
#[verifier::loop_isolation(false)]
#[verifier::rlimit(60)]
pub fn core_scan_player_chain(img: &MemImage, uworld: u64) -> (r: PlayerChainResult)
    ensures
        !spec_root_ok(uworld) ==> r == spec_zero_chain(),
        spec_root_ok(uworld) && (forall|g: u64, l: u64, j: int|
            !spec_chain_hit(*img, uworld, g, l, j)) ==> r == spec_zero_chain(),
        spec_root_ok(uworld) && (exists|g: u64, l: u64, j: int|
            spec_chain_hit(*img, uworld, g, l, j)) ==> (exists|j: int|
            {
                &&& 0 <= j < 6
                &&& r.player_controller_offset == spec_pc_offset(j)
                &&& spec_chain_hit(
                    *img,
                    uworld,
                    r.game_instance_offset,
                    r.local_players_offset,
                    j,
                )
                &&& (forall|g2: u64, l2: u64, j2: int|
                    spec_chain_hit(*img, uworld, g2, l2, j2) ==> !spec_chain_earlier(
                        g2,
                        l2,
                        j2,
                        r.game_instance_offset,
                        r.local_players_offset,
                        j,
                    ))
                &&& {
                    let pc = spec_pc_val(
                        *img,
                        uworld,
                        r.game_instance_offset,
                        r.local_players_offset,
                        j,
                    );
                    &&& ((exists|p: u64| spec_pawn_hit(*img, pc, p)) ==> spec_pawn_hit(
                        *img,
                        pc,
                        r.pawn_offset,
                    ) && (forall|p: u64| p < r.pawn_offset ==> !spec_pawn_hit(*img, pc, p)))
                    &&& ((forall|p: u64| !spec_pawn_hit(*img, pc, p)) ==> r.pawn_offset == 0x308)
                }
            }),
{
    let zero = PlayerChainResult {
        game_instance_offset: 0,
        local_players_offset: 0,
        player_controller_offset: 0,
        pawn_offset: 0,
    };
    if uworld < PTR_MIN || uworld > PTR_MAX {
        return zero;
    }
    let mut g: u64 = 0x100;
    while g < 0x300
        invariant
            0x100 <= g <= 0x300,
            g % 8 == 0,
            forall|g2: u64, l2: u64, j2: int|
                g2 < g ==> !spec_chain_hit(*img, uworld, g2, l2, j2),
        decreases 0x300 - g,
    {
        let gi_ptr = img.read_u64(uworld + g);
        if plaus_heap(gi_ptr) {
            let mut l: u64 = 0;
            while l < 0x200
                invariant
                    l <= 0x200,
                    l % 8 == 0,
                    forall|l2: u64, j2: int| l2 < l ==> !spec_chain_hit(*img, uworld, g, l2, j2),
                decreases 0x200 - l,
            {
                let arr_ptr = img.read_u64(gi_ptr + l);
                let mut chain_found = false;
                let mut pc_try: usize = 0;
                let mut pc: u64 = 0;
                if plaus_heap(arr_ptr) {
                    let cm = img.read_u64(gi_ptr + l + 8);
                    let cnt = cm & 0xFFFFFFFF;
                    let mx = cm >> 32;
                    if 0 < cnt && cnt < 10 && cnt <= mx {
                        let first_lp = img.read_u64(arr_ptr);
                        if plaus_heap(first_lp) {
                            let mut j: usize = 0;
                            while j < 6 && !chain_found
                                invariant
                                    j <= 6,
                                    !chain_found ==> forall|j2: int|
                                        0 <= j2 < j ==> !spec_chain_hit(*img, uworld, g, l, j2),
                                    chain_found ==> {
                                        &&& pc_try < 6
                                        &&& spec_chain_hit(*img, uworld, g, l, pc_try as int)
                                        &&& pc == spec_pc_val(*img, uworld, g, l, pc_try as int)
                                        &&& forall|j2: int|
                                            0 <= j2 < pc_try ==> !spec_chain_hit(
                                                *img,
                                                uworld,
                                                g,
                                                l,
                                                j2,
                                            )
                                    },
                                decreases 6 - j,
                            {
                                let pc_off = pc_offset(j);
                                let pc_cand = img.read_u64(first_lp + pc_off);
                                if plaus_heap(pc_cand) {
                                    chain_found = true;
                                    pc_try = j;
                                    pc = pc_cand;
                                }
                                j = j + 1;
                            }
                        }
                    }
                }
                if chain_found {
                    // The chain stands; probe for the pawn below the
                    // found controller, first hit wins, 0x308 by default.
                    let mut p: u64 = 0x2A0;
                    let mut found_pawn: u64 = 0;
                    while p < 0x600 && found_pawn == 0
                        invariant
                            0x2A0 <= p <= 0x600,
                            p % 8 == 0,
                            found_pawn == 0 ==> forall|p2: u64|
                                p2 < p ==> !spec_pawn_hit(*img, pc, p2),
                            found_pawn != 0 ==> spec_pawn_hit(*img, pc, found_pawn) && (forall|
                                p2: u64,
                            |
                                p2 < found_pawn ==> !spec_pawn_hit(*img, pc, p2)),
                        decreases 0x600 - p,
                    {
                        let pawn = img.read_u64(pc + p);
                        if plaus_heap_strict(pawn) {
                            found_pawn = p;
                        }
                        p = p + 8;
                    }
                    let pawn_offset: u64 = if found_pawn != 0 {
                        found_pawn
                    } else {
                        0x308
                    };
                    let result = PlayerChainResult {
                        game_instance_offset: g,
                        local_players_offset: l,
                        player_controller_offset: pc_offset(pc_try),
                        pawn_offset,
                    };
                    proof {
                        let jw = pc_try as int;
                        assert(spec_chain_hit(*img, uworld, g, l, jw));
                        assert(pc == spec_pc_val(*img, uworld, g, l, jw));
                        assert forall|g2: u64, l2: u64, j2: int|
                            spec_chain_hit(*img, uworld, g2, l2, j2) implies !spec_chain_earlier(
                            g2,
                            l2,
                            j2,
                            g,
                            l,
                            jw,
                        ) by {
                            if g2 < g {
                            } else if g2 == g && l2 < l {
                            } else if g2 == g && l2 == l && j2 < jw {
                            }
                        }
                        if found_pawn == 0 {
                            assert forall|p2: u64| !spec_pawn_hit(*img, pc, p2) by {
                                if p2 < 0x600 {
                                }
                            }
                        }
                    }
                    return result;
                }
                proof {
                    assert forall|j2: int| !spec_chain_hit(*img, uworld, g, l, j2) by {
                        if 0 <= j2 < 6 {
                        }
                    }
                }
                l = l + 8;
            }
        }
        proof {
            assert forall|l2: u64, j2: int| !spec_chain_hit(*img, uworld, g, l2, j2) by {
                if spec_lp_off_valid(l2) && 0 <= j2 < 6 {
                }
            }
        }
        g = g + 8;
    }
    proof {
        assert forall|g2: u64, l2: u64, j2: int| !spec_chain_hit(*img, uworld, g2, l2, j2) by {
            if spec_gi_off_valid(g2) {
            }
        }
    }
    zero
}

/// The level offsets the actor-array search tries below the root.
pub open spec fn spec_level_off_valid(lo: u64) -> bool {
    0x20 <= lo && lo < 0x400 && lo % 8 == 0
}

/// The array offsets the actor-array search tries below a level candidate.
pub open spec fn spec_actors_off_valid(ao: u64) -> bool {
    0x50 <= ao && ao < 0x500 && ao % 8 == 0
}

/// The level candidate below the root at offset `lo`.
pub open spec fn spec_level_ptr(img: MemImage, root: u64, lo: u64) -> u64 {
    img.spec_read64((root + lo) as u64)
}

/// The array candidate below a level candidate at offset `ao`.
pub open spec fn spec_actors_arr(img: MemImage, root: u64, lo: u64, ao: u64) -> u64 {
    img.spec_read64((spec_level_ptr(img, root, lo) + ao) as u64)
}

/// The count/capacity word beside the array candidate.
pub open spec fn spec_actors_cnt_max(img: MemImage, root: u64, lo: u64, ao: u64) -> u64 {
    img.spec_read64((spec_level_ptr(img, root, lo) + ao + 8) as u64)
}

/// Does the word look like an actor array's bookkeeping: a count past the
/// handful but below twenty thousand, capacity at least the count.
pub open spec fn spec_actor_band(cm: u64) -> bool {
    &&& 10 < (cm & 0xFFFFFFFF)
    &&& (cm & 0xFFFFFFFF) < 20000
    &&& (cm >> 32) >= (cm & 0xFFFFFFFF)
}

/// How many leading elements the membership check examines: the count,
/// capped at five thousand for cost control.
pub open spec fn spec_check_limit(cm: u64) -> int {
    if (cm & 0xFFFFFFFF) > 5000 {
        5000
    } else {
        (cm & 0xFFFFFFFF) as int
    }
}

/// Does the known pawn value appear among the array's examined elements?
pub open spec fn spec_pawn_present(img: MemImage, arr: u64, cm: u64, pawn: u64) -> bool {
    exists|i: int|
        0 <= i < spec_check_limit(cm) && #[trigger] img.spec_read64((arr + 8 * i) as u64) == pawn
}

/// A hit of the actor-array search: at offsets (lo, ao) the level and
/// array pointers look plausible, the bookkeeping word is in band, and
/// the known pawn value actually appears among the examined elements.
pub open spec fn spec_actors_hit(img: MemImage, root: u64, lo: u64, ao: u64, pawn: u64) -> bool {
    &&& spec_level_off_valid(lo)
    &&& spec_actors_off_valid(ao)
    &&& spec_plaus_heap(spec_level_ptr(img, root, lo))
    &&& spec_plaus_heap(spec_actors_arr(img, root, lo, ao))
    &&& spec_actor_band(spec_actors_cnt_max(img, root, lo, ao))
    &&& spec_pawn_present(
        img,
        spec_actors_arr(img, root, lo, ao),
        spec_actors_cnt_max(img, root, lo, ao),
        pawn,
    )
}

/// The order the actor-array search tries offset pairs in.
pub open spec fn spec_pair_earlier(a1: u64, b1: u64, a2: u64, b2: u64) -> bool {
    a1 < a2 || (a1 == a2 && b1 < b2)
}

/// Actor-array discovery: below a confirmed root, brute-force a level
/// offset and an array offset in nested lowest-to-highest order; accept a
/// pair only when the array's shape is in band and the known pawn value
/// appears among its first examined elements, and report the two winning
/// offsets packed as `(level_off << 32) | actors_off`; zero when the
/// bounds are exhausted without a match.
#[verifier::loop_isolation(false)]
#[verifier::rlimit(60)]
pub fn core_scan_actors_array(img: &MemImage, uworld: u64, known_pawn: u64) -> (r: u64)
    ensures
        !spec_root_ok(uworld) ==> r == 0,
        spec_root_ok(uworld) && (forall|lo: u64, ao: u64|
            !spec_actors_hit(*img, uworld, lo, ao, known_pawn)) ==> r == 0,
        spec_root_ok(uworld) && (exists|lo: u64, ao: u64|
            spec_actors_hit(*img, uworld, lo, ao, known_pawn)) ==> (exists|lo: u64, ao: u64|
            {
                &&& spec_actors_hit(*img, uworld, lo, ao, known_pawn)
                &&& r == ((lo << 32) | ao)
                &&& (forall|lo2: u64, ao2: u64|
                    spec_actors_hit(*img, uworld, lo2, ao2, known_pawn) ==> !spec_pair_earlier(
                        lo2,
                        ao2,
                        lo,
                        ao,
                    ))
            }),
{
    if uworld < PTR_MIN || uworld > PTR_MAX {
        return 0;
    }
    let mut lo: u64 = 0x20;
    while lo < 0x400
        invariant
            0x20 <= lo <= 0x400,
            lo % 8 == 0,
            forall|lo2: u64, ao2: u64|
                lo2 < lo ==> !spec_actors_hit(*img, uworld, lo2, ao2, known_pawn),
        decreases 0x400 - lo,
    {
        let level_ptr = img.read_u64(uworld + lo);
        if plaus_heap(level_ptr) {
            let mut ao: u64 = 0x50;
            while ao < 0x500
                invariant
                    0x50 <= ao <= 0x500,
                    ao % 8 == 0,
                    forall|ao2: u64|
                        ao2 < ao ==> !spec_actors_hit(*img, uworld, lo, ao2, known_pawn),
                decreases 0x500 - ao,
            {
                let arr_ptr = img.read_u64(level_ptr + ao);
                if plaus_heap(arr_ptr) {
                    let cm = img.read_u64(level_ptr + ao + 8);
                    let cnt = cm & 0xFFFFFFFF;
                    let mx = cm >> 32;
                    if 10 < cnt && cnt < 20000 && mx >= cnt {
                        let limit: u64 = if cnt > 5000 {
                            5000
                        } else {
                            cnt
                        };
                        proof {
                            assert(limit == spec_check_limit(cm));
                        }
                        let mut i: u64 = 0;
                        while i < limit
                            invariant
                                i <= limit,
                                forall|i2: int|
                                    0 <= i2 < i ==> #[trigger] img.spec_read64(
                                        ((arr_ptr + 8 * i2) as u64),
                                    ) != known_pawn,
                            decreases limit - i,
                        {
                            let actor = img.read_u64(arr_ptr + i * 8);
                            if actor == known_pawn {
                                proof {
                                    assert(img.spec_read64((arr_ptr + 8 * (i as int)) as u64)
                                        == known_pawn);
                                    assert(spec_pawn_present(*img, arr_ptr, cm, known_pawn));
                                    assert(spec_actors_hit(*img, uworld, lo, ao, known_pawn));
                                    assert forall|lo2: u64, ao2: u64|
                                        spec_actors_hit(
                                            *img,
                                            uworld,
                                            lo2,
                                            ao2,
                                            known_pawn,
                                        ) implies !spec_pair_earlier(lo2, ao2, lo, ao) by {
                                        if lo2 < lo {
                                        } else if lo2 == lo && ao2 < ao {
                                        }
                                    }
                                }
                                return (lo << 32) | ao;
                            }
                            i = i + 1;
                        }
                        proof {
                            assert(!spec_pawn_present(*img, arr_ptr, cm, known_pawn));
                        }
                    }
                }
                proof {
                    assert(!spec_actors_hit(*img, uworld, lo, ao, known_pawn));
                }
                ao = ao + 8;
            }
        }
        proof {
            assert forall|ao2: u64| !spec_actors_hit(*img, uworld, lo, ao2, known_pawn) by {
                if spec_actors_off_valid(ao2) {
                }
            }
        }
        lo = lo + 8;
    }
    proof {
        assert forall|lo2: u64, ao2: u64| !spec_actors_hit(*img, uworld, lo2, ao2, known_pawn) by {
            if spec_level_off_valid(lo2) {
            }
        }
    }
    0
}

} // verus!
