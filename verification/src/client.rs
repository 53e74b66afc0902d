//! The user-side client's decisions: which device path to bind to, which
//! enumerated process is the target, and what the setup as a whole
//! reports. The channel itself — opening a device, sending a request —
//! stays outside; these functions take each outside step's outcome as a
//! plain value.

use vstd::prelude::*;

verus! {

/// One entry of a process enumeration: the reported identity and the
/// executable name as reported, possibly padded with trailing NULs.
#[derive(Debug)]
pub struct ProcessEntry {
    pub pid: u32,
    pub name: Vec<u8>,
}

/// An ASCII letter lowered; any other byte unchanged.
pub open spec fn spec_ascii_lower(b: u8) -> u8 {
    if 65 <= b <= 90 {
        (b + 32) as u8
    } else {
        b
    }
}

/// A byte string lowered letter by letter.
pub open spec fn spec_lower(s: Seq<u8>) -> Seq<u8> {
    s.map_values(|b: u8| spec_ascii_lower(b))
}

/// Leading NUL bytes dropped.
pub open spec fn spec_trim_front(s: Seq<u8>) -> Seq<u8>
    decreases s.len(),
{
    if s.len() > 0 && s[0] == 0 {
        spec_trim_front(s.drop_first())
    } else {
        s
    }
}

/// Trailing NUL bytes dropped.
pub open spec fn spec_trim_back(s: Seq<u8>) -> Seq<u8>
    decreases s.len(),
{
    if s.len() > 0 && s.last() == 0 {
        spec_trim_back(s.drop_last())
    } else {
        s
    }
}

/// NUL padding dropped from both ends.
pub open spec fn spec_trim_nul(s: Seq<u8>) -> Seq<u8> {
    spec_trim_back(spec_trim_front(s))
}

/// Does an enumerated name, with its padding dropped, equal the wanted
/// name up to ASCII case?
pub open spec fn spec_name_matches(entry_name: Seq<u8>, wanted: Seq<u8>) -> bool {
    spec_lower(spec_trim_nul(entry_name)) == spec_lower(wanted)
}

/// The identity of the first enumerated entry whose name matches; zero
/// when none does.
pub open spec fn spec_find_pid(entries: Seq<ProcessEntry>, wanted: Seq<u8>) -> u32
    decreases entries.len(),
{
    if entries.len() == 0 {
        0
    } else if spec_name_matches(entries[0].name@, wanted) {
        entries[0].pid
    } else {
        spec_find_pid(entries.drop_first(), wanted)
    }
}

/// An unmatched prefix does not change which entry is found.
proof fn lemma_find_pid_skip(entries: Seq<ProcessEntry>, wanted: Seq<u8>, j: int)
    requires
        0 <= j <= entries.len(),
        forall|k: int| 0 <= k < j ==> !spec_name_matches(#[trigger] entries[k].name@, wanted),
    ensures
        spec_find_pid(entries, wanted) == spec_find_pid(entries.skip(j), wanted),
    decreases j,
{
    if j == 0 {
        assert(entries.skip(0) =~= entries);
    } else {
        lemma_find_pid_skip(entries, wanted, j - 1);
        assert(entries.skip(j - 1)[0] == entries[j - 1]);
        assert(entries.skip(j - 1).drop_first() =~= entries.skip(j));
    }
}

/// Lower one byte.
fn ascii_lower(b: u8) -> (r: u8)
    ensures
        r == spec_ascii_lower(b),
{
    if 65 <= b && b <= 90 {
        b + 32
    } else {
        b
    }
}

/// Dropping zero bytes from the front, one at a time.
proof fn lemma_trim_front_skip(s: Seq<u8>, lo: int)
    requires
        0 <= lo <= s.len(),
        forall|k: int| 0 <= k < lo ==> s[k] == 0,
        lo < s.len() ==> s[lo] != 0,
    ensures
        spec_trim_front(s) == s.skip(lo),
    decreases lo,
{
    if lo == 0 {
        assert(s.skip(0) =~= s);
        if s.len() > 0 && s[0] == 0 {
            assert(false);
        }
    } else {
        assert(s.len() > 0 && s[0] == 0);
        let t = s.drop_first();
        assert(forall|k: int| 0 <= k < lo - 1 ==> t[k] == s[k + 1] && t[k] == 0);
        assert(lo - 1 < t.len() ==> t[lo - 1] == s[lo] && t[lo - 1] != 0);
        lemma_trim_front_skip(t, lo - 1);
        assert(t.skip(lo - 1) =~= s.skip(lo));
    }
}

/// Dropping zero bytes from the back, one at a time.
proof fn lemma_trim_back_take(s: Seq<u8>, hi: int)
    requires
        0 <= hi <= s.len(),
        forall|k: int| hi <= k < s.len() ==> s[k] == 0,
        hi > 0 ==> s[hi - 1] != 0,
    ensures
        spec_trim_back(s) == s.take(hi),
    decreases s.len() - hi,
{
    if hi == s.len() {
        assert(s.take(hi) =~= s);
        if s.len() > 0 && s.last() == 0 {
            assert(false);
        }
    } else {
        assert(s.len() > 0 && s.last() == 0);
        let t = s.drop_last();
        lemma_trim_back_take(t, hi);
        assert(t.take(hi) =~= s.take(hi));
    }
}

/// Does this enumerated name match the wanted one? Padding NULs on the
/// enumerated side are ignored, and case is ignored letter by letter.
pub fn name_matches(entry_name: &Vec<u8>, wanted: &Vec<u8>) -> (r: bool)
    ensures
        r == spec_name_matches(entry_name@, wanted@),
{
    let n = entry_name.len();
    let mut lo: usize = 0;
    while lo < n && entry_name[lo] == 0
        invariant
            lo <= n,
            n == entry_name@.len(),
            forall|k: int| 0 <= k < lo ==> entry_name@[k] == 0,
        decreases n - lo,
    {
        lo = lo + 1;
    }
    let mut hi: usize = n;
    while hi > lo && entry_name[hi - 1] == 0
        invariant
            lo <= hi <= n,
            n == entry_name@.len(),
            forall|k: int| 0 <= k < lo ==> entry_name@[k] == 0,
            forall|k: int| hi <= k < n ==> entry_name@[k] == 0,
        decreases hi,
    {
        hi = hi - 1;
    }
    proof {
        lemma_trim_front_skip(entry_name@, lo as int);
        let t = entry_name@.skip(lo as int);
        assert(forall|k: int| hi - lo <= k < t.len() ==> t[k] == entry_name@[k + lo] && t[k] == 0);
        assert(hi - lo > 0 ==> t[hi - lo - 1] == entry_name@[hi - 1] && t[hi - lo - 1] != 0);
        lemma_trim_back_take(t, hi - lo);
        assert(t.take(hi - lo) =~= entry_name@.subrange(lo as int, hi as int));
        assert(spec_trim_nul(entry_name@) == entry_name@.subrange(lo as int, hi as int));
    }
    let m = hi - lo;
    if m != wanted.len() {
        proof {
            assert(spec_lower(spec_trim_nul(entry_name@)).len() == m);
            assert(spec_lower(wanted@).len() == wanted@.len());
        }
        return false;
    }
    let mut i: usize = 0;
    while i < m
        invariant
            i <= m,
            lo + m == hi <= n,
            n == entry_name@.len(),
            m == wanted@.len(),
            spec_trim_nul(entry_name@) == entry_name@.subrange(lo as int, hi as int),
            forall|k: int| 0 <= k < i ==> spec_ascii_lower(#[trigger] entry_name@[lo + k])
                == spec_ascii_lower(wanted@[k]),
        decreases m - i,
    {
        if ascii_lower(entry_name[lo + i]) != ascii_lower(wanted[i]) {
            proof {
                let a = spec_lower(spec_trim_nul(entry_name@));
                let b = spec_lower(wanted@);
                assert(a[i as int] == spec_ascii_lower(entry_name@[lo + i]));
                assert(b[i as int] == spec_ascii_lower(wanted@[i as int]));
                assert(a != b);
            }
            return false;
        }
        i = i + 1;
    }
    proof {
        let t = spec_trim_nul(entry_name@);
        let a = spec_lower(t);
        let b = spec_lower(wanted@);
        assert(a.len() == m && b.len() == m);
        assert forall|k: int| 0 <= k < m implies a[k] == b[k] by {
            assert(t[k] == entry_name@[lo + k]);
            assert(spec_ascii_lower(entry_name@[lo + k]) == spec_ascii_lower(wanted@[k]));
        };
        assert(a =~= b);
    }
    true
}

/// The identity of the first enumerated process whose executable name
/// matches `wanted` up to case and padding; zero when none does.
pub fn find_process_id(entries: &Vec<ProcessEntry>, wanted: &Vec<u8>) -> (pid: u32)
    ensures
        pid == spec_find_pid(entries@, wanted@),
{
    let n = entries.len();
    let mut i: usize = 0;
    while i < n
        invariant
            i <= n,
            n == entries@.len(),
            forall|k: int| 0 <= k < i ==> !spec_name_matches(#[trigger] entries@[k].name@, wanted@),
        decreases n - i,
    {
        if name_matches(&entries[i].name, wanted) {
            proof {
                lemma_find_pid_skip(entries@, wanted@, i as int);
                assert(entries@.skip(i as int)[0] == entries@[i as int]);
            }
            return entries[i].pid;
        }
        i = i + 1;
    }
    proof {
        lemma_find_pid_skip(entries@, wanted@, n as int);
    }
    0
}

/// Which of an ordered list of device paths the client binds to: the first
/// whose open succeeded, if any.
pub fn first_open_device(opened: &Vec<bool>) -> (r: Option<usize>)
    ensures
        match r {
            Some(i) => i < opened@.len() && opened@[i as int] && forall|k: int|
                0 <= k < i ==> !opened@[k],
            None => forall|k: int| 0 <= k < opened@.len() ==> !opened@[k],
        },
{
    let n = opened.len();
    let mut i: usize = 0;
    while i < n
        invariant
            i <= n,
            n == opened@.len(),
            forall|k: int| 0 <= k < i ==> !opened@[k],
        decreases n - i,
    {
        if opened[i] {
            return Some(i);
        }
        i = i + 1;
    }
    None
}

/// The connection the client holds after a successful setup: the resolved
/// target identity and its image base, captured once and then only read.
#[derive(Clone, Copy, Debug)]
pub struct ClientState {
    pub pid: u32,
    pub base_address: u64,
}

/// The base address the client captured at setup; zero while no
/// connection is held.
pub fn core_get_base_address(state: &Option<ClientState>) -> (r: u64)
    ensures
        match *state {
            Some(s) => r == s.base_address,
            None => r == 0,
        },
{
    match state {
        Some(s) => s.base_address,
        None => 0,
    }
}

/// What setup reports, from each outside step's outcome: zero when no
/// device opened or authorization was refused, a distinct negative report
/// when the target process or its base cannot be found, one on success.
pub fn init_status(connected: bool, auth_ok: bool, pid: u32, base: u64) -> (r: i32)
    ensures
        !connected ==> r == 0,
        connected && !auth_ok ==> r == 0,
        connected && auth_ok && pid == 0 ==> r == -1,
        connected && auth_ok && pid != 0 && base == 0 ==> r == -2,
        connected && auth_ok && pid != 0 && base != 0 ==> r == 1,
{
    if !connected {
        0
    } else if !auth_ok {
        0
    } else if pid == 0 {
        -1
    } else if base == 0 {
        -2
    } else {
        1
    }
}

} // verus!
