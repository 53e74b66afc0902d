//! The authenticated request handler: the shared core both install modes
//! delegate to. It derives the function number from the control code,
//! checks that a request buffer is present, decodes the wire fields,
//! executes AUTH / READ / GET_BASE against the authorization slot and the
//! population of resolvable targets, and reports a status and a byte count.
//!
//! The caller's identity is the one the hosting system reports, never a
//! value taken from the request: a caller cannot claim someone else's
//! identity for the authorization check. Note the scheme's deliberate
//! weakness, kept as designed: AUTH takes no credential beyond that
//! reported identity, so any local caller can authorize itself, and the
//! single slot means the last authorization wins.

use vstd::prelude::*;
use crate::codec::spec_code;
use crate::codec::decode;
use crate::protocol::{
    MemoryRequest, spec_func_of, func_of, FUNC_READ, FUNC_GET_BASE, FUNC_AUTH, MAX_READ_SIZE,
    STATUS_SUCCESS, STATUS_UNSUCCESSFUL, STATUS_INVALID_PARAMETER, STATUS_ACCESS_DENIED,
    STATUS_INFO_LENGTH_MISMATCH, STATUS_INVALID_CID,
};
use crate::image::{MemImage, spec_le_bytes};

verus! {

/// The process-wide authorization slot: the last identity that issued an
/// AUTH operation, zero while no one has. Mutated only by AUTH; read by
/// every privileged operation; the last writer wins.
pub struct AuthState {
    pub id: u64,
}

/// One resolvable target: its identity, its image base (zero when the
/// system reports none) and a snapshot of its memory.
pub struct TargetProcess {
    pub id: u64,
    pub base: u64,
    pub mem: MemImage,
}

/// The population of targets an identity lookup can resolve.
pub struct ProcessTable {
    pub procs: Vec<TargetProcess>,
}

/// What a completed request reports back: the status, the returned-byte
/// count, and the bytes written into the caller's buffer.
pub struct IoCompletion {
    pub status: u32,
    pub info: u64,
    pub data: Vec<u8>,
}

/// The first target with the given identity, if any.
pub open spec fn spec_find(s: Seq<TargetProcess>, id: u64) -> Option<TargetProcess>
    decreases s.len(),
{
    if s.len() == 0 {
        None
    } else if s[0].id == id {
        Some(s[0])
    } else {
        spec_find(s.drop_first(), id)
    }
}

/// A prefix without the identity does not change what is found.
proof fn lemma_find_skip(s: Seq<TargetProcess>, id: u64, j: int)
    requires
        0 <= j <= s.len(),
        forall|k: int| 0 <= k < j ==> s[k].id != id,
    ensures
        spec_find(s, id) == spec_find(s.skip(j), id),
    decreases j,
{
    if j == 0 {
        assert(s.skip(0) =~= s);
    } else {
        lemma_find_skip(s, id, j - 1);
        assert(s.skip(j - 1)[0] == s[j - 1]);
        assert(s.skip(j - 1).drop_first() =~= s.skip(j));
    }
}

impl ProcessTable {
    /// Resolve an identity to the index of its first entry.
    pub fn lookup(&self, id: u64) -> (r: Option<usize>)
        ensures
            match r {
                Some(i) => i < self.procs@.len() && spec_find(self.procs@, id) == Some(
                    self.procs@[i as int],
                ) && self.procs@[i as int].id == id,
                None => spec_find(self.procs@, id) is None,
            },
    {
        let n = self.procs.len();
        let mut i: usize = 0;
        while i < n
            invariant
                i <= n,
                n == self.procs@.len(),
                forall|k: int| 0 <= k < i ==> self.procs@[k].id != id,
            decreases n - i,
        {
            if self.procs[i].id == id {
                proof {
                    lemma_find_skip(self.procs@, id, i as int);
                    assert(self.procs@.skip(i as int)[0] == self.procs@[i as int]);
                }
                return Some(i);
            }
            i = i + 1;
        }
        proof {
            lemma_find_skip(self.procs@, id, n as int);
        }
        None
    }
}

/// What one dispatch of the handler yields: the authorization slot after
/// the request, and everything the completed request reports.
pub ghost struct SpecOutcome {
    pub auth: u64,
    pub status: u32,
    pub info: u64,
    pub data: Seq<u8>,
}

/// Is `caller` the identity the slot currently authorizes?
pub open spec fn spec_authorized(auth: u64, caller: u64) -> bool {
    auth != 0 && caller == auth
}

/// The handler as a mathematical step: from the targets, the slot, the
/// control code, the system-reported caller identity and the request (when
/// a buffer is present) to the slot afterwards and the completion.
pub open spec fn spec_handle(
    table: ProcessTable,
    auth0: u64,
    ioctl: u32,
    caller: u64,
    req: Option<MemoryRequest>,
) -> SpecOutcome {
    let f = spec_func_of(ioctl);
    match req {
        None => SpecOutcome {
            auth: auth0,
            status: STATUS_INVALID_PARAMETER,
            info: 0,
            data: Seq::empty(),
        },
        Some(q) => {
            let target = spec_code(q.process_id);
            let addr = spec_code(q.address);
            let sz = spec_code(q.size);
            if f == FUNC_AUTH {
                SpecOutcome { auth: caller, status: STATUS_SUCCESS, info: 0, data: Seq::empty() }
            } else if !spec_authorized(auth0, caller) {
                SpecOutcome {
                    auth: auth0,
                    status: STATUS_ACCESS_DENIED,
                    info: 0,
                    data: Seq::empty(),
                }
            } else if f == FUNC_READ {
                if 0 < sz <= MAX_READ_SIZE {
                    match spec_find(table.procs@, target) {
                        None => SpecOutcome {
                            auth: auth0,
                            status: STATUS_INVALID_CID,
                            info: 0,
                            data: Seq::empty(),
                        },
                        Some(p) => if p.mem.spec_in_range(addr, sz as int) {
                            SpecOutcome {
                                auth: auth0,
                                status: STATUS_SUCCESS,
                                info: sz,
                                data: p.mem.bytes@.subrange(
                                    addr - p.mem.base,
                                    addr - p.mem.base + sz,
                                ),
                            }
                        } else {
                            SpecOutcome {
                                auth: auth0,
                                status: STATUS_UNSUCCESSFUL,
                                info: 0,
                                data: Seq::empty(),
                            }
                        },
                    }
                } else {
                    SpecOutcome {
                        auth: auth0,
                        status: STATUS_INFO_LENGTH_MISMATCH,
                        info: 0,
                        data: Seq::empty(),
                    }
                }
            } else if f == FUNC_GET_BASE {
                // The target identity travels in the address field here.
                match spec_find(table.procs@, addr) {
                    None => SpecOutcome {
                        auth: auth0,
                        status: STATUS_INVALID_CID,
                        info: 0,
                        data: Seq::empty(),
                    },
                    Some(p) => if p.base != 0 {
                        SpecOutcome {
                            auth: auth0,
                            status: STATUS_SUCCESS,
                            info: 8,
                            data: spec_le_bytes(p.base),
                        }
                    } else {
                        SpecOutcome {
                            auth: auth0,
                            status: STATUS_UNSUCCESSFUL,
                            info: 0,
                            data: Seq::empty(),
                        }
                    },
                }
            } else {
                SpecOutcome {
                    auth: auth0,
                    status: STATUS_INVALID_PARAMETER,
                    info: 0,
                    data: Seq::empty(),
                }
            }
        },
    }
}

/// The request as the handler's model sees it: the buffer's contents when
/// one is present.
pub open spec fn spec_req_of(request: Option<&MemoryRequest>) -> Option<MemoryRequest> {
    match request {
        Some(q) => Some(*q),
        None => None,
    }
}

/// Handle one control request. `caller_id` is the identity the hosting
/// system reports for the calling entity; `request` is the caller-supplied
/// buffer, absent when none was supplied.
pub fn handle_ioctl(
    table: &ProcessTable,
    auth: &mut AuthState,
    ioctl: u32,
    caller_id: u64,
    request: Option<&MemoryRequest>,
) -> (r: IoCompletion)
    ensures
        ({
            let o = spec_handle(*table, old(auth).id, ioctl, caller_id, spec_req_of(request));
            &&& final(auth).id == o.auth
            &&& r.status == o.status
            &&& r.info == o.info
            &&& r.data@ == o.data
        }),
{
    let f = func_of(ioctl);
    match request {
        None => IoCompletion { status: STATUS_INVALID_PARAMETER, info: 0, data: Vec::new() },
        Some(q) => {
            let target = decode(q.process_id);
            let addr = decode(q.address);
            let sz = decode(q.size);
            if f == FUNC_AUTH {
                auth.id = caller_id;
                IoCompletion { status: STATUS_SUCCESS, info: 0, data: Vec::new() }
            } else if !(auth.id != 0 && caller_id == auth.id) {
                IoCompletion { status: STATUS_ACCESS_DENIED, info: 0, data: Vec::new() }
            } else if f == FUNC_READ {
                if 0 < sz && sz <= MAX_READ_SIZE {
                    match table.lookup(target) {
                        None => IoCompletion {
                            status: STATUS_INVALID_CID,
                            info: 0,
                            data: Vec::new(),
                        },
                        Some(i) => {
                            let p = &table.procs[i];
                            match p.mem.read_window(addr, sz as usize) {
                                Some(bytes) => IoCompletion {
                                    status: STATUS_SUCCESS,
                                    info: sz,
                                    data: bytes,
                                },
                                None => IoCompletion {
                                    status: STATUS_UNSUCCESSFUL,
                                    info: 0,
                                    data: Vec::new(),
                                },
                            }
                        },
                    }
                } else {
                    IoCompletion {
                        status: STATUS_INFO_LENGTH_MISMATCH,
                        info: 0,
                        data: Vec::new(),
                    }
                }
            } else if f == FUNC_GET_BASE {
                match table.lookup(addr) {
                    None => IoCompletion { status: STATUS_INVALID_CID, info: 0, data: Vec::new() },
                    Some(i) => {
                        let p = &table.procs[i];
                        if p.base != 0 {
                            IoCompletion {
                                status: STATUS_SUCCESS,
                                info: 8,
                                data: le_bytes_of(p.base),
                            }
                        } else {
                            IoCompletion { status: STATUS_UNSUCCESSFUL, info: 0, data: Vec::new() }
                        }
                    },
                }
            } else {
                IoCompletion { status: STATUS_INVALID_PARAMETER, info: 0, data: Vec::new() }
            }
        },
    }
}

/// An AUTH operation with a buffer present always succeeds and leaves the
/// calling identity authorized, whatever the slot held before.
pub proof fn lemma_auth_always_authorizes(
    table: ProcessTable,
    auth0: u64,
    ioctl: u32,
    caller: u64,
    req: MemoryRequest,
)
    requires
        spec_func_of(ioctl) == FUNC_AUTH,
    ensures
        spec_handle(table, auth0, ioctl, caller, Some(req)).status == STATUS_SUCCESS,
        spec_handle(table, auth0, ioctl, caller, Some(req)).auth == caller,
        spec_authorized(spec_handle(table, auth0, ioctl, caller, Some(req)).auth, caller) <==> caller
            != 0,
{
}

/// One request of a history: what the system reported and what the caller
/// supplied.
pub ghost struct Event {
    pub ioctl: u32,
    pub caller: u64,
    pub req: Option<MemoryRequest>,
}

/// Did this event store `c` into the authorization slot? Only an AUTH
/// operation with a buffer present does.
pub open spec fn spec_is_auth_by(e: Event, c: u64) -> bool {
    e.caller == c && e.req is Some && spec_func_of(e.ioctl) == FUNC_AUTH
}

/// The authorization slot after a history of requests, replayed in order.
pub open spec fn spec_auth_after(table: ProcessTable, auth0: u64, events: Seq<Event>) -> u64
    decreases events.len(),
{
    if events.len() == 0 {
        auth0
    } else {
        let e = events.last();
        spec_handle(
            table,
            spec_auth_after(table, auth0, events.drop_last()),
            e.ioctl,
            e.caller,
            e.req,
        ).auth
    }
}

/// An identity that never issued AUTH is never the authorized one: starting
/// from an unset slot, after any history in which `c` issued no AUTH, any
/// operation other than AUTH from `c` fails with access denied.
pub proof fn lemma_never_authed_is_denied(
    table: ProcessTable,
    events: Seq<Event>,
    ioctl: u32,
    c: u64,
    req: MemoryRequest,
)
    requires
        forall|k: int| 0 <= k < events.len() ==> !spec_is_auth_by(#[trigger] events[k], c),
        spec_func_of(ioctl) != FUNC_AUTH,
    ensures
        spec_handle(table, spec_auth_after(table, 0, events), ioctl, c, Some(req)).status
            == STATUS_ACCESS_DENIED,
{
    lemma_auth_after_avoids(table, 0, events, c);
}

/// Replaying a history without an AUTH by `c` keeps the slot away from `c`:
/// it stays unset or holds some other identity.
proof fn lemma_auth_after_avoids(table: ProcessTable, auth0: u64, events: Seq<Event>, c: u64)
    requires
        auth0 == 0 || auth0 != c,
        forall|k: int| 0 <= k < events.len() ==> !spec_is_auth_by(#[trigger] events[k], c),
    ensures
        spec_auth_after(table, auth0, events) == 0 || spec_auth_after(table, auth0, events) != c,
    decreases events.len(),
{
    if events.len() > 0 {
        lemma_auth_after_avoids(table, auth0, events.drop_last(), c);
    }
}

/// A READ whose decoded size is zero or above the bound never succeeds, and
/// from an authorized caller with a buffer present it fails precisely with
/// a length mismatch. (An unauthorized caller is turned away with access
/// denied before the size is looked at.)
pub proof fn lemma_read_bad_size(
    table: ProcessTable,
    auth0: u64,
    ioctl: u32,
    caller: u64,
    req: MemoryRequest,
)
    requires
        spec_func_of(ioctl) == FUNC_READ,
        spec_code(req.size) == 0 || spec_code(req.size) > MAX_READ_SIZE,
    ensures
        spec_handle(table, auth0, ioctl, caller, Some(req)).status != STATUS_SUCCESS,
        spec_authorized(auth0, caller) ==> spec_handle(table, auth0, ioctl, caller, Some(req)).status
            == STATUS_INFO_LENGTH_MISMATCH,
{
}

/// A READ or GET_BASE naming a target identity that does not resolve fails
/// with invalid target, for an authorized caller whose read size is within
/// bounds. READ takes the target from the first wire field, GET_BASE from
/// the second.
pub proof fn lemma_unresolvable_target(
    table: ProcessTable,
    auth0: u64,
    ioctl: u32,
    caller: u64,
    req: MemoryRequest,
)
    requires
        spec_authorized(auth0, caller),
    ensures
        spec_func_of(ioctl) == FUNC_READ && 0 < spec_code(req.size) <= MAX_READ_SIZE && spec_find(
            table.procs@,
            spec_code(req.process_id),
        ) is None ==> spec_handle(table, auth0, ioctl, caller, Some(req)).status
            == STATUS_INVALID_CID,
        spec_func_of(ioctl) == FUNC_GET_BASE && spec_find(table.procs@, spec_code(req.address))
            is None ==> spec_handle(table, auth0, ioctl, caller, Some(req)).status
            == STATUS_INVALID_CID,
{
}

/// The eight little-endian bytes of a word, as written into a reply buffer.
fn le_bytes_of(v: u64) -> (r: Vec<u8>)
    ensures
        r@ == spec_le_bytes(v),
{
    let mut out: Vec<u8> = Vec::new();
    out.push(v as u8);
    out.push((v >> 8) as u8);
    out.push((v >> 16) as u8);
    out.push((v >> 24) as u8);
    out.push((v >> 32) as u8);
    out.push((v >> 40) as u8);
    out.push((v >> 48) as u8);
    out.push((v >> 56) as u8);
    proof {
        assert(out@ =~= spec_le_bytes(v));
    }
    out
}

} // verus!
