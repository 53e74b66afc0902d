//! The control-request protocol: status codes, control codes and the
//! three-field wire request that both sides exchange.
//!
//! A wire request carries three 64-bit fields, each obfuscated with the
//! codec's key. Field meaning is operation-dependent: for a read the
//! `process_id` field names the target identity and `address`/`size` locate
//! the bytes; for an authorization the `process_id` field carries the
//! caller's own identity; for a base-address query the `address` field
//! carries the target identity (a protocol asymmetry kept for wire
//! compatibility).

use vstd::prelude::*;
use crate::codec::{spec_code, encode};

verus! {

/// Operation completed.
pub const STATUS_SUCCESS: u32 = 0x00000000;
/// Generic failure, also used when a copy or a base lookup yields nothing.
pub const STATUS_UNSUCCESSFUL: u32 = 0xC0000001;
/// A required argument was absent or the operation is not recognized.
pub const STATUS_INVALID_PARAMETER: u32 = 0xC000000D;
/// The caller is not the authorized identity.
pub const STATUS_ACCESS_DENIED: u32 = 0xC0000022;
/// The requested length is outside the accepted bounds.
pub const STATUS_INFO_LENGTH_MISMATCH: u32 = 0xC0000004;
/// The named target identity cannot be resolved.
pub const STATUS_INVALID_CID: u32 = 0xC000000B;

/// Function number of the cross-process read operation.
pub const FUNC_READ: u32 = 0x800;
/// Function number of the image-base query.
pub const FUNC_GET_BASE: u32 = 0x802;
/// Function number of the authorization operation.
pub const FUNC_AUTH: u32 = 0x804;

/// Control code the client sends for a read.
pub const IOCTL_READ: u32 = 0x222000;
/// Control code the client sends for a base query.
pub const IOCTL_GET_BASE: u32 = 0x222008;
/// Control code the client sends to authorize itself.
pub const IOCTL_AUTH: u32 = 0x222010;

/// Largest byte count a single read may ask for.
pub const MAX_READ_SIZE: u64 = 4096;

/// The three-field request as it crosses the boundary, fields obfuscated.
#[derive(Clone, Copy, Debug)]
pub struct MemoryRequest {
    pub process_id: u64,
    pub address: u64,
    pub size: u64,
}

/// The function number a control code selects.
pub open spec fn spec_func_of(ioctl: u32) -> u32 {
    (ioctl >> 2) & 0xFFF
}

/// Derive the function number from a control code.
pub fn func_of(ioctl: u32) -> (f: u32)
    ensures
        f == spec_func_of(ioctl),
{
    (ioctl >> 2) & 0xFFF
}

/// Is `f` one of the three function numbers this service answers?
pub open spec fn spec_recognized(f: u32) -> bool {
    f == FUNC_READ || f == FUNC_GET_BASE || f == FUNC_AUTH
}

/// Build the wire request for a read: all three fields obfuscated.
pub fn encode_read_request(target_id: u64, address: u64, size: u64) -> (r: MemoryRequest)
    ensures
        r.process_id == spec_code(target_id),
        r.address == spec_code(address),
        r.size == spec_code(size),
{
    MemoryRequest {
        process_id: encode(target_id),
        address: encode(address),
        size: encode(size),
    }
}

/// Build the wire request for an authorization: the caller sends its own
/// identity; the other two fields ride along as plain zeros.
pub fn encode_auth_request(caller_id: u64) -> (r: MemoryRequest)
    ensures
        r.process_id == spec_code(caller_id),
        r.address == 0,
        r.size == 0,
{
    MemoryRequest { process_id: encode(caller_id), address: 0, size: 0 }
}

/// Build the wire request for a base query: the target identity travels in
/// the `address` field, not in `process_id` (kept for wire compatibility).
pub fn encode_base_request(caller_id: u64, target_id: u64) -> (r: MemoryRequest)
    ensures
        r.process_id == spec_code(caller_id),
        r.address == spec_code(target_id),
        r.size == 0,
{
    MemoryRequest { process_id: encode(caller_id), address: encode(target_id), size: 0 }
}

/// A read request decodes back to the values it was built from.
pub proof fn lemma_read_request_round_trip(target_id: u64, address: u64, size: u64)
    ensures
        spec_code(spec_code(target_id)) == target_id,
        spec_code(spec_code(address)) == address,
        spec_code(spec_code(size)) == size,
{
    crate::codec::lemma_codec_involution(target_id);
    crate::codec::lemma_codec_involution(address);
    crate::codec::lemma_codec_involution(size);
}

} // verus!
