//! Per-mode request routing. In native mode the dedicated device answers
//! open and close trivially and hands every control request to the
//! authenticated handler. In hijack mode the patched slot receives every
//! control request of the impersonated device, so the dispatcher must
//! first decide whose request it is: one of the three recognized function
//! numbers is handled here, anything else is forwarded unchanged to the
//! saved original handler, and when no original was saved the request is
//! completed with a generic success and zero bytes, so the impersonated
//! device does not visibly break.

use vstd::prelude::*;
use crate::protocol::{
    spec_func_of, func_of, spec_recognized, FUNC_READ, FUNC_GET_BASE, FUNC_AUTH, STATUS_SUCCESS,
};

verus! {

/// Where a control request arriving in hijack mode goes.
#[derive(Clone, Copy, Debug, PartialEq, Eq, Structural)]
pub enum Route {
    /// One of the recognized function numbers: the handler takes it.
    Handle,
    /// Not ours: pass it, unchanged, to the saved original handler.
    Forward,
    /// Not ours and no original saved: complete with success, zero bytes.
    CompleteSuccess,
}

/// The route the hijack-mode dispatcher picks for a control code, given
/// whether an original handler was saved.
pub open spec fn spec_route_hijacked(ioctl: u32, original_saved: bool) -> Route {
    if spec_recognized(spec_func_of(ioctl)) {
        Route::Handle
    } else if original_saved {
        Route::Forward
    } else {
        Route::CompleteSuccess
    }
}

/// Route one control request arriving through the patched slot.
pub fn route_hijacked(ioctl: u32, original_saved: bool) -> (r: Route)
    ensures
        r == spec_route_hijacked(ioctl, original_saved),
{
    let f = func_of(ioctl);
    if f == FUNC_READ || f == FUNC_GET_BASE || f == FUNC_AUTH {
        Route::Handle
    } else if original_saved {
        Route::Forward
    } else {
        Route::CompleteSuccess
    }
}

/// Any operation code outside the recognized three is forwarded to the
/// saved original handler whenever one was saved, and never handled here.
pub proof fn lemma_unrecognized_forwarded(ioctl: u32, original_saved: bool)
    ensures
        !spec_recognized(spec_func_of(ioctl)) && original_saved ==> spec_route_hijacked(
            ioctl,
            original_saved,
        ) == Route::Forward,
        !spec_recognized(spec_func_of(ioctl)) ==> spec_route_hijacked(ioctl, original_saved)
            != Route::Handle,
{
}

/// In native mode every control request goes to the handler, whatever its
/// control code.
pub fn route_native(_ioctl: u32) -> (r: Route)
    ensures
        r == Route::Handle,
{
    Route::Handle
}

/// How a trivially answered request completes: its status and byte count.
#[derive(Clone, Copy, Debug)]
pub struct TrivialCompletion {
    pub status: u32,
    pub info: u64,
}

/// Native mode's open and close requests always succeed with zero bytes.
pub fn dispatch_create_close() -> (r: TrivialCompletion)
    ensures
        r.status == STATUS_SUCCESS,
        r.info == 0,
{
    TrivialCompletion { status: STATUS_SUCCESS, info: 0 }
}

/// The fail-open completion of an unrecognized request when no original
/// handler was saved: a generic success with zero bytes.
pub fn complete_passthrough() -> (r: TrivialCompletion)
    ensures
        r.status == STATUS_SUCCESS,
        r.info == 0,
{
    TrivialCompletion { status: STATUS_SUCCESS, info: 0 }
}

/// What a faulting thread inside the component does.
#[derive(Clone, Copy, Debug, PartialEq, Eq, Structural)]
pub enum FaultAction {
    /// Spin in place for good; control never returns to the I/O path.
    ParkThread,
}

/// Last-resort fault policy of the kernel component: a fault must never
/// unwind into the hosting system's I/O path, so the one action ever
/// picked for a faulting thread is to park it in place. The rim carries
/// the spin out; the policy itself is this decision.
pub fn panic() -> (r: FaultAction)
    ensures
        r == FaultAction::ParkThread,
{
    FaultAction::ParkThread
}

} // verus!
