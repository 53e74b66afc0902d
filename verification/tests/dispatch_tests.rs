use memprobe::dispatch::{
    route_hijacked, route_native, dispatch_create_close, complete_passthrough, FaultAction, Route,
};
use memprobe::protocol::{IOCTL_READ, IOCTL_GET_BASE, IOCTL_AUTH, STATUS_SUCCESS};

#[test]
fn recognized_codes_are_handled_locally() {
    assert_eq!(route_hijacked(IOCTL_READ, true), Route::Handle);
    assert_eq!(route_hijacked(IOCTL_GET_BASE, true), Route::Handle);
    assert_eq!(route_hijacked(IOCTL_AUTH, true), Route::Handle);
    assert_eq!(route_hijacked(IOCTL_READ, false), Route::Handle);
}

#[test]
fn unrecognized_codes_are_forwarded_to_saved_original() {
    // Function number 0x005 — some other driver's control request.
    assert_eq!(route_hijacked(0x14, true), Route::Forward);
    assert_eq!(route_hijacked(0, true), Route::Forward);
    assert_eq!(route_hijacked(0x222004, true), Route::Forward);
    assert_eq!(route_hijacked(u32::MAX, true), Route::Forward);
}

#[test]
fn unrecognized_codes_without_original_complete_as_success() {
    assert_eq!(route_hijacked(0x14, false), Route::CompleteSuccess);
    let c = complete_passthrough();
    assert_eq!(c.status, STATUS_SUCCESS);
    assert_eq!(c.info, 0);
}

#[test]
fn native_mode_delegates_every_control_request() {
    assert_eq!(route_native(IOCTL_READ), Route::Handle);
    assert_eq!(route_native(0x14), Route::Handle);
}

#[test]
fn fault_policy_parks_the_thread() {
    assert_eq!(memprobe::dispatch::panic(), FaultAction::ParkThread);
}

#[test]
fn create_and_close_always_succeed() {
    let c = dispatch_create_close();
    assert_eq!(c.status, STATUS_SUCCESS);
    assert_eq!(c.info, 0);
}
