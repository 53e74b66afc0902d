use memprobe::installer::{
    install, plan_unload, wp_enter, wp_leave, patch_under_bypass, unpatch_under_bypass,
    first_successful_open, CpuState, DispatchPatch, InstallEnv, InstallMode, CR0_WP_BIT,
    DO_MF_DEVICE_CONTROL,
};
use memprobe::protocol::{STATUS_SUCCESS, STATUS_UNSUCCESSFUL};

const OPEN_FAILED: u32 = 0xC000_0034;
const CREATE_FAILED: u32 = 0xC000_0035;

#[test]
fn create_success_installs_native_device() {
    let env = InstallEnv {
        driver_object: 0x1000,
        create_status: STATUS_SUCCESS,
        open_status: OPEN_FAILED,
        opened_driver_obj: 0,
        current_slot: 0,
    };
    let r = install(&env);
    assert_eq!(r.mode, InstallMode::NativeDevice);
    assert_eq!(r.status, STATUS_SUCCESS);
    assert!(r.patch.is_none());
}

#[test]
fn create_failure_falls_back_to_hijack() {
    let env = InstallEnv {
        driver_object: 0x1000,
        create_status: CREATE_FAILED,
        open_status: STATUS_SUCCESS,
        opened_driver_obj: 0x5000,
        current_slot: 0x7777,
    };
    let r = install(&env);
    assert_eq!(r.mode, InstallMode::HijackedDevice);
    assert_eq!(r.status, STATUS_SUCCESS);
    let p = r.patch.expect("hijack saves a patch");
    assert_eq!(p.owner, 0x5000);
    assert_eq!(p.slot_offset, DO_MF_DEVICE_CONTROL);
    assert_eq!(p.original, 0x7777);
    assert!(p.applied);
}

#[test]
fn absent_driver_object_also_falls_back_to_hijack() {
    let env = InstallEnv {
        driver_object: 0,
        create_status: STATUS_SUCCESS,
        open_status: STATUS_SUCCESS,
        opened_driver_obj: 0x5000,
        current_slot: 0x7777,
    };
    let r = install(&env);
    assert_eq!(r.mode, InstallMode::HijackedDevice);
}

#[test]
fn open_failure_leaves_mode_uninitialized_with_open_status() {
    let env = InstallEnv {
        driver_object: 0x1000,
        create_status: CREATE_FAILED,
        open_status: OPEN_FAILED,
        opened_driver_obj: 0,
        current_slot: 0,
    };
    let r = install(&env);
    assert_eq!(r.mode, InstallMode::Uninitialized);
    assert_eq!(r.status, OPEN_FAILED);
    assert!(r.patch.is_none());
}

#[test]
fn null_control_block_leaves_mode_uninitialized_unsuccessful() {
    let env = InstallEnv {
        driver_object: 0x1000,
        create_status: CREATE_FAILED,
        open_status: STATUS_SUCCESS,
        opened_driver_obj: 0,
        current_slot: 0,
    };
    let r = install(&env);
    assert_eq!(r.mode, InstallMode::Uninitialized);
    assert_eq!(r.status, STATUS_UNSUCCESSFUL);
}

#[test]
fn candidate_names_are_probed_in_order() {
    assert_eq!(first_successful_open(&vec![OPEN_FAILED, STATUS_SUCCESS]), Some(1));
    assert_eq!(first_successful_open(&vec![STATUS_SUCCESS, STATUS_SUCCESS]), Some(0));
    assert_eq!(first_successful_open(&vec![OPEN_FAILED, OPEN_FAILED]), None);
    assert_eq!(first_successful_open(&vec![]), None);
}

#[test]
fn bypass_clears_and_restores_the_protection_bit() {
    let mut cpu = CpuState { cr0: 0x8005_0033 | CR0_WP_BIT, interrupts_on: true };
    let before = cpu.cr0;
    let token = wp_enter(&mut cpu);
    assert_eq!(token, before);
    assert_eq!(cpu.cr0 & CR0_WP_BIT, 0);
    assert!(!cpu.interrupts_on);
    wp_leave(&mut cpu, token);
    assert_eq!(cpu.cr0, before);
    assert!(cpu.interrupts_on);
}

#[test]
fn patch_restore_is_once_per_apply() {
    let mut p = DispatchPatch::new(0x5000, 0x7777);
    assert!(!p.applied);
    p.apply();
    assert!(p.applied);
    assert_eq!(p.restore(), Some(0x7777));
    assert_eq!(p.restore(), None);
    assert_eq!(p.restore(), None);
}

#[test]
fn restore_before_apply_is_a_no_op() {
    let mut p = DispatchPatch::new(0x5000, 0x7777);
    assert_eq!(p.restore(), None);
    assert!(!p.applied);
}

#[test]
fn patching_under_bypass_leaves_the_register_as_it_was() {
    let mut cpu = CpuState { cr0: 0xDEAD_0000 | CR0_WP_BIT, interrupts_on: true };
    let before = cpu.cr0;
    let mut p = DispatchPatch::new(0x5000, 0x7777);
    patch_under_bypass(&mut cpu, &mut p);
    assert_eq!(cpu.cr0, before);
    assert!(cpu.interrupts_on);
    assert!(p.applied);
    let restored = unpatch_under_bypass(&mut cpu, &mut p);
    assert_eq!(restored, Some(0x7777));
    assert_eq!(cpu.cr0, before);
    assert!(cpu.interrupts_on);
    assert_eq!(unpatch_under_bypass(&mut cpu, &mut p), None);
}

#[test]
fn unload_plan_native_mode() {
    let r = plan_unload(InstallMode::NativeDevice, true, 0x3000, &None, 0);
    assert!(r.delete_symlink);
    assert!(r.delete_device);
    assert!(r.restore_slot.is_none());
    assert!(!r.release_file);
}

#[test]
fn unload_plan_hijack_mode_restores_when_both_known() {
    let p = DispatchPatch { owner: 0x5000, slot_offset: DO_MF_DEVICE_CONTROL, original: 0x7777, applied: true };
    let r = plan_unload(InstallMode::HijackedDevice, false, 0, &Some(p), 0x9000);
    assert!(!r.delete_symlink);
    assert!(!r.delete_device);
    assert_eq!(r.restore_slot, Some(0x7777));
    assert!(r.release_file);
}

#[test]
fn unload_plan_hijack_mode_skips_restore_when_original_unknown() {
    let p = DispatchPatch { owner: 0x5000, slot_offset: DO_MF_DEVICE_CONTROL, original: 0, applied: true };
    let r = plan_unload(InstallMode::HijackedDevice, false, 0, &Some(p), 0);
    assert!(r.restore_slot.is_none());
    assert!(!r.release_file);
}

#[test]
fn unload_plan_uninitialized_does_nothing() {
    let r = plan_unload(InstallMode::Uninitialized, true, 0x3000, &None, 0x9000);
    assert!(!r.delete_symlink);
    assert!(!r.delete_device);
    assert!(r.restore_slot.is_none());
    assert!(!r.release_file);
}
