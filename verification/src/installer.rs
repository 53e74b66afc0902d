//! Install/teardown lifecycle. At load time the service first tries to
//! register a dedicated control device; when that registration is refused
//! it falls back to repurposing an existing, always-present device: it
//! opens the device, reads the owning control block, saves the value of the
//! block's device-control dispatch slot and overwrites the slot with its
//! own dispatcher, briefly lifting the processor's write protection to do
//! so. The chosen mode is recorded once and decides which teardown runs at
//! unload.
//!
//! Control blocks are opaque to this model: they appear as plain addresses,
//! and the fields the service touches are named byte offsets, kept in one
//! place so a layout change is a one-line update.

use vstd::prelude::*;
use crate::protocol::{STATUS_SUCCESS, STATUS_UNSUCCESSFUL};

verus! {

/// Byte offset of the device-control dispatch slot in a driver control
/// block (entry of the request-handler table that this service patches).
pub const DO_MF_DEVICE_CONTROL: u64 = 0xE0;

/// Byte offset of the owning control-block pointer in a device object.
pub const DEVOBJ_DRIVER_OBJECT: u64 = 0x08;

/// The write-protection bit of the processor's control register.
pub const CR0_WP_BIT: u64 = 0x10000;

/// How the service got installed; set exactly once during initialization
/// and never changed afterwards.
#[derive(Clone, Copy, Debug, PartialEq, Eq, Structural)]
pub enum InstallMode {
    /// Initialization has not succeeded: no dispatcher is registered.
    Uninitialized,
    /// A dedicated control device was registered.
    NativeDevice,
    /// An existing device's dispatch slot was overwritten.
    HijackedDevice,
}

/// The processor state the protection bypass touches: the control register
/// holding the write-protection bit, and whether interrupts are enabled.
#[derive(Clone, Copy, Debug)]
pub struct CpuState {
    pub cr0: u64,
    pub interrupts_on: bool,
}

/// Is the write-protection bit set in a control-register value?
pub open spec fn spec_wp_set(cr0: u64) -> bool {
    cr0 & CR0_WP_BIT != 0
}

/// Enter the protection bypass: disable interrupts and clear the
/// write-protection bit, handing back the prior register value as the
/// token that alone can close the bypass. Entering requires not already
/// being inside it: the critical section never nests.
pub fn wp_enter(cpu: &mut CpuState) -> (token: u64)
    requires
        old(cpu).interrupts_on,
    ensures
        token == old(cpu).cr0,
        final(cpu).cr0 == old(cpu).cr0 & !CR0_WP_BIT,
        !spec_wp_set(final(cpu).cr0),
        !final(cpu).interrupts_on,
{
    let token = cpu.cr0;
    cpu.cr0 = cpu.cr0 & !CR0_WP_BIT;
    cpu.interrupts_on = false;
    proof {
        assert((token & !0x10000u64) & 0x10000u64 == 0) by (bit_vector);
    }
    token
}

/// Leave the protection bypass: write the token back, restoring the
/// register exactly as it was, and re-enable interrupts.
pub fn wp_leave(cpu: &mut CpuState, token: u64)
    requires
        !old(cpu).interrupts_on,
    ensures
        final(cpu).cr0 == token,
        final(cpu).interrupts_on,
{
    cpu.cr0 = token;
    cpu.interrupts_on = true;
}

/// A patch of one dispatch slot in someone else's control block: where the
/// slot is, what stood in it before, and whether the patch is currently
/// applied. Restoring is possible once per apply and is otherwise a no-op.
#[derive(Clone, Copy, Debug)]
pub struct DispatchPatch {
    /// The control block that owns the patched slot.
    pub owner: u64,
    /// Byte offset of the slot within the owner.
    pub slot_offset: u64,
    /// The handler pointer that stood in the slot before the patch.
    pub original: u64,
    /// Applied and not yet restored?
    pub applied: bool,
}

impl DispatchPatch {
    /// Describe a patch of the device-control slot of `owner`, not yet
    /// applied, remembering `original` as the value to put back.
    pub fn new(owner: u64, original: u64) -> (r: DispatchPatch)
        ensures
            r.owner == owner,
            r.slot_offset == DO_MF_DEVICE_CONTROL,
            r.original == original,
            !r.applied,
    {
        DispatchPatch { owner, slot_offset: DO_MF_DEVICE_CONTROL, original, applied: false }
    }

    /// Mark the patch applied. Applying twice is impossible.
    pub fn apply(&mut self)
        requires
            !old(self).applied,
        ensures
            final(self).applied,
            final(self).owner == old(self).owner,
            final(self).slot_offset == old(self).slot_offset,
            final(self).original == old(self).original,
    {
        self.applied = true;
    }

    /// Restore: hand back the saved value to write into the slot, exactly
    /// once per apply. A second restore, or one before any apply, changes
    /// nothing and hands back nothing.
    pub fn restore(&mut self) -> (r: Option<u64>)
        ensures
            final(self).owner == old(self).owner,
            final(self).slot_offset == old(self).slot_offset,
            final(self).original == old(self).original,
            !final(self).applied,
            r == if old(self).applied {
                Some(old(self).original)
            } else {
                None::<u64>
            },
    {
        if self.applied {
            self.applied = false;
            Some(self.original)
        } else {
            None
        }
    }
}

/// Overwrite the patched slot under the protection bypass: enter, apply,
/// leave. The register comes back exactly as it was, interrupts on.
pub fn patch_under_bypass(cpu: &mut CpuState, patch: &mut DispatchPatch)
    requires
        old(cpu).interrupts_on,
        !old(patch).applied,
    ensures
        final(cpu).cr0 == old(cpu).cr0,
        final(cpu).interrupts_on,
        final(patch).applied,
        final(patch).owner == old(patch).owner,
        final(patch).slot_offset == old(patch).slot_offset,
        final(patch).original == old(patch).original,
{
    let token = wp_enter(cpu);
    patch.apply();
    wp_leave(cpu, token);
}

/// Restore the patched slot under the protection bypass: enter, restore,
/// leave. Hands back the value to write into the slot when the patch was
/// applied, nothing otherwise; the register comes back exactly as it was.
pub fn unpatch_under_bypass(cpu: &mut CpuState, patch: &mut DispatchPatch) -> (r: Option<u64>)
    requires
        old(cpu).interrupts_on,
    ensures
        final(cpu).cr0 == old(cpu).cr0,
        final(cpu).interrupts_on,
        !final(patch).applied,
        final(patch).original == old(patch).original,
        r == if old(patch).applied {
            Some(old(patch).original)
        } else {
            None::<u64>
        },
{
    let token = wp_enter(cpu);
    let r = patch.restore();
    wp_leave(cpu, token);
    r
}

/// Which of an ordered list of well-known device names the fallback
/// binds to: the first whose open reported success, if any. The fallback
/// tries a short list of always-present names in order of preference.
pub fn first_successful_open(statuses: &Vec<u32>) -> (r: Option<usize>)
    ensures
        match r {
            Some(i) => i < statuses@.len() && statuses@[i as int] == STATUS_SUCCESS && forall|
                k: int,
            | 0 <= k < i ==> statuses@[k] != STATUS_SUCCESS,
            None => forall|k: int| 0 <= k < statuses@.len() ==> statuses@[k] != STATUS_SUCCESS,
        },
{
    let n = statuses.len();
    let mut i: usize = 0;
    while i < n
        invariant
            i <= n,
            n == statuses@.len(),
            forall|k: int| 0 <= k < i ==> statuses@[k] != STATUS_SUCCESS,
        decreases n - i,
    {
        if statuses[i] == STATUS_SUCCESS {
            return Some(i);
        }
        i = i + 1;
    }
    None
}

/// What the loader and the hosting system answered during installation:
/// the outcome of each outside step, as plain values. A zero address
/// stands for a null pointer.
#[derive(Clone, Copy, Debug)]
pub struct InstallEnv {
    /// The control block the loader handed over; zero when absent.
    pub driver_object: u64,
    /// Outcome of registering a dedicated control device.
    pub create_status: u32,
    /// Outcome of the candidate-name probe: the status of the first
    /// well-known device that opened, or the last failure when none did.
    pub open_status: u32,
    /// The opened device's owning control block, read at offset
    /// `DEVOBJ_DRIVER_OBJECT` of the device object; zero when null.
    pub opened_driver_obj: u64,
    /// The value standing in that block's device-control dispatch slot.
    pub current_slot: u64,
}

/// What installation decides: the recorded mode, the status reported to
/// the loader, and the slot patch when the fallback ran.
#[derive(Clone, Copy, Debug)]
pub struct InstallOutcome {
    pub mode: InstallMode,
    pub status: u32,
    pub patch: Option<DispatchPatch>,
}

/// Did the preferred step succeed: a control block to register on, and the
/// registration accepted?
pub open spec fn spec_native_ok(env: InstallEnv) -> bool {
    env.driver_object != 0 && env.create_status == STATUS_SUCCESS
}

/// Installation as a decision: the dedicated device when registration
/// succeeds; otherwise the fallback, which fails outright when the
/// existing device cannot be opened or names no control block, and
/// otherwise patches that block's dispatch slot.
pub open spec fn spec_install(env: InstallEnv) -> InstallOutcome {
    if spec_native_ok(env) {
        InstallOutcome { mode: InstallMode::NativeDevice, status: STATUS_SUCCESS, patch: None }
    } else if env.open_status != STATUS_SUCCESS {
        InstallOutcome { mode: InstallMode::Uninitialized, status: env.open_status, patch: None }
    } else if env.opened_driver_obj == 0 {
        InstallOutcome { mode: InstallMode::Uninitialized, status: STATUS_UNSUCCESSFUL, patch: None }
    } else {
        InstallOutcome {
            mode: InstallMode::HijackedDevice,
            status: STATUS_SUCCESS,
            patch: Some(
                DispatchPatch {
                    owner: env.opened_driver_obj,
                    slot_offset: DO_MF_DEVICE_CONTROL,
                    original: env.current_slot,
                    applied: true,
                },
            ),
        }
    }
}

/// Decide the install mode from the outcome of each outside step.
pub fn install(env: &InstallEnv) -> (r: InstallOutcome)
    ensures
        r == spec_install(*env),
{
    if env.driver_object != 0 && env.create_status == STATUS_SUCCESS {
        InstallOutcome { mode: InstallMode::NativeDevice, status: STATUS_SUCCESS, patch: None }
    } else if env.open_status != STATUS_SUCCESS {
        InstallOutcome { mode: InstallMode::Uninitialized, status: env.open_status, patch: None }
    } else if env.opened_driver_obj == 0 {
        InstallOutcome { mode: InstallMode::Uninitialized, status: STATUS_UNSUCCESSFUL, patch: None }
    } else {
        InstallOutcome {
            mode: InstallMode::HijackedDevice,
            status: STATUS_SUCCESS,
            patch: Some(
                DispatchPatch {
                    owner: env.opened_driver_obj,
                    slot_offset: DO_MF_DEVICE_CONTROL,
                    original: env.current_slot,
                    applied: true,
                },
            ),
        }
    }
}

/// When the preferred registration fails, installation deterministically
/// proceeds to hijack mode whenever the fallback's steps succeed; the mode
/// is left uninitialized exactly when the dedicated device was refused and
/// the fallback failed too.
pub proof fn lemma_install_fallback(env: InstallEnv)
    ensures
        !spec_native_ok(env) && env.open_status == STATUS_SUCCESS && env.opened_driver_obj != 0
            ==> spec_install(env).mode == InstallMode::HijackedDevice,
        spec_install(env).mode == InstallMode::Uninitialized <==> !spec_native_ok(env) && (
        env.open_status != STATUS_SUCCESS || env.opened_driver_obj == 0),
        spec_native_ok(env) ==> spec_install(env).mode == InstallMode::NativeDevice,
{
}

/// The teardown steps unload performs, decided by the recorded mode.
#[derive(Clone, Copy, Debug)]
pub struct UnloadPlan {
    /// Remove the published symbolic link (dedicated device only).
    pub delete_symlink: bool,
    /// Delete the dedicated device object.
    pub delete_device: bool,
    /// Write this saved value back into the hijacked slot.
    pub restore_slot: Option<u64>,
    /// Release the reference taken on the opened device's file object.
    pub release_file: bool,
}

/// Decide the teardown for the mode installation recorded. Restoring the
/// hijacked slot is best-effort: it happens only when both the patched
/// block and the saved original are known, and unload proceeds without it
/// otherwise.
pub fn plan_unload(
    mode: InstallMode,
    symlink_registered: bool,
    device_object: u64,
    patch: &Option<DispatchPatch>,
    file_object: u64,
) -> (r: UnloadPlan)
    ensures
        mode == InstallMode::NativeDevice ==> r == (UnloadPlan {
            delete_symlink: symlink_registered,
            delete_device: device_object != 0,
            restore_slot: None::<u64>,
            release_file: false,
        }),
        mode == InstallMode::HijackedDevice ==> r == (UnloadPlan {
            delete_symlink: false,
            delete_device: false,
            restore_slot: match *patch {
                Some(p) => if p.owner != 0 && p.original != 0 {
                    Some(p.original)
                } else {
                    None::<u64>
                },
                None => None::<u64>,
            },
            release_file: file_object != 0,
        }),
        mode == InstallMode::Uninitialized ==> r == (UnloadPlan {
            delete_symlink: false,
            delete_device: false,
            restore_slot: None::<u64>,
            release_file: false,
        }),
{
    match mode {
        InstallMode::NativeDevice => UnloadPlan {
            delete_symlink: symlink_registered,
            delete_device: device_object != 0,
            restore_slot: None,
            release_file: false,
        },
        InstallMode::HijackedDevice => {
            let restore = match patch {
                Some(p) => if p.owner != 0 && p.original != 0 {
                    Some(p.original)
                } else {
                    None
                },
                None => None,
            };
            UnloadPlan {
                delete_symlink: false,
                delete_device: false,
                restore_slot: restore,
                release_file: file_object != 0,
            }
        },
        InstallMode::Uninitialized => UnloadPlan {
            delete_symlink: false,
            delete_device: false,
            restore_slot: None,
            release_file: false,
        },
    }
}

} // verus!
