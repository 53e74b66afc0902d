use memprobe::client::{
    find_process_id, name_matches, first_open_device, init_status, core_get_base_address,
    ClientState, ProcessEntry,
};
use memprobe::config::{core_update_offsets, OffsetConfig};

fn entry(pid: u32, name: &str) -> ProcessEntry {
    ProcessEntry { pid, name: name.as_bytes().to_vec() }
}

#[test]
fn name_match_ignores_case_and_nul_padding() {
    let padded = b"PioneerGame.exe\0\0\0\0".to_vec();
    let wanted = b"pioneergame.exe".to_vec();
    assert!(name_matches(&padded, &wanted));
    let both_ends = b"\0\0abc\0\0".to_vec();
    assert!(name_matches(&both_ends, &b"ABC".to_vec()));
    assert!(!name_matches(&b"abcd\0".to_vec(), &b"abc".to_vec()));
    assert!(!name_matches(&b"abd\0".to_vec(), &b"abc".to_vec()));
}

#[test]
fn find_process_id_returns_first_match() {
    let entries = vec![
        entry(4, "System"),
        entry(100, "pioneergame.EXE\0\0"),
        entry(200, "PioneerGame.exe"),
    ];
    let pid = find_process_id(&entries, &b"PioneerGame.exe".to_vec());
    assert_eq!(pid, 100);
}

#[test]
fn find_process_id_returns_zero_when_absent() {
    let entries = vec![entry(4, "System"), entry(8, "explorer.exe")];
    assert_eq!(find_process_id(&entries, &b"PioneerGame.exe".to_vec()), 0);
    assert_eq!(find_process_id(&vec![], &b"PioneerGame.exe".to_vec()), 0);
}

#[test]
fn device_probe_binds_to_first_open() {
    assert_eq!(first_open_device(&vec![false, true]), Some(1));
    assert_eq!(first_open_device(&vec![true, true]), Some(0));
    assert_eq!(first_open_device(&vec![false, false]), None);
    assert_eq!(first_open_device(&vec![]), None);
}

#[test]
fn init_status_reports_each_failure_distinctly() {
    assert_eq!(init_status(false, false, 0, 0), 0); // no device opened
    assert_eq!(init_status(true, false, 42, 1), 0); // authorization refused
    assert_eq!(init_status(true, true, 0, 0), -1); // process not found
    assert_eq!(init_status(true, true, 42, 0), -2); // base not found
    assert_eq!(init_status(true, true, 42, 0x0040_0000), 1); // all set
}

#[test]
fn base_address_is_zero_without_a_connection() {
    assert_eq!(core_get_base_address(&None), 0);
    let s = ClientState { pid: 42, base_address: 0x0040_0000 };
    assert_eq!(core_get_base_address(&Some(s)), 0x0040_0000);
}

#[test]
fn offset_config_starts_with_defaults() {
    let cfg = OffsetConfig::new();
    assert_eq!(cfg.shuffle_offset_1, 0xA94B00);
    assert_eq!(cfg.shuffle_offset_2, 0xAF231F0);
    assert_eq!(cfg.key_const, 0x1554577E835E9F4);
    assert_eq!(cfg.bone_array_offset, 0x7B0);
    assert_eq!(cfg.bone_index_offset, 0x7FC);
    assert_eq!(cfg.uworld_encrypt_offset, 0x2A0);
}

#[test]
fn offset_update_replaces_every_field() {
    let mut cfg = OffsetConfig::new();
    core_update_offsets(&mut cfg, 1, 2, 3, 4, 5, 6);
    assert_eq!(cfg.shuffle_offset_1, 1);
    assert_eq!(cfg.shuffle_offset_2, 2);
    assert_eq!(cfg.key_const, 3);
    assert_eq!(cfg.bone_array_offset, 4);
    assert_eq!(cfg.bone_index_offset, 5);
    assert_eq!(cfg.uworld_encrypt_offset, 6);
}
