use ksud_susfs::bytes::{cstr_prefix, fill_buffer, zeroed};
use ksud_susfs::susfs::{
    add_open_redirect, add_sus_kstat, add_sus_kstat_statically, add_sus_map, add_sus_mount, add_sus_path,
    add_sus_path_loop, check_status, check_unsupported, enable_avc_log_spoofing, enable_log,
    hide_sus_mnts_for_non_su_procs, set_uname, show_features, show_features_cmd, show_variant,
    show_variant_cmd, show_version, show_version_cmd, update_sus_kstat, SusfsError, SusfsOp,
    SusfsPayload, CMD_SUSFS_ADD_OPEN_REDIRECT, CMD_SUSFS_ADD_SUS_KSTAT_STATICALLY,
    CMD_SUSFS_ADD_SUS_MAP, CMD_SUSFS_ADD_SUS_MOUNT, CMD_SUSFS_ADD_SUS_PATH, CMD_SUSFS_ADD_SUS_PATH_LOOP,
    CMD_SUSFS_ENABLE_AVC_LOG_SPOOFING, CMD_SUSFS_ENABLE_LOG,
    CMD_SUSFS_HIDE_SUS_MNTS_FOR_NON_SU_PROCS, CMD_SUSFS_SET_UNAME,
    CMD_SUSFS_SHOW_ENABLED_FEATURES, CMD_SUSFS_SHOW_VARIANT, CMD_SUSFS_SHOW_VERSION,
    ERR_CMD_NOT_SUPPORTED,
};

fn buf(text: &[u8], cap: usize) -> Vec<u8> {
    let mut v = text.to_vec();
    v.resize(cap, 0);
    v
}

#[test]
fn fill_buffer_pads_with_zeros() {
    let v = fill_buffer("abc", 6).unwrap();
    assert_eq!(v, vec![b'a', b'b', b'c', 0, 0, 0]);
}

#[test]
fn fill_buffer_keeps_room_for_the_terminator() {
    assert_eq!(fill_buffer("abcdef", 6), None);
    assert_eq!(fill_buffer("abcde", 6).unwrap(), b"abcde\0".to_vec());
    assert_eq!(fill_buffer("", 1).unwrap(), vec![0u8]);
    assert_eq!(fill_buffer("", 0), None);
}

#[test]
fn fill_buffer_counts_utf8_bytes() {
    // four characters, twelve bytes
    assert_eq!(fill_buffer("黑风雷x", 13).unwrap().len(), 13);
    assert_eq!(fill_buffer("黑风雷x", 10), None);
}

#[test]
fn cstr_prefix_stops_at_first_nul() {
    assert_eq!(cstr_prefix(&vec![b'h', b'i', 0, b'x', 0]), b"hi".to_vec());
    assert_eq!(cstr_prefix(&vec![0, b'x']), Vec::<u8>::new());
    assert_eq!(cstr_prefix(&vec![b'a', b'b']), b"ab".to_vec());
    assert_eq!(zeroed(3), vec![0u8; 3]);
}

#[test]
fn query_commands_start_unsupported_and_zeroed() {
    let c = show_version_cmd();
    assert_eq!(c.cmd, CMD_SUSFS_SHOW_VERSION);
    assert_eq!(c.err, ERR_CMD_NOT_SUPPORTED);
    assert_eq!(c.payload, SusfsPayload::Version { version: vec![0; 16] });
    let c = show_variant_cmd();
    assert_eq!(c.cmd, CMD_SUSFS_SHOW_VARIANT);
    assert_eq!(c.payload, SusfsPayload::Variant { variant: vec![0; 16] });
    let c = show_features_cmd();
    assert_eq!(c.cmd, CMD_SUSFS_SHOW_ENABLED_FEATURES);
    assert_eq!(c.payload, SusfsPayload::EnabledFeatures { features: vec![0; 8192] });
}

#[test]
fn check_unsupported_flags_the_preset_code() {
    assert_eq!(check_unsupported(126, 0x555e1), Err(SusfsError::NotSupported { cmd: 0x555e1 }));
    assert_eq!(check_unsupported(0, 0x555e1), Ok(()));
    assert_eq!(check_unsupported(-22, 0x555e1), Ok(()));
}

#[test]
fn show_version_prints_the_version_line() {
    assert_eq!(show_version(0, &buf(b"v1.5.5", 16)), Ok("v1.5.5\n".to_string()));
    assert_eq!(show_version(126, &buf(b"v1.5.5", 16)),
        Err(SusfsError::NotSupported { cmd: CMD_SUSFS_SHOW_VERSION }));
    assert_eq!(show_version(-1, &buf(b"", 16)), Err(SusfsError::Invalid { err: -1 }));
}

#[test]
fn show_version_decodes_leniently() {
    // invalid UTF-8 is replaced, not passed through
    let out = show_version(0, &buf(&[b'v', 0xff, b'1'], 16)).unwrap();
    assert_eq!(out, "v\u{FFFD}1\n");
}

#[test]
fn show_variant_prints_the_variant_line() {
    assert_eq!(show_variant(0, &buf(b"GKI", 16)), Ok("GKI\n".to_string()));
    assert_eq!(show_variant(126, &buf(b"", 16)),
        Err(SusfsError::NotSupported { cmd: CMD_SUSFS_SHOW_VARIANT }));
    assert_eq!(show_variant(5, &buf(b"", 16)), Err(SusfsError::Invalid { err: 5 }));
}

#[test]
fn show_features_check_only() {
    let f = buf(b"CONFIG_KSU_SUSFS_SUS_PATH\n", 8192);
    assert_eq!(show_features(true, 0, &f), Ok("Supported\n".to_string()));
    assert_eq!(show_features(true, 0, &vec![0; 8192]), Err(SusfsError::Unsupported));
    assert_eq!(show_features(true, 3, &f), Err(SusfsError::Unsupported));
    assert_eq!(show_features(true, 126, &f),
        Err(SusfsError::NotSupported { cmd: CMD_SUSFS_SHOW_ENABLED_FEATURES }));
}

#[test]
fn show_features_lists_without_trailing_newline() {
    let f = buf(b"A\nB", 8192);
    assert_eq!(show_features(false, 0, &f), Ok("A\nB".to_string()));
    assert_eq!(show_features(false, 0, &vec![0; 8192]), Err(SusfsError::Invalid { err: 0 }));
    assert_eq!(show_features(false, 7, &f), Err(SusfsError::Invalid { err: 7 }));
}

#[test]
fn check_status_reports_kernel_errors() {
    assert_eq!(check_status(SusfsOp::EnableLog, 0), Ok(()));
    assert_eq!(check_status(SusfsOp::AddSusPath, 126),
        Err(SusfsError::Failed { op: SusfsOp::AddSusPath, err: 126 }));
    assert_eq!(check_status(SusfsOp::SetUname, -2),
        Err(SusfsError::Failed { op: SusfsOp::SetUname, err: -2 }));
}

#[test]
fn set_uname_builds_padded_fields() {
    let c = set_uname("4.19.304", "#1 SMP").unwrap();
    assert_eq!(c.cmd, CMD_SUSFS_SET_UNAME);
    assert_eq!(c.err, ERR_CMD_NOT_SUPPORTED);
    assert_eq!(c.payload, SusfsPayload::Uname { release: buf(b"4.19.304", 65), version: buf(b"#1 SMP", 65) });
}

#[test]
fn set_uname_rejects_long_strings() {
    let long = "x".repeat(65);
    let fits = "x".repeat(64);
    assert_eq!(set_uname(&long, "v"), Err(SusfsError::StringTooLong));
    assert_eq!(set_uname("r", &long), Err(SusfsError::StringTooLong));
    assert!(set_uname(&fits, &fits).is_ok());
}

#[test]
fn switches_carry_their_state() {
    let c = enable_log(true);
    assert_eq!((c.cmd, c.err, c.payload), (CMD_SUSFS_ENABLE_LOG, 126, SusfsPayload::Enabled { enabled: 1 }));
    let c = enable_avc_log_spoofing(false);
    assert_eq!((c.cmd, c.payload), (CMD_SUSFS_ENABLE_AVC_LOG_SPOOFING, SusfsPayload::Enabled { enabled: 0 }));
    let c = hide_sus_mnts_for_non_su_procs(true);
    assert_eq!((c.cmd, c.payload), (CMD_SUSFS_HIDE_SUS_MNTS_FOR_NON_SU_PROCS, SusfsPayload::Enabled { enabled: 1 }));
}

#[test]
fn path_commands() {
    let c = add_sus_path("/system/bin/su").unwrap();
    assert_eq!(c.cmd, CMD_SUSFS_ADD_SUS_PATH);
    assert_eq!(c.payload, SusfsPayload::SusPath { target_ino: 0, target_pathname: buf(b"/system/bin/su", 256) });
    let c = add_sus_path_loop("/x").unwrap();
    assert_eq!(c.cmd, CMD_SUSFS_ADD_SUS_PATH_LOOP);
    let c = add_sus_map("/data/adb/").unwrap();
    assert_eq!(c.cmd, CMD_SUSFS_ADD_SUS_MAP);
    assert_eq!(c.payload, SusfsPayload::SusMap { target_pathname: buf(b"/data/adb/", 256) });
}

#[test]
fn path_commands_reject_long_paths() {
    let long = "p".repeat(256);
    let fits = "p".repeat(255);
    assert_eq!(add_sus_path(&long), Err(SusfsError::PathTooLong));
    assert_eq!(add_sus_path_loop(&long), Err(SusfsError::PathTooLong));
    assert_eq!(add_sus_map(&long), Err(SusfsError::PathTooLong));
    assert!(add_sus_path(&fits).is_ok());
    assert_eq!(add_open_redirect(&long, "/b", 0), Err(SusfsError::PathTooLong));
    assert_eq!(add_open_redirect("/a", &long, 0), Err(SusfsError::PathTooLong));
}

#[test]
fn open_redirect_command() {
    let c = add_open_redirect("/a", "/b", 3).unwrap();
    assert_eq!(c.cmd, CMD_SUSFS_ADD_OPEN_REDIRECT);
    assert_eq!(c.payload, SusfsPayload::OpenRedirect {
        target_pathname: buf(b"/a", 256),
        redirected_pathname: buf(b"/b", 256),
        uid_scheme: 3,
    });
}

#[test]
fn kstat_commands() {
    assert_eq!(add_sus_kstat("/x"), Ok(()));
    assert_eq!(update_sus_kstat("/x"), Ok(()));
    let c = add_sus_kstat_statically("/f", 1, 2, 3, 4, 5, 6, 7, 8, 9, 10, 11, 12).unwrap();
    assert_eq!(c.cmd, CMD_SUSFS_ADD_SUS_KSTAT_STATICALLY);
    match c.payload {
        SusfsPayload::Kstat { kstat } => {
            assert_eq!(kstat.is_statically, 1);
            assert_eq!(kstat.target_ino, 0);
            assert_eq!(kstat.target_pathname, buf(b"/f", 256));
            assert_eq!((kstat.spoofed_ino, kstat.spoofed_dev, kstat.spoofed_nlink, kstat.spoofed_size), (1, 2, 3, 4));
            assert_eq!((kstat.spoofed_atime_tv_sec, kstat.spoofed_atime_tv_nsec), (5, 6));
            assert_eq!((kstat.spoofed_mtime_tv_sec, kstat.spoofed_mtime_tv_nsec), (7, 8));
            assert_eq!((kstat.spoofed_ctime_tv_sec, kstat.spoofed_ctime_tv_nsec), (9, 10));
            assert_eq!((kstat.spoofed_blocks, kstat.spoofed_blksize, kstat.flags), (11, 12, 0));
        }
        other => panic!("unexpected payload {:?}", other),
    }
    assert_eq!(add_sus_kstat_statically(&"q".repeat(300), 0, 0, 0, 0, 0, 0, 0, 0, 0, 0, 0, 0),
        Err(SusfsError::PathTooLong));
}

#[test]
fn sus_mount_command() {
    let c = add_sus_mount("/vendor").unwrap();
    assert_eq!(c.cmd, CMD_SUSFS_ADD_SUS_MOUNT);
    assert_eq!(c.err, 126);
    assert_eq!(c.payload, SusfsPayload::SusMount { target_pathname: buf(b"/vendor", 256), target_dev: 0 });
    assert_eq!(add_sus_mount(&"m".repeat(256)), Err(SusfsError::PathTooLong));
    assert_eq!(check_status(SusfsOp::AddSusMount, 0), Ok(()));
    assert_eq!(check_status(SusfsOp::AddSusMount, -22), Err(SusfsError::Failed { op: SusfsOp::AddSusMount, err: -22 }));
}
