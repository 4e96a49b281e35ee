use ksud_susfs::ksucalls::{
    check_kernel_safemode, check_kernel_safemode_result, ensure_uapi_version_matched, get_feature,
    get_feature_result, get_info, get_info_result, get_sulog_fd, get_version, get_wrapped_fd,
    grant_root, is_late_load, is_lkm, mark_get, mark_get_result, mark_refresh, mark_set,
    mark_unset, nuke_ext4_sysfs, report_boot_complete, report_event, report_module_mounted,
    report_post_fs_data, runtime_mode, set_feature, set_init_pgrp, set_ksu_no_new_privs,
    set_ksu_no_new_privs_result, set_sepolicy, susfs_ioctl, susfs_ioctl_result, uapi_version,
    umount_list_add, umount_list_del, umount_list_wipe, unit_result, InfoQuery, KsuCommand,
    KsuError, KsuGetInfo, KERNEL_SU_UAPI_VERSION,
};

fn info(version: u32, flags: u32, uapi: u32) -> KsuGetInfo {
    KsuGetInfo { version, flags, features: 0, uapi_version: uapi }
}

#[test]
fn get_info_falls_back_to_legacy() {
    let zero = info(0, 0, 0);
    assert_eq!(get_info(), KsuCommand::GetInfo { info: zero });
    let got = info(12000, 1, 1);
    assert_eq!(get_info_result(Ok(0), got), InfoQuery::Done { info: got });
    assert_eq!(get_info_result(Err(25), zero),
        InfoQuery::Legacy { cmd: KsuCommand::GetInfoLegacy { info: zero } });
}

#[test]
fn version_and_flags() {
    assert_eq!(get_version(&info(12034, 0, 0)), 12034);
    assert_eq!(get_version(&info(0xffff_ffff, 0, 0)), -1);
    assert!(is_lkm(&info(0, 1, 0)));
    assert!(!is_lkm(&info(0, 4, 0)));
    assert!(is_late_load(&info(0, 4, 0)));
    assert!(!is_late_load(&info(0, 3, 0)));
}

#[test]
fn runtime_mode_prefers_late_load() {
    assert_eq!(runtime_mode(&info(0, 5, 0)), "late-load");
    assert_eq!(runtime_mode(&info(0, 1, 0)), "lkm");
    assert_eq!(runtime_mode(&info(0, 0, 0)), "built-in");
    assert_eq!(runtime_mode(&info(0, 2, 0)), "built-in");
}

#[test]
fn uapi_version_check() {
    assert_eq!(uapi_version(), KERNEL_SU_UAPI_VERSION);
    assert_eq!(ensure_uapi_version_matched(&info(0, 0, KERNEL_SU_UAPI_VERSION)), Ok(()));
    assert_eq!(ensure_uapi_version_matched(&info(0, 0, KERNEL_SU_UAPI_VERSION + 1)),
        Err(KsuError::UapiMismatch { kernel: KERNEL_SU_UAPI_VERSION + 1, userspace: KERNEL_SU_UAPI_VERSION }));
    assert_eq!(ensure_uapi_version_matched(&info(0, 0, 0)),
        Err(KsuError::UapiMismatch { kernel: 0, userspace: KERNEL_SU_UAPI_VERSION }));
}

#[test]
fn simple_commands() {
    assert_eq!(grant_root(), KsuCommand::GrantRoot);
    assert_eq!(report_event(9), KsuCommand::ReportEvent { event: 9 });
    assert_eq!(report_post_fs_data(), KsuCommand::ReportEvent { event: 1 });
    assert_eq!(report_boot_complete(), KsuCommand::ReportEvent { event: 2 });
    assert_eq!(report_module_mounted(), KsuCommand::ReportEvent { event: 3 });
    assert_eq!(set_sepolicy(0x1000, 64), KsuCommand::SetSepolicy { data_len: 64, data: 0x1000 });
    assert_eq!(set_feature(7, 99), KsuCommand::SetFeature { feature_id: 7, value: 99 });
    assert_eq!(get_wrapped_fd(-1), KsuCommand::GetWrapperFd { fd: u32::MAX, flags: 0 });
    assert_eq!(get_wrapped_fd(5), KsuCommand::GetWrapperFd { fd: 5, flags: 0 });
    assert_eq!(get_sulog_fd(), KsuCommand::GetSulogFd { flags: 0 });
    assert_eq!(set_init_pgrp(), KsuCommand::SetInitPgrp);
    assert_eq!(set_ksu_no_new_privs(), KsuCommand::DisableEscapeToRoot);
}

#[test]
fn nuke_ext4_sysfs_carries_the_c_string() {
    assert_eq!(nuke_ext4_sysfs("/data"), Ok(KsuCommand::NukeExt4Sysfs { path: b"/data\0".to_vec() }));
    assert_eq!(nuke_ext4_sysfs(""), Ok(KsuCommand::NukeExt4Sysfs { path: vec![0] }));
    assert_eq!(nuke_ext4_sysfs("/da\0ta"), Err(KsuError::InteriorNul { position: 3 }));
}

#[test]
fn safemode_reads_the_flag() {
    assert_eq!(check_kernel_safemode(), KsuCommand::CheckSafemode { in_safe_mode: 0 });
    assert!(check_kernel_safemode_result(1));
    assert!(check_kernel_safemode_result(255));
    assert!(!check_kernel_safemode_result(0));
}

#[test]
fn feature_query() {
    assert_eq!(get_feature(3), KsuCommand::GetFeature { feature_id: 3, value: 0, supported: 0 });
    assert_eq!(get_feature_result(Ok(0), 42, 1), Ok((42, true)));
    assert_eq!(get_feature_result(Ok(0), 42, 0), Ok((42, false)));
    assert_eq!(get_feature_result(Err(22), 42, 1), Err(22));
}

#[test]
fn mark_operations() {
    assert_eq!(mark_get(0), KsuCommand::ManageMark { operation: 1, pid: 0, result: 0 });
    assert_eq!(mark_set(12), KsuCommand::ManageMark { operation: 2, pid: 12, result: 0 });
    assert_eq!(mark_unset(12), KsuCommand::ManageMark { operation: 3, pid: 12, result: 0 });
    assert_eq!(mark_refresh(), KsuCommand::ManageMark { operation: 4, pid: 0, result: 0 });
    assert_eq!(mark_get_result(Ok(0), 17), Ok(17));
    assert_eq!(mark_get_result(Err(3), 17), Err(3));
}

#[test]
fn umount_list() {
    assert_eq!(umount_list_wipe(), KsuCommand::AddTryUmount { path: None, flags: 0, mode: 0 });
    assert_eq!(umount_list_add("/system", 2),
        Ok(KsuCommand::AddTryUmount { path: Some(b"/system\0".to_vec()), flags: 2, mode: 1 }));
    assert_eq!(umount_list_del("/system"),
        Ok(KsuCommand::AddTryUmount { path: Some(b"/system\0".to_vec()), flags: 0, mode: 2 }));
}

#[test]
fn umount_paths_with_nul_are_refused() {
    assert_eq!(umount_list_add("\0/system", 2), Err(KsuError::InteriorNul { position: 0 }));
    assert_eq!(umount_list_del("/sys\0tem\0"), Err(KsuError::InteriorNul { position: 4 }));
}

#[test]
fn results() {
    assert_eq!(unit_result(Ok(5)), Ok(()));
    assert_eq!(unit_result(Err(1)), Err(1));
    assert_eq!(set_ksu_no_new_privs_result(Ok(0)), Ok(()));
    assert_eq!(set_ksu_no_new_privs_result(Ok(1)), Err(KsuError::UnexpectedResult { result: 1 }));
    assert_eq!(set_ksu_no_new_privs_result(Err(13)), Err(KsuError::Io { errno: 13 }));
    assert_eq!(susfs_ioctl(0x1_0000_0555, 0x40), KsuCommand::Susfs { cmd_id: 0x555, arg_ptr: 0x40 });
    assert_eq!(susfs_ioctl_result(Ok(3)), Ok(3));
    assert_eq!(susfs_ioctl_result(Err(2)), Err(KsuError::SusfsIoctl { errno: 2 }));
}
