//! The KernelSU driver interface: the ioctl command records the daemon
//! sends, built from its arguments, and the meaning of the kernel's replies.
//! Every function here either builds the command for one operation or
//! interprets the outcome of that command; the ioctl itself is made by the
//! caller (see `driver` for how the driver descriptor is found and retried).

use vstd::prelude::*;
use vstd::string::StringSliceAdditionalSpecFns;
use crate::bytes::{c_string, first_nul_at, has_nul};

verus! {

/// Set in `KsuGetInfo::flags` when KernelSU runs as a loadable module.
pub const KSU_GET_INFO_FLAG_LKM: u32 = 1;
/// Set in `KsuGetInfo::flags` when KernelSU was loaded late, after boot.
pub const KSU_GET_INFO_FLAG_LATE_LOAD: u32 = 4;
/// The driver interface version this daemon speaks.
pub const KERNEL_SU_UAPI_VERSION: u32 = 1;

pub const EVENT_POST_FS_DATA: u32 = 1;
pub const EVENT_BOOT_COMPLETED: u32 = 2;
pub const EVENT_MODULE_MOUNTED: u32 = 3;

pub const KSU_MARK_GET: u32 = 1;
pub const KSU_MARK_MARK: u32 = 2;
pub const KSU_MARK_UNMARK: u32 = 3;
pub const KSU_MARK_REFRESH: u32 = 4;

pub const KSU_UMOUNT_WIPE: u8 = 0;
pub const KSU_UMOUNT_ADD: u8 = 1;
pub const KSU_UMOUNT_DEL: u8 = 2;

/// The driver's self-description.
#[derive(Clone, Copy, Debug, PartialEq, Eq)]
pub struct KsuGetInfo {
    pub version: u32,
    pub flags: u32,
    pub features: u32,
    pub uapi_version: u32,
}

/// One ioctl to the KernelSU driver: the request and the record its
/// argument points to (addresses are given as integers, except for the
/// path commands, which carry the NUL-terminated path itself; the record
/// points at it).
#[derive(Clone, Debug, PartialEq, Eq)]
pub enum KsuCommand {
    GrantRoot,
    GetInfo { info: KsuGetInfo },
    GetInfoLegacy { info: KsuGetInfo },
    ReportEvent { event: u32 },
    CheckSafemode { in_safe_mode: u8 },
    SetSepolicy { data_len: u64, data: u64 },
    GetFeature { feature_id: u32, value: u64, supported: u8 },
    SetFeature { feature_id: u32, value: u64 },
    GetWrapperFd { fd: u32, flags: u32 },
    GetSulogFd { flags: u32 },
    ManageMark { operation: u32, pid: i32, result: u32 },
    /// The mount point as a C string.
    NukeExt4Sysfs { path: Vec<u8> },
    /// The mount point as a C string (none for a wipe, whose argument is 0).
    AddTryUmount { path: Option<Vec<u8>>, flags: u32, mode: u8 },
    SetInitPgrp,
    DisableEscapeToRoot,
    /// A SUSFS command tunnelled through the driver.
    Susfs { cmd_id: u32, arg_ptr: u64 },
}

/// Why a driver operation failed.
#[derive(Clone, Copy, Debug, PartialEq, Eq)]
pub enum KsuError {
    /// The ioctl failed with this OS error number.
    Io { errno: i32 },
    /// The kernel speaks another interface version than this daemon.
    UapiMismatch { kernel: u32, userspace: u32 },
    /// The kernel answered with an unexpected value.
    UnexpectedResult { result: i32 },
    /// A tunnelled SUSFS ioctl failed with this OS error number.
    SusfsIoctl { errno: i32 },
    /// A path handed to the kernel holds a NUL byte at this position.
    InteriorNul { position: usize },
}

/// What to do after the information query.
#[derive(Clone, Debug, PartialEq, Eq)]
pub enum InfoQuery {
    /// The information is final.
    Done { info: KsuGetInfo },
    /// Ask again with the legacy request; its record, once the kernel has
    /// answered (or not), is the information.
    Legacy { cmd: KsuCommand },
}

/// The all-zero information record.
pub open spec fn zero_info() -> KsuGetInfo {
    KsuGetInfo { version: 0, flags: 0, features: 0, uapi_version: 0 }
}

/// The information query, with a zeroed record. The kernel is always asked
/// afresh: a cached record from a failed query would read as zero forever.
pub fn get_info() -> (c: KsuCommand)
    ensures
        c == (KsuCommand::GetInfo { info: zero_info() }),
{
    KsuCommand::GetInfo { info: KsuGetInfo { version: 0, flags: 0, features: 0, uapi_version: 0 } }
}

/// After the information query returned `first` and left `after` in its
/// record: done when it succeeded, otherwise retry with the legacy request
/// on the same record.
pub fn get_info_result(first: Result<i32, i32>, after: KsuGetInfo) -> (q: InfoQuery)
    ensures
        first is Ok ==> q == (InfoQuery::Done { info: after }),
        first is Err ==> q == (InfoQuery::Legacy { cmd: KsuCommand::GetInfoLegacy { info: after } }),
{
    match first {
        Ok(_) => InfoQuery::Done { info: after },
        Err(_) => InfoQuery::Legacy { cmd: KsuCommand::GetInfoLegacy { info: after } },
    }
}

/// The kernel's KernelSU version, as a signed number (the record's bits
/// reinterpreted).
pub fn get_version(info: &KsuGetInfo) -> (v: i32)
    ensures
        v == info.version as i32,
{
    info.version as i32
}

/// Whether KernelSU was loaded late.
pub fn is_late_load(info: &KsuGetInfo) -> (b: bool)
    ensures
        b == (info.flags & KSU_GET_INFO_FLAG_LATE_LOAD != 0),
{
    info.flags & KSU_GET_INFO_FLAG_LATE_LOAD != 0
}

/// Whether KernelSU runs as a loadable module.
pub fn is_lkm(info: &KsuGetInfo) -> (b: bool)
    ensures
        b == (info.flags & KSU_GET_INFO_FLAG_LKM != 0),
{
    info.flags & KSU_GET_INFO_FLAG_LKM != 0
}

/// The driver interface version of this daemon.
pub fn uapi_version() -> (v: u32)
    ensures
        v == KERNEL_SU_UAPI_VERSION,
{
    KERNEL_SU_UAPI_VERSION
}

/// How KernelSU runs: "late-load" takes precedence over "lkm", and
/// "built-in" is the rest.
pub fn runtime_mode(info: &KsuGetInfo) -> (m: &'static str)
    ensures
        (info.flags & KSU_GET_INFO_FLAG_LATE_LOAD != 0) ==> m@ == "late-load"@,
        (info.flags & KSU_GET_INFO_FLAG_LATE_LOAD == 0 && info.flags & KSU_GET_INFO_FLAG_LKM != 0)
            ==> m@ == "lkm"@,
        (info.flags & KSU_GET_INFO_FLAG_LATE_LOAD == 0 && info.flags & KSU_GET_INFO_FLAG_LKM == 0)
            ==> m@ == "built-in"@,
{
    if is_late_load(info) {
        "late-load"
    } else if is_lkm(info) {
        "lkm"
    } else {
        "built-in"
    }
}

/// Fails unless the kernel speaks this daemon's interface version.
pub fn ensure_uapi_version_matched(info: &KsuGetInfo) -> (r: Result<(), KsuError>)
    ensures
        info.uapi_version == KERNEL_SU_UAPI_VERSION ==> r is Ok,
        info.uapi_version != KERNEL_SU_UAPI_VERSION ==> r == Err::<(), KsuError>(
            KsuError::UapiMismatch { kernel: info.uapi_version, userspace: KERNEL_SU_UAPI_VERSION }),
{
    let kernel_uapi = info.uapi_version;
    let userspace_uapi = uapi_version();
    if kernel_uapi != userspace_uapi {
        return Err(KsuError::UapiMismatch { kernel: kernel_uapi, userspace: userspace_uapi });
    }
    Ok(())
}

/// The outcome of an ioctl whose return value carries nothing.
pub fn unit_result(r: Result<i32, i32>) -> (u: Result<(), i32>)
    ensures
        r is Ok ==> u is Ok,
        r matches Err(e) ==> u == Err::<(), i32>(e),
{
    match r {
        Ok(_) => Ok(()),
        Err(e) => Err(e),
    }
}

/// Asks the driver to grant root to this process.
pub fn grant_root() -> (c: KsuCommand)
    ensures
        c == KsuCommand::GrantRoot,
{
    KsuCommand::GrantRoot
}

/// Reports a boot event; the outcome is ignored.
pub fn report_event(event: u32) -> (c: KsuCommand)
    ensures
        c == (KsuCommand::ReportEvent { event }),
{
    KsuCommand::ReportEvent { event }
}

/// Reports that post-fs-data has run.
pub fn report_post_fs_data() -> (c: KsuCommand)
    ensures
        c == (KsuCommand::ReportEvent { event: EVENT_POST_FS_DATA }),
{
    report_event(EVENT_POST_FS_DATA)
}

/// Reports that boot has completed.
pub fn report_boot_complete() -> (c: KsuCommand)
    ensures
        c == (KsuCommand::ReportEvent { event: EVENT_BOOT_COMPLETED }),
{
    report_event(EVENT_BOOT_COMPLETED)
}

/// Reports that modules are mounted.
pub fn report_module_mounted() -> (c: KsuCommand)
    ensures
        c == (KsuCommand::ReportEvent { event: EVENT_MODULE_MOUNTED }),
{
    report_event(EVENT_MODULE_MOUNTED)
}

/// The safe-mode query, with its flag cleared.
pub fn check_kernel_safemode() -> (c: KsuCommand)
    ensures
        c == (KsuCommand::CheckSafemode { in_safe_mode: 0 }),
{
    KsuCommand::CheckSafemode { in_safe_mode: 0 }
}

/// Whether the kernel is in safe mode, read from the query's record whatever
/// the ioctl returned (a failed query leaves the flag cleared).
pub fn check_kernel_safemode_result(in_safe_mode: u8) -> (b: bool)
    ensures
        b == (in_safe_mode != 0),
{
    in_safe_mode != 0
}

/// Loads `payload_len` bytes of SELinux policy rules at address `payload`.
pub fn set_sepolicy(payload: u64, payload_len: u64) -> (c: KsuCommand)
    ensures
        c == (KsuCommand::SetSepolicy { data_len: payload_len, data: payload }),
{
    KsuCommand::SetSepolicy { data_len: payload_len, data: payload }
}

/// The query of feature `feature_id`.
pub fn get_feature(feature_id: u32) -> (c: KsuCommand)
    ensures
        c == (KsuCommand::GetFeature { feature_id, value: 0, supported: 0 }),
{
    KsuCommand::GetFeature { feature_id, value: 0, supported: 0 }
}

/// The feature's value and whether it is supported, or the ioctl's error.
pub fn get_feature_result(r: Result<i32, i32>, value: u64, supported: u8) -> (f: Result<(u64, bool), i32>)
    ensures
        r is Ok ==> f == Ok::<(u64, bool), i32>((value, supported != 0)),
        r matches Err(e) ==> f == Err::<(u64, bool), i32>(e),
{
    match r {
        Ok(_) => Ok((value, supported != 0)),
        Err(e) => Err(e),
    }
}

/// Sets feature `feature_id` to `value`.
pub fn set_feature(feature_id: u32, value: u64) -> (c: KsuCommand)
    ensures
        c == (KsuCommand::SetFeature { feature_id, value }),
{
    KsuCommand::SetFeature { feature_id, value }
}

/// Asks for a descriptor wrapping `fd`; the ioctl's return value is the new
/// descriptor.
pub fn get_wrapped_fd(fd: i32) -> (c: KsuCommand)
    ensures
        c == (KsuCommand::GetWrapperFd { fd: fd as u32, flags: 0 }),
{
    KsuCommand::GetWrapperFd { fd: fd as u32, flags: 0 }
}

/// Asks for the su log descriptor; the ioctl's return value is the descriptor.
pub fn get_sulog_fd() -> (c: KsuCommand)
    ensures
        c == (KsuCommand::GetSulogFd { flags: 0 }),
{
    KsuCommand::GetSulogFd { flags: 0 }
}

/// The record of a mark operation on `pid`.
pub open spec fn mark_command(operation: u32, pid: i32) -> KsuCommand {
    KsuCommand::ManageMark { operation, pid, result: 0 }
}

/// Every mark command names the process it was given, with the operation's
/// number and a cleared result: get 1, mark 2, unmark 3, refresh 4 (a pid of
/// 0 stands for every process, and for the get, the count of marked ones).
pub proof fn lemma_mark_commands(operation: u32, pid: i32)
    ensures
        mark_command(operation, pid) matches KsuCommand::ManageMark { operation: o, pid: p, result: r }
            && o == operation && p == pid && r == 0,
        mark_command(KSU_MARK_GET, pid) == (KsuCommand::ManageMark { operation: 1, pid, result: 0 }),
        mark_command(KSU_MARK_MARK, pid) == (KsuCommand::ManageMark { operation: 2, pid, result: 0 }),
        mark_command(KSU_MARK_UNMARK, pid) == (KsuCommand::ManageMark { operation: 3, pid, result: 0 }),
        mark_command(KSU_MARK_REFRESH, 0) == (KsuCommand::ManageMark { operation: 4, pid: 0, result: 0 }),
{
}

/// Queries the mark of `pid` (0: the number of marked processes).
pub fn mark_get(pid: i32) -> (c: KsuCommand)
    ensures
        c == mark_command(KSU_MARK_GET, pid),
        c == (KsuCommand::ManageMark { operation: KSU_MARK_GET, pid, result: 0 }),
{
    KsuCommand::ManageMark { operation: KSU_MARK_GET, pid, result: 0 }
}

/// The mark query's answer, or the ioctl's error.
pub fn mark_get_result(r: Result<i32, i32>, result: u32) -> (m: Result<u32, i32>)
    ensures
        r is Ok ==> m == Ok::<u32, i32>(result),
        r matches Err(e) ==> m == Err::<u32, i32>(e),
{
    match r {
        Ok(_) => Ok(result),
        Err(e) => Err(e),
    }
}

/// Marks `pid` (0: every process).
pub fn mark_set(pid: i32) -> (c: KsuCommand)
    ensures
        c == mark_command(KSU_MARK_MARK, pid),
        c == (KsuCommand::ManageMark { operation: KSU_MARK_MARK, pid, result: 0 }),
{
    KsuCommand::ManageMark { operation: KSU_MARK_MARK, pid, result: 0 }
}

/// Unmarks `pid` (0: every process).
pub fn mark_unset(pid: i32) -> (c: KsuCommand)
    ensures
        c == mark_command(KSU_MARK_UNMARK, pid),
        c == (KsuCommand::ManageMark { operation: KSU_MARK_UNMARK, pid, result: 0 }),
{
    KsuCommand::ManageMark { operation: KSU_MARK_UNMARK, pid, result: 0 }
}

/// Refreshes the marks of all running processes.
pub fn mark_refresh() -> (c: KsuCommand)
    ensures
        c == mark_command(KSU_MARK_REFRESH, 0),
        c == (KsuCommand::ManageMark { operation: KSU_MARK_REFRESH, pid: 0, result: 0 }),
{
    KsuCommand::ManageMark { operation: KSU_MARK_REFRESH, pid: 0, result: 0 }
}

/// The C string of `path`, or the refusal of a path holding a NUL byte.
fn path_arg(path: &str) -> (r: Result<Vec<u8>, KsuError>)
    ensures
        r is Err <==> has_nul(path.spec_bytes()),
        r matches Ok(v) ==> v@ == path.spec_bytes().push(0u8),
        r matches Err(e) ==> (e matches KsuError::InteriorNul { position }
            && first_nul_at(path.spec_bytes(), position as int)),
{
    match c_string(path) {
        Ok(v) => Ok(v),
        Err(position) => Err(KsuError::InteriorNul { position }),
    }
}

/// Hides the ext4 sysfs entries of mount point `mnt`. A path holding a NUL
/// byte is refused before any request is made.
pub fn nuke_ext4_sysfs(mnt: &str) -> (r: Result<KsuCommand, KsuError>)
    ensures
        r is Err <==> has_nul(mnt.spec_bytes()),
        r matches Ok(c) ==> (c matches KsuCommand::NukeExt4Sysfs { path }
            && path@ == mnt.spec_bytes().push(0u8)),
        r matches Err(e) ==> (e matches KsuError::InteriorNul { position }
            && first_nul_at(mnt.spec_bytes(), position as int)),
{
    let path = path_arg(mnt)?;
    Ok(KsuCommand::NukeExt4Sysfs { path })
}

/// Empties the list of mount points to unmount.
pub fn umount_list_wipe() -> (c: KsuCommand)
    ensures
        c == (KsuCommand::AddTryUmount { path: None, flags: 0, mode: KSU_UMOUNT_WIPE }),
{
    KsuCommand::AddTryUmount { path: None, flags: 0, mode: KSU_UMOUNT_WIPE }
}

/// Adds mount point `path`, to be unmounted with `flags`. A path holding a
/// NUL byte is refused before any request is made.
pub fn umount_list_add(path: &str, flags: u32) -> (r: Result<KsuCommand, KsuError>)
    ensures
        r is Err <==> has_nul(path.spec_bytes()),
        r matches Ok(c) ==> (c matches KsuCommand::AddTryUmount { path: Some(p), flags: f, mode }
            && p@ == path.spec_bytes().push(0u8) && f == flags && mode == KSU_UMOUNT_ADD),
        r matches Err(e) ==> (e matches KsuError::InteriorNul { position }
            && first_nul_at(path.spec_bytes(), position as int)),
{
    let p = path_arg(path)?;
    Ok(KsuCommand::AddTryUmount { path: Some(p), flags, mode: KSU_UMOUNT_ADD })
}

/// Removes mount point `path`. A path holding a NUL byte is refused before
/// any request is made.
pub fn umount_list_del(path: &str) -> (r: Result<KsuCommand, KsuError>)
    ensures
        r is Err <==> has_nul(path.spec_bytes()),
        r matches Ok(c) ==> (c matches KsuCommand::AddTryUmount { path: Some(p), flags: f, mode }
            && p@ == path.spec_bytes().push(0u8) && f == 0 && mode == KSU_UMOUNT_DEL),
        r matches Err(e) ==> (e matches KsuError::InteriorNul { position }
            && first_nul_at(path.spec_bytes(), position as int)),
{
    let p = path_arg(path)?;
    Ok(KsuCommand::AddTryUmount { path: Some(p), flags: 0, mode: KSU_UMOUNT_DEL })
}

/// Moves this process into init's process group.
pub fn set_init_pgrp() -> (c: KsuCommand)
    ensures
        c == KsuCommand::SetInitPgrp,
{
    KsuCommand::SetInitPgrp
}

/// Forbids this process to escalate to root again.
pub fn set_ksu_no_new_privs() -> (c: KsuCommand)
    ensures
        c == KsuCommand::DisableEscapeToRoot,
{
    KsuCommand::DisableEscapeToRoot
}

/// The outcome of the no-new-privileges request: the kernel must answer 0.
pub fn set_ksu_no_new_privs_result(r: Result<i32, i32>) -> (u: Result<(), KsuError>)
    ensures
        r == Ok::<i32, i32>(0) ==> u is Ok,
        r matches Ok(v) ==> (v != 0 ==> u == Err::<(), KsuError>(KsuError::UnexpectedResult { result: v })),
        r matches Err(e) ==> u == Err::<(), KsuError>(KsuError::Io { errno: e }),
{
    match r {
        Ok(v) => if v != 0 {
            Err(KsuError::UnexpectedResult { result: v })
        } else {
            Ok(())
        },
        Err(e) => Err(KsuError::Io { errno: e }),
    }
}

/// Tunnels SUSFS command `cmd_id` (its low 32 bits) with its record at `arg`.
pub fn susfs_ioctl(cmd_id: u64, arg: u64) -> (c: KsuCommand)
    ensures
        c == (KsuCommand::Susfs { cmd_id: cmd_id as u32, arg_ptr: arg }),
{
    KsuCommand::Susfs { cmd_id: cmd_id as u32, arg_ptr: arg }
}

/// The outcome of a tunnelled SUSFS command.
pub fn susfs_ioctl_result(r: Result<i32, i32>) -> (u: Result<i32, KsuError>)
    ensures
        r matches Ok(v) ==> u == Ok::<i32, KsuError>(v),
        r matches Err(e) ==> u == Err::<i32, KsuError>(KsuError::SusfsIoctl { errno: e }),
{
    match r {
        Ok(v) => Ok(v),
        Err(e) => Err(KsuError::SusfsIoctl { errno: e }),
    }
}

} // verus!
