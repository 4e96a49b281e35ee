//! SUSFS control commands: the records sent to the kernel through the
//! `reboot` system call, how they are built from user input, and how the
//! kernel's reply is read back.

use vstd::prelude::*;
use vstd::string::StringSliceAdditionalSpecFns;
use vstd::utf8::valid_utf8;
use vstd::utf8::decode_utf8;
use crate::bytes::{cstr_prefix, fill_buffer, is_cstr_prefix, padded, zeroed};

verus! {

/// First magic argument of every SUSFS `reboot` call.
pub const KSU_INSTALL_MAGIC1: u64 = 0xDEADBEEF;
/// Second magic argument of every SUSFS `reboot` call.
pub const SUSFS_MAGIC: u64 = 0xFAFAFAFA;

pub const CMD_SUSFS_SHOW_VERSION: u64 = 0x555e1;
pub const CMD_SUSFS_SHOW_ENABLED_FEATURES: u64 = 0x555e2;
pub const CMD_SUSFS_SHOW_VARIANT: u64 = 0x555e3;
pub const CMD_SUSFS_ADD_SUS_PATH: u64 = 0x55550;
pub const CMD_SUSFS_ADD_SUS_PATH_LOOP: u64 = 0x55553;
pub const CMD_SUSFS_ADD_SUS_KSTAT_STATICALLY: u64 = 0x55572;
pub const CMD_SUSFS_ADD_SUS_MAP: u64 = 0x60020;
pub const CMD_SUSFS_ADD_SUS_MOUNT: u64 = 0x55560;
pub const CMD_SUSFS_SET_UNAME: u64 = 0x55590;
pub const CMD_SUSFS_ENABLE_LOG: u64 = 0x555a0;
pub const CMD_SUSFS_ENABLE_AVC_LOG_SPOOFING: u64 = 0x60010;
pub const CMD_SUSFS_HIDE_SUS_MNTS_FOR_NON_SU_PROCS: u64 = 0x55561;
pub const CMD_SUSFS_ADD_OPEN_REDIRECT: u64 = 0x555c0;

pub const SUSFS_ENABLED_FEATURES_SIZE: usize = 8192;
pub const SUSFS_MAX_VERSION_BUFSIZE: usize = 16;
pub const SUSFS_MAX_VARIANT_BUFSIZE: usize = 16;
/// Size of the `release` and `version` fields of the uname record.
pub const SUSFS_UNAME_FIELD_SIZE: usize = 65;
/// Size of every path field.
pub const SUSFS_PATH_SIZE: usize = 256;

/// The value the kernel leaves in `err` when it does not know the command.
pub const ERR_CMD_NOT_SUPPORTED: i32 = 126;

/// The spoofed attributes of a statically spoofed kstat entry.
#[derive(Debug, PartialEq, Eq)]
pub struct SusfsKstat {
    pub is_statically: u32,
    pub target_ino: u64,
    pub target_pathname: Vec<u8>,
    pub spoofed_ino: u64,
    pub spoofed_dev: u64,
    pub spoofed_nlink: u32,
    pub spoofed_size: u64,
    pub spoofed_atime_tv_sec: i64,
    pub spoofed_atime_tv_nsec: u64,
    pub spoofed_mtime_tv_sec: i64,
    pub spoofed_mtime_tv_nsec: u64,
    pub spoofed_ctime_tv_sec: i64,
    pub spoofed_ctime_tv_nsec: u64,
    pub spoofed_blocks: u64,
    pub spoofed_blksize: i64,
    pub flags: u32,
}

/// The body of a SUSFS command record (all but its `err` field).
#[derive(Debug, PartialEq, Eq)]
pub enum SusfsPayload {
    Version { version: Vec<u8> },
    Variant { variant: Vec<u8> },
    EnabledFeatures { features: Vec<u8> },
    Uname { release: Vec<u8>, version: Vec<u8> },
    /// The record of the three on/off switches (log, AVC log spoofing,
    /// hiding sus mounts); the command number tells them apart.
    Enabled { enabled: u32 },
    OpenRedirect { target_pathname: Vec<u8>, redirected_pathname: Vec<u8>, uid_scheme: u32 },
    Kstat { kstat: SusfsKstat },
    SusMap { target_pathname: Vec<u8> },
    /// The mount to hide and its device number (0: found by the kernel).
    SusMount { target_pathname: Vec<u8>, target_dev: u64 },
    SusPath { target_ino: u64, target_pathname: Vec<u8> },
}

/// A SUSFS command: its number, its record, and the record's `err` field,
/// which the kernel overwrites with the outcome.
#[derive(Debug, PartialEq, Eq)]
pub struct SusfsCommand {
    pub cmd: u64,
    pub payload: SusfsPayload,
    pub err: i32,
}

/// The operations whose failure is reported with the kernel's error code.
#[derive(Clone, Copy, Debug, PartialEq, Eq)]
pub enum SusfsOp {
    SetUname,
    EnableLog,
    EnableAvcLogSpoofing,
    HideSusMnts,
    AddOpenRedirect,
    AddSusMap,
    AddSusMount,
    AddSusPath,
    AddSusPathLoop,
    AddSusKstatStatically,
}

/// Why a SUSFS operation failed.
#[derive(Debug, PartialEq, Eq)]
pub enum SusfsError {
    /// The kernel does not implement command `cmd`.
    NotSupported { cmd: u64 },
    /// A query returned the kernel error `err`.
    Invalid { err: i32 },
    /// The feature query found no enabled feature.
    Unsupported,
    /// A uname field does not fit its record field.
    StringTooLong,
    /// A path does not fit its record field.
    PathTooLong,
    /// The kernel rejected `op` with error `err`.
    Failed { op: SusfsOp, err: i32 },
}

/// The zeroed buffer of `n` bytes.
pub open spec fn zeros(n: nat) -> Seq<u8> {
    Seq::new(n, |i: int| 0u8)
}

/// `bytes` decoded as UTF-8, invalid sequences replaced by U+FFFD, as
/// `String::from_utf8_lossy` computes it.
pub uninterp spec fn utf8_lossy(bytes: Seq<u8>) -> Seq<char>;

/// `String::from_utf8_lossy(bytes).into_owned()`. Its result is named
/// `utf8_lossy(bytes)`; std documents that valid UTF-8 comes back unchanged,
/// which the second clause states.
#[verifier::external_body]
fn lossy_string(bytes: &[u8]) -> (s: String)
    ensures
        s@ == utf8_lossy(bytes@),
        valid_utf8(bytes@) ==> s@ == decode_utf8(bytes@),
{
    String::from_utf8_lossy(bytes).into_owned()
}

// ---------------------------------------------------------------------------
// Queries

/// The version query.
pub fn show_version_cmd() -> (c: SusfsCommand)
    ensures
        c.cmd == CMD_SUSFS_SHOW_VERSION,
        c.err == ERR_CMD_NOT_SUPPORTED,
        c.payload matches SusfsPayload::Version { version }
            && version@ == zeros(SUSFS_MAX_VERSION_BUFSIZE as nat),
{
    SusfsCommand {
        cmd: CMD_SUSFS_SHOW_VERSION,
        payload: SusfsPayload::Version { version: zeroed(SUSFS_MAX_VERSION_BUFSIZE) },
        err: ERR_CMD_NOT_SUPPORTED,
    }
}

/// The variant query.
pub fn show_variant_cmd() -> (c: SusfsCommand)
    ensures
        c.cmd == CMD_SUSFS_SHOW_VARIANT,
        c.err == ERR_CMD_NOT_SUPPORTED,
        c.payload matches SusfsPayload::Variant { variant }
            && variant@ == zeros(SUSFS_MAX_VARIANT_BUFSIZE as nat),
{
    SusfsCommand {
        cmd: CMD_SUSFS_SHOW_VARIANT,
        payload: SusfsPayload::Variant { variant: zeroed(SUSFS_MAX_VARIANT_BUFSIZE) },
        err: ERR_CMD_NOT_SUPPORTED,
    }
}

/// The enabled-features query.
pub fn show_features_cmd() -> (c: SusfsCommand)
    ensures
        c.cmd == CMD_SUSFS_SHOW_ENABLED_FEATURES,
        c.err == ERR_CMD_NOT_SUPPORTED,
        c.payload matches SusfsPayload::EnabledFeatures { features }
            && features@ == zeros(SUSFS_ENABLED_FEATURES_SIZE as nat),
{
    SusfsCommand {
        cmd: CMD_SUSFS_SHOW_ENABLED_FEATURES,
        payload: SusfsPayload::EnabledFeatures { features: zeroed(SUSFS_ENABLED_FEATURES_SIZE) },
        err: ERR_CMD_NOT_SUPPORTED,
    }
}

/// Fails with `NotSupported` exactly when the kernel left the preset
/// "not supported" code in place.
pub fn check_unsupported(err: i32, cmd: u64) -> (r: Result<(), SusfsError>)
    ensures
        err == ERR_CMD_NOT_SUPPORTED ==> r == Err::<(), SusfsError>(SusfsError::NotSupported { cmd }),
        err != ERR_CMD_NOT_SUPPORTED ==> r is Ok,
{
    if err == ERR_CMD_NOT_SUPPORTED {
        return Err(SusfsError::NotSupported { cmd });
    }
    Ok(())
}

/// `s` is the decoded C string held in `buf`, followed by a newline.
pub open spec fn is_text_line(s: Seq<char>, buf: Seq<u8>) -> bool {
    exists|p: Seq<u8>| is_cstr_prefix(p, buf) && s == utf8_lossy(p) + seq!['\n']
}

/// `s` is the decoded C string held in `buf`.
pub open spec fn is_text(s: Seq<char>, buf: Seq<u8>) -> bool {
    exists|p: Seq<u8>| is_cstr_prefix(p, buf) && s == utf8_lossy(p)
}

/// The feature query succeeded and reported a non-empty feature list.
pub open spec fn has_features(err: i32, features: Seq<u8>) -> bool {
    err == 0 && features.len() > 0 && features[0] != 0u8
}

/// The line printed for a text reply: the C string in `buf`, decoded, and a newline.
fn text_line(buf: &Vec<u8>) -> (s: String)
    ensures
        is_text_line(s@, buf@),
{
    let p = cstr_prefix(buf);
    let mut s = lossy_string(p.as_slice());
    s.append("\n");
    proof {
        reveal_strlit("\n");
    }
    assert("\n"@ =~= seq!['\n']);
    assert(is_cstr_prefix(p@, buf@) && s@ == utf8_lossy(p@) + seq!['\n']);
    s
}

/// The outcome of the version query, given the reply's `err` and version
/// buffer: the text to print, or why there is none.
pub fn show_version(err: i32, version: &Vec<u8>) -> (r: Result<String, SusfsError>)
    ensures
        err == ERR_CMD_NOT_SUPPORTED ==> r == Err::<String, SusfsError>(
            SusfsError::NotSupported { cmd: CMD_SUSFS_SHOW_VERSION }),
        err != ERR_CMD_NOT_SUPPORTED && err != 0 ==> r == Err::<String, SusfsError>(
            SusfsError::Invalid { err }),
        err == 0 ==> (r matches Ok(s) && is_text_line(s@, version@)),
{
    check_unsupported(err, CMD_SUSFS_SHOW_VERSION)?;
    if err == 0 {
        Ok(text_line(version))
    } else {
        Err(SusfsError::Invalid { err })
    }
}

/// The outcome of the variant query, given the reply's `err` and variant
/// buffer: the text to print, or why there is none.
pub fn show_variant(err: i32, variant: &Vec<u8>) -> (r: Result<String, SusfsError>)
    ensures
        err == ERR_CMD_NOT_SUPPORTED ==> r == Err::<String, SusfsError>(
            SusfsError::NotSupported { cmd: CMD_SUSFS_SHOW_VARIANT }),
        err != ERR_CMD_NOT_SUPPORTED && err != 0 ==> r == Err::<String, SusfsError>(
            SusfsError::Invalid { err }),
        err == 0 ==> (r matches Ok(s) && is_text_line(s@, variant@)),
{
    check_unsupported(err, CMD_SUSFS_SHOW_VARIANT)?;
    if err == 0 {
        Ok(text_line(variant))
    } else {
        Err(SusfsError::Invalid { err })
    }
}

/// The outcome of the feature query, given the reply's `err` and feature
/// buffer. With `check_only` the text is the verdict "Supported"; otherwise
/// it is the feature list itself, printed without a trailing newline.
pub fn show_features(check_only: bool, err: i32, features: &Vec<u8>) -> (r: Result<String, SusfsError>)
    ensures
        err == ERR_CMD_NOT_SUPPORTED ==> r == Err::<String, SusfsError>(
            SusfsError::NotSupported { cmd: CMD_SUSFS_SHOW_ENABLED_FEATURES }),
        err != ERR_CMD_NOT_SUPPORTED && check_only ==> (
            if has_features(err, features@) {
                r matches Ok(s) && s@ == "Supported\n"@
            } else {
                r == Err::<String, SusfsError>(SusfsError::Unsupported)
            }),
        err != ERR_CMD_NOT_SUPPORTED && !check_only ==> (
            if has_features(err, features@) {
                r matches Ok(s) && is_text(s@, features@)
            } else {
                r == Err::<String, SusfsError>(SusfsError::Invalid { err })
            }),
{
    check_unsupported(err, CMD_SUSFS_SHOW_ENABLED_FEATURES)?;
    let p = cstr_prefix(features);
    assert(p@.len() > 0 <==> (features@.len() > 0 && features@[0] != 0u8));
    let has = err == 0 && p.len() > 0;
    if check_only {
        if has {
            Ok(String::from_str("Supported\n"))
        } else {
            Err(SusfsError::Unsupported)
        }
    } else if has {
        Ok(lossy_string(p.as_slice()))
    } else {
        Err(SusfsError::Invalid { err })
    }
}

/// The outcome of a command whose reply carries nothing but `err`.
pub fn check_status(op: SusfsOp, err: i32) -> (r: Result<(), SusfsError>)
    ensures
        err == 0 ==> r is Ok,
        err != 0 ==> r == Err::<(), SusfsError>(SusfsError::Failed { op, err }),
{
    if err != 0 {
        return Err(SusfsError::Failed { op, err });
    }
    Ok(())
}

// ---------------------------------------------------------------------------
// Settings and rules

/// `c` is the uname command for the given strings' bytes.
pub open spec fn is_uname_command(c: SusfsCommand, release: Seq<u8>, version: Seq<u8>) -> bool {
    &&& c.cmd == CMD_SUSFS_SET_UNAME
    &&& c.err == ERR_CMD_NOT_SUPPORTED
    &&& c.payload matches SusfsPayload::Uname { release: rb, version: vb }
    &&& rb@ == padded(release, SUSFS_UNAME_FIELD_SIZE as nat)
    &&& vb@ == padded(version, SUSFS_UNAME_FIELD_SIZE as nat)
}

/// The uname spoofing command; both strings must leave room for a NUL in
/// their 65-byte fields.
pub fn set_uname(release: &str, version: &str) -> (r: Result<SusfsCommand, SusfsError>)
    ensures
        (release.spec_bytes().len() >= SUSFS_UNAME_FIELD_SIZE
            || version.spec_bytes().len() >= SUSFS_UNAME_FIELD_SIZE)
            ==> r == Err::<SusfsCommand, SusfsError>(SusfsError::StringTooLong),
        (release.spec_bytes().len() < SUSFS_UNAME_FIELD_SIZE
            && version.spec_bytes().len() < SUSFS_UNAME_FIELD_SIZE) ==> (r matches Ok(c)
            && is_uname_command(c, release.spec_bytes(), version.spec_bytes())),
{
    let rb = fill_buffer(release, SUSFS_UNAME_FIELD_SIZE);
    let vb = fill_buffer(version, SUSFS_UNAME_FIELD_SIZE);
    match (rb, vb) {
        (Some(rb), Some(vb)) => Ok(SusfsCommand {
            cmd: CMD_SUSFS_SET_UNAME,
            payload: SusfsPayload::Uname { release: rb, version: vb },
            err: ERR_CMD_NOT_SUPPORTED,
        }),
        _ => Err(SusfsError::StringTooLong),
    }
}

/// The record of an on/off switch command.
pub open spec fn is_switch(c: SusfsCommand, cmd: u64, enabled: bool) -> bool {
    &&& c.cmd == cmd
    &&& c.err == ERR_CMD_NOT_SUPPORTED
    &&& c.payload == SusfsPayload::Enabled { enabled: if enabled { 1u32 } else { 0u32 } }
}

fn switch(cmd: u64, enabled: bool) -> (c: SusfsCommand)
    ensures
        is_switch(c, cmd, enabled),
        c.payload matches SusfsPayload::Enabled { enabled: e } && e <= 1 && (e == 1) == enabled,
{
    SusfsCommand {
        cmd,
        payload: SusfsPayload::Enabled { enabled: if enabled { 1u32 } else { 0u32 } },
        err: ERR_CMD_NOT_SUPPORTED,
    }
}

/// Turns SUSFS kernel logging on or off.
pub fn enable_log(enabled: bool) -> (c: SusfsCommand)
    ensures
        is_switch(c, CMD_SUSFS_ENABLE_LOG, enabled),
        c.cmd == CMD_SUSFS_ENABLE_LOG,
        c.payload matches SusfsPayload::Enabled { enabled: e } && e <= 1 && (e == 1) == enabled,
{
    switch(CMD_SUSFS_ENABLE_LOG, enabled)
}

/// Turns AVC log spoofing on or off.
pub fn enable_avc_log_spoofing(enabled: bool) -> (c: SusfsCommand)
    ensures
        is_switch(c, CMD_SUSFS_ENABLE_AVC_LOG_SPOOFING, enabled),
        c.cmd == CMD_SUSFS_ENABLE_AVC_LOG_SPOOFING,
        c.payload matches SusfsPayload::Enabled { enabled: e } && e <= 1 && (e == 1) == enabled,
{
    switch(CMD_SUSFS_ENABLE_AVC_LOG_SPOOFING, enabled)
}

/// Turns hiding of sus mounts from non-su processes on or off.
pub fn hide_sus_mnts_for_non_su_procs(enabled: bool) -> (c: SusfsCommand)
    ensures
        is_switch(c, CMD_SUSFS_HIDE_SUS_MNTS_FOR_NON_SU_PROCS, enabled),
        c.cmd == CMD_SUSFS_HIDE_SUS_MNTS_FOR_NON_SU_PROCS,
        c.payload matches SusfsPayload::Enabled { enabled: e } && e <= 1 && (e == 1) == enabled,
{
    switch(CMD_SUSFS_HIDE_SUS_MNTS_FOR_NON_SU_PROCS, enabled)
}

/// A switch record carries the requested state whatever the command: its
/// `enabled` field is 1 to turn the switch on and 0 to turn it off
/// (`u32::from(enabled)`), and it is sent under the command it was built for.
pub proof fn lemma_switch_record(c: SusfsCommand, cmd: u64, enabled: bool)
    requires
        is_switch(c, cmd, enabled),
    ensures
        c.cmd == cmd,
        c.payload matches SusfsPayload::Enabled { enabled: e } && e <= 1 && (e == 1) == enabled
            && (e == 0) == !enabled,
{
}

/// `c` is the open-redirect command for the given paths' bytes.
pub open spec fn is_redirect_command(c: SusfsCommand, target: Seq<u8>, redirected: Seq<u8>, uid_scheme: u32) -> bool {
    &&& c.cmd == CMD_SUSFS_ADD_OPEN_REDIRECT
    &&& c.err == ERR_CMD_NOT_SUPPORTED
    &&& c.payload matches SusfsPayload::OpenRedirect { target_pathname: t, redirected_pathname: d, uid_scheme: u }
    &&& t@ == padded(target, SUSFS_PATH_SIZE as nat)
    &&& d@ == padded(redirected, SUSFS_PATH_SIZE as nat)
    &&& u == uid_scheme
}

/// The open-redirect command; both paths must leave room for a NUL in their
/// 256-byte fields.
pub fn add_open_redirect(target: &str, redirected: &str, uid_scheme: u32) -> (r: Result<SusfsCommand, SusfsError>)
    ensures
        (target.spec_bytes().len() >= SUSFS_PATH_SIZE
            || redirected.spec_bytes().len() >= SUSFS_PATH_SIZE)
            ==> r == Err::<SusfsCommand, SusfsError>(SusfsError::PathTooLong),
        (target.spec_bytes().len() < SUSFS_PATH_SIZE
            && redirected.spec_bytes().len() < SUSFS_PATH_SIZE) ==> (r matches Ok(c)
            && is_redirect_command(c, target.spec_bytes(), redirected.spec_bytes(), uid_scheme)),
{
    let t = fill_buffer(target, SUSFS_PATH_SIZE);
    let d = fill_buffer(redirected, SUSFS_PATH_SIZE);
    match (t, d) {
        (Some(t), Some(d)) => Ok(SusfsCommand {
            cmd: CMD_SUSFS_ADD_OPEN_REDIRECT,
            payload: SusfsPayload::OpenRedirect { target_pathname: t, redirected_pathname: d, uid_scheme },
            err: ERR_CMD_NOT_SUPPORTED,
        }),
        _ => Err(SusfsError::PathTooLong),
    }
}

/// `c` is the sus-map command for the given path's bytes.
pub open spec fn is_map_command(c: SusfsCommand, path: Seq<u8>) -> bool {
    &&& c.cmd == CMD_SUSFS_ADD_SUS_MAP
    &&& c.err == ERR_CMD_NOT_SUPPORTED
    &&& c.payload matches SusfsPayload::SusMap { target_pathname: t }
    &&& t@ == padded(path, SUSFS_PATH_SIZE as nat)
}

/// Hides `path` from /proc/*/maps.
pub fn add_sus_map(path: &str) -> (r: Result<SusfsCommand, SusfsError>)
    ensures
        path.spec_bytes().len() >= SUSFS_PATH_SIZE
            ==> r == Err::<SusfsCommand, SusfsError>(SusfsError::PathTooLong),
        path.spec_bytes().len() < SUSFS_PATH_SIZE ==> (r matches Ok(c) && is_map_command(c, path.spec_bytes())),
{
    match fill_buffer(path, SUSFS_PATH_SIZE) {
        Some(t) => Ok(SusfsCommand {
            cmd: CMD_SUSFS_ADD_SUS_MAP,
            payload: SusfsPayload::SusMap { target_pathname: t },
            err: ERR_CMD_NOT_SUPPORTED,
        }),
        None => Err(SusfsError::PathTooLong),
    }
}

/// `c` is the sus-mount command for the given path's bytes.
pub open spec fn is_mount_command(c: SusfsCommand, path: Seq<u8>) -> bool {
    &&& c.cmd == CMD_SUSFS_ADD_SUS_MOUNT
    &&& c.err == ERR_CMD_NOT_SUPPORTED
    &&& c.payload matches SusfsPayload::SusMount { target_pathname: t, target_dev: dev }
    &&& dev == 0
    &&& t@ == padded(path, SUSFS_PATH_SIZE as nat)
}

/// Hides mount `path` from non-su processes.
pub fn add_sus_mount(path: &str) -> (r: Result<SusfsCommand, SusfsError>)
    ensures
        path.spec_bytes().len() >= SUSFS_PATH_SIZE
            ==> r == Err::<SusfsCommand, SusfsError>(SusfsError::PathTooLong),
        path.spec_bytes().len() < SUSFS_PATH_SIZE ==> (r matches Ok(c) && is_mount_command(c, path.spec_bytes())),
{
    match fill_buffer(path, SUSFS_PATH_SIZE) {
        Some(t) => Ok(SusfsCommand {
            cmd: CMD_SUSFS_ADD_SUS_MOUNT,
            payload: SusfsPayload::SusMount { target_pathname: t, target_dev: 0 },
            err: ERR_CMD_NOT_SUPPORTED,
        }),
        None => Err(SusfsError::PathTooLong),
    }
}

/// `c` is command `cmd` naming the given path's bytes.
pub open spec fn is_sus_path_record(c: SusfsCommand, cmd: u64, path: Seq<u8>) -> bool {
    &&& c.cmd == cmd
    &&& c.err == ERR_CMD_NOT_SUPPORTED
    &&& c.payload matches SusfsPayload::SusPath { target_ino: ino, target_pathname: t }
    &&& ino == 0
    &&& t@ == padded(path, SUSFS_PATH_SIZE as nat)
}

/// The record that names one path for command `cmd`.
pub open spec fn is_path_command(r: Result<SusfsCommand, SusfsError>, cmd: u64, path: &str) -> bool {
    if path.spec_bytes().len() >= SUSFS_PATH_SIZE {
        r == Err::<SusfsCommand, SusfsError>(SusfsError::PathTooLong)
    } else {
        r matches Ok(c) && is_sus_path_record(c, cmd, path.spec_bytes())
    }
}

fn path_command(cmd: u64, path: &str) -> (r: Result<SusfsCommand, SusfsError>)
    ensures
        is_path_command(r, cmd, path),
{
    match fill_buffer(path, SUSFS_PATH_SIZE) {
        Some(t) => Ok(SusfsCommand {
            cmd,
            payload: SusfsPayload::SusPath { target_ino: 0, target_pathname: t },
            err: ERR_CMD_NOT_SUPPORTED,
        }),
        None => Err(SusfsError::PathTooLong),
    }
}

/// Hides `path` from non-su processes.
pub fn add_sus_path(path: &str) -> (r: Result<SusfsCommand, SusfsError>)
    ensures
        is_path_command(r, CMD_SUSFS_ADD_SUS_PATH, path),
{
    path_command(CMD_SUSFS_ADD_SUS_PATH, path)
}

/// Hides `path` from non-su processes, re-applied on every lookup loop.
pub fn add_sus_path_loop(path: &str) -> (r: Result<SusfsCommand, SusfsError>)
    ensures
        is_path_command(r, CMD_SUSFS_ADD_SUS_PATH_LOOP, path),
{
    path_command(CMD_SUSFS_ADD_SUS_PATH_LOOP, path)
}

/// Registers `path` for kstat spoofing; this build keeps no such rule and
/// always succeeds.
pub fn add_sus_kstat(path: &str) -> (r: Result<(), SusfsError>)
    ensures
        r is Ok,
{
    Ok(())
}

/// Refreshes the kstat spoofing of `path`; this build keeps no such rule and
/// always succeeds.
pub fn update_sus_kstat(path: &str) -> (r: Result<(), SusfsError>)
    ensures
        r is Ok,
{
    Ok(())
}

/// The static kstat spoofing command for `path` with the given attributes.
pub fn add_sus_kstat_statically(
    path: &str,
    ino: u64,
    dev: u64,
    nlink: u32,
    size: u64,
    atime_sec: i64,
    atime_nsec_opt: u64,
    mtime_sec: i64,
    mtime_nsec_opt: u64,
    ctime_sec: i64,
    ctime_nsec_opt: u64,
    blocks: u64,
    blksize: i64,
) -> (r: Result<SusfsCommand, SusfsError>)
    ensures
        path.spec_bytes().len() >= SUSFS_PATH_SIZE
            ==> r == Err::<SusfsCommand, SusfsError>(SusfsError::PathTooLong),
        path.spec_bytes().len() < SUSFS_PATH_SIZE ==> (r matches Ok(c) && c.cmd == CMD_SUSFS_ADD_SUS_KSTAT_STATICALLY
            && c.err == ERR_CMD_NOT_SUPPORTED
            && c.payload == SusfsPayload::Kstat { kstat: SusfsKstat {
                is_statically: 1,
                target_ino: 0,
                target_pathname: c.payload->kstat.target_pathname,
                spoofed_ino: ino,
                spoofed_dev: dev,
                spoofed_nlink: nlink,
                spoofed_size: size,
                spoofed_atime_tv_sec: atime_sec,
                spoofed_atime_tv_nsec: atime_nsec_opt,
                spoofed_mtime_tv_sec: mtime_sec,
                spoofed_mtime_tv_nsec: mtime_nsec_opt,
                spoofed_ctime_tv_sec: ctime_sec,
                spoofed_ctime_tv_nsec: ctime_nsec_opt,
                spoofed_blocks: blocks,
                spoofed_blksize: blksize,
                flags: 0,
            } }
            && c.payload->kstat.target_pathname@ == padded(path.spec_bytes(), SUSFS_PATH_SIZE as nat)),
{
    match fill_buffer(path, SUSFS_PATH_SIZE) {
        Some(t) => Ok(SusfsCommand {
            cmd: CMD_SUSFS_ADD_SUS_KSTAT_STATICALLY,
            payload: SusfsPayload::Kstat {
                kstat: SusfsKstat {
                    is_statically: 1,
                    target_ino: 0,
                    target_pathname: t,
                    spoofed_ino: ino,
                    spoofed_dev: dev,
                    spoofed_nlink: nlink,
                    spoofed_size: size,
                    spoofed_atime_tv_sec: atime_sec,
                    spoofed_atime_tv_nsec: atime_nsec_opt,
                    spoofed_mtime_tv_sec: mtime_sec,
                    spoofed_mtime_tv_nsec: mtime_nsec_opt,
                    spoofed_ctime_tv_sec: ctime_sec,
                    spoofed_ctime_tv_nsec: ctime_nsec_opt,
                    spoofed_blocks: blocks,
                    spoofed_blksize: blksize,
                    flags: 0,
                },
            },
            err: ERR_CMD_NOT_SUPPORTED,
        }),
        None => Err(SusfsError::PathTooLong),
    }
}

} // verus!
