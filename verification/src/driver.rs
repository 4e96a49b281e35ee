//! Finding the KernelSU driver descriptor and making ioctls on it.
//!
//! The descriptor is cached process-wide. A call first uses the cached
//! descriptor, or finds one: among the process's open descriptors (one whose
//! link names `[ksu_driver]`), else by asking the kernel through `prctl`,
//! else through `reboot`. If the ioctl fails with "bad file descriptor" the
//! cached descriptor is closed, forgotten, re-acquired and the ioctl retried
//! once. `Ksuctl` is that procedure as a state machine; the daemon performs
//! the system calls it asks for and reports their outcomes.

use vstd::prelude::*;
use vstd::string::StringSliceAdditionalSpecFns;
use vstd::utf8::encode_utf8;

verus! {

// ---------------------------------------------------------------------------
// Reading /proc/self/fd

/// `b` is an ASCII decimal digit.
pub open spec fn is_ascii_digit(b: u8) -> bool {
    0x30u8 <= b <= 0x39u8
}

/// The number written by the decimal digits `d`.
pub open spec fn digits_value(d: Seq<u8>) -> int
    decreases d.len(),
{
    if d.len() == 0 {
        0
    } else {
        digits_value(d.drop_last()) * 10 + (d.last() - 0x30u8)
    }
}

/// Whether the text starts with a minus sign, and the digits after any sign.
pub open spec fn sign_and_digits(b: Seq<u8>) -> (bool, Seq<u8>) {
    if b.len() >= 1 && b[0] == 0x2du8 {
        (true, b.drop_first())
    } else if b.len() >= 1 && b[0] == 0x2bu8 {
        (false, b.drop_first())
    } else {
        (false, b)
    }
}

/// The `i32` the text `b` denotes as `str::parse::<i32>` reads it: an
/// optional `+` or `-`, then at least one ASCII digit and nothing else, with
/// a value in range; `None` otherwise.
pub open spec fn parse_i32(b: Seq<u8>) -> Option<i32> {
    let (neg, d) = sign_and_digits(b);
    if d.len() == 0 || !(forall|i: int| 0 <= i < d.len() ==> is_ascii_digit(#[trigger] d[i])) {
        None
    } else {
        let v = if neg { -digits_value(d) } else { digits_value(d) };
        if i32::MIN <= v <= i32::MAX { Some(v as i32) } else { None }
    }
}

proof fn lemma_digits_value_nonneg(d: Seq<u8>)
    requires
        forall|i: int| 0 <= i < d.len() ==> is_ascii_digit(#[trigger] d[i]),
    ensures
        digits_value(d) >= 0,
    decreases d.len(),
{
    if d.len() > 0 {
        lemma_digits_value_nonneg(d.drop_last());
    }
}

/// Above every magnitude an `i32` can have.
const SATURATION: u64 = 0x8000_0001;

/// Reads a descriptor number from a directory entry name, as
/// `str::parse::<i32>` does.
pub fn parse_fd_name(name: &str) -> (r: Option<i32>)
    ensures
        r == parse_i32(name.spec_bytes()),
{
    let b = name.as_bytes();
    let n = b.len();
    let mut start: usize = 0;
    let mut neg = false;
    if n >= 1 && b[0] == 0x2du8 {
        neg = true;
        start = 1;
    } else if n >= 1 && b[0] == 0x2bu8 {
        start = 1;
    }
    let ghost d = b@.subrange(start as int, n as int);
    assert(sign_and_digits(b@) == (neg, d)) by {
        if start == 1 {
            assert(b@.drop_first() =~= d);
        } else {
            assert(b@ =~= d);
        }
    }
    if start == n {
        return None;
    }
    let mut acc: u64 = 0;
    let mut i: usize = start;
    while i < n
        invariant
            start <= i <= n,
            n == b@.len(),
            b@ == name.spec_bytes(),
            sign_and_digits(b@) == (neg, d),
            d == b@.subrange(start as int, n as int),
            forall|j: int| start <= j < i ==> is_ascii_digit(#[trigger] b@[j]),
            acc <= SATURATION,
            acc == (if digits_value(b@.subrange(start as int, i as int)) < SATURATION {
                digits_value(b@.subrange(start as int, i as int))
            } else {
                SATURATION as int
            }),
        decreases n - i,
    {
        let c = b[i];
        if c < 0x30u8 || c > 0x39u8 {
            assert(d[i - start] == c);
            assert(!is_ascii_digit(d[i - start]));
            return None;
        }
        let ghost pre = b@.subrange(start as int, i as int);
        let ghost post = b@.subrange(start as int, i + 1);
        assert(post.drop_last() =~= pre);
        proof {
            assert forall|j: int| 0 <= j < pre.len() implies is_ascii_digit(#[trigger] pre[j]) by {
                assert(pre[j] == b@[start + j]);
            }
            lemma_digits_value_nonneg(pre);
        }
        acc = acc * 10 + (c - 0x30u8) as u64;
        if acc > SATURATION {
            acc = SATURATION;
        }
        i = i + 1;
    }
    assert(b@.subrange(start as int, n as int) =~= d);
    assert forall|j: int| 0 <= j < d.len() implies is_ascii_digit(#[trigger] d[j]) by {
        assert(d[j] == b@[start + j]);
    }
    if neg {
        if acc <= 0x8000_0000u64 {
            if acc == 0x8000_0000u64 {
                Some(i32::MIN)
            } else {
                Some(-(acc as i32))
            }
        } else {
            None
        }
    } else {
        if acc <= 0x7fff_ffffu64 {
            Some(acc as i32)
        } else {
            None
        }
    }
}

/// `needle` occurs in `hay` as a contiguous run.
pub open spec fn has_subslice(hay: Seq<u8>, needle: Seq<u8>) -> bool {
    exists|i: int| 0 <= i && i + needle.len() <= hay.len()
        && #[trigger] hay.subrange(i, i + needle.len()) == needle
}

/// Whether `needle` occurs in `hay`.
fn contains_bytes(hay: &[u8], needle: &[u8]) -> (r: bool)
    ensures
        r == has_subslice(hay@, needle@),
{
    let h = hay.len();
    let m = needle.len();
    if m > h {
        return false;
    }
    let mut i: usize = 0;
    while i <= h - m
        invariant
            h == hay@.len(),
            m == needle@.len(),
            m <= h,
            i <= h - m + 1,
            forall|k: int| 0 <= k < i ==> #[trigger] hay@.subrange(k, k + m) != needle@,
        decreases h - m + 1 - i,
    {
        let mut j: usize = 0;
        while j < m && hay[i + j] == needle[j]
            invariant
                h == hay@.len(),
                m == needle@.len(),
                i + m <= h,
                j <= m,
                forall|k: int| 0 <= k < j ==> hay@[i + k] == needle@[k],
            decreases m - j,
        {
            j = j + 1;
        }
        if j == m {
            assert(hay@.subrange(i as int, i + m) =~= needle@);
            return true;
        }
        assert(hay@.subrange(i as int, i + m)[j as int] != needle@[j as int]);
        i = i + 1;
    }
    assert forall|k: int| 0 <= k && k + needle@.len() <= hay@.len() implies
        #[trigger] hay@.subrange(k, k + needle@.len()) != needle@ by {
        assert(k < i);
    }
    false
}

/// One entry of /proc/self/fd: its name, and where its link points when the
/// name is a descriptor number and the link could be read.
#[derive(Debug, PartialEq, Eq)]
pub struct FdEntry {
    pub name: String,
    pub target: Option<String>,
}

/// The text that marks the driver's descriptor in a link target.
pub open spec fn driver_marker() -> Seq<u8> {
    encode_utf8("[ksu_driver]"@)
}

/// Entry `e` is the driver's descriptor.
pub open spec fn is_driver_entry(e: FdEntry) -> bool {
    &&& parse_i32(encode_utf8(e.name@)) is Some
    &&& e.target matches Some(t) && has_subslice(encode_utf8(t@), driver_marker())
}

/// The descriptor number of the first entry that is the driver's, if any.
pub fn scan_driver_fd(entries: &Vec<FdEntry>) -> (r: Option<i32>)
    ensures
        r is None <==> forall|i: int| 0 <= i < entries@.len() ==> !is_driver_entry(#[trigger] entries@[i]),
        r matches Some(fd) ==> exists|i: int| 0 <= i < entries@.len()
            && is_driver_entry(#[trigger] entries@[i])
            && (forall|j: int| 0 <= j < i ==> !is_driver_entry(#[trigger] entries@[j]))
            && parse_i32(encode_utf8(entries@[i].name@)) == Some(fd),
{
    let marker = "[ksu_driver]".as_bytes();
    let mut i: usize = 0;
    while i < entries.len()
        invariant
            i <= entries@.len(),
            marker@ == driver_marker(),
            forall|j: int| 0 <= j < i ==> !is_driver_entry(#[trigger] entries@[j]),
        decreases entries@.len() - i,
    {
        let e = &entries[i];
        let parsed = parse_fd_name(e.name.as_str());
        if let Some(fd) = parsed {
            if let Some(t) = &e.target {
                if contains_bytes(t.as_str().as_bytes(), marker) {
                    assert(is_driver_entry(entries@[i as int]));
                    return Some(fd);
                }
            }
        }
        i = i + 1;
    }
    None
}

// ---------------------------------------------------------------------------
// The ioctl procedure

/// `libc::EBADF`, the error number of a bad file descriptor. On Linux and
/// Android, the platforms this daemon runs on, libc defines it as 9 (the
/// constant is the same on every architecture of both).
#[verifier::external_body]
fn ebadf() -> (r: i32)
    ensures
        r == 9,
{
    libc::EBADF
}

/// Where an ioctl procedure stands.
#[derive(Clone, Copy, Debug, PartialEq, Eq, Structural)]
pub enum KsuctlPhase {
    Idle,
    LoadingCache,
    Scanning,
    Prctl,
    Reboot,
    StoringCache,
    Calling,
    Closing,
    ResettingCache,
    Finished,
}

/// What the daemon reports after performing an action.
#[derive(Clone, Copy, Debug, PartialEq, Eq)]
pub enum KsuctlEvent {
    /// Starts the procedure.
    Begin,
    /// The cached descriptor (negative when none is cached).
    CacheLoaded { fd: i32 },
    /// The driver descriptor found among the open descriptors, if any.
    Scanned { found: Option<i32> },
    /// The descriptor the `prctl` or `reboot` call left in its argument.
    SyscallDone { fd: i32 },
    /// The cache was written.
    CacheStored,
    /// The ioctl returned `ret`; when `ret` is negative, `errno` is the error.
    IoctlDone { ret: i32, errno: i32 },
    /// The descriptor was closed.
    Closed,
}

/// What the daemon is asked to do next.
#[derive(Clone, Copy, Debug, PartialEq, Eq)]
pub enum KsuctlAction {
    /// Read the cached descriptor.
    LoadCache,
    /// Look for the driver among the open descriptors.
    ScanFds,
    /// Ask for the descriptor through `prctl`, its argument preset to -1.
    Prctl,
    /// Ask for the descriptor through `reboot`, its argument preset to `fd`.
    Reboot { fd: i32 },
    /// Cache `fd`.
    StoreCache { fd: i32 },
    /// Make the ioctl on `fd`.
    Ioctl { fd: i32 },
    /// Close `fd`.
    Close { fd: i32 },
    /// The procedure's outcome: the ioctl's return value, or an error number.
    Done { result: Result<i32, i32> },
}

/// The state of an ioctl procedure: its phase, whether the ioctl is being
/// retried, and the descriptor at hand.
#[derive(Clone, Copy, Debug, PartialEq, Eq)]
pub struct KsuctlState {
    pub phase: KsuctlPhase,
    pub retry: bool,
    pub fd: i32,
}

/// Whether `e` answers the action that state `s` waits on.
pub open spec fn ksuctl_expects(s: KsuctlState, e: KsuctlEvent) -> bool {
    match (s.phase, e) {
        (KsuctlPhase::Idle, KsuctlEvent::Begin) => true,
        (KsuctlPhase::LoadingCache, KsuctlEvent::CacheLoaded { .. }) => true,
        (KsuctlPhase::Scanning, KsuctlEvent::Scanned { .. }) => true,
        (KsuctlPhase::Prctl, KsuctlEvent::SyscallDone { .. }) => true,
        (KsuctlPhase::Reboot, KsuctlEvent::SyscallDone { .. }) => true,
        (KsuctlPhase::StoringCache, KsuctlEvent::CacheStored) => true,
        (KsuctlPhase::Calling, KsuctlEvent::IoctlDone { .. }) => true,
        (KsuctlPhase::Closing, KsuctlEvent::Closed) => true,
        (KsuctlPhase::ResettingCache, KsuctlEvent::CacheStored) => true,
        _ => false,
    }
}

/// Using descriptor `fd` (possibly none, when negative): fail with `ebadf`
/// when there is none, otherwise make the ioctl.
pub open spec fn use_fd(retry: bool, fd: i32, ebadf: i32) -> (KsuctlState, KsuctlAction) {
    if fd < 0 {
        (KsuctlState { phase: KsuctlPhase::Finished, retry, fd }, KsuctlAction::Done { result: Err(ebadf) })
    } else {
        (KsuctlState { phase: KsuctlPhase::Calling, retry, fd }, KsuctlAction::Ioctl { fd })
    }
}

/// The transition table of the ioctl procedure, `ebadf` being the platform's
/// "bad file descriptor" error number.
pub open spec fn ksuctl_next(s: KsuctlState, e: KsuctlEvent, ebadf: i32) -> (KsuctlState, KsuctlAction) {
    let retry = s.retry;
    match (s.phase, e) {
        (KsuctlPhase::Idle, KsuctlEvent::Begin) =>
            (KsuctlState { phase: KsuctlPhase::LoadingCache, retry: false, fd: -1i32 }, KsuctlAction::LoadCache),
        (KsuctlPhase::LoadingCache, KsuctlEvent::CacheLoaded { fd }) =>
            if fd >= 0 {
                use_fd(retry, fd, ebadf)
            } else {
                (KsuctlState { phase: KsuctlPhase::Scanning, retry, fd: -1i32 }, KsuctlAction::ScanFds)
            },
        (KsuctlPhase::Scanning, KsuctlEvent::Scanned { found }) => match found {
            Some(fd) => (KsuctlState { phase: KsuctlPhase::StoringCache, retry, fd }, KsuctlAction::StoreCache { fd }),
            None => (KsuctlState { phase: KsuctlPhase::Prctl, retry, fd: -1i32 }, KsuctlAction::Prctl),
        },
        (KsuctlPhase::Prctl, KsuctlEvent::SyscallDone { fd }) =>
            if fd >= 0 {
                (KsuctlState { phase: KsuctlPhase::StoringCache, retry, fd }, KsuctlAction::StoreCache { fd })
            } else {
                (KsuctlState { phase: KsuctlPhase::Reboot, retry, fd }, KsuctlAction::Reboot { fd })
            },
        (KsuctlPhase::Reboot, KsuctlEvent::SyscallDone { fd }) =>
            if fd >= 0 {
                (KsuctlState { phase: KsuctlPhase::StoringCache, retry, fd }, KsuctlAction::StoreCache { fd })
            } else {
                use_fd(retry, -1i32, ebadf)
            },
        (KsuctlPhase::StoringCache, KsuctlEvent::CacheStored) => use_fd(retry, s.fd, ebadf),
        (KsuctlPhase::Calling, KsuctlEvent::IoctlDone { ret, errno }) =>
            if ret >= 0 {
                (KsuctlState { phase: KsuctlPhase::Finished, ..s }, KsuctlAction::Done { result: Ok(ret) })
            } else if retry {
                (KsuctlState { phase: KsuctlPhase::Finished, ..s }, KsuctlAction::Done { result: Err(ebadf) })
            } else if errno == ebadf {
                (KsuctlState { phase: KsuctlPhase::Closing, ..s }, KsuctlAction::Close { fd: s.fd })
            } else {
                (KsuctlState { phase: KsuctlPhase::Finished, ..s }, KsuctlAction::Done { result: Err(errno) })
            },
        (KsuctlPhase::Closing, KsuctlEvent::Closed) =>
            (KsuctlState { phase: KsuctlPhase::ResettingCache, retry, fd: -1i32 }, KsuctlAction::StoreCache { fd: -1i32 }),
        (KsuctlPhase::ResettingCache, KsuctlEvent::CacheStored) =>
            (KsuctlState { phase: KsuctlPhase::LoadingCache, retry: true, fd: -1i32 }, KsuctlAction::LoadCache),
        _ => (s, KsuctlAction::Done { result: Err(ebadf) }),
    }
}

/// An ioctl procedure in progress.
pub struct Ksuctl {
    phase: KsuctlPhase,
    retry: bool,
    fd: i32,
    ebadf: i32,
}

impl Ksuctl {
    /// The procedure's state.
    pub closed spec fn state(&self) -> KsuctlState {
        KsuctlState { phase: self.phase, retry: self.retry, fd: self.fd }
    }

    /// The "bad file descriptor" error number this procedure reports.
    pub closed spec fn ebadf(&self) -> i32 {
        self.ebadf
    }

    /// A procedure that has not begun; it reports `EBADF` (9) as its
    /// "bad file descriptor" error.
    pub fn new() -> (m: Ksuctl)
        ensures
            m.state() == (KsuctlState { phase: KsuctlPhase::Idle, retry: false, fd: -1i32 }),
            m.ebadf() == 9,
    {
        Ksuctl { phase: KsuctlPhase::Idle, retry: false, fd: -1, ebadf: ebadf() }
    }

    /// Takes the daemon's report `e` and returns the next action.
    pub fn step(&mut self, e: KsuctlEvent) -> (a: KsuctlAction)
        requires
            ksuctl_expects(old(self).state(), e),
        ensures
            (final(self).state(), a) == ksuctl_next(old(self).state(), e, old(self).ebadf()),
            final(self).ebadf() == old(self).ebadf(),
    {
        match e {
            KsuctlEvent::Begin => {
                self.phase = KsuctlPhase::LoadingCache;
                self.retry = false;
                self.fd = -1;
                KsuctlAction::LoadCache
            },
            KsuctlEvent::CacheLoaded { fd } => {
                if fd >= 0 {
                    self.use_fd(fd)
                } else {
                    self.phase = KsuctlPhase::Scanning;
                    self.fd = -1;
                    KsuctlAction::ScanFds
                }
            },
            KsuctlEvent::Scanned { found } => match found {
                Some(fd) => {
                    self.phase = KsuctlPhase::StoringCache;
                    self.fd = fd;
                    KsuctlAction::StoreCache { fd }
                },
                None => {
                    self.phase = KsuctlPhase::Prctl;
                    self.fd = -1;
                    KsuctlAction::Prctl
                },
            },
            KsuctlEvent::SyscallDone { fd } => {
                if fd >= 0 {
                    self.phase = KsuctlPhase::StoringCache;
                    self.fd = fd;
                    KsuctlAction::StoreCache { fd }
                } else if self.phase == KsuctlPhase::Prctl {
                    self.phase = KsuctlPhase::Reboot;
                    self.fd = fd;
                    KsuctlAction::Reboot { fd }
                } else {
                    self.use_fd(-1)
                }
            },
            KsuctlEvent::CacheStored => {
                if self.phase == KsuctlPhase::StoringCache {
                    let fd = self.fd;
                    self.use_fd(fd)
                } else {
                    self.phase = KsuctlPhase::LoadingCache;
                    self.retry = true;
                    self.fd = -1;
                    KsuctlAction::LoadCache
                }
            },
            KsuctlEvent::IoctlDone { ret, errno } => {
                self.phase = KsuctlPhase::Finished;
                if ret >= 0 {
                    KsuctlAction::Done { result: Ok(ret) }
                } else if self.retry {
                    KsuctlAction::Done { result: Err(self.ebadf) }
                } else if errno == self.ebadf {
                    self.phase = KsuctlPhase::Closing;
                    KsuctlAction::Close { fd: self.fd }
                } else {
                    KsuctlAction::Done { result: Err(errno) }
                }
            },
            KsuctlEvent::Closed => {
                self.phase = KsuctlPhase::ResettingCache;
                self.fd = -1;
                KsuctlAction::StoreCache { fd: -1i32 }
            },
        }
    }

    fn use_fd(&mut self, fd: i32) -> (a: KsuctlAction)
        ensures
            (final(self).state(), a) == use_fd(old(self).retry, fd, old(self).ebadf),
            final(self).ebadf == old(self).ebadf,
    {
        self.fd = fd;
        if fd < 0 {
            self.phase = KsuctlPhase::Finished;
            KsuctlAction::Done { result: Err(self.ebadf) }
        } else {
            self.phase = KsuctlPhase::Calling;
            KsuctlAction::Ioctl { fd }
        }
    }
}

/// The laws of the ioctl procedure, for every state `s` and fitting report `e`:
/// - the ioctl is retried at most once: a retrying procedure stays retrying
///   until it ends, and an ioctl made while retrying always ends it;
/// - the retry is entered only after the first ioctl failed with "bad file
///   descriptor": retrying starts only from resetting the cache, resetting
///   only after closing, and closing only right after such a failure;
/// - success is reported only with the return value of an ioctl that
///   succeeded, and any error other than "bad file descriptor" is exactly
///   the first ioctl's own error;
/// - an ioctl is only ever made on a valid (non-negative) descriptor;
/// - the descriptor is looked for in order: the cache first, the open
///   descriptors only when nothing is cached, `prctl` only when the scan
///   found nothing, and `reboot` only when `prctl` gave no descriptor.
pub proof fn lemma_ksuctl_laws(s: KsuctlState, e: KsuctlEvent, ebadf: i32)
    requires
        ksuctl_expects(s, e),
    ensures
        ({
            let (t, a) = ksuctl_next(s, e, ebadf);
            &&& (s.retry && s.phase != KsuctlPhase::Idle) ==> t.retry
            &&& (s.retry && s.phase == KsuctlPhase::Calling) ==> (t.phase == KsuctlPhase::Finished && a is Done)
            &&& (!s.retry && t.retry) ==> s.phase == KsuctlPhase::ResettingCache
            &&& t.phase == KsuctlPhase::ResettingCache ==> s.phase == KsuctlPhase::Closing
            &&& t.phase == KsuctlPhase::Closing ==> (s.phase == KsuctlPhase::Calling && !s.retry
                && e is IoctlDone && e->ret < 0 && e->errno == ebadf
                && a == KsuctlAction::Close { fd: s.fd })
            &&& a matches KsuctlAction::Done { result: Ok(r) } ==> (s.phase == KsuctlPhase::Calling
                && e is IoctlDone && e->ret == r && r >= 0)
            &&& a matches KsuctlAction::Done { result: Err(x) } ==> (x == ebadf || (s.phase == KsuctlPhase::Calling
                && !s.retry && e is IoctlDone && e->ret < 0 && e->errno == x))
            &&& a matches KsuctlAction::Ioctl { fd } ==> (fd >= 0 && t.fd == fd && t.phase == KsuctlPhase::Calling)
            &&& a is ScanFds ==> (s.phase == KsuctlPhase::LoadingCache && e is CacheLoaded && e->CacheLoaded_fd < 0)
            &&& a is Prctl ==> (s.phase == KsuctlPhase::Scanning && e == KsuctlEvent::Scanned { found: None })
            &&& a is Reboot ==> (s.phase == KsuctlPhase::Prctl && e is SyscallDone && e->SyscallDone_fd < 0)
        }),
{
}

/// What the surroundings answer in one ioctl procedure: the cached
/// descriptor at the start, what the scan, `prctl` and `reboot` find, and
/// the (return value, error number) of the first and of a retried ioctl.
pub struct KsuctlEnv {
    pub cache: i32,
    pub scan: Option<i32>,
    pub prctl: i32,
    pub reboot: i32,
    pub first: (i32, i32),
    pub second: (i32, i32),
}

/// The report for action `a`, the procedure being in state `s` afterwards
/// (after the cache was reset it holds no descriptor).
pub open spec fn env_answer(a: KsuctlAction, s: KsuctlState, env: KsuctlEnv) -> KsuctlEvent {
    match a {
        KsuctlAction::LoadCache => KsuctlEvent::CacheLoaded { fd: if s.retry { -1i32 } else { env.cache } },
        KsuctlAction::ScanFds => KsuctlEvent::Scanned { found: env.scan },
        KsuctlAction::Prctl => KsuctlEvent::SyscallDone { fd: env.prctl },
        KsuctlAction::Reboot { .. } => KsuctlEvent::SyscallDone { fd: env.reboot },
        KsuctlAction::StoreCache { .. } => KsuctlEvent::CacheStored,
        KsuctlAction::Ioctl { .. } => {
            let (ret, errno) = if s.retry { env.second } else { env.first };
            KsuctlEvent::IoctlDone { ret, errno }
        },
        KsuctlAction::Close { .. } => KsuctlEvent::Closed,
        KsuctlAction::Done { .. } => KsuctlEvent::Begin,
    }
}

/// The actions of a procedure from state `s` on report `e`, up to and
/// including its `Done` (at most `fuel` of them).
pub open spec fn ksuctl_run(s: KsuctlState, e: KsuctlEvent, env: KsuctlEnv, ebadf: i32, fuel: nat) -> Seq<KsuctlAction>
    decreases fuel,
{
    if fuel == 0 {
        Seq::empty()
    } else {
        let (t, a) = ksuctl_next(s, e, ebadf);
        if a is Done {
            seq![a]
        } else {
            seq![a] + ksuctl_run(t, env_answer(a, t, env), env, ebadf, (fuel - 1) as nat)
        }
    }
}

/// A whole procedure in the surroundings `env`.
pub open spec fn ksuctl_trace(env: KsuctlEnv, ebadf: i32) -> Seq<KsuctlAction> {
    ksuctl_run(KsuctlState { phase: KsuctlPhase::Idle, retry: false, fd: -1i32 }, KsuctlEvent::Begin, env, ebadf, 20)
}

/// The number of ioctls in `t`.
pub open spec fn ioctl_count(t: Seq<KsuctlAction>) -> nat
    decreases t.len(),
{
    if t.len() == 0 {
        0
    } else {
        (if t[0] is Ioctl { 1nat } else { 0nat }) + ioctl_count(t.drop_first())
    }
}

proof fn lemma_ioctl_count_add(a: Seq<KsuctlAction>, b: Seq<KsuctlAction>)
    ensures
        ioctl_count(a + b) == ioctl_count(a) + ioctl_count(b),
    decreases a.len(),
{
    if a.len() > 0 {
        assert((a + b).drop_first() =~= a.drop_first() + b);
        lemma_ioctl_count_add(a.drop_first(), b);
    } else {
        assert(a + b =~= b);
    }
}

/// The descriptor found when the cache holds `c`.
pub open spec fn acq_fd(c: i32, env: KsuctlEnv) -> i32 {
    if c >= 0 {
        c
    } else if env.scan is Some {
        env.scan->0
    } else if env.prctl >= 0 {
        env.prctl
    } else if env.reboot >= 0 {
        env.reboot
    } else {
        -1i32
    }
}

/// The actions between reading cache value `c` and using the descriptor found.
pub open spec fn acq_steps(c: i32, env: KsuctlEnv) -> Seq<KsuctlAction> {
    if c >= 0 {
        Seq::empty()
    } else if env.scan is Some {
        seq![KsuctlAction::ScanFds, KsuctlAction::StoreCache { fd: env.scan->0 }]
    } else if env.prctl >= 0 {
        seq![KsuctlAction::ScanFds, KsuctlAction::Prctl, KsuctlAction::StoreCache { fd: env.prctl }]
    } else if env.reboot >= 0 {
        seq![KsuctlAction::ScanFds, KsuctlAction::Prctl, KsuctlAction::Reboot { fd: env.prctl },
            KsuctlAction::StoreCache { fd: env.reboot }]
    } else {
        seq![KsuctlAction::ScanFds, KsuctlAction::Prctl, KsuctlAction::Reboot { fd: env.prctl }]
    }
}

/// The report of the ioctl made with retry flag `r`.
spec fn ioctl_answer(r: bool, env: KsuctlEnv) -> KsuctlEvent {
    let (ret, errno) = if r { env.second } else { env.first };
    KsuctlEvent::IoctlDone { ret, errno }
}

#[verifier::spinoff_prover]
#[verifier::rlimit(50)]
proof fn lemma_acquire(r: bool, c: i32, env: KsuctlEnv, ebadf: i32, fuel: nat)
    requires
        fuel >= 6,
    ensures
        acq_steps(c, env).len() <= 4,
        ioctl_count(acq_steps(c, env)) == 0,
        ksuctl_run(KsuctlState { phase: KsuctlPhase::LoadingCache, retry: r, fd: -1i32 },
            KsuctlEvent::CacheLoaded { fd: c }, env, ebadf, fuel)
            == acq_steps(c, env) + (if acq_fd(c, env) < 0 {
                seq![KsuctlAction::Done { result: Err(ebadf) }]
            } else {
                seq![KsuctlAction::Ioctl { fd: acq_fd(c, env) }] + ksuctl_run(
                    KsuctlState { phase: KsuctlPhase::Calling, retry: r, fd: acq_fd(c, env) },
                    ioctl_answer(r, env), env, ebadf, (fuel - acq_steps(c, env).len() - 1) as nat)
            }),
{
    reveal_with_fuel(ioctl_count, 5);
    let steps = acq_steps(c, env);
    let run = ksuctl_run(KsuctlState { phase: KsuctlPhase::LoadingCache, retry: r, fd: -1i32 },
        KsuctlEvent::CacheLoaded { fd: c }, env, ebadf, fuel);
    if c >= 0 {
        reveal_with_fuel(ksuctl_run, 2);
        assert(run =~= steps + (seq![KsuctlAction::Ioctl { fd: c }] + ksuctl_run(
            KsuctlState { phase: KsuctlPhase::Calling, retry: r, fd: c },
            ioctl_answer(r, env), env, ebadf, (fuel - 1) as nat)));
    } else if env.scan is Some {
        reveal_with_fuel(ksuctl_run, 4);
        let fd = env.scan->0;
        if fd < 0 {
            assert(run =~= steps + seq![KsuctlAction::Done { result: Err(ebadf) }]);
        } else {
            assert(run =~= steps + (seq![KsuctlAction::Ioctl { fd }] + ksuctl_run(
                KsuctlState { phase: KsuctlPhase::Calling, retry: r, fd },
                ioctl_answer(r, env), env, ebadf, (fuel - 3) as nat)));
        }
    } else if env.prctl >= 0 {
        reveal_with_fuel(ksuctl_run, 5);
        assert(run =~= steps + (seq![KsuctlAction::Ioctl { fd: env.prctl }] + ksuctl_run(
            KsuctlState { phase: KsuctlPhase::Calling, retry: r, fd: env.prctl },
            ioctl_answer(r, env), env, ebadf, (fuel - 4) as nat)));
    } else if env.reboot >= 0 {
        reveal_with_fuel(ksuctl_run, 6);
        assert(run =~= steps + (seq![KsuctlAction::Ioctl { fd: env.reboot }] + ksuctl_run(
            KsuctlState { phase: KsuctlPhase::Calling, retry: r, fd: env.reboot },
            ioctl_answer(r, env), env, ebadf, (fuel - 5) as nat)));
    } else {
        reveal_with_fuel(ksuctl_run, 5);
        assert(run =~= steps + seq![KsuctlAction::Done { result: Err(ebadf) }]);
    }
}

proof fn lemma_after_ioctl(r: bool, fd: i32, env: KsuctlEnv, ebadf: i32, fuel: nat)
    requires
        fuel >= 4,
    ensures
        ({
            let (ret, errno) = if r { env.second } else { env.first };
            ksuctl_run(KsuctlState { phase: KsuctlPhase::Calling, retry: r, fd }, ioctl_answer(r, env), env, ebadf, fuel)
                == if ret >= 0 {
                    seq![KsuctlAction::Done { result: Ok(ret) }]
                } else if r {
                    seq![KsuctlAction::Done { result: Err(ebadf) }]
                } else if errno == ebadf {
                    seq![KsuctlAction::Close { fd }, KsuctlAction::StoreCache { fd: -1i32 }, KsuctlAction::LoadCache]
                        + ksuctl_run(KsuctlState { phase: KsuctlPhase::LoadingCache, retry: true, fd: -1i32 },
                            KsuctlEvent::CacheLoaded { fd: -1i32 }, env, ebadf, (fuel - 3) as nat)
                } else {
                    seq![KsuctlAction::Done { result: Err(errno) }]
                }
        }),
{
    reveal_with_fuel(ksuctl_run, 4);
    let (ret, errno) = if r { env.second } else { env.first };
    let run = ksuctl_run(KsuctlState { phase: KsuctlPhase::Calling, retry: r, fd }, ioctl_answer(r, env), env, ebadf, fuel);
    if ret < 0 && !r && errno == ebadf {
        assert(run =~= seq![KsuctlAction::Close { fd }, KsuctlAction::StoreCache { fd: -1i32 }, KsuctlAction::LoadCache]
            + ksuctl_run(KsuctlState { phase: KsuctlPhase::LoadingCache, retry: true, fd: -1i32 },
                KsuctlEvent::CacheLoaded { fd: -1i32 }, env, ebadf, (fuel - 3) as nat));
    }
}

/// The outcome of a procedure in the surroundings `env`: `ebadf` when no
/// descriptor can be had; otherwise the first ioctl's return value when it
/// succeeded, its error when that is not `ebadf`; after an `ebadf` failure,
/// the retried ioctl's return value when a descriptor was found again and
/// the retry succeeded, and `ebadf` (the first error) in every other case.
pub open spec fn ksuctl_outcome(env: KsuctlEnv, ebadf: i32) -> Result<i32, i32> {
    let fd1 = acq_fd(env.cache, env);
    let (ret1, errno1) = env.first;
    if fd1 < 0 {
        Err(ebadf)
    } else if ret1 >= 0 {
        Ok(ret1)
    } else if errno1 != ebadf {
        Err(errno1)
    } else if acq_fd(-1i32, env) < 0 {
        Err(ebadf)
    } else if env.second.0 >= 0 {
        Ok(env.second.0)
    } else {
        Err(ebadf)
    }
}

/// Every action of a procedure in the surroundings `env`, in order: load
/// the cache and find a descriptor; fail at once when there is none;
/// otherwise make the ioctl, and only when it failed with `ebadf` close the
/// descriptor, clear the cache, find a descriptor anew and make the ioctl
/// once more.
pub open spec fn ksuctl_expected(env: KsuctlEnv, ebadf: i32) -> Seq<KsuctlAction> {
    let fd1 = acq_fd(env.cache, env);
    let (ret1, errno1) = env.first;
    let find1 = seq![KsuctlAction::LoadCache] + acq_steps(env.cache, env);
    let done = KsuctlAction::Done { result: ksuctl_outcome(env, ebadf) };
    if fd1 < 0 {
        find1.push(done)
    } else if ret1 >= 0 || errno1 != ebadf {
        find1.push(KsuctlAction::Ioctl { fd: fd1 }).push(done)
    } else {
        let fd2 = acq_fd(-1i32, env);
        let find2 = find1.push(KsuctlAction::Ioctl { fd: fd1 }) + seq![KsuctlAction::Close { fd: fd1 },
            KsuctlAction::StoreCache { fd: -1i32 }, KsuctlAction::LoadCache] + acq_steps(-1i32, env);
        if fd2 < 0 {
            find2.push(done)
        } else {
            find2.push(KsuctlAction::Ioctl { fd: fd2 }).push(done)
        }
    }
}

/// Every procedure runs exactly as `ksuctl_expected` says and ends with
/// `Done` carrying `ksuctl_outcome`: it fails with `ebadf` and makes no ioctl
/// when no descriptor can be had; it makes at most two ioctls, the second
/// only when the first failed with `ebadf`; an error other than `ebadf` is
/// passed on without a retry; and success carries a non-negative value.
#[verifier::spinoff_prover]
#[verifier::rlimit(50)]
pub proof fn lemma_ksuctl_run(env: KsuctlEnv, ebadf: i32)
    ensures
        ksuctl_trace(env, ebadf) == ksuctl_expected(env, ebadf),
        ksuctl_trace(env, ebadf).len() > 0,
        ksuctl_trace(env, ebadf).last() == (KsuctlAction::Done { result: ksuctl_outcome(env, ebadf) }),
        ioctl_count(ksuctl_trace(env, ebadf)) <= 2,
        acq_fd(env.cache, env) < 0 ==> ioctl_count(ksuctl_trace(env, ebadf)) == 0,
        ioctl_count(ksuctl_trace(env, ebadf)) == 2 ==> (env.first.0 < 0 && env.first.1 == ebadf),
        ksuctl_outcome(env, ebadf) matches Ok(r) ==> r >= 0,
{
    reveal_with_fuel(ksuctl_run, 2);
    reveal_with_fuel(ioctl_count, 4);
    let t = ksuctl_trace(env, ebadf);
    let head = seq![KsuctlAction::LoadCache];
    let rest1 = ksuctl_run(KsuctlState { phase: KsuctlPhase::LoadingCache, retry: false, fd: -1i32 },
        KsuctlEvent::CacheLoaded { fd: env.cache }, env, ebadf, 19);
    assert(t == head + rest1);
    lemma_acquire(false, env.cache, env, ebadf, 19);
    let steps1 = acq_steps(env.cache, env);
    let fd1 = acq_fd(env.cache, env);
    lemma_ioctl_count_add(head, rest1);
    if fd1 < 0 {
        let done = seq![KsuctlAction::Done { result: Err(ebadf) }];
        assert(rest1 == steps1 + done);
        lemma_ioctl_count_add(steps1, done);
        assert(t =~= head + steps1 + done);
        assert(t =~= ksuctl_expected(env, ebadf));
        return;
    }
    let fuel1 = (19 - steps1.len() - 1) as nat;
    let after1 = ksuctl_run(KsuctlState { phase: KsuctlPhase::Calling, retry: false, fd: fd1 },
        ioctl_answer(false, env), env, ebadf, fuel1);
    let call1 = seq![KsuctlAction::Ioctl { fd: fd1 }];
    assert(rest1 == steps1 + (call1 + after1));
    lemma_ioctl_count_add(steps1, call1 + after1);
    lemma_ioctl_count_add(call1, after1);
    lemma_after_ioctl(false, fd1, env, ebadf, fuel1);
    let (ret1, errno1) = env.first;
    if ret1 >= 0 || errno1 != ebadf {
        assert(after1.len() == 1 && after1[0] is Done);
        assert(t =~= head + steps1 + call1 + after1);
        assert(t =~= ksuctl_expected(env, ebadf));
        return;
    }
    let reset = seq![KsuctlAction::Close { fd: fd1 }, KsuctlAction::StoreCache { fd: -1i32 }, KsuctlAction::LoadCache];
    let rest2 = ksuctl_run(KsuctlState { phase: KsuctlPhase::LoadingCache, retry: true, fd: -1i32 },
        KsuctlEvent::CacheLoaded { fd: -1i32 }, env, ebadf, (fuel1 - 3) as nat);
    assert(after1 == reset + rest2);
    lemma_ioctl_count_add(reset, rest2);
    lemma_acquire(true, -1i32, env, ebadf, (fuel1 - 3) as nat);
    let steps2 = acq_steps(-1i32, env);
    let fd2 = acq_fd(-1i32, env);
    if fd2 < 0 {
        let done = seq![KsuctlAction::Done { result: Err(ebadf) }];
        assert(rest2 == steps2 + done);
        lemma_ioctl_count_add(steps2, done);
        assert(t =~= head + steps1 + call1 + reset + steps2 + done);
        assert(t =~= ksuctl_expected(env, ebadf));
        return;
    }
    let fuel2 = (fuel1 - 3 - steps2.len() - 1) as nat;
    let after2 = ksuctl_run(KsuctlState { phase: KsuctlPhase::Calling, retry: true, fd: fd2 },
        ioctl_answer(true, env), env, ebadf, fuel2);
    let call2 = seq![KsuctlAction::Ioctl { fd: fd2 }];
    assert(rest2 == steps2 + (call2 + after2));
    lemma_ioctl_count_add(steps2, call2 + after2);
    lemma_ioctl_count_add(call2, after2);
    lemma_after_ioctl(true, fd2, env, ebadf, fuel2);
    assert(after2.len() == 1 && after2[0] is Done);
    assert(t =~= head + steps1 + call1 + reset + steps2 + call2 + after2);
    assert(t =~= ksuctl_expected(env, ebadf));
}

} // verus!
