use ksud_susfs::driver::{parse_fd_name, scan_driver_fd, FdEntry, Ksuctl, KsuctlAction, KsuctlEvent};

#[test]
fn parse_fd_name_matches_std() {
    let cases = [
        "0", "7", "+5", "-3", "+", "-", "", "12a", "a1", " 1", "1 ", "007", "--1", "+-1",
        "2147483647", "2147483648", "-2147483648", "-2147483649", "99999999999999999999",
        "-0", "+0", "٣",
    ];
    for c in cases {
        assert_eq!(parse_fd_name(c), c.parse::<i32>().ok(), "case {:?}", c);
    }
}

#[test]
fn parse_fd_name_values() {
    assert_eq!(parse_fd_name("2147483647"), Some(i32::MAX));
    assert_eq!(parse_fd_name("-2147483648"), Some(i32::MIN));
    assert_eq!(parse_fd_name("2147483648"), None);
    assert_eq!(parse_fd_name("42"), Some(42));
}

fn entry(name: &str, target: Option<&str>) -> FdEntry {
    FdEntry { name: name.to_string(), target: target.map(|t| t.to_string()) }
}

#[test]
fn scan_finds_first_driver_descriptor() {
    let entries = vec![
        entry(".", None),
        entry("0", Some("/dev/null")),
        entry("x", Some("anon_inode:[ksu_driver]")),
        entry("5", Some("anon_inode:[ksu_driver]")),
        entry("7", Some("anon_inode:[ksu_driver]")),
    ];
    assert_eq!(scan_driver_fd(&entries), Some(5));
}

#[test]
fn scan_needs_the_whole_marker() {
    let entries = vec![
        entry("3", Some("anon_inode:[ksu_drive]")),
        entry("4", None),
        entry("5", Some("[ksu_driver")),
    ];
    assert_eq!(scan_driver_fd(&entries), None);
    assert_eq!(scan_driver_fd(&vec![]), None);
    assert_eq!(scan_driver_fd(&vec![entry("9", Some("[ksu_driver]"))]), Some(9));
}

/// Runs a procedure, answering each action from the given responses;
/// returns the actions asked for and the final cache.
fn run(
    mut cache: i32,
    scan: Option<i32>,
    prctl: i32,
    reboot: i32,
    ioctls: &[(i32, i32)],
) -> (Vec<KsuctlAction>, i32) {
    let mut m = Ksuctl::new();
    let mut ev = KsuctlEvent::Begin;
    let mut actions = Vec::new();
    let mut ioctl_n = 0;
    loop {
        let a = m.step(ev);
        actions.push(a);
        ev = match a {
            KsuctlAction::LoadCache => KsuctlEvent::CacheLoaded { fd: cache },
            KsuctlAction::ScanFds => KsuctlEvent::Scanned { found: scan },
            KsuctlAction::Prctl => KsuctlEvent::SyscallDone { fd: prctl },
            KsuctlAction::Reboot { fd } => KsuctlEvent::SyscallDone { fd: if reboot == i32::MIN { fd } else { reboot } },
            KsuctlAction::StoreCache { fd } => {
                cache = fd;
                KsuctlEvent::CacheStored
            }
            KsuctlAction::Ioctl { .. } => {
                let (ret, errno) = ioctls[ioctl_n];
                ioctl_n += 1;
                KsuctlEvent::IoctlDone { ret, errno }
            }
            KsuctlAction::Close { .. } => KsuctlEvent::Closed,
            KsuctlAction::Done { .. } => return (actions, cache),
        };
    }
}

#[test]
fn cached_descriptor_is_used_directly() {
    let (a, cache) = run(3, None, -1, -1, &[(0, 0)]);
    assert_eq!(a, vec![KsuctlAction::LoadCache, KsuctlAction::Ioctl { fd: 3 }, KsuctlAction::Done { result: Ok(0) }]);
    assert_eq!(cache, 3);
}

#[test]
fn scanned_descriptor_is_cached() {
    let (a, cache) = run(-1, Some(8), -1, -1, &[(4, 0)]);
    assert_eq!(a, vec![
        KsuctlAction::LoadCache,
        KsuctlAction::ScanFds,
        KsuctlAction::StoreCache { fd: 8 },
        KsuctlAction::Ioctl { fd: 8 },
        KsuctlAction::Done { result: Ok(4) },
    ]);
    assert_eq!(cache, 8);
}

#[test]
fn prctl_then_reboot_fallbacks() {
    let (a, _) = run(-1, None, 6, -1, &[(0, 0)]);
    assert_eq!(&a[..4], &[KsuctlAction::LoadCache, KsuctlAction::ScanFds, KsuctlAction::Prctl, KsuctlAction::StoreCache { fd: 6 }]);
    let (a, cache) = run(-1, None, -1, 11, &[(0, 0)]);
    assert_eq!(&a[2..5], &[KsuctlAction::Prctl, KsuctlAction::Reboot { fd: -1 }, KsuctlAction::StoreCache { fd: 11 }]);
    assert_eq!(cache, 11);
}

#[test]
fn no_driver_is_a_bad_descriptor_error() {
    let (a, cache) = run(-1, None, -1, -1, &[]);
    assert_eq!(a.last(), Some(&KsuctlAction::Done { result: Err(libc::EBADF) }));
    assert_eq!(cache, -1);
    assert!(!a.iter().any(|x| matches!(x, KsuctlAction::Ioctl { .. })));
}

#[test]
fn other_errors_are_returned_without_retry() {
    let (a, cache) = run(3, None, -1, -1, &[(-1, libc::EINVAL)]);
    assert_eq!(a, vec![KsuctlAction::LoadCache, KsuctlAction::Ioctl { fd: 3 }, KsuctlAction::Done { result: Err(libc::EINVAL) }]);
    assert_eq!(cache, 3);
}

#[test]
fn stale_descriptor_is_closed_reacquired_and_retried_once() {
    let (a, cache) = run(3, Some(9), -1, -1, &[(-1, libc::EBADF), (7, 0)]);
    assert_eq!(a, vec![
        KsuctlAction::LoadCache,
        KsuctlAction::Ioctl { fd: 3 },
        KsuctlAction::Close { fd: 3 },
        KsuctlAction::StoreCache { fd: -1 },
        KsuctlAction::LoadCache,
        KsuctlAction::ScanFds,
        KsuctlAction::StoreCache { fd: 9 },
        KsuctlAction::Ioctl { fd: 9 },
        KsuctlAction::Done { result: Ok(7) },
    ]);
    assert_eq!(cache, 9);
}

#[test]
fn failed_retry_reports_the_first_error() {
    let (a, _) = run(3, Some(9), -1, -1, &[(-1, libc::EBADF), (-1, libc::EBADF)]);
    let ioctls = a.iter().filter(|x| matches!(x, KsuctlAction::Ioctl { .. })).count();
    assert_eq!(ioctls, 2);
    assert_eq!(a.last(), Some(&KsuctlAction::Done { result: Err(libc::EBADF) }));
    let (a, _) = run(3, Some(9), -1, -1, &[(-1, libc::EBADF), (-1, libc::EIO)]);
    assert_eq!(a.last(), Some(&KsuctlAction::Done { result: Err(libc::EBADF) }));
}

#[test]
fn retry_without_driver_fails() {
    let (a, cache) = run(3, None, -1, -1, &[(-1, libc::EBADF)]);
    assert_eq!(a.last(), Some(&KsuctlAction::Done { result: Err(libc::EBADF) }));
    assert_eq!(cache, -1);
}

#[test]
fn bad_descriptor_error_is_errno_nine() {
    let (a, _) = run(-1, None, -1, -1, &[]);
    assert_eq!(a.last(), Some(&KsuctlAction::Done { result: Err(9) }));
    let (a, _) = run(4, None, -1, -1, &[(-1, 9)]);
    assert!(a.contains(&KsuctlAction::Close { fd: 4 }));
}
