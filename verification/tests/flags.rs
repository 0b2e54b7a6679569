use wasi_types::{FdFlags, LookupFlags, OpenFlags, RiFlags, RoFlags, SdFlags, SetTimeFlags, SiFlags};

#[test]
fn fd_flags_decode() {
    for raw in 0..=0x1fu16 {
        assert_eq!(FdFlags::from_bits(raw).unwrap().to_bits(), raw);
        assert_eq!(u16::from(FdFlags::try_from(raw).unwrap()), raw);
    }
    assert_eq!(FdFlags::from_bits(0x20), None);
    assert_eq!(FdFlags::from_bits(0x21), None);
    assert_eq!(FdFlags::from_bits(u16::MAX), None);
    assert_eq!(FdFlags::try_from(0x20u16), Err(()));
    assert_eq!(FdFlags::APPEND, 1);
    assert_eq!(FdFlags::DSYNC, 2);
    assert_eq!(FdFlags::NONBLOCK, 4);
    assert_eq!(FdFlags::RSYNC, 8);
    assert_eq!(FdFlags::SYNC, 16);
    assert_eq!(FdFlags::default(), FdFlags::empty());
}

#[test]
fn fd_flags_set_operations() {
    let a = FdFlags::from_bits(FdFlags::APPEND | FdFlags::SYNC).unwrap();
    let b = FdFlags::from_bits(FdFlags::SYNC | FdFlags::NONBLOCK).unwrap();
    assert_eq!(a.union(b).to_bits(), 0x15);
    assert_eq!(a.intersection(b).to_bits(), 0x10);
    assert!(a.union(b).contains(a));
    assert!(!a.contains(b));
    assert!(a.contains(FdFlags::empty()));
    assert!(FdFlags::empty().is_empty());
    assert!(!a.is_empty());
}

#[test]
fn open_flags_decode() {
    for raw in 0..=0xfu16 {
        assert_eq!(OpenFlags::from_bits(raw).unwrap().to_bits(), raw);
    }
    assert_eq!(OpenFlags::from_bits(0x10), None);
    assert_eq!(OpenFlags::try_from(0x10u16), Err(()));
    assert_eq!(OpenFlags::CREATE, 1);
    assert_eq!(OpenFlags::DIRECTORY, 2);
    assert_eq!(OpenFlags::EXCL, 4);
    assert_eq!(OpenFlags::TRUNC, 8);
    assert_eq!(u16::from(OpenFlags::from_bits(5).unwrap()), 5);
}

#[test]
fn lookup_flags_decode() {
    assert_eq!(LookupFlags::from_bits(0).unwrap().to_bits(), 0);
    assert_eq!(LookupFlags::from_bits(1).unwrap().to_bits(), 1);
    assert_eq!(LookupFlags::from_bits(2), None);
    assert_eq!(LookupFlags::from_bits(u32::MAX), None);
    assert_eq!(LookupFlags::try_from(3u32), Err(()));
    assert_eq!(LookupFlags::SYMLINK_FOLLOW, 1);
    assert_eq!(u32::from(LookupFlags::from_bits(1).unwrap()), 1);
}

#[test]
fn set_time_flags_decode() {
    for raw in 0..=0xfu16 {
        assert_eq!(SetTimeFlags::from_bits(raw).unwrap().to_bits(), raw);
    }
    assert_eq!(SetTimeFlags::from_bits(0x10), None);
    assert_eq!(SetTimeFlags::try_from(0x100u16), Err(()));
    assert_eq!(SetTimeFlags::ATIME, 1);
    assert_eq!(SetTimeFlags::ATIME_NOW, 2);
    assert_eq!(SetTimeFlags::MTIME, 4);
    assert_eq!(SetTimeFlags::MTIME_NOW, 8);
}

#[test]
fn sd_flags_decode() {
    for raw in 0..=3u8 {
        assert_eq!(SdFlags::from_bits(raw).unwrap().to_bits(), raw);
    }
    assert_eq!(SdFlags::from_bits(4), None);
    assert_eq!(SdFlags::try_from(255u8), Err(()));
    assert_eq!(SdFlags::RD, 1);
    assert_eq!(SdFlags::WR, 2);
    let both = SdFlags::from_bits(1).unwrap().union(SdFlags::from_bits(2).unwrap());
    assert_eq!(u8::from(both), 3);
}

#[test]
fn si_flags_accept_zero_only() {
    assert_eq!(SiFlags::from_bits(0).unwrap().to_bits(), 0);
    assert_eq!(SiFlags::from_bits(1), None);
    assert_eq!(SiFlags::from_bits(0x8000), None);
    assert_eq!(SiFlags::try_from(1u16), Err(()));
    assert_eq!(SiFlags::MUST_BE_ZERO, 0);
    assert!(SiFlags::default().is_empty());
}

#[test]
fn ri_and_ro_flags_decode() {
    for raw in 0..=3u16 {
        assert_eq!(RiFlags::from_bits(raw).unwrap().to_bits(), raw);
    }
    assert_eq!(RiFlags::from_bits(4), None);
    assert_eq!(RiFlags::RECV_PEEK, 1);
    assert_eq!(RiFlags::RECV_WAITALL, 2);
    assert_eq!(RoFlags::from_bits(1).unwrap().to_bits(), 1);
    assert_eq!(RoFlags::from_bits(2), None);
    assert_eq!(RoFlags::try_from(2u16), Err(()));
    assert_eq!(RoFlags::RECV_DATA_TRUNCATED, 1);
    let peek = RiFlags::from_bits(1).unwrap();
    let all = RiFlags::from_bits(3).unwrap();
    assert_eq!(peek.intersection(all), peek);
    assert_eq!(peek.union(all), all);
}
