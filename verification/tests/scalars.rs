use std::cmp::Ordering;
use wasi_types::{
    Device, DirCookie, DirEnt, ErrNo, Fd, FdFlags, FdStat, FileStat, FileType, Inode, IoVec,
    PreopenType, Prestat, Rights, Timestamp,
};

#[test]
fn one_second_is_a_thousand_million_nanoseconds() {
    assert_eq!(Timestamp::from_sec(1).as_nanos(), 1_000_000_000);
}

#[test]
fn timestamp_conversions() {
    assert_eq!(Timestamp::from_nanos(0).as_nanos(), 0);
    assert_eq!(Timestamp::from_nanos(u64::MAX).as_nanos(), u64::MAX);
    assert_eq!(Timestamp::from_sec(0).as_nanos(), 0);
    assert_eq!(Timestamp::from_sec(3).as_nanos(), 3_000_000_000);
    assert_eq!(Timestamp::from_sec(18_446_744_073).as_nanos(), 18_446_744_073_000_000_000);
    assert_eq!(Timestamp::from_sec(2), Timestamp::from_nanos(2_000_000_000));
    assert_eq!(Timestamp::from(5u64).as_nanos(), 5);
    assert_eq!(u64::from(Timestamp::from_nanos(17)), 17);
}

#[test]
fn checked_from_sec_refuses_what_does_not_fit() {
    assert_eq!(Timestamp::checked_from_sec(1), Some(Timestamp::from_nanos(1_000_000_000)));
    assert_eq!(
        Timestamp::checked_from_sec(18_446_744_073),
        Some(Timestamp::from_nanos(18_446_744_073_000_000_000))
    );
    assert_eq!(Timestamp::checked_from_sec(18_446_744_074), None);
    assert_eq!(Timestamp::checked_from_sec(u64::MAX), None);
    assert_eq!(Timestamp::MAX_SEC, u64::MAX / Timestamp::NANOS_PER_SEC);
}

#[test]
fn dir_cookie_start_is_zero() {
    assert_eq!(DirCookie::start(), DirCookie(0));
    assert_eq!(DirCookie::start().to_raw(), 0);
    assert_eq!(u64::from(DirCookie(9)), 9);
    assert_eq!(DirCookie::from(9u64), DirCookie(9));
}

#[test]
fn descriptors_are_ordered_by_number() {
    assert!(Fd(1) < Fd(2));
    assert!(Fd(2) > Fd(1));
    assert!(Fd(2) <= Fd(2));
    assert_eq!(Fd(1).partial_cmp(&Fd(2)), Some(Ordering::Less));
    assert_eq!(Fd(2).partial_cmp(&Fd(2)), Some(Ordering::Equal));
    assert_eq!(Fd(3).partial_cmp(&Fd(2)), Some(Ordering::Greater));
    assert_eq!(Fd(1).cmp(&Fd(2)), Ordering::Less);
    assert_eq!(Fd(7).cmp(&Fd(7)), Ordering::Equal);
    assert_eq!(Fd(9).cmp(&Fd(2)), Ordering::Greater);
    assert_eq!(Fd::from(4u32), Fd(4));
    assert_eq!(u32::from(Fd(4)), 4);
    assert_eq!(Fd::STDIN, 0);
    assert_eq!(Fd::STDOUT, 1);
    assert_eq!(Fd::STDERR, 2);
}

#[test]
fn inodes_are_ordered_by_number() {
    assert!(Inode(1) < Inode(2));
    assert_eq!(Inode(5).partial_cmp(&Inode(5)), Some(Ordering::Equal));
    assert_eq!(Inode(6).partial_cmp(&Inode(5)), Some(Ordering::Greater));
    assert_eq!(Inode(4).cmp(&Inode(5)), Ordering::Less);
    assert_eq!(Inode::from(4u64), Inode(4));
    assert_eq!(u64::from(Inode(4)), 4);
}

#[test]
fn devices_wrap_their_number() {
    assert_eq!(Device::from(1u64), Device::from_raw(1));
    assert_ne!(Device::from_raw(2), Device::from_raw(1));
    assert_eq!(Device::from_raw(3).to_raw(), 3);
    assert_eq!(u64::from(Device::from_raw(3)), 3);
}

fn stat(device: u64, inode: u64) -> FileStat {
    FileStat {
        device: Device::from_raw(device),
        inode: Inode(inode),
        file_type: FileType::RegularFile,
        num_links: 1,
        file_size: 100,
        atime: Timestamp::from_nanos(1),
        mtime: Timestamp::from_nanos(2),
        ctime: Timestamp::from_nanos(3),
    }
}

#[test]
fn file_stats_of_one_file() {
    assert!(stat(1, 2).same_file(&stat(1, 2)));
    assert!(!stat(1, 2).same_file(&stat(1, 3)));
    assert!(!stat(1, 2).same_file(&stat(4, 2)));
    assert_eq!(stat(1, 2), stat(1, 2));
}

#[test]
fn fd_stat_gates_operations_by_its_base_rights() {
    let fd = FdStat {
        file_type: FileType::Directory,
        flags: FdFlags::empty(),
        rights_base: Rights::from_bits(Rights::FD_READDIR | Rights::PATH_OPEN).unwrap(),
        rights_inheriting: Rights::from_bits(Rights::FD_READ | Rights::FD_WRITE).unwrap(),
    };
    let open = Rights::from_bits(Rights::PATH_OPEN).unwrap();
    let read = Rights::from_bits(Rights::FD_READ).unwrap();
    let seek = Rights::from_bits(Rights::FD_SEEK).unwrap();
    assert!(fd.allows(open));
    assert!(!fd.allows(read));
    assert_eq!(fd.require(open), Ok(()));
    assert_eq!(fd.require(read), Err(ErrNo::NotCapable));
    assert_eq!(fd.require(Rights::empty()), Ok(()));
    assert!(fd.may_grant(read));
    assert!(!fd.may_grant(open));
    assert!(!fd.may_grant(seek));
    assert!(!fd.may_grant(read.union(seek)));
}

#[test]
fn records_hold_their_fields() {
    let ent =
        DirEnt { next: DirCookie(1), inode: Inode(2), name_len: 3, file_type: FileType::Directory };
    assert_eq!(ent.next, DirCookie(1));
    assert_eq!(ent.name_len, 3);
    let iov = IoVec { buf: 16, len: 4 };
    assert_eq!(iov, IoVec { buf: 16, len: 4 });
    let pre = Prestat { resource_type: PreopenType::Dir { name_len: 5 } };
    assert_eq!(pre.resource_type, PreopenType::Dir { name_len: 5 });
}
