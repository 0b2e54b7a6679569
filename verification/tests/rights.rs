use wasi_types::Rights;

#[test]
fn from_bits_round_trips_every_single_right() {
    for bit in 0..28u32 {
        let raw = 1u64 << bit;
        let rights = Rights::from_bits(raw).unwrap();
        assert_eq!(rights.to_bits(), raw);
    }
}

#[test]
fn from_bits_round_trips_mixed_masks() {
    for raw in [0u64, 1, 0x42, 0x0fff_ffff, 0x0aaa_aaaa, 0x0555_5555, 0x0800_0001] {
        assert_eq!(Rights::from_bits(raw).unwrap().to_bits(), raw);
        assert_eq!(u64::from(Rights::try_from(raw).unwrap()), raw);
    }
}

#[test]
fn from_bits_rejects_every_reserved_bit() {
    for bit in 28..64u32 {
        assert_eq!(Rights::from_bits(1u64 << bit), None);
        assert_eq!(Rights::from_bits((1u64 << bit) | 0x2), None);
        assert_eq!(Rights::try_from(1u64 << bit), Err(()));
    }
    assert_eq!(Rights::from_bits(0x1000_0000), None);
    assert_eq!(Rights::from_bits(u64::MAX), None);
}

#[test]
fn named_bits_have_their_positions() {
    assert_eq!(Rights::FD_DATASYNC, 1 << 0);
    assert_eq!(Rights::FD_READ, 1 << 1);
    assert_eq!(Rights::FD_SEEK, 1 << 2);
    assert_eq!(Rights::FD_FDSTAT_SET_FLAGS, 1 << 3);
    assert_eq!(Rights::FD_SYNC, 1 << 4);
    assert_eq!(Rights::FD_TELL, 1 << 5);
    assert_eq!(Rights::FD_WRITE, 1 << 6);
    assert_eq!(Rights::FD_ADVISE, 1 << 7);
    assert_eq!(Rights::FD_ALLOCATE, 1 << 8);
    assert_eq!(Rights::PATH_CREATE_DIRECTORY, 1 << 9);
    assert_eq!(Rights::PATH_CREATE_FILE, 1 << 10);
    assert_eq!(Rights::PATH_LINK_SOURCE, 1 << 11);
    assert_eq!(Rights::PATH_LINK_TARGET, 1 << 12);
    assert_eq!(Rights::PATH_OPEN, 1 << 13);
    assert_eq!(Rights::FD_READDIR, 1 << 14);
    assert_eq!(Rights::PATH_READLINK, 1 << 15);
    assert_eq!(Rights::PATH_RENAME_SOURCE, 1 << 16);
    assert_eq!(Rights::PATH_RENAME_TARGET, 1 << 17);
    assert_eq!(Rights::PATH_FILESTAT_GET, 1 << 18);
    assert_eq!(Rights::PATH_FILESTAT_SET_SIZE, 1 << 19);
    assert_eq!(Rights::PATH_FILESTAT_SET_TIMES, 1 << 20);
    assert_eq!(Rights::FD_FILESTAT_GET, 1 << 21);
    assert_eq!(Rights::FD_FILESTAT_SET_SIZE, 1 << 22);
    assert_eq!(Rights::FD_FILESTAT_SET_TIMES, 1 << 23);
    assert_eq!(Rights::PATH_SYMLINK, 1 << 24);
    assert_eq!(Rights::PATH_REMOVE_DIRECTORY, 1 << 25);
    assert_eq!(Rights::PATH_UNLINK_FILE, 1 << 26);
    assert_eq!(Rights::POLL_FD_READWRITE, 1 << 27);
    assert_eq!(Rights::ALL_BITS, (1 << 28) - 1);
}

#[test]
fn from_bits_truncate_drops_reserved_bits() {
    assert_eq!(Rights::from_bits_truncate(u64::MAX).to_bits(), 0x0fff_ffff);
    assert_eq!(Rights::from_bits_truncate(0x1000_0002).to_bits(), 0x2);
    assert_eq!(Rights::from_bits_truncate(0x42).to_bits(), 0x42);
}

#[test]
fn empty_and_all() {
    assert_eq!(Rights::empty().to_bits(), 0);
    assert!(Rights::empty().is_empty());
    assert_eq!(Rights::all().to_bits(), 0x0fff_ffff);
    assert!(!Rights::all().is_empty());
    assert_eq!(Rights::default(), Rights::empty());
}

#[test]
fn union_and_intersection_of_masks() {
    let a = Rights::from_bits(Rights::FD_READ | Rights::FD_SEEK).unwrap();
    let b = Rights::from_bits(Rights::FD_SEEK | Rights::FD_WRITE).unwrap();
    assert_eq!(a.union(b).to_bits(), 0x46);
    assert_eq!(a.intersection(b).to_bits(), 0x4);
    assert_eq!(a.difference(b).to_bits(), 0x2);
    assert_eq!(b.difference(a).to_bits(), 0x40);
}

#[test]
fn implies_is_the_subset_test() {
    let read = Rights::from_bits(Rights::FD_READ).unwrap();
    let read_write = Rights::from_bits(Rights::FD_READ | Rights::FD_WRITE).unwrap();
    assert!(read.implies(read_write));
    assert!(!read_write.implies(read));
    assert!(read_write.contains(read));
    assert!(!read.contains(read_write));
    assert!(read.implies(read));
    assert!(Rights::empty().implies(read));
    assert!(!read.implies(Rights::empty()));
    assert!(Rights::empty().implies(Rights::empty()));
}

#[test]
fn union_and_intersection_laws_on_samples() {
    let samples = [0u64, 0x2, 0x42, 0x0fff_ffff, 0x0800_0000, 0x00f0_0f00, 0x0123_4567];
    for x in samples {
        for y in samples {
            let a = Rights::from_bits(x).unwrap();
            let b = Rights::from_bits(y).unwrap();
            assert!(a.implies(a.union(b)));
            assert!(a.intersection(b).implies(a));
            assert_eq!(a.union(b).implies(a), b.implies(a));
            assert_eq!(a.union(b), b.union(a));
            assert_eq!(a.intersection(b), b.intersection(a));
            assert_eq!(a.union(a), a);
            assert_eq!(a.intersection(a), a);
            assert_eq!(a.implies(Rights::empty()), a.is_empty());
            for z in samples {
                let c = Rights::from_bits(z).unwrap();
                assert_eq!(a.union(b).union(c), a.union(b.union(c)));
                assert_eq!(a.intersection(b).intersection(c), a.intersection(b.intersection(c)));
            }
        }
    }
}

#[test]
fn has_tests_raw_bits() {
    let rights = Rights::from_bits(Rights::FD_READ | Rights::FD_SEEK).unwrap();
    assert!(rights.has(Rights::FD_READ));
    assert!(rights.has(Rights::FD_READ | Rights::FD_SEEK));
    assert!(!rights.has(Rights::FD_WRITE));
    assert!(!rights.has(Rights::FD_READ | Rights::FD_WRITE));
    assert!(rights.has(0));
    assert!(!Rights::all().has(1 << 28));
}
