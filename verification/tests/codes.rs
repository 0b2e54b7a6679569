use wasi_types::{Advice, ClockId, EventRwFlags, EventType, FileType, Signal, Whence};

#[test]
fn file_type_eight_is_rejected() {
    assert_eq!(FileType::from_raw(8), None);
    assert_eq!(FileType::try_from(8u8), Err(()));
    assert_eq!(FileType::from_raw(255), None);
}

#[test]
fn file_type_numbers() {
    assert_eq!(FileType::Unknown.to_raw(), 0);
    assert_eq!(FileType::BlockDevice.to_raw(), 1);
    assert_eq!(FileType::CharacterDevice.to_raw(), 2);
    assert_eq!(FileType::Directory.to_raw(), 3);
    assert_eq!(FileType::RegularFile.to_raw(), 4);
    assert_eq!(FileType::SocketDgram.to_raw(), 5);
    assert_eq!(FileType::SocketStream.to_raw(), 6);
    assert_eq!(FileType::SymbolicLink.to_raw(), 7);
    assert_eq!(FileType::from_raw(7), Some(FileType::SymbolicLink));
    assert_eq!(FileType::try_from(3u8), Ok(FileType::Directory));
    assert_eq!(u8::from(FileType::RegularFile), 4);
    for raw in 0..8u8 {
        assert_eq!(FileType::from_raw(raw).unwrap().to_raw(), raw);
    }
}

#[test]
fn only_regular_files_are_always_ready() {
    for raw in 0..8u8 {
        let ty = FileType::from_raw(raw).unwrap();
        assert_eq!(ty.is_always_ready(), ty == FileType::RegularFile);
    }
}

#[test]
fn advice_numbers() {
    assert_eq!(Advice::Normal.to_raw(), 0);
    assert_eq!(Advice::Sequential.to_raw(), 1);
    assert_eq!(Advice::Random.to_raw(), 2);
    assert_eq!(Advice::DontNeed.to_raw(), 3);
    assert_eq!(Advice::NoReuse.to_raw(), 4);
    assert_eq!(Advice::WillNeed.to_raw(), 5);
    assert_eq!(u8::from(Advice::WillNeed), 5);
    assert_eq!(Advice::from_raw(5), Some(Advice::WillNeed));
    assert_eq!(Advice::from_raw(6), None);
    assert_eq!(Advice::try_from(6u8), Err(()));
    for raw in 0..6u8 {
        assert_eq!(Advice::from_raw(raw).unwrap().to_raw(), raw);
    }
}

#[test]
fn clock_id_numbers() {
    assert_eq!(ClockId::RealTime.to_raw(), 0);
    assert_eq!(ClockId::Monotonic.to_raw(), 1);
    assert_eq!(ClockId::ProcessCpuTime.to_raw(), 2);
    assert_eq!(ClockId::ThreadCpuTime.to_raw(), 3);
    assert_eq!(u32::from(ClockId::ThreadCpuTime), 3);
    assert_eq!(ClockId::from_raw(1), Some(ClockId::Monotonic));
    assert_eq!(ClockId::from_raw(4), None);
    assert_eq!(ClockId::from_raw(u32::MAX), None);
    assert_eq!(ClockId::try_from(4u32), Err(()));
    assert_eq!(ClockId::try_from(2u32), Ok(ClockId::ProcessCpuTime));
}

#[test]
fn whence_numbers() {
    assert_eq!(Whence::Start.to_raw(), 0);
    assert_eq!(Whence::Current.to_raw(), 1);
    assert_eq!(Whence::End.to_raw(), 2);
    assert_eq!(u8::from(Whence::End), 2);
    assert_eq!(Whence::from_raw(2), Some(Whence::End));
    assert_eq!(Whence::from_raw(3), None);
    assert_eq!(Whence::try_from(3u8), Err(()));
}

#[test]
fn event_type_numbers() {
    assert_eq!(EventType::Clock.to_raw(), 0);
    assert_eq!(EventType::FdRead.to_raw(), 1);
    assert_eq!(EventType::FdWrite.to_raw(), 2);
    assert_eq!(u8::from(EventType::FdWrite), 2);
    assert_eq!(EventType::from_raw(1), Some(EventType::FdRead));
    assert_eq!(EventType::from_raw(3), None);
    assert_eq!(EventType::try_from(3u8), Err(()));
}

#[test]
fn event_rw_flags_numbers() {
    assert_eq!(EventRwFlags::Empty.to_raw(), 0);
    assert_eq!(EventRwFlags::Hangup.to_raw(), 1);
    assert_eq!(u16::from(EventRwFlags::Hangup), 1);
    assert_eq!(EventRwFlags::from_raw(1), Some(EventRwFlags::Hangup));
    assert_eq!(EventRwFlags::from_raw(2), None);
    assert_eq!(EventRwFlags::try_from(2u16), Err(()));
}

#[test]
fn signal_numbers() {
    assert_eq!(Signal::Reserved.to_raw(), 0);
    assert_eq!(Signal::Abort.to_raw(), 1);
    assert_eq!(Signal::Kill.to_raw(), 10);
    assert_eq!(Signal::Term.to_raw(), 16);
    assert_eq!(Signal::XFSz.to_raw(), 26);
    assert_eq!(u8::from(Signal::Usr1), 22);
    assert_eq!(Signal::from_raw(26), Some(Signal::XFSz));
    assert_eq!(Signal::from_raw(27), None);
    assert_eq!(Signal::try_from(27u8), Err(()));
    for raw in 0..27u8 {
        assert_eq!(Signal::from_raw(raw).unwrap().to_raw(), raw);
    }
}
