use eventfd::codec::ByteOrder;
use eventfd::error::{CreationCause, CreationError, Failure, IoError};
use eventfd::handle::{Creation, EventFD};
use eventfd::syscall::{Reply, Syscall};
use eventfd::EfdFlags;

/// A handle on descriptor `fd`, made by a creation that is answered at once.
fn handle_on(fd: i32, flags: EfdFlags) -> EventFD {
    match EventFD::new(0, flags) {
        Creation::Call(_, pending) => match pending.resume(Reply::Descriptor(fd)) {
            Creation::Done(Ok(handle)) => handle,
            other => panic!("unexpected {:?}", other),
        },
        other => panic!("unexpected {:?}", other),
    }
}

fn creation_error(creation: Creation) -> CreationError {
    match creation {
        Creation::Done(Err(error)) => error,
        other => panic!("unexpected {:?}", other),
    }
}

#[test]
fn creation_asks_for_the_counter_first() {
    let flags = EfdFlags::semaphore();
    match EventFD::new(10, flags) {
        Creation::Call(call, _) => assert_eq!(call, Syscall::Eventfd { initval: 10, flags }),
        other => panic!("unexpected {:?}", other),
    }
    match EventFD::new(u32::MAX as u64, EfdFlags::empty()) {
        Creation::Call(call, _) => {
            assert_eq!(call, Syscall::Eventfd { initval: u32::MAX, flags: EfdFlags::empty() })
        }
        other => panic!("unexpected {:?}", other),
    }
}

#[test]
fn creation_with_small_value_takes_one_call() {
    let flags = EfdFlags::nonblock();
    let pending = match EventFD::new(7, flags) {
        Creation::Call(_, pending) => pending,
        other => panic!("unexpected {:?}", other),
    };
    match pending.resume(Reply::Descriptor(5)) {
        Creation::Done(Ok(handle)) => {
            assert_eq!(handle.as_raw_fd(), 5);
            assert_eq!(handle.flags(), flags);
        }
        other => panic!("unexpected {:?}", other),
    }
}

#[test]
fn creation_with_large_value_writes_the_rest() {
    let initval = u32::MAX as u64 + 1000;
    let flags = EfdFlags::empty();
    let pending = match EventFD::new(initval, flags) {
        Creation::Call(call, pending) => {
            assert_eq!(call, Syscall::Eventfd { initval: u32::MAX, flags });
            pending
        }
        other => panic!("unexpected {:?}", other),
    };
    let pending = match pending.resume(Reply::Descriptor(3)) {
        Creation::Call(call, pending) => {
            assert_eq!(call, Syscall::Write { fd: 3, value: 1000 });
            pending
        }
        other => panic!("unexpected {:?}", other),
    };
    match pending.resume(Reply::Written) {
        Creation::Done(Ok(handle)) => {
            assert_eq!(handle.as_raw_fd(), 3);
            assert_eq!(handle.flags(), flags);
        }
        other => panic!("unexpected {:?}", other),
    }
}

#[test]
fn creation_with_largest_value() {
    let pending = match EventFD::new(u64::MAX - 1, EfdFlags::empty()) {
        Creation::Call(_, pending) => pending,
        other => panic!("unexpected {:?}", other),
    };
    match pending.resume(Reply::Descriptor(0)) {
        Creation::Call(call, _) => {
            assert_eq!(call, Syscall::Write { fd: 0, value: u64::MAX - 1 - u32::MAX as u64 })
        }
        other => panic!("unexpected {:?}", other),
    }
}

#[test]
fn creation_refuses_value_out_of_range() {
    let error = creation_error(EventFD::new(u64::MAX, EfdFlags::empty()));
    assert_eq!(error, CreationError { cause: CreationCause::InvalidArgument });
}

#[test]
fn creation_reports_typed_causes() {
    let cases = [
        (Reply::Failed(Failure::Os(22)), CreationCause::InvalidArgument),
        (Reply::Failed(Failure::Os(24)), CreationCause::DescriptorLimit),
        (Reply::Failed(Failure::Os(23)), CreationCause::SystemLimit),
        (Reply::Failed(Failure::Os(19)), CreationCause::NoDevice),
        (Reply::Failed(Failure::Os(12)), CreationCause::OutOfMemory),
        (Reply::Failed(Failure::Os(5)), CreationCause::Other(Failure::Os(5))),
        (Reply::Failed(Failure::Unspecified), CreationCause::Other(Failure::Unspecified)),
        (Reply::Descriptor(-1), CreationCause::Other(Failure::Mismatch)),
        (Reply::Value(3), CreationCause::Other(Failure::Mismatch)),
        (Reply::Written, CreationCause::Other(Failure::Mismatch)),
        (Reply::Closed, CreationCause::Other(Failure::Mismatch)),
    ];
    for (reply, cause) in cases {
        let pending = match EventFD::new(1, EfdFlags::empty()) {
            Creation::Call(_, pending) => pending,
            other => panic!("unexpected {:?}", other),
        };
        assert_eq!(creation_error(pending.resume(reply)), CreationError { cause });
    }
}

#[test]
fn creation_closes_the_descriptor_when_the_write_fails() {
    let cases = [
        (Reply::Failed(Failure::Os(22)), CreationCause::InvalidArgument),
        (Reply::Failed(Failure::Os(11)), CreationCause::Other(Failure::Os(11))),
        (Reply::Closed, CreationCause::Other(Failure::Mismatch)),
        (Reply::Value(1), CreationCause::Other(Failure::Mismatch)),
        (Reply::Descriptor(9), CreationCause::Other(Failure::Mismatch)),
    ];
    for (reply, cause) in cases {
        let pending = match EventFD::new(1 << 40, EfdFlags::empty()) {
            Creation::Call(_, pending) => pending,
            other => panic!("unexpected {:?}", other),
        };
        let pending = match pending.resume(Reply::Descriptor(4)) {
            Creation::Call(_, pending) => pending,
            other => panic!("unexpected {:?}", other),
        };
        let pending = match pending.resume(reply) {
            Creation::Call(call, pending) => {
                assert_eq!(call, Syscall::Close { fd: 4 });
                pending
            }
            other => panic!("unexpected {:?}", other),
        };
        // whatever the close says, the error of the write is reported
        assert_eq!(creation_error(pending.resume(Reply::Closed)), CreationError { cause });
    }
}

#[test]
fn read_call_and_replies() {
    let efd = handle_on(6, EfdFlags::empty());
    assert_eq!(efd.read_call(), Syscall::Read { fd: 6 });
    assert_eq!(efd.read(Reply::Value(10)), Ok(10));
    assert_eq!(efd.read(Reply::Value(0)), Ok(0));
    assert_eq!(efd.read(Reply::Value(u64::MAX)), Ok(u64::MAX));
    assert_eq!(efd.read(Reply::Failed(Failure::Os(11))), Err(IoError::WouldBlock));
    assert_eq!(efd.read(Reply::Failed(Failure::Os(9))), Err(IoError::Other(Failure::Os(9))));
    assert_eq!(
        efd.read(Reply::Failed(Failure::Unspecified)),
        Err(IoError::Other(Failure::Unspecified))
    );
    assert_eq!(efd.read(Reply::Failed(Failure::Mismatch)), Err(IoError::Other(Failure::Mismatch)));
    assert_eq!(efd.read(Reply::Written), Err(IoError::Other(Failure::Mismatch)));
    assert_eq!(efd.read(Reply::Closed), Err(IoError::Other(Failure::Mismatch)));
    assert_eq!(efd.read(Reply::Descriptor(1)), Err(IoError::Other(Failure::Mismatch)));
}

#[test]
fn write_call_and_replies() {
    let efd = handle_on(6, EfdFlags::empty());
    assert_eq!(efd.write_call(5), Syscall::Write { fd: 6, value: 5 });
    assert_eq!(efd.write_call(u64::MAX), Syscall::Write { fd: 6, value: u64::MAX });
    assert_eq!(efd.write(Reply::Written), Ok(()));
    assert_eq!(efd.write(Reply::Failed(Failure::Os(11))), Err(IoError::WouldBlock));
    assert_eq!(efd.write(Reply::Failed(Failure::Os(22))), Err(IoError::Other(Failure::Os(22))));
    assert_eq!(efd.write(Reply::Value(5)), Err(IoError::Other(Failure::Mismatch)));
    assert_eq!(efd.write(Reply::Closed), Err(IoError::Other(Failure::Mismatch)));
    assert_eq!(efd.write(Reply::Descriptor(1)), Err(IoError::Other(Failure::Mismatch)));
}

#[test]
fn duplicate_call_and_replies() {
    let flags = EfdFlags::semaphore().union(EfdFlags::nonblock());
    let efd = handle_on(6, flags);
    assert_eq!(efd.dup_call(), Syscall::Dup { fd: 6 });
    let twin = efd.duplicate(Reply::Descriptor(7)).unwrap();
    assert_eq!(twin.as_raw_fd(), 7);
    assert_eq!(twin.flags(), flags);
    assert_eq!(efd.as_raw_fd(), 6);
    let zero = efd.duplicate(Reply::Descriptor(0)).unwrap();
    assert_eq!(zero.as_raw_fd(), 0);
    match efd.duplicate(Reply::Descriptor(-1)) {
        Err(error) => assert_eq!(error, IoError::Other(Failure::Mismatch)),
        Ok(handle) => panic!("unexpected {:?}", handle),
    }
    match efd.duplicate(Reply::Failed(Failure::Os(24))) {
        Err(error) => assert_eq!(error, IoError::Other(Failure::Os(24))),
        Ok(handle) => panic!("unexpected {:?}", handle),
    }
    match efd.duplicate(Reply::Failed(Failure::Os(11))) {
        Err(error) => assert_eq!(error, IoError::WouldBlock),
        Ok(handle) => panic!("unexpected {:?}", handle),
    }
    match efd.duplicate(Reply::Written) {
        Err(error) => assert_eq!(error, IoError::Other(Failure::Mismatch)),
        Ok(handle) => panic!("unexpected {:?}", handle),
    }
}

#[test]
fn close_names_the_descriptor() {
    let efd = handle_on(12, EfdFlags::empty());
    assert_eq!(efd.close(), Syscall::Close { fd: 12 });
}

#[test]
fn replies_from_raw_results() {
    assert_eq!(Reply::from_read(ByteOrder::Little, &[5, 0, 0, 0, 0, 0, 0, 0]), Reply::Value(5));
    assert_eq!(Reply::from_read(ByteOrder::Big, &[0, 0, 0, 0, 0, 0, 1, 0]), Reply::Value(256));
    assert_eq!(
        Reply::from_read(ByteOrder::Little, &[5, 0, 0, 0]),
        Reply::Failed(Failure::Mismatch)
    );
    assert_eq!(Reply::from_read(ByteOrder::Big, &[]), Reply::Failed(Failure::Mismatch));
    assert_eq!(Reply::from_written(8), Reply::Written);
    assert_eq!(Reply::from_written(0), Reply::Failed(Failure::Mismatch));
    assert_eq!(Reply::from_written(7), Reply::Failed(Failure::Mismatch));
    assert_eq!(Reply::from_written(9), Reply::Failed(Failure::Mismatch));
    assert_eq!(Reply::from_descriptor(0), Reply::Descriptor(0));
    assert_eq!(Reply::from_descriptor(i32::MAX), Reply::Descriptor(i32::MAX));
    assert_eq!(Reply::from_descriptor(-1), Reply::Failed(Failure::Mismatch));
}

#[test]
fn payload_is_the_value_on_the_wire() {
    let write = Syscall::Write { fd: 3, value: 0x0102 };
    assert_eq!(write.payload(ByteOrder::Little), Some(vec![2, 1, 0, 0, 0, 0, 0, 0]));
    assert_eq!(write.payload(ByteOrder::Big), Some(vec![0, 0, 0, 0, 0, 0, 1, 2]));
    assert_eq!(Syscall::Read { fd: 3 }.payload(ByteOrder::Little), None);
    assert_eq!(Syscall::Dup { fd: 3 }.payload(ByteOrder::Little), None);
    assert_eq!(Syscall::Close { fd: 3 }.payload(ByteOrder::Big), None);
    assert_eq!(
        Syscall::Eventfd { initval: 1, flags: EfdFlags::empty() }.payload(ByteOrder::Big),
        None
    );
    for order in [ByteOrder::Little, ByteOrder::Big] {
        let bytes = Syscall::Write { fd: 0, value: 77 }.payload(order).unwrap();
        assert_eq!(Reply::from_read(order, &bytes), Reply::Value(77));
    }
}
