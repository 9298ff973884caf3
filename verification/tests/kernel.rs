use eventfd::error::{CreationCause, CreationError, Failure, IoError};
use eventfd::kernel::{Answer, Counter, Kernel};
use eventfd::syscall::{Reply, Syscall, MAX_VALUE};
use eventfd::EfdFlags;

fn both() -> EfdFlags {
    EfdFlags::semaphore().union(EfdFlags::nonblock())
}

#[test]
fn counter_read_takes_all() {
    let mut c = Counter::new(10, EfdFlags::empty());
    assert_eq!(c.read(), Answer::Ready(Reply::Value(10)));
    assert_eq!(c.value, 0);
    assert_eq!(c.read(), Answer::Blocked);
    assert_eq!(c.value, 0);
}

#[test]
fn counter_read_of_zero() {
    let mut c = Counter::new(0, EfdFlags::nonblock());
    assert_eq!(c.read(), Answer::Ready(Reply::Failed(Failure::Os(11))));
    let mut c = Counter::new(0, EfdFlags::semaphore());
    assert_eq!(c.read(), Answer::Blocked);
    let mut c = Counter::new(0, both());
    assert_eq!(c.read(), Answer::Ready(Reply::Failed(Failure::Os(11))));
    assert_eq!(c, Counter { value: 0, flags: both() });
}

#[test]
fn counter_semaphore_takes_one() {
    let mut c = Counter::new(3, EfdFlags::semaphore());
    assert_eq!(c.read(), Answer::Ready(Reply::Value(1)));
    assert_eq!(c.value, 2);
    assert_eq!(c.read(), Answer::Ready(Reply::Value(1)));
    assert_eq!(c.read(), Answer::Ready(Reply::Value(1)));
    assert_eq!(c.value, 0);
    assert_eq!(c.read(), Answer::Blocked);
}

#[test]
fn counter_write_adds() {
    let mut c = Counter::new(1, EfdFlags::empty());
    assert_eq!(c.write(2), Answer::Ready(Reply::Written));
    assert_eq!(c.value, 3);
    assert_eq!(c.write(0), Answer::Ready(Reply::Written));
    assert_eq!(c.value, 3);
    assert_eq!(c.write(MAX_VALUE - 3), Answer::Ready(Reply::Written));
    assert_eq!(c.value, MAX_VALUE);
    assert_eq!(c.write(0), Answer::Ready(Reply::Written));
    assert_eq!(c.value, u64::MAX - 1);
}

#[test]
fn counter_write_beyond_range() {
    let mut c = Counter::new(1, EfdFlags::empty());
    assert_eq!(c.write(MAX_VALUE), Answer::Blocked);
    assert_eq!(c.value, 1);
    assert_eq!(c.write(u64::MAX), Answer::Blocked);
    assert_eq!(c.value, 1);
    let mut c = Counter::new(1, EfdFlags::nonblock());
    assert_eq!(c.write(MAX_VALUE), Answer::Ready(Reply::Failed(Failure::Os(11))));
    assert_eq!(c.write(MAX_VALUE - 1), Answer::Ready(Reply::Written));
    assert_eq!(c.value, MAX_VALUE);
    assert_eq!(c.write(1), Answer::Ready(Reply::Failed(Failure::Os(11))));
    assert_eq!(c.value, MAX_VALUE);
    let mut c = Counter::new(0, EfdFlags::nonblock());
    assert_eq!(c.write(u64::MAX), Answer::Ready(Reply::Failed(Failure::Os(11))));
    assert_eq!(c.value, 0);
}

#[test]
fn descriptors_are_the_lowest_free() {
    let mut k = Kernel::new(8);
    let open = Syscall::Eventfd { initval: 0, flags: EfdFlags::empty() };
    assert_eq!(k.perform(open), Answer::Ready(Reply::Descriptor(0)));
    assert_eq!(k.perform(open), Answer::Ready(Reply::Descriptor(1)));
    assert_eq!(k.perform(Syscall::Dup { fd: 0 }), Answer::Ready(Reply::Descriptor(2)));
    assert_eq!(k.perform(Syscall::Close { fd: 1 }), Answer::Ready(Reply::Closed));
    assert!(!k.is_open(1));
    assert_eq!(k.perform(Syscall::Dup { fd: 2 }), Answer::Ready(Reply::Descriptor(1)));
    assert_eq!(k.perform(Syscall::Close { fd: 0 }), Answer::Ready(Reply::Closed));
    assert_eq!(k.perform(open), Answer::Ready(Reply::Descriptor(0)));
    assert_eq!(k.perform(open), Answer::Ready(Reply::Descriptor(3)));
    assert!(k.is_open(0) && k.is_open(1) && k.is_open(2) && k.is_open(3));
    assert!(!k.is_open(4));
    assert!(!k.is_open(-1));
}

#[test]
fn descriptor_limit() {
    let mut k = Kernel::new(2);
    let open = Syscall::Eventfd { initval: 4, flags: EfdFlags::empty() };
    assert_eq!(k.perform(open), Answer::Ready(Reply::Descriptor(0)));
    assert_eq!(k.perform(Syscall::Dup { fd: 0 }), Answer::Ready(Reply::Descriptor(1)));
    assert_eq!(k.perform(open), Answer::Ready(Reply::Failed(Failure::Os(24))));
    assert_eq!(k.perform(Syscall::Dup { fd: 0 }), Answer::Ready(Reply::Failed(Failure::Os(24))));
    assert_eq!(k.perform(Syscall::Close { fd: 0 }), Answer::Ready(Reply::Closed));
    assert_eq!(k.perform(Syscall::Dup { fd: 1 }), Answer::Ready(Reply::Descriptor(0)));
    assert_eq!(k.value(0), Some(4));
    let mut none = Kernel::new(0);
    assert_eq!(none.perform(open), Answer::Ready(Reply::Failed(Failure::Os(24))));
    assert_eq!(
        none.create(1, EfdFlags::empty()).unwrap_err(),
        CreationError { cause: CreationCause::DescriptorLimit }
    );
}

#[test]
fn calls_on_closed_descriptors_fail() {
    let mut k = Kernel::new(4);
    let bad = Answer::Ready(Reply::Failed(Failure::Os(9)));
    assert_eq!(k.perform(Syscall::Read { fd: 0 }), bad);
    assert_eq!(k.perform(Syscall::Write { fd: 0, value: 1 }), bad);
    assert_eq!(k.perform(Syscall::Dup { fd: 0 }), bad);
    assert_eq!(k.perform(Syscall::Close { fd: 0 }), bad);
    assert_eq!(k.perform(Syscall::Read { fd: -1 }), bad);
    assert_eq!(k.perform(Syscall::Read { fd: i32::MAX }), bad);
    let efd = k.create(1, EfdFlags::empty()).unwrap();
    let fd = efd.as_raw_fd();
    k.close(efd);
    assert_eq!(k.perform(Syscall::Read { fd }), bad);
    assert_eq!(k.perform(Syscall::Close { fd }), bad);
    assert_eq!(k.value(fd), None);
}

#[test]
fn value_looks_without_taking() {
    let mut k = Kernel::new(4);
    let efd = k.create(10, EfdFlags::empty()).unwrap();
    assert_eq!(k.value(efd.as_raw_fd()), Some(10));
    assert_eq!(k.value(efd.as_raw_fd()), Some(10));
    assert_eq!(k.value(1), None);
    assert_eq!(k.value(-5), None);
    assert_eq!(k.read(&efd), Some(Ok(10)));
    assert_eq!(k.value(efd.as_raw_fd()), Some(0));
}

#[test]
fn create_then_read_gives_the_value() {
    for v in [1u64, 2, 10, u32::MAX as u64, u32::MAX as u64 + 1, 1 << 40, MAX_VALUE] {
        for flags in [EfdFlags::empty(), EfdFlags::nonblock()] {
            let mut k = Kernel::new(4);
            let efd = k.create(v, flags).unwrap();
            assert_eq!(efd.flags(), flags);
            assert_eq!(k.value(efd.as_raw_fd()), Some(v));
            assert_eq!(k.read(&efd), Some(Ok(v)));
            assert_eq!(k.value(efd.as_raw_fd()), Some(0));
        }
    }
}

#[test]
fn create_with_zero_then_read_waits_or_fails() {
    let mut k = Kernel::new(4);
    let efd = k.create(0, EfdFlags::empty()).unwrap();
    assert_eq!(k.read(&efd), None);
    let efd = k.create(0, EfdFlags::nonblock()).unwrap();
    assert_eq!(k.read(&efd), Some(Err(IoError::WouldBlock)));
}

#[test]
fn create_out_of_range() {
    let mut k = Kernel::new(4);
    assert_eq!(
        k.create(u64::MAX, EfdFlags::empty()).unwrap_err(),
        CreationError { cause: CreationCause::InvalidArgument }
    );
    assert!(!k.is_open(0));
}

#[test]
fn writes_add_up() {
    let cases = [(1u64, 2u64), (0, 5), (5, 0), (7, 7), (1 << 63, (1 << 63) - 2), (MAX_VALUE, 0)];
    for (a, b) in cases {
        let mut k = Kernel::new(4);
        let efd = k.create(0, EfdFlags::empty()).unwrap();
        assert_eq!(k.write(&efd, a), Some(Ok(())));
        assert_eq!(k.write(&efd, b), Some(Ok(())));
        assert_eq!(k.read(&efd), Some(Ok(a + b)));
        assert_eq!(k.value(efd.as_raw_fd()), Some(0));
    }
}

#[test]
fn write_that_does_not_fit() {
    let mut k = Kernel::new(4);
    let efd = k.create(0, EfdFlags::nonblock()).unwrap();
    assert_eq!(k.write(&efd, MAX_VALUE), Some(Ok(())));
    assert_eq!(k.write(&efd, 1), Some(Err(IoError::WouldBlock)));
    assert_eq!(k.value(efd.as_raw_fd()), Some(MAX_VALUE));
    assert_eq!(k.read(&efd), Some(Ok(MAX_VALUE)));
    assert_eq!(k.write(&efd, 1), Some(Ok(())));
    let waiting = k.create(1, EfdFlags::empty()).unwrap();
    assert_eq!(k.write(&waiting, MAX_VALUE), None);
    assert_eq!(k.value(waiting.as_raw_fd()), Some(1));
}

#[test]
fn semaphore_on_the_model() {
    let mut k = Kernel::new(4);
    let efd = k.create(0, both()).unwrap();
    assert_eq!(k.read(&efd), Some(Err(IoError::WouldBlock)));
    assert_eq!(k.write(&efd, 5), Some(Ok(())));
    for left in [4u64, 3, 2, 1, 0] {
        assert_eq!(k.read(&efd), Some(Ok(1)));
        assert_eq!(k.value(efd.as_raw_fd()), Some(left));
    }
    assert_eq!(k.read(&efd), Some(Err(IoError::WouldBlock)));
}

#[test]
fn duplicate_shares_the_counter() {
    for flags in [EfdFlags::empty(), EfdFlags::nonblock(), EfdFlags::semaphore(), both()] {
        let mut k = Kernel::new(4);
        let h1 = k.create(2, flags).unwrap();
        let h2 = k.duplicate(&h1).unwrap().unwrap();
        assert_ne!(h1.as_raw_fd(), h2.as_raw_fd());
        assert_eq!(h2.flags(), flags);
        assert_eq!(k.write(&h1, 1), Some(Ok(())));
        assert_eq!(k.value(h2.as_raw_fd()), Some(3));
        let seen = if flags.semaphore { 1 } else { 3 };
        assert_eq!(k.read(&h2), Some(Ok(seen)));
        assert_eq!(k.value(h1.as_raw_fd()), Some(3 - seen));
        // closing the first handle leaves the second at work
        let fd1 = h1.as_raw_fd();
        k.close(h1);
        assert!(!k.is_open(fd1));
        assert!(k.is_open(h2.as_raw_fd()));
        assert_eq!(k.write(&h2, 4), Some(Ok(())));
        assert_eq!(k.value(h2.as_raw_fd()), Some(3 - seen + 4));
        assert_eq!(k.read(&h2), Some(Ok(if flags.semaphore { 1 } else { 4 })));
    }
}

#[test]
fn separate_counters_are_separate() {
    let mut k = Kernel::new(4);
    let a = k.create(1, EfdFlags::empty()).unwrap();
    let b = k.create(2, EfdFlags::empty()).unwrap();
    assert_eq!(k.write(&a, 10), Some(Ok(())));
    assert_eq!(k.read(&b), Some(Ok(2)));
    assert_eq!(k.read(&a), Some(Ok(11)));
}

#[test]
fn duplicate_of_a_closed_handle_fails() {
    let mut k = Kernel::new(4);
    let a = k.create(1, EfdFlags::empty()).unwrap();
    let b = k.duplicate(&a).unwrap().unwrap();
    let fd = b.as_raw_fd();
    k.close(b);
    assert_eq!(k.perform(Syscall::Dup { fd }), Answer::Ready(Reply::Failed(Failure::Os(9))));
    assert_eq!(k.read(&a), Some(Ok(1)));
}

#[test]
fn basic_on_the_model() {
    let mut k = Kernel::new(16);
    let efd = k.create(10, EfdFlags::empty()).unwrap();
    let cefd = k.duplicate(&efd).unwrap().unwrap();
    assert_eq!(k.read(&efd), Some(Ok(10)));
    // the second owner's read waits until the 7 is written
    assert_eq!(k.read(&cefd), None);
    assert_eq!(k.write(&efd, 7), Some(Ok(())));
    assert_eq!(k.read(&cefd), Some(Ok(7)));
    assert_eq!(k.write(&cefd, 1), Some(Ok(())));
    assert_eq!(k.write(&cefd, 2), Some(Ok(())));
    assert_eq!(k.read(&efd), Some(Ok(3)));
}

#[test]
fn chan_on_the_model() {
    let mut k = Kernel::new(16);
    let efd = k.create(10, EfdFlags::empty()).unwrap();
    assert_eq!(k.write(&efd, 1), Some(Ok(())));
    let moved = efd;
    assert_eq!(k.read(&moved), Some(Ok(11)));
}
