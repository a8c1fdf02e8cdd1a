use full_duplex_io::copy::{CopyAction, CopyEvent, CopyReturn, FullDuplexInner, IoPoll};
use full_duplex_io::duplex::{
    first_side, other_side, pick_first_side, place, CopyFailure, FullDuplexCopy, RoundDecision, Side,
    SidePoll,
};

fn fresh() -> FullDuplexInner<Vec<u8>> {
    FullDuplexInner::new(Vec::new())
}

#[test]
fn new_direction_is_idle() {
    let side = fresh();
    assert!(!side.is_done());
    assert_eq!(side.bytes_read(), 0);
    assert_eq!(side.reader().capacity(), 8192);
    assert_eq!(side.reader().buffer(), b"");
}

#[test]
fn empty_buffer_asks_for_a_fill() {
    let mut side = fresh();
    assert_eq!(side.step(CopyEvent::Begin), CopyAction::FillBuffer(8192));
}

#[test]
fn fill_then_write_counts_what_was_taken() {
    let mut side = fresh();
    assert_eq!(side.step(CopyEvent::Begin), CopyAction::FillBuffer(8192));
    assert_eq!(
        side.step(CopyEvent::Filled(IoPoll::Ready(b"abc".to_vec()))),
        CopyAction::WriteTarget
    );
    assert_eq!(side.reader().buffer(), b"abc");
    assert_eq!(
        side.step(CopyEvent::Written(IoPoll::Ready(2))),
        CopyAction::Return(CopyReturn::Ready(false))
    );
    assert_eq!(side.bytes_read(), 2);
    assert_eq!(side.reader().buffer(), b"c");
    assert_eq!(side.step(CopyEvent::Begin), CopyAction::WriteTarget);
    assert_eq!(
        side.step(CopyEvent::Written(IoPoll::Ready(1))),
        CopyAction::Return(CopyReturn::Ready(false))
    );
    assert_eq!(side.bytes_read(), 3);
    assert_eq!(side.step(CopyEvent::Begin), CopyAction::FillBuffer(8192));
}

#[test]
fn write_of_zero_is_an_error() {
    let mut side = fresh();
    side.step(CopyEvent::Begin);
    side.step(CopyEvent::Filled(IoPoll::Ready(b"abc".to_vec())));
    assert_eq!(
        side.step(CopyEvent::Written(IoPoll::Ready(0))),
        CopyAction::Return(CopyReturn::WriteZero)
    );
    assert_eq!(side.bytes_read(), 0);
    assert_eq!(side.reader().buffer(), b"abc");
}

#[test]
fn pending_and_failed_change_nothing() {
    let mut side = fresh();
    assert_eq!(side.step(CopyEvent::Begin), CopyAction::FillBuffer(8192));
    assert_eq!(
        side.step(CopyEvent::Filled(IoPoll::Pending)),
        CopyAction::Return(CopyReturn::Pending)
    );
    assert_eq!(side.step(CopyEvent::Begin), CopyAction::FillBuffer(8192));
    assert_eq!(
        side.step(CopyEvent::Filled(IoPoll::Failed)),
        CopyAction::Return(CopyReturn::Failed)
    );
    assert_eq!(side.step(CopyEvent::Begin), CopyAction::FillBuffer(8192));
    side.step(CopyEvent::Filled(IoPoll::Ready(b"abc".to_vec())));
    assert_eq!(
        side.step(CopyEvent::Written(IoPoll::Pending)),
        CopyAction::Return(CopyReturn::Pending)
    );
    assert_eq!(side.step(CopyEvent::Begin), CopyAction::WriteTarget);
    assert_eq!(
        side.step(CopyEvent::Written(IoPoll::Failed)),
        CopyAction::Return(CopyReturn::Failed)
    );
    assert_eq!(side.reader().buffer(), b"abc");
    assert_eq!(side.bytes_read(), 0);
    assert!(!side.is_done());
}

#[test]
fn flush_and_close_that_wait_or_fail_change_nothing() {
    let mut side = fresh();
    side.step(CopyEvent::Begin);
    side.step(CopyEvent::Filled(IoPoll::Ready(Vec::new())));
    assert_eq!(
        side.step(CopyEvent::Flushed(IoPoll::Failed)),
        CopyAction::Return(CopyReturn::Failed)
    );
    assert_eq!(side.step(CopyEvent::Begin), CopyAction::FillBuffer(8192));
    side.step(CopyEvent::Filled(IoPoll::Ready(Vec::new())));
    side.step(CopyEvent::Flushed(IoPoll::Ready(())));
    assert_eq!(
        side.step(CopyEvent::Closed(IoPoll::Pending)),
        CopyAction::Return(CopyReturn::Pending)
    );
    assert!(!side.is_done());
}

#[test]
fn bytes_written_are_the_source_in_order() {
    let mut side = fresh();
    let mut written = Vec::new();
    let mut chunks = vec![b"hello ".to_vec(), b"world".to_vec()].into_iter();
    let mut action = side.step(CopyEvent::Begin);
    loop {
        action = match action {
            CopyAction::FillBuffer(_) => match chunks.next() {
                Some(chunk) => side.step(CopyEvent::Filled(IoPoll::Ready(chunk))),
                None => break,
            },
            CopyAction::WriteTarget => {
                let offered = side.reader().buffer().to_vec();
                let n = offered.len().min(4);
                written.extend_from_slice(&offered[..n]);
                side.step(CopyEvent::Written(IoPoll::Ready(n)))
            }
            CopyAction::Return(_) => side.step(CopyEvent::Begin),
            _ => break,
        };
    }
    assert_eq!(written, b"hello world".to_vec());
    assert_eq!(side.bytes_read(), 11);
}

#[test]
fn end_of_source_flushes_closes_and_finishes() {
    let mut side = fresh();
    side.step(CopyEvent::Begin);
    assert_eq!(
        side.step(CopyEvent::Filled(IoPoll::Ready(Vec::new()))),
        CopyAction::FlushTarget
    );
    assert_eq!(side.step(CopyEvent::Flushed(IoPoll::Ready(()))), CopyAction::CloseTarget);
    assert!(!side.is_done());
    assert_eq!(
        side.step(CopyEvent::Closed(IoPoll::Ready(()))),
        CopyAction::Return(CopyReturn::Ready(true))
    );
    assert!(side.is_done());
    assert_eq!(
        side.step(CopyEvent::Begin),
        CopyAction::Return(CopyReturn::Ready(true))
    );
    assert_eq!(
        side.step(CopyEvent::Begin),
        CopyAction::Return(CopyReturn::Ready(true))
    );
}

#[test]
fn close_that_fails_does_not_finish() {
    let mut side = fresh();
    side.step(CopyEvent::Begin);
    side.step(CopyEvent::Filled(IoPoll::Ready(Vec::new())));
    side.step(CopyEvent::Flushed(IoPoll::Ready(())));
    assert_eq!(
        side.step(CopyEvent::Closed(IoPoll::Failed)),
        CopyAction::Return(CopyReturn::Failed)
    );
    assert!(!side.is_done());
}

#[test]
fn errors_are_split_off() {
    assert_eq!(CopyReturn::Pending.into_side_poll(), Ok(SidePoll::Pending));
    assert_eq!(CopyReturn::Ready(true).into_side_poll(), Ok(SidePoll::Ready(true)));
    assert_eq!(CopyReturn::Ready(false).into_side_poll(), Ok(SidePoll::Ready(false)));
    assert_eq!(CopyReturn::Failed.into_side_poll(), Err(CopyFailure::Io));
    assert_eq!(CopyReturn::WriteZero.into_side_poll(), Err(CopyFailure::WriteZero));
}

#[test]
fn results_are_put_by_direction() {
    let r = SidePoll::Ready(true);
    let p = SidePoll::Pending;
    assert_eq!(place(Side::A, r, p), (r, p));
    assert_eq!(place(Side::B, p, r), (r, p));
}

#[test]
fn new_copy_buffers_eight_kilobytes_each_way() {
    let mut copy = FullDuplexCopy::new(Vec::<u8>::new(), Vec::<u8>::new());
    assert_eq!(copy.side_a().reader().capacity(), 8192);
    assert_eq!(copy.side_b().reader().capacity(), 8192);
}

#[test]
fn side_order() {
    assert_eq!(first_side(true), Side::A);
    assert_eq!(first_side(false), Side::B);
    assert_eq!(other_side(Side::A), Side::B);
    assert_eq!(other_side(Side::B), Side::A);
    for _ in 0..16 {
        let s = pick_first_side();
        assert!(s == Side::A || s == Side::B);
    }
}

#[test]
fn round_finishes_only_when_both_are_done() {
    let mut copy = FullDuplexCopy::new(Vec::<u8>::new(), Vec::<u8>::new());
    copy.side_a().step(CopyEvent::Begin);
    copy.side_a().step(CopyEvent::Filled(IoPoll::Ready(b"abcd".to_vec())));
    copy.side_a().step(CopyEvent::Written(IoPoll::Ready(4)));
    copy.side_b().step(CopyEvent::Begin);
    copy.side_b().step(CopyEvent::Filled(IoPoll::Ready(b"xy".to_vec())));
    copy.side_b().step(CopyEvent::Written(IoPoll::Ready(2)));
    assert_eq!(
        copy.conclude_round(SidePoll::Ready(true), SidePoll::Ready(true)),
        RoundDecision::Finished(4, 2)
    );
    assert_eq!(
        copy.conclude_round(SidePoll::Pending, SidePoll::Pending),
        RoundDecision::Pending
    );
    assert_eq!(
        copy.conclude_round(SidePoll::Ready(true), SidePoll::Pending),
        RoundDecision::Continue
    );
    assert_eq!(
        copy.conclude_round(SidePoll::Ready(false), SidePoll::Ready(true)),
        RoundDecision::Continue
    );
    assert_eq!(
        copy.conclude_round(SidePoll::Pending, SidePoll::Ready(false)),
        RoundDecision::Continue
    );
}

#[test]
fn sides_reach_both_streams() {
    let mut copy = FullDuplexCopy::new(vec![1u8], vec![2u8]);
    let (a, b) = copy.sides();
    assert_eq!(a.reader().get_ref(), &vec![1u8]);
    assert_eq!(b.reader().get_ref(), &vec![2u8]);
    b.source_mut().push(3);
    assert_eq!(copy.side_b().reader().get_ref(), &vec![2u8, 3]);
}
