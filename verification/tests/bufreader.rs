use full_duplex_io::buffer::sum_lengths;
use full_duplex_io::bufreader::{
    SeekAction, SeekPlan, SeekReturn, SeekStage, SeekTarget, DEFAULT_BUF_SIZE,
};
use full_duplex_io::copy::IoPoll;
use full_duplex_io::BufReader;

#[test]
fn buffer_is_empty_until_first_read() {
    let input: &[u8] = b"hello";
    let reader = BufReader::new(input);
    assert_eq!(reader.buffer(), &[] as &[u8]);
    assert!(reader.needs_fill());
}

#[test]
fn into_inner_returns_the_reader() {
    let input: &[u8] = b"hello";
    let reader = BufReader::new(input);
    assert_eq!(reader.into_inner(), input);
}

#[test]
fn capacities() {
    let input: &[u8] = b"hello";
    assert_eq!(BufReader::new(input).capacity(), 8192);
    assert_eq!(DEFAULT_BUF_SIZE, 8192);
    assert_eq!(BufReader::with_capacity(1024, input).capacity(), 1024);
    assert_eq!(BufReader::with_capacity(0, input).capacity(), 0);
}

#[test]
fn get_ref_and_get_mut_reach_the_reader() {
    let mut reader = BufReader::with_capacity(4, vec![1u8, 2, 3]);
    assert_eq!(reader.get_ref(), &vec![1u8, 2, 3]);
    reader.get_mut().push(4);
    assert_eq!(reader.get_ref(), &vec![1u8, 2, 3, 4]);
    assert_eq!(reader.into_inner(), vec![1u8, 2, 3, 4]);
}

#[test]
fn get_mut_leaves_the_buffer() {
    let mut reader = BufReader::with_capacity(8, vec![0u8]);
    reader.fill_from(b"abc");
    reader.get_mut().clear();
    assert_eq!(reader.buffer(), b"abc");
}

#[test]
fn fill_then_read_in_order() {
    let input: &[u8] = b"";
    let mut reader = BufReader::with_capacity(8, input);
    reader.fill_from(b"hello");
    assert!(!reader.needs_fill());
    assert_eq!(reader.buffer(), b"hello");
    assert_eq!(reader.read_buffered(2), b"he".to_vec());
    assert_eq!(reader.buffer(), b"llo");
    assert_eq!(reader.read_buffered(10), b"llo".to_vec());
    assert_eq!(reader.buffer(), b"");
    assert!(reader.needs_fill());
    assert_eq!(reader.read_buffered(3), Vec::<u8>::new());
}

#[test]
fn two_reads_give_what_one_gives() {
    let input: &[u8] = b"";
    let mut one = BufReader::with_capacity(16, input);
    let mut two = BufReader::with_capacity(16, input);
    one.fill_from(b"abcdefgh");
    two.fill_from(b"abcdefgh");
    let mut split = two.read_buffered(3);
    split.extend(two.read_buffered(2));
    assert_eq!(split, one.read_buffered(5));
    assert_eq!(one.buffer(), two.buffer());
}

#[test]
fn refill_replaces_the_data() {
    let input: &[u8] = b"";
    let mut reader = BufReader::with_capacity(8, input);
    reader.fill_from(b"abcdef");
    reader.consume(6);
    reader.fill_from(b"xy");
    assert_eq!(reader.buffer(), b"xy");
}

#[test]
fn empty_fill_means_end() {
    let input: &[u8] = b"";
    let mut reader = BufReader::with_capacity(8, input);
    reader.fill_from(b"");
    assert!(reader.needs_fill());
    assert_eq!(reader.buffer(), b"");
}

#[test]
fn consume_is_clamped() {
    let input: &[u8] = b"";
    let mut reader = BufReader::with_capacity(8, input);
    reader.fill_from(b"hello");
    reader.consume(1);
    assert_eq!(reader.buffer(), b"ello");
    reader.consume(0);
    assert_eq!(reader.buffer(), b"ello");
    reader.consume(usize::MAX);
    assert_eq!(reader.buffer(), b"");
    reader.consume(3);
    assert_eq!(reader.buffer(), b"");
}

#[test]
fn discard_forgets_the_buffer() {
    let input: &[u8] = b"";
    let mut reader = BufReader::with_capacity(8, input);
    reader.fill_from(b"hello");
    reader.discard_buffer();
    assert_eq!(reader.buffer(), b"");
    assert!(reader.needs_fill());
    assert_eq!(reader.capacity(), 8);
}

#[test]
fn bypass_only_when_empty_and_large() {
    let input: &[u8] = b"";
    let mut reader = BufReader::with_capacity(8, input);
    assert!(reader.bypasses_buffer(8));
    assert!(reader.bypasses_buffer(100));
    assert!(!reader.bypasses_buffer(7));
    reader.fill_from(b"a");
    assert!(!reader.bypasses_buffer(100));
    reader.consume(1);
    assert!(reader.bypasses_buffer(8));
}

#[test]
fn vectored_bypass_uses_the_total() {
    let input: &[u8] = b"";
    let mut reader = BufReader::with_capacity(8, input);
    assert!(reader.bypasses_buffer_vectored(&[4, 4]));
    assert!(!reader.bypasses_buffer_vectored(&[4, 3]));
    assert!(!reader.bypasses_buffer_vectored(&[]));
    reader.fill_from(b"z");
    assert!(!reader.bypasses_buffer_vectored(&[100]));
}

#[test]
fn sum_of_lengths() {
    assert_eq!(sum_lengths(&[]), 0);
    assert_eq!(sum_lengths(&[3, 4, 5]), 12);
    assert_eq!(sum_lengths(&[usize::MAX, 0]), usize::MAX);
}

#[test]
fn vectored_read_fills_destinations_in_order() {
    let input: &[u8] = b"";
    let mut reader = BufReader::with_capacity(16, input);
    reader.fill_from(b"hello world");
    let chunks = reader.read_buffered_vectored(&[3, 4, 10, 2]);
    assert_eq!(
        chunks,
        vec![b"hel".to_vec(), b"lo w".to_vec(), b"orld".to_vec(), Vec::new()]
    );
    assert_eq!(reader.buffer(), b"");
}

#[test]
fn vectored_read_leaves_the_rest() {
    let input: &[u8] = b"";
    let mut reader = BufReader::with_capacity(16, input);
    reader.fill_from(b"hello");
    let chunks = reader.read_buffered_vectored(&[2, 0, 2]);
    assert_eq!(chunks, vec![b"he".to_vec(), Vec::new(), b"ll".to_vec()]);
    assert_eq!(reader.buffer(), b"o");
    assert_eq!(reader.read_buffered_vectored(&[]), Vec::<Vec<u8>>::new());
    assert_eq!(reader.buffer(), b"o");
}

#[test]
fn vectored_read_into_one_destination_is_a_plain_read() {
    let input: &[u8] = b"";
    let mut a = BufReader::with_capacity(16, input);
    let mut b = BufReader::with_capacity(16, input);
    a.fill_from(b"abcdef");
    b.fill_from(b"abcdef");
    assert_eq!(a.read_buffered_vectored(&[4]), vec![b.read_buffered(4)]);
    assert_eq!(a.buffer(), b.buffer());
}

#[test]
fn seek_from_start_or_end_is_passed_on() {
    let input: &[u8] = b"";
    let mut reader = BufReader::with_capacity(16, input);
    reader.fill_from(b"hello");
    assert_eq!(
        reader.seek_plan(SeekTarget::Start(5)),
        SeekPlan::Direct(SeekTarget::Start(5))
    );
    assert_eq!(
        reader.seek_plan(SeekTarget::End(-3)),
        SeekPlan::Direct(SeekTarget::End(-3))
    );
}

#[test]
fn relative_seek_subtracts_the_read_ahead() {
    let input: &[u8] = b"";
    let mut reader = BufReader::with_capacity(16, input);
    reader.fill_from(b"hello");
    reader.consume(1);
    assert_eq!(
        reader.seek_plan(SeekTarget::Current(10)),
        SeekPlan::Direct(SeekTarget::Current(6))
    );
    assert_eq!(
        reader.seek_plan(SeekTarget::Current(0)),
        SeekPlan::Direct(SeekTarget::Current(-4))
    );
    assert_eq!(
        reader.seek_plan(SeekTarget::Current(i64::MIN + 4)),
        SeekPlan::Direct(SeekTarget::Current(i64::MIN))
    );
}

#[test]
fn relative_seek_that_would_underflow_rewinds_first() {
    let input: &[u8] = b"";
    let mut reader = BufReader::with_capacity(16, input);
    reader.fill_from(b"hello");
    assert_eq!(
        reader.seek_plan(SeekTarget::Current(i64::MIN)),
        SeekPlan::Rewind(-5, i64::MIN)
    );
    assert_eq!(
        reader.seek_plan(SeekTarget::Current(i64::MIN + 4)),
        SeekPlan::Rewind(-5, i64::MIN + 4)
    );
    reader.discard_buffer();
    assert_eq!(
        reader.seek_plan(SeekTarget::Current(i64::MIN)),
        SeekPlan::Direct(SeekTarget::Current(i64::MIN))
    );
}

#[test]
fn fill_request_is_the_capacity_when_empty() {
    let input: &[u8] = b"";
    let mut reader = BufReader::with_capacity(16, input);
    assert_eq!(reader.fill_request(), Some(16));
    reader.fill_from(b"ab");
    assert_eq!(reader.fill_request(), None);
    reader.consume(2);
    assert_eq!(reader.fill_request(), Some(16));
    assert_eq!(BufReader::new(input).fill_request(), Some(8192));
}

#[test]
fn direct_seek_discards_once_it_succeeds() {
    let input: &[u8] = b"";
    let mut reader = BufReader::with_capacity(16, input);
    reader.fill_from(b"hello");
    reader.consume(1);
    let (mut stage, action) = reader.begin_seek(SeekTarget::Current(10));
    assert_eq!(stage, SeekStage::Last);
    assert_eq!(action, SeekAction::Seek(SeekTarget::Current(6)));
    assert_eq!(
        reader.seek_step(&mut stage, IoPoll::Pending),
        SeekAction::Return(SeekReturn::Pending)
    );
    assert_eq!(reader.buffer(), b"ello");
    assert_eq!(
        reader.seek_step(&mut stage, IoPoll::Failed),
        SeekAction::Return(SeekReturn::Failed)
    );
    assert_eq!(reader.buffer(), b"ello");
    assert_eq!(
        reader.seek_step(&mut stage, IoPoll::Ready(42)),
        SeekAction::Return(SeekReturn::Ready(42))
    );
    assert_eq!(reader.buffer(), b"");
}

#[test]
fn split_seek_rewinds_discards_then_seeks_again() {
    let input: &[u8] = b"";
    let mut reader = BufReader::with_capacity(16, input);
    reader.fill_from(b"hello");
    let (mut stage, action) = reader.begin_seek(SeekTarget::Current(i64::MIN));
    assert_eq!(stage, SeekStage::Rewinding(i64::MIN));
    assert_eq!(action, SeekAction::Seek(SeekTarget::Current(-5)));
    assert_eq!(
        reader.seek_step(&mut stage, IoPoll::Ready(100)),
        SeekAction::Seek(SeekTarget::Current(i64::MIN))
    );
    assert_eq!(stage, SeekStage::Last);
    assert_eq!(reader.buffer(), b"");
    assert_eq!(
        reader.seek_step(&mut stage, IoPoll::Ready(7)),
        SeekAction::Return(SeekReturn::Ready(7))
    );
}

#[test]
fn absolute_seek_asks_for_the_target() {
    let input: &[u8] = b"";
    let mut reader = BufReader::with_capacity(16, input);
    reader.fill_from(b"hello");
    let (stage, action) = reader.begin_seek(SeekTarget::Start(3));
    assert_eq!(stage, SeekStage::Last);
    assert_eq!(action, SeekAction::Seek(SeekTarget::Start(3)));
}
