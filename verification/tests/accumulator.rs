use math_dictation::audio::AudioBuffer;
use math_dictation::scheduler::{take_batch, take_final_batch};

#[test]
fn append_then_drain_returns_exactly_the_block() {
    let mut buf = AudioBuffer::new();
    buf.append(&[1, 2, 3]);
    let drained = buf.get_data();
    assert_eq!(drained, vec![1u32, 2, 3]);
    assert_eq!(buf.len(), 0);
}

#[test]
fn appends_accumulate_in_order_without_loss_or_duplication() {
    let mut buf = AudioBuffer::new();
    buf.append(&[10, 20]);
    buf.append(&[30]);
    buf.append(&[]);
    buf.append(&[40, 50]);
    assert_eq!(buf.len(), 5);
    let drained = buf.get_data();
    assert_eq!(drained, vec![10u32, 20, 30, 40, 50]);
}

#[test]
fn second_drain_without_append_is_empty() {
    let mut buf = AudioBuffer::new();
    buf.append(&[7, 8, 9]);
    let first = buf.get_data();
    assert_eq!(first, vec![7u32, 8, 9]);
    let second = buf.get_data();
    assert_eq!(second, Vec::<u32>::new());
}

#[test]
fn drain_is_not_idempotent_across_appends() {
    let mut buf = AudioBuffer::new();
    buf.append(&[1]);
    assert_eq!(buf.get_data(), vec![1u32]);
    buf.append(&[2]);
    assert_eq!(buf.get_data(), vec![2u32]);
}

#[test]
fn below_threshold_no_batch_and_samples_stay() {
    let mut buf = AudioBuffer::new();
    let rate: u64 = 4;
    buf.append(&[0; 11]);
    let r = take_batch(&mut buf, rate);
    assert!(r.is_none());
    assert_eq!(buf.len(), 11);
}

#[test]
fn at_threshold_one_batch_and_buffer_emptied() {
    let mut buf = AudioBuffer::new();
    let rate: u64 = 4;
    buf.append(&[5; 12]);
    let r = take_batch(&mut buf, rate);
    assert_eq!(r, Some(vec![5u32; 12]));
    assert_eq!(buf.len(), 0);
}

#[test]
fn above_threshold_whole_accumulation_drains_at_once() {
    let mut buf = AudioBuffer::new();
    let rate: u64 = 4;
    buf.append(&[9; 30]);
    let r = take_batch(&mut buf, rate);
    assert_eq!(r, Some(vec![9u32; 30]));
    assert_eq!(buf.len(), 0);
}

#[test]
fn final_drain_takes_remainder_even_below_threshold() {
    let mut buf = AudioBuffer::new();
    buf.append(&[1, 2]);
    let r = take_final_batch(&mut buf);
    assert_eq!(r, Some(vec![1u32, 2]));
    assert_eq!(buf.len(), 0);
}

#[test]
fn final_drain_of_empty_accumulator_yields_no_batch() {
    let mut buf = AudioBuffer::new();
    let r = take_final_batch(&mut buf);
    assert!(r.is_none());
    assert_eq!(buf.len(), 0);
}
