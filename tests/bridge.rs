use opus_player::bridge::{next_push_step, pad_silence, PushPolicy, PushStep, SampleBridge};

#[test]
fn best_effort_drops_what_does_not_fit() {
    let mut b = SampleBridge::new(4);
    assert_eq!(b.push(&[1, 2, 3, 4, 5, 6]), 4);
    assert_eq!(b.len(), 4);
    assert_eq!(b.push(&[7]), 0);
    let mut out = [0i16; 8];
    assert_eq!(b.pop(&mut out), 4);
    assert_eq!(&out[..4], &[1, 2, 3, 4]);
    assert_eq!(b.len(), 0);
}

#[test]
fn best_effort_keeps_order_and_prefixes() {
    let mut b = SampleBridge::new(5);
    assert_eq!(b.push(&[1, 2, 3]), 3);
    assert_eq!(b.push(&[4, 5, 6, 7]), 2);
    let mut out = [0i16; 2];
    assert_eq!(b.pop(&mut out), 2);
    assert_eq!(out, [1, 2]);
    assert_eq!(b.push(&[8, 9, 10]), 2);
    let mut rest = [0i16; 10];
    assert_eq!(b.pop(&mut rest), 5);
    assert_eq!(&rest[..5], &[3, 4, 5, 8, 9]);
}

#[test]
fn empty_push_and_empty_pop() {
    let mut b = SampleBridge::new(3);
    assert_eq!(b.push(&[]), 0);
    let mut out = [7i16; 3];
    assert_eq!(b.pop(&mut out), 0);
    assert_eq!(out, [7, 7, 7]);
    b.push(&[1]);
    let mut none: [i16; 0] = [];
    assert_eq!(b.pop(&mut none), 0);
    assert_eq!(b.len(), 1);
}

#[test]
fn zero_capacity_bridge_takes_nothing() {
    let mut b = SampleBridge::new(0);
    assert_eq!(b.push(&[1, 2]), 0);
    assert_eq!(b.len(), 0);
}

#[test]
fn retry_policy_delivers_every_sample_in_order() {
    let mut b = SampleBridge::new(3);
    let frame: Vec<i16> = (1..=8).collect();
    let mut seen = Vec::new();
    let mut offset = 0usize;
    loop {
        let next = b.push_from(&frame, offset);
        match next_push_step(PushPolicy::BlockingRetry, offset, next - offset, frame.len()) {
            PushStep::Done => break,
            PushStep::Retry(o) => {
                offset = o;
                let mut out = [0i16; 2];
                let n = b.pop(&mut out);
                seen.extend_from_slice(&out[..n]);
            }
        }
    }
    let mut out = [0i16; 8];
    let n = b.pop(&mut out);
    seen.extend_from_slice(&out[..n]);
    assert_eq!(seen, frame);
}

#[test]
fn push_step_decisions() {
    assert_eq!(next_push_step(PushPolicy::BestEffort, 0, 3, 10), PushStep::Done);
    assert_eq!(next_push_step(PushPolicy::BlockingRetry, 0, 3, 10), PushStep::Retry(3));
    assert_eq!(next_push_step(PushPolicy::BlockingRetry, 3, 0, 10), PushStep::Retry(3));
    assert_eq!(next_push_step(PushPolicy::BlockingRetry, 3, 7, 10), PushStep::Done);
    assert_eq!(next_push_step(PushPolicy::BlockingRetry, 0, 0, 0), PushStep::Done);
}

#[test]
fn underrun_pads_tail_with_silence() {
    let mut b = SampleBridge::new(16);
    b.push(&[5, -5, 6]);
    let mut block = [9i16; 6];
    assert_eq!(b.fill_block(&mut block), 3);
    assert_eq!(block, [5, -5, 6, 0, 0, 0]);
    let mut block = [9i16; 4];
    assert_eq!(b.fill_block(&mut block), 0);
    assert_eq!(block, [0, 0, 0, 0]);
}

#[test]
fn pad_silence_leaves_head() {
    let mut block = [1i16, 2, 3, 4];
    pad_silence(&mut block, 2);
    assert_eq!(block, [1, 2, 0, 0]);
    pad_silence(&mut block, 4);
    assert_eq!(block, [1, 2, 0, 0]);
}

#[test]
fn ends_carry_samples_across() {
    let b = SampleBridge::new(4);
    let (writer, reader) = b.into_ends();
    assert_eq!(writer.push_from(&[1, 2, 3, 4, 5, 6], 1), 5);
    let mut block = [9i16; 6];
    assert_eq!(reader.fill_block(&mut block), 4);
    assert_eq!(block, [2, 3, 4, 5, 0, 0]);
    assert_eq!(writer.push_from(&[1, 2, 3, 4, 5, 6], 5), 6);
    let mut block = [9i16; 2];
    assert_eq!(reader.fill_block(&mut block), 1);
    assert_eq!(block, [6, 0]);
}
