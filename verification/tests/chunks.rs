use lurk::circuit::MultiFrame;
use lurk::eval::{Frame, IO};
use lurk::nova::NovaProver;
use lurk::prover::Prover;
use lurk::store::{ContPtr, Ptr};
use std::marker::PhantomData;

fn frame(raw: usize) -> Frame<u64> {
    let io = IO {
        expr: Ptr { raw, _p: PhantomData },
        env: Ptr { raw, _p: PhantomData },
        cont: ContPtr { raw, _p: PhantomData },
    };
    Frame { input: io, output: io }
}

#[test]
fn chunk_frame_count_is_as_given() {
    assert_eq!(NovaProver::<u64>::new(5).chunk_frame_count(), 5);
    assert_eq!(NovaProver::<u64>::new(0).chunk_frame_count(), 0);
}

#[test]
fn padding_up_to_a_whole_chunk() {
    let prover = NovaProver::<u64>::new(5);
    assert!(!prover.needs_frame_padding(0));
    assert!(prover.needs_frame_padding(4));
    assert!(!prover.needs_frame_padding(5));
    assert!(prover.needs_frame_padding(6));
    assert!(!prover.needs_frame_padding(10));
    assert!(!NovaProver::<u64>::new(1).needs_frame_padding(7));
}

#[test]
fn padding_ends_before_another_chunk() {
    let prover = NovaProver::<u64>::new(5);
    let mut count = 11;
    while prover.needs_frame_padding(count) {
        count += 1;
    }
    assert_eq!(count, 15);
}

#[test]
fn chunks_take_the_frames_in_order() {
    let frames: Vec<Frame<u64>> = (0..6).map(frame).collect();
    let chunks = MultiFrame::from_frames(2, &frames);
    let raws: Vec<Vec<usize>> = chunks
        .iter()
        .map(|c| c.frames.as_ref().unwrap().iter().map(|f| f.input.expr.raw).collect())
        .collect();
    assert_eq!(raws, vec![vec![0, 1], vec![2, 3], vec![4, 5]]);
}

#[test]
fn no_frames_no_chunks() {
    assert_eq!(MultiFrame::<u64>::from_frames(3, &[]).len(), 0);
}
