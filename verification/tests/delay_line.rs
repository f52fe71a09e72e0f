use dropseed::buffers::AudioChannel;
use dropseed::plugin::{ProcInfo, TransportInfo};
use dropseed::events::{NoteEvent, ProcEvent, TransportEvent};
use dropseed::params::ParamValue;
use dropseed::schedule::ProcessorSchedule;
use dropseed::shared_pools::{AudioBufferPool, DelayCompNode, EventBufferPool};

fn node(delay: u32) -> DelayCompNode<u32> {
    DelayCompNode { active: true, delay, line: vec![0; delay as usize], position: 0 }
}

#[test]
fn a_delay_of_three_brings_the_input_out_three_samples_later() {
    let mut n = node(3);
    let mut out = vec![9; 4];
    n.process(&vec![1, 2, 3, 4], &mut out, 4);
    assert_eq!(out, vec![0, 0, 0, 1]);
    n.process(&vec![5, 6, 7, 8], &mut out, 4);
    assert_eq!(out, vec![2, 3, 4, 5]);
    n.process(&vec![0, 0, 0, 0], &mut out, 4);
    assert_eq!(out, vec![6, 7, 8, 0]);
    assert!(n.active);
    assert_eq!(n.delay, 3);
}

#[test]
fn a_delay_longer_than_the_block_holds_several_blocks() {
    let mut n = node(5);
    let mut out = vec![9; 2];
    let mut all = vec![];
    for block in [[1, 2], [3, 4], [5, 6], [7, 8]] {
        n.process(&block.to_vec(), &mut out, 2);
        all.extend(out.iter().copied());
    }
    assert_eq!(all, vec![0, 0, 0, 0, 0, 1, 2, 3]);
}

#[test]
fn a_delay_of_zero_passes_the_input_on() {
    let mut n = node(0);
    let mut out = vec![9; 3];
    n.process(&vec![1, 2, 3], &mut out, 3);
    assert_eq!(out, vec![1, 2, 3]);
    assert_eq!(n.position, 0);
}

#[test]
fn a_block_is_as_long_as_frames_input_and_output_allow() {
    let mut n = node(1);
    let mut out = vec![9; 4];
    n.process(&vec![1, 2, 3, 4], &mut out, 2);
    assert_eq!(out, vec![0, 1, 9, 9]);
    n.process(&vec![5], &mut out, 4);
    assert_eq!(out, vec![2, 1, 9, 9]);
    let mut short = vec![9; 1];
    n.process(&vec![6, 7], &mut short, 2);
    assert_eq!(short, vec![5]);
    n.process(&vec![8], &mut out, 0);
    assert_eq!(out, vec![2, 1, 9, 9]);
    n.process(&vec![8], &mut out, 1);
    assert_eq!(out, vec![6, 1, 9, 9]);
}

#[test]
fn a_buffer_is_exchanged_without_a_copy() {
    let mut pool = AudioBufferPool::new(2);
    pool.set_num_buffers(2);
    let mut mine = AudioChannel { samples: vec![4, 5], is_constant: false };
    pool.swap_buffer(1, &mut mine);
    assert_eq!(mine.samples, vec![0, 0]);
    assert!(mine.is_constant);
    assert_eq!(pool.buffer(1).samples, vec![4, 5]);
    assert!(!pool.buffer(1).is_constant);
    assert_eq!(pool.buffer(0).samples, vec![0, 0]);
}

#[test]
fn tasks_are_told_the_block_size_and_the_transport_of_the_schedule() {
    let step = TransportEvent { frame: 0, flags: 3, song_position: 7, tempo: ParamValue(120) };
    let transport = TransportInfo { event: Some(step) };
    let schedule = ProcessorSchedule::new(vec![], transport, 256);
    assert_eq!(schedule.proc_info(), ProcInfo { frames: 256, transport });
    assert_eq!(schedule.num_tasks(), 0);
}

fn note(frame: u32, key: i16) -> ProcEvent {
    ProcEvent::NoteOn(NoteEvent {
        frame,
        note_id: 0,
        port_index: 0,
        channel: 0,
        key,
        velocity: ParamValue(1),
    })
}

#[test]
fn delayed_events_come_out_at_their_frame_or_wait_for_a_later_block() {
    let mut n: DelayCompNode<ProcEvent> =
        DelayCompNode { active: true, delay: 6, line: vec![], position: 0 };
    let mut input = vec![note(0, 1), note(3, 2), note(9, 3)];
    let mut output = vec![note(0, 99)];
    n.process(&mut input, &mut output, 8);
    assert_eq!(input, vec![]);
    assert_eq!(output, vec![note(0, 99), note(6, 1)]);
    assert_eq!(n.line, vec![note(1, 2), note(7, 3)]);
    let mut input = vec![note(0, 4), note(5, 5)];
    let mut output = vec![];
    n.process(&mut input, &mut output, 4);
    assert_eq!(output, vec![note(1, 2)]);
    assert_eq!(n.line, vec![note(3, 3), note(2, 4), note(7, 5)]);
    let mut output = vec![];
    n.process(&mut vec![], &mut output, 8);
    assert_eq!(output, vec![note(3, 3), note(2, 4), note(7, 5)]);
    assert_eq!(n.line, vec![]);
    assert_eq!((n.active, n.delay, n.position), (true, 6, 0));
}

#[test]
fn events_without_a_delay_pass_within_the_block() {
    let mut n: DelayCompNode<ProcEvent> =
        DelayCompNode { active: false, delay: 0, line: vec![], position: 0 };
    let mut output = vec![];
    n.process(&mut vec![note(0, 1), note(7, 2), note(8, 3)], &mut output, 8);
    assert_eq!(output, vec![note(0, 1), note(7, 2)]);
    assert_eq!(n.line, vec![note(0, 3)]);
}

#[test]
fn a_frame_counts_no_further_than_it_can() {
    let mut n: DelayCompNode<ProcEvent> =
        DelayCompNode { active: true, delay: u32::MAX, line: vec![], position: 0 };
    let mut output = vec![];
    n.process(&mut vec![note(u32::MAX, 1), note(4, 2)], &mut output, 2);
    assert_eq!(output, vec![]);
    assert_eq!(n.line, vec![note(u32::MAX, 1), note(2, 2).with_frame(u32::MAX).with_frame(u32::MAX)]);
    assert_eq!(note(5, 1).frame(), 5);
    assert_eq!(note(5, 1).with_frame(9), note(9, 1));
}

#[test]
fn a_buffer_of_events_is_exchanged_without_a_copy() {
    let mut pool = EventBufferPool::new();
    pool.set_num_buffers(2);
    let mut mine = vec![note(1, 1)];
    pool.swap_buffer(0, &mut mine);
    assert_eq!(mine, vec![]);
    pool.swap_buffer(0, &mut mine);
    assert_eq!(mine, vec![note(1, 1)]);
}
