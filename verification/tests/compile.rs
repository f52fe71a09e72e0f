use dropseed::compiler::{
    audio_only, compile_graph, construct_delay_comp_task, construct_node_task, construct_sum_task,
    describe_malformed, BufferCounts, CompileSettings, GraphCompilerError,
};
use dropseed::plugin::{PluginInstanceID, PluginInstanceType};
use dropseed::schedule::{
    AbstractSchedule, BufferRef, DelayCompKey, InsertedDelay, InsertedSum, ProcessorSchedule,
    ScheduleEntry, ScheduledNode, Task, AUDIO_TYPE_IDX, NOTE_TYPE_IDX, PARAM_AUTOMATION_TYPE_IDX,
};
use dropseed::schedule_verifier::{verify_tasks, Verifier, VerifyScheduleError};
use dropseed::shared_pools::{AudioBufferPool, DelayCompNode, EventBufferPool, GraphSharedPools};
use dropseed::plugin::TransportInfo;

const GRAPH_IN: PluginInstanceID =
    PluginInstanceID { node_ref: 0, format: PluginInstanceType::GraphInput };
const GRAPH_OUT: PluginInstanceID =
    PluginInstanceID { node_ref: 1, format: PluginInstanceType::GraphOutput };
const A: u64 = 10;
const B: u64 = 11;

fn audio(i: usize) -> BufferRef {
    BufferRef { type_index: AUDIO_TYPE_IDX, buffer_index: i }
}

fn note(i: usize) -> BufferRef {
    BufferRef { type_index: NOTE_TYPE_IDX, buffer_index: i }
}

fn event(i: usize) -> BufferRef {
    BufferRef { type_index: PARAM_AUTOMATION_TYPE_IDX, buffer_index: i }
}

fn node(id: u64, inputs: Vec<BufferRef>, outputs: Vec<BufferRef>) -> ScheduleEntry {
    ScheduleEntry::Node(ScheduledNode { id, input_buffers: inputs, output_buffers: outputs })
}

fn delay(edge: u32, delay: i64, input: BufferRef, output: BufferRef) -> ScheduleEntry {
    ScheduleEntry::Delay(InsertedDelay { edge, delay, input_buffer: input, output_buffer: output })
}

fn plan(entries: Vec<ScheduleEntry>) -> AbstractSchedule {
    AbstractSchedule {
        num_audio_buffers: 8,
        num_note_buffers: 2,
        num_param_event_buffers: 2,
        schedule: entries,
    }
}

fn pools() -> GraphSharedPools {
    let mut p = GraphSharedPools::new(4);
    p.plugin_hosts = vec![A, B];
    p
}

fn compile(
    pools: &mut GraphSharedPools,
    plan: AbstractSchedule,
) -> Result<ProcessorSchedule, GraphCompilerError> {
    let mut verifier = Verifier::new();
    compile_graph(pools, plan, &GRAPH_IN, &GRAPH_OUT, 2, 2, &mut verifier)
}

fn whole_samples(delay: f64) -> i64 {
    if delay < 0.0 {
        delay.floor() as i64
    } else {
        delay.round() as i64
    }
}

fn round_trip_plan(with_delay: bool) -> AbstractSchedule {
    let mut entries = vec![node(A, vec![], vec![audio(2)])];
    if with_delay {
        entries.push(delay(3, whole_samples(128.0), audio(2), audio(5)));
        entries.push(node(B, vec![audio(5)], vec![audio(6)]));
    } else {
        entries.push(node(B, vec![audio(2)], vec![audio(6)]));
    }
    plan(entries)
}

fn key(edge: u32, delay: u32) -> u64 {
    DelayCompKey { edge, delay }.to_code()
}

#[test]
fn compile_round_trip() {
    let mut p = pools();
    let schedule = compile(&mut p, round_trip_plan(true)).ok().unwrap();
    assert_eq!(schedule.num_tasks(), 3);
    assert_eq!(schedule.block_size(), 4);
    match schedule.task(0) {
        Task::Plugin { node, inputs, outputs } => {
            assert_eq!(*node, A);
            assert_eq!(*inputs, vec![]);
            assert_eq!(*outputs, vec![audio(2)]);
        }
        _ => panic!("wrong task"),
    }
    match schedule.task(1) {
        Task::AudioDelayComp { key, audio_in, audio_out } => {
            assert_eq!(*key, DelayCompKey { edge: 3, delay: 128 });
            assert_eq!((*audio_in, *audio_out), (2, 5));
        }
        _ => panic!("wrong task"),
    }
    match schedule.task(2) {
        Task::Plugin { node, inputs, outputs } => {
            assert_eq!(*node, B);
            assert_eq!(*inputs, vec![audio(5)]);
            assert_eq!(*outputs, vec![audio(6)]);
        }
        _ => panic!("wrong task"),
    }
    assert_eq!(p.delay_comp_nodes.audio.len(), 1);
    let made = &p.delay_comp_nodes.audio[&key(3, 128)];
    assert!(made.active);
    assert_eq!(made.delay, 128);
    assert_eq!(made.line, vec![0; 128]);
    assert_eq!(made.position, 0);

    let node = p.delay_comp_nodes.audio.get_mut(&key(3, 128)).unwrap();
    node.line[5] = 77;
    node.position = 6;
    let again = compile(&mut p, round_trip_plan(true)).ok().unwrap();
    assert_eq!(again.num_tasks(), 3);
    let kept = &p.delay_comp_nodes.audio[&key(3, 128)];
    assert!(kept.active);
    assert_eq!(kept.line[5], 77);
    assert_eq!(kept.position, 6);
    assert_eq!(p.delay_comp_nodes.audio.len(), 1);

    let without = compile(&mut p, round_trip_plan(false)).ok().unwrap();
    assert_eq!(without.num_tasks(), 2);
    assert!(p.delay_comp_nodes.audio.is_empty());
}

#[test]
fn the_same_plan_compiles_to_the_same_tasks() {
    let mut p = pools();
    let first = compile(&mut p, round_trip_plan(true)).ok().unwrap();
    let second = compile(&mut p, round_trip_plan(true)).ok().unwrap();
    let mut q = pools();
    let third = compile(&mut q, round_trip_plan(true)).ok().unwrap();
    assert_eq!(format!("{:?}", first.all_tasks()), format!("{:?}", second.all_tasks()));
    assert_eq!(format!("{:?}", first.all_tasks()), format!("{:?}", third.all_tasks()));
}

#[test]
fn negative_delay() {
    let mut p = pools();
    let entries = vec![
        delay(1, 16, audio(0), audio(1)),
        delay(4, whole_samples(-0.4), audio(2), audio(5)),
        delay(2, 16, audio(2), audio(3)),
    ];
    match compile(&mut p, plan(entries)) {
        Err(GraphCompilerError::UnexpectedError(msg)) => {
            assert_eq!(
                msg,
                "Abstract schedule inserted a delay with negative latency: delay -1 on edge 4"
            );
            assert!(msg.contains("delay"));
        }
        _ => panic!("wrong result"),
    }
    assert_eq!(p.delay_comp_nodes.audio.len(), 1);
    assert!(p.delay_comp_nodes.audio.contains_key(&key(1, 16)));
}

#[test]
fn a_zero_delay_still_makes_a_delay_task() {
    let mut p = pools();
    let schedule = compile(&mut p, plan(vec![delay(1, whole_samples(0.4), audio(0), audio(1))]))
        .ok()
        .unwrap();
    assert!(matches!(
        schedule.task(0),
        Task::AudioDelayComp { key: DelayCompKey { edge: 1, delay: 0 }, audio_in: 0, audio_out: 1 }
    ));
    assert_eq!(p.delay_comp_nodes.audio[&key(1, 0)].line, Vec::<u32>::new());
}

#[test]
fn delays_of_each_type_have_their_own_nodes() {
    let mut p = pools();
    let entries = vec![
        delay(1, 3, audio(0), audio(1)),
        delay(1, 3, note(0), note(1)),
        delay(1, 3, event(1), event(0)),
        delay(2, 3, note(1), note(0)),
    ];
    let schedule = compile(&mut p, plan(entries)).ok().unwrap();
    assert!(matches!(schedule.task(1), Task::NoteDelayComp { note_in: 0, note_out: 1, .. }));
    assert!(matches!(schedule.task(2), Task::ParamEventDelayComp { event_in: 1, event_out: 0, .. }));
    assert_eq!(p.delay_comp_nodes.audio.len(), 1);
    assert_eq!(p.delay_comp_nodes.note.len(), 2);
    assert_eq!(p.delay_comp_nodes.param_event.len(), 1);
    assert!(p.delay_comp_nodes.note[&key(2, 3)].line.is_empty());
    compile(&mut p, plan(vec![delay(2, 3, note(1), note(0))])).ok().unwrap();
    assert_eq!(p.delay_comp_nodes.audio.len(), 0);
    assert_eq!(p.delay_comp_nodes.note.len(), 1);
    assert_eq!(p.delay_comp_nodes.param_event.len(), 0);
}

#[test]
fn the_same_edge_with_another_delay_is_another_node() {
    let mut p = pools();
    compile(&mut p, plan(vec![delay(7, 10, audio(0), audio(1))])).ok().unwrap();
    compile(&mut p, plan(vec![delay(7, 11, audio(0), audio(1))])).ok().unwrap();
    assert_eq!(p.delay_comp_nodes.audio.len(), 1);
    assert!(p.delay_comp_nodes.audio.contains_key(&key(7, 11)));
    assert_ne!(key(7, 11), key(7, 10));
    assert_ne!(key(7, 11), key(11, 7));
    assert_eq!(key(u32::MAX, u32::MAX), u64::MAX);
    assert_eq!(key(1, 0), 1 << 32);
}

#[test]
fn malformed_entries_are_refused_with_their_message() {
    let cases: Vec<(ScheduleEntry, &str)> = vec![
        (
            delay(1, 3, BufferRef { type_index: 3, buffer_index: 0 }, audio(0)),
            "Abstract schedule inserted a delay with unknown type index 3",
        ),
        (
            delay(1, 3, audio(8), audio(0)),
            "Abstract schedule inserted a delay on a buffer that does not exist",
        ),
        (
            delay(1, 3, note(0), note(2)),
            "Abstract schedule inserted a delay on a buffer that does not exist",
        ),
        (
            delay(9, i64::MIN, audio(0), audio(1)),
            "Abstract schedule inserted a delay with negative latency: delay -9223372036854775808 on edge 9",
        ),
        (
            node(99, vec![], vec![]),
            "Abstract schedule holds a node that is unknown or uses a buffer that does not exist",
        ),
        (
            node(A, vec![audio(8)], vec![]),
            "Abstract schedule holds a node that is unknown or uses a buffer that does not exist",
        ),
        (
            ScheduleEntry::Sum(InsertedSum { input_buffers: vec![audio(0), note(0)], output_buffer: audio(1) }),
            "Abstract schedule inserted a sum over a buffer that is not an audio buffer or does not exist",
        ),
        (
            ScheduleEntry::Sum(InsertedSum { input_buffers: vec![audio(0)], output_buffer: audio(9) }),
            "Abstract schedule inserted a sum over a buffer that is not an audio buffer or does not exist",
        ),
    ];
    for (entry, message) in cases {
        let mut p = pools();
        let counts = BufferCounts { audio: 8, note: 2, param_event: 2 };
        assert_eq!(describe_malformed(&entry, counts), message);
        match compile(&mut p, plan(vec![node(A, vec![], vec![audio(0)]), entry])) {
            Err(GraphCompilerError::UnexpectedError(msg)) => assert_eq!(msg, message),
            _ => panic!("wrong result"),
        }
        assert_eq!(p.buffers.audio_buffer_pool.len(), 8);
    }
}

#[test]
fn the_ways_in_and_out_take_the_first_audio_buffers() {
    let mut p = pools();
    let entries = vec![
        node(0, vec![], vec![note(0), audio(3), audio(1), audio(2)]),
        node(A, vec![audio(3), audio(1), note(0)], vec![audio(4), note(1)]),
        ScheduleEntry::Sum(InsertedSum { input_buffers: vec![audio(4), audio(2)], output_buffer: audio(5) }),
        node(1, vec![audio(5), note(1)], vec![]),
    ];
    let schedule = compile(&mut p, plan(entries)).ok().unwrap();
    match schedule.task(0) {
        Task::GraphIn { audio_out } => assert_eq!(*audio_out, vec![3, 1]),
        _ => panic!("wrong task"),
    }
    match schedule.task(2) {
        Task::Sum { audio_in, audio_out } => {
            assert_eq!(*audio_in, vec![4, 2]);
            assert_eq!(*audio_out, 5);
        }
        _ => panic!("wrong task"),
    }
    match schedule.task(3) {
        Task::GraphOut { audio_in } => assert_eq!(*audio_in, vec![5]),
        _ => panic!("wrong task"),
    }
    assert_eq!(schedule.task(1).reads(), vec![audio(3), audio(1), note(0)]);
    assert_eq!(schedule.task(1).writes(), vec![audio(4), note(1)]);
    assert_eq!(schedule.task(0).reads(), vec![]);
    assert_eq!(schedule.task(0).writes(), vec![audio(3), audio(1)]);
    assert_eq!(schedule.task(3).writes(), vec![]);
    assert_eq!(schedule.transport(), TransportInfo { event: None });
}

#[test]
fn an_unsound_plan_comes_back_with_the_verifier_error() {
    let mut p = pools();
    let entries = vec![node(A, vec![], vec![audio(2)]), node(B, vec![audio(4)], vec![audio(4)])];
    let mut verifier = Verifier::new();
    match compile_graph(&mut p, plan(entries), &GRAPH_IN, &GRAPH_OUT, 2, 2, &mut verifier) {
        Err(GraphCompilerError::VerifierError(e, plan, schedule)) => {
            assert_eq!(
                e,
                VerifyScheduleError::BufferAppearsTwiceInSameTask { buffer: audio(4), task_index: 1 }
            );
            assert_eq!(plan.schedule.len(), 2);
            assert_eq!(schedule.num_tasks(), 2);
        }
        _ => panic!("wrong result"),
    }
    assert_eq!(verifier.num_checked(), 1);
}

#[test]
fn verifier_catches_aliasing() {
    let tasks = vec![
        Task::Plugin { node: A, inputs: vec![], outputs: vec![audio(1)] },
        Task::Plugin { node: B, inputs: vec![audio(1), audio(4)], outputs: vec![audio(2), audio(4)] },
        Task::GraphOut { audio_in: vec![2] },
    ];
    assert_eq!(
        verify_tasks(&tasks),
        Err(VerifyScheduleError::BufferAppearsTwiceInSameTask { buffer: audio(4), task_index: 1 })
    );
    let mut verifier = Verifier::new();
    let schedule = ProcessorSchedule::new(tasks, TransportInfo { event: None }, 64);
    assert_eq!(
        verifier.verify_schedule_for_race_conditions(&schedule),
        Err(VerifyScheduleError::BufferAppearsTwiceInSameTask { buffer: audio(4), task_index: 1 })
    );
}

#[test]
fn a_buffer_of_another_type_at_the_same_place_is_another_buffer() {
    let tasks = vec![Task::Plugin { node: A, inputs: vec![note(4)], outputs: vec![audio(4), event(4)] }];
    assert_eq!(verify_tasks(&tasks), Ok(()));
}

#[test]
fn writing_a_buffer_twice_in_one_task_is_caught() {
    let tasks = vec![Task::Plugin { node: A, inputs: vec![], outputs: vec![audio(3), audio(1), audio(3)] }];
    assert_eq!(
        verify_tasks(&tasks),
        Err(VerifyScheduleError::BufferAppearsTwiceInSameTask { buffer: audio(3), task_index: 0 })
    );
    let delay_in_place = vec![Task::AudioDelayComp {
        key: DelayCompKey { edge: 1, delay: 1 },
        audio_in: 2,
        audio_out: 2,
    }];
    assert_eq!(
        verify_tasks(&delay_in_place),
        Err(VerifyScheduleError::BufferAppearsTwiceInSameTask { buffer: audio(2), task_index: 0 })
    );
}

#[test]
fn writing_over_what_nobody_has_read_is_caught() {
    let tasks = vec![
        Task::GraphIn { audio_out: vec![0, 1] },
        Task::Plugin { node: A, inputs: vec![audio(0)], outputs: vec![audio(2)] },
        Task::Plugin { node: B, inputs: vec![audio(2)], outputs: vec![audio(1)] },
    ];
    assert_eq!(
        verify_tasks(&tasks),
        Err(VerifyScheduleError::BufferOverwrittenUnread {
            buffer: audio(1),
            first_task_index: 0,
            second_task_index: 2
        })
    );
}

#[test]
fn a_buffer_may_be_written_again_once_it_was_read() {
    let tasks = vec![
        Task::GraphIn { audio_out: vec![0] },
        Task::Plugin { node: A, inputs: vec![audio(0)], outputs: vec![audio(1)] },
        Task::Plugin { node: B, inputs: vec![audio(1)], outputs: vec![audio(0)] },
        Task::Sum { audio_in: vec![0], audio_out: 1 },
        Task::GraphOut { audio_in: vec![1] },
    ];
    assert_eq!(verify_tasks(&tasks), Ok(()));
    assert_eq!(verify_tasks(&vec![]), Ok(()));
}

#[test]
fn resizing_keeps_the_front_and_adds_silence() {
    let mut pool = AudioBufferPool::new(3);
    assert_eq!(pool.buffer_size(), 3);
    assert_eq!(pool.len(), 0);
    assert_eq!(pool.initialized_buffer_at_index(0), None);
    pool.set_num_buffers(2);
    assert_eq!(pool.len(), 2);
    assert_eq!(pool.buffer(1).samples, vec![0, 0, 0]);
    assert!(pool.buffer(1).is_constant);
    assert_eq!(pool.initialized_buffer_at_index(1), Some(1));
    assert!(!pool.buffer(1).is_constant);
    assert!(pool.buffer(0).is_constant);
    assert_eq!(pool.initialized_buffer_at_index(2), None);
    pool.set_num_buffers(4);
    assert_eq!(pool.len(), 4);
    assert!(!pool.buffer(1).is_constant);
    assert!(pool.buffer(3).is_constant);
    pool.set_num_buffers(1);
    assert_eq!(pool.len(), 1);
    pool.request_all(&vec![0, 5, 0]);
    assert!(!pool.buffer(0).is_constant);
    let mut events = EventBufferPool::new();
    events.set_num_buffers(2);
    assert_eq!(events.len(), 2);
    assert_eq!(events.buffer_at_index(1), Some(1));
    assert_eq!(events.buffer_at_index(2), None);
    events.set_num_buffers(0);
    assert_eq!(events.buffer_at_index(0), None);
}

#[test]
fn the_tasks_of_single_entries() {
    let counts = BufferCounts { audio: 4, note: 1, param_event: 1 };
    let settings = CompileSettings {
        graph_in: 0,
        graph_out: 1,
        num_graph_in_audio_ports: 1,
        num_graph_out_audio_ports: 9,
    };
    let hosts = vec![A];
    let n = ScheduledNode { id: 1, input_buffers: vec![audio(3), audio(2)], output_buffers: vec![] };
    match construct_node_task(&n, settings, counts, &hosts) {
        Some(Task::GraphOut { audio_in }) => assert_eq!(audio_in, vec![3, 2]),
        _ => panic!("wrong task"),
    }
    let n = ScheduledNode { id: B, input_buffers: vec![], output_buffers: vec![] };
    assert!(construct_node_task(&n, settings, counts, &hosts).is_none());
    let s = InsertedSum { input_buffers: vec![], output_buffer: audio(0) };
    assert!(matches!(construct_sum_task(&s, counts), Some(Task::Sum { audio_out: 0, .. })));
    assert_eq!(audio_only(&vec![note(1), audio(2), event(0), audio(0)]), vec![2, 0]);
    let mut p = pools();
    p.buffers.set_num_buffers(4, 1, 1);
    let d = InsertedDelay { edge: 2, delay: 3, input_buffer: audio(1), output_buffer: audio(3) };
    assert!(construct_delay_comp_task(&d, &mut p).is_ok());
    assert!(!p.buffers.audio_buffer_pool.buffer(1).is_constant);
    assert!(p.buffers.audio_buffer_pool.buffer(2).is_constant);
    assert!(!p.buffers.audio_buffer_pool.buffer(3).is_constant);
    let node: &DelayCompNode<u32> = &p.delay_comp_nodes.audio[&key(2, 3)];
    assert_eq!(node.line, vec![0, 0, 0]);
    let d = InsertedDelay { edge: 2, delay: 1 << 32, input_buffer: audio(1), output_buffer: audio(3) };
    match construct_delay_comp_task(&d, &mut p) {
        Ok(Task::AudioDelayComp { key, .. }) => assert_eq!(key.delay, 0),
        _ => panic!("wrong task"),
    }
}
