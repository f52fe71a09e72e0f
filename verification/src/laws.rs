//! What holds of the library as a whole: statements that relate several of
//! its functions, each proved from what the functions themselves promise.

use crate::audio_thread::{
    end_state, outcome_follows, plugin_calls, BlockInputs, BlockOutcome, PluginCall,
};
use crate::channel::{AudioToMainParamValue, MainToAudioParamValue};
use crate::compiler::{compiled, CompileSettings, DelayNodesView};
use crate::events::{ParamEvent, ParamGestureEvent, ProcEvent};
use crate::in_events::value_events;
use crate::main_thread::ReportsTaken;
use crate::out_events::Routing;
use crate::params::{ParamGestureInfo, ParamID, ParamModifiedInfo, ParamValue};
use crate::plugin_state::PluginState;
use crate::reducing_queue::{QueueState, ReducValue};
use crate::schedule::{
    lemma_code_injective, AbstractSchedule, DelayCompKey, ProcessorSchedule, TaskView,
};
use crate::schedule_verifier::{aliases_within, overwrites, read_between};
use crate::shared_pools::{DelayNodeView, GraphSharedPools};
use vstd::prelude::*;

verus! {

/// Two compiles of one plan, with the same settings and against pools in
/// which the same nodes host a plug-in, end in the same tasks.
pub proof fn law_same_plan_same_tasks(
    before_a: GraphSharedPools,
    after_a: GraphSharedPools,
    schedule_a: ProcessorSchedule,
    before_b: GraphSharedPools,
    after_b: GraphSharedPools,
    schedule_b: ProcessorSchedule,
    plan: AbstractSchedule,
    s: CompileSettings,
)
    requires
        before_a.plugin_hosts@ == before_b.plugin_hosts@,
        compiled(before_a, after_a, plan, s, schedule_a),
        compiled(before_b, after_b, plan, s, schedule_b),
    ensures
        schedule_a.tasks() == schedule_b.tasks(),
{
}

/// Two compiles of one plan against the same pools leave the same delay
/// nodes and the same audio buffers behind.
pub proof fn law_same_plan_same_pools(
    before: GraphSharedPools,
    after_a: GraphSharedPools,
    schedule_a: ProcessorSchedule,
    after_b: GraphSharedPools,
    schedule_b: ProcessorSchedule,
    plan: AbstractSchedule,
    s: CompileSettings,
)
    requires
        compiled(before, after_a, plan, s, schedule_a),
        compiled(before, after_b, plan, s, schedule_b),
    ensures
        after_a.delay_nodes() == after_b.delay_nodes(),
        after_a.buffers.audio_buffer_pool@ == after_b.buffers.audio_buffer_pool@,
{
}

/// The task is an audio delay with this key.
pub open spec fn is_audio_delay(t: TaskView, key: DelayCompKey) -> bool {
    t matches TaskView::AudioDelayComp { key: k, .. } && k == key
}

/// The task is a note delay with this key.
pub open spec fn is_note_delay(t: TaskView, key: DelayCompKey) -> bool {
    t matches TaskView::NoteDelayComp { key: k, .. } && k == key
}

/// The task is a delay of parameter events with this key.
pub open spec fn is_param_event_delay(t: TaskView, key: DelayCompKey) -> bool {
    t matches TaskView::ParamEventDelayComp { key: k, .. } && k == key
}

/// Some task of a list is an audio delay with this key.
pub open spec fn has_audio_delay(tasks: Seq<TaskView>, key: DelayCompKey) -> bool {
    exists|i: int| 0 <= i < tasks.len() && is_audio_delay(#[trigger] tasks[i], key)
}

/// Some task of a list is a note delay with this key.
pub open spec fn has_note_delay(tasks: Seq<TaskView>, key: DelayCompKey) -> bool {
    exists|i: int| 0 <= i < tasks.len() && is_note_delay(#[trigger] tasks[i], key)
}

/// Some task of a list is a delay of parameter events with this key.
pub open spec fn has_param_event_delay(tasks: Seq<TaskView>, key: DelayCompKey) -> bool {
    exists|i: int| 0 <= i < tasks.len() && is_param_event_delay(#[trigger] tasks[i], key)
}

/// What making a list of tasks does to one audio delay node: a node that
/// was there keeps its line and its place in the line, and is in use if and
/// only if it was in use or a task of the list uses it; a node that was not
/// there is there afterwards if and only if a task of the list uses it.
pub proof fn lemma_audio_nodes_touched(nodes: DelayNodesView, tasks: Seq<TaskView>, key: DelayCompKey)
    ensures
        ({
            let after = nodes.touched_by_all(tasks).audio;
            let before = nodes.audio;
            &&& after.contains_key(key.code()) <==> (before.contains_key(key.code())
                || has_audio_delay(tasks, key))
            &&& before.contains_key(key.code()) ==> after[key.code()] == (DelayNodeView {
                active: before[key.code()].active || has_audio_delay(tasks, key),
                ..before[key.code()]
            })
            &&& after.contains_key(key.code()) && !before.contains_key(key.code())
                ==> after[key.code()].active
        }),
    decreases tasks.len(),
{
    if tasks.len() > 0 {
        let head = tasks.drop_last();
        let last = tasks.last();
        lemma_audio_nodes_touched(nodes, head, key);
        let mid = nodes.touched_by_all(head);
        assert(nodes.touched_by_all(tasks) == mid.touched_by(last));
        if has_audio_delay(head, key) {
            let i = choose|i: int| 0 <= i < head.len() && is_audio_delay(#[trigger] head[i], key);
            assert(is_audio_delay(tasks[i], key));
        }
        if is_audio_delay(last, key) {
            assert(is_audio_delay(tasks[tasks.len() - 1], key));
        }
        if has_audio_delay(tasks, key) {
            let i = choose|i: int| 0 <= i < tasks.len() && is_audio_delay(#[trigger] tasks[i], key);
            if i < head.len() {
                assert(is_audio_delay(head[i], key));
            }
        }
        match last {
            TaskView::AudioDelayComp { key: k, .. } => {
                if k.code() == key.code() {
                    lemma_code_injective(k, key);
                }
            },
            _ => {},
        }
    }
}

/// The same for a note delay node.
pub proof fn lemma_note_nodes_touched(nodes: DelayNodesView, tasks: Seq<TaskView>, key: DelayCompKey)
    ensures
        ({
            let after = nodes.touched_by_all(tasks).note;
            let before = nodes.note;
            &&& after.contains_key(key.code()) <==> (before.contains_key(key.code())
                || has_note_delay(tasks, key))
            &&& before.contains_key(key.code()) ==> after[key.code()] == (DelayNodeView {
                active: before[key.code()].active || has_note_delay(tasks, key),
                ..before[key.code()]
            })
            &&& after.contains_key(key.code()) && !before.contains_key(key.code())
                ==> after[key.code()].active
        }),
    decreases tasks.len(),
{
    if tasks.len() > 0 {
        let head = tasks.drop_last();
        let last = tasks.last();
        lemma_note_nodes_touched(nodes, head, key);
        let mid = nodes.touched_by_all(head);
        assert(nodes.touched_by_all(tasks) == mid.touched_by(last));
        if has_note_delay(head, key) {
            let i = choose|i: int| 0 <= i < head.len() && is_note_delay(#[trigger] head[i], key);
            assert(is_note_delay(tasks[i], key));
        }
        if is_note_delay(last, key) {
            assert(is_note_delay(tasks[tasks.len() - 1], key));
        }
        if has_note_delay(tasks, key) {
            let i = choose|i: int| 0 <= i < tasks.len() && is_note_delay(#[trigger] tasks[i], key);
            if i < head.len() {
                assert(is_note_delay(head[i], key));
            }
        }
        match last {
            TaskView::NoteDelayComp { key: k, .. } => {
                if k.code() == key.code() {
                    lemma_code_injective(k, key);
                }
            },
            _ => {},
        }
    }
}

/// The same for a delay node of parameter events.
pub proof fn lemma_param_event_nodes_touched(
    nodes: DelayNodesView,
    tasks: Seq<TaskView>,
    key: DelayCompKey,
)
    ensures
        ({
            let after = nodes.touched_by_all(tasks).param_event;
            let before = nodes.param_event;
            &&& after.contains_key(key.code()) <==> (before.contains_key(key.code())
                || has_param_event_delay(tasks, key))
            &&& before.contains_key(key.code()) ==> after[key.code()] == (DelayNodeView {
                active: before[key.code()].active || has_param_event_delay(tasks, key),
                ..before[key.code()]
            })
            &&& after.contains_key(key.code()) && !before.contains_key(key.code())
                ==> after[key.code()].active
        }),
    decreases tasks.len(),
{
    if tasks.len() > 0 {
        let head = tasks.drop_last();
        let last = tasks.last();
        lemma_param_event_nodes_touched(nodes, head, key);
        let mid = nodes.touched_by_all(head);
        assert(nodes.touched_by_all(tasks) == mid.touched_by(last));
        if has_param_event_delay(head, key) {
            let i = choose|i: int|
                0 <= i < head.len() && is_param_event_delay(#[trigger] head[i], key);
            assert(is_param_event_delay(tasks[i], key));
        }
        if is_param_event_delay(last, key) {
            assert(is_param_event_delay(tasks[tasks.len() - 1], key));
        }
        if has_param_event_delay(tasks, key) {
            let i = choose|i: int|
                0 <= i < tasks.len() && is_param_event_delay(#[trigger] tasks[i], key);
            if i < head.len() {
                assert(is_param_event_delay(head[i], key));
            }
        }
        match last {
            TaskView::ParamEventDelayComp { key: k, .. } => {
                if k.code() == key.code() {
                    lemma_code_injective(k, key);
                }
            },
            _ => {},
        }
    }
}

/// A delay node that a compile finds and that a task of the new schedule
/// uses is still there after the compile, with the line and the place in the
/// line that it had: the delay goes on where it was. This holds of each of
/// the three types of delay.
pub proof fn law_delay_node_survives(
    before: GraphSharedPools,
    after: GraphSharedPools,
    plan: AbstractSchedule,
    s: CompileSettings,
    schedule: ProcessorSchedule,
    key: DelayCompKey,
)
    requires
        compiled(before, after, plan, s, schedule),
    ensures
        before.delay_nodes().audio.contains_key(key.code()) && has_audio_delay(
            schedule.tasks(),
            key,
        ) ==> after.delay_nodes().audio.contains_key(key.code())
            && after.delay_nodes().audio[key.code()] == (DelayNodeView {
            active: true,
            ..before.delay_nodes().audio[key.code()]
        }),
        before.delay_nodes().note.contains_key(key.code()) && has_note_delay(schedule.tasks(), key)
            ==> after.delay_nodes().note.contains_key(key.code())
            && after.delay_nodes().note[key.code()] == (DelayNodeView {
            active: true,
            ..before.delay_nodes().note[key.code()]
        }),
        before.delay_nodes().param_event.contains_key(key.code()) && has_param_event_delay(
            schedule.tasks(),
            key,
        ) ==> after.delay_nodes().param_event.contains_key(key.code())
            && after.delay_nodes().param_event[key.code()] == (DelayNodeView {
            active: true,
            ..before.delay_nodes().param_event[key.code()]
        }),
{
    let start = before.delay_nodes().all_inactive();
    lemma_audio_nodes_touched(start, schedule.tasks(), key);
    lemma_note_nodes_touched(start, schedule.tasks(), key);
    lemma_param_event_nodes_touched(start, schedule.tasks(), key);
}

/// A delay that a task of the new schedule uses has its node after the
/// compile, whether the compile found the node or made it. With
/// `law_delay_node_survives`: two schedules in a row that hold the same
/// delay use one node, and the second finds it as the first left it.
pub proof fn law_delay_node_present(
    before: GraphSharedPools,
    after: GraphSharedPools,
    plan: AbstractSchedule,
    s: CompileSettings,
    schedule: ProcessorSchedule,
    key: DelayCompKey,
)
    requires
        compiled(before, after, plan, s, schedule),
    ensures
        has_audio_delay(schedule.tasks(), key) ==> after.delay_nodes().audio.contains_key(
            key.code(),
        ),
        has_note_delay(schedule.tasks(), key) ==> after.delay_nodes().note.contains_key(key.code()),
        has_param_event_delay(schedule.tasks(), key)
            ==> after.delay_nodes().param_event.contains_key(key.code()),
{
    let start = before.delay_nodes().all_inactive();
    lemma_audio_nodes_touched(start, schedule.tasks(), key);
    lemma_note_nodes_touched(start, schedule.tasks(), key);
    lemma_param_event_nodes_touched(start, schedule.tasks(), key);
}

/// A delay node that no task of the new schedule uses is gone after the
/// compile. This holds of each of the three types of delay.
pub proof fn law_unused_delay_node_evicted(
    before: GraphSharedPools,
    after: GraphSharedPools,
    plan: AbstractSchedule,
    s: CompileSettings,
    schedule: ProcessorSchedule,
    key: DelayCompKey,
)
    requires
        compiled(before, after, plan, s, schedule),
    ensures
        !has_audio_delay(schedule.tasks(), key) ==> !after.delay_nodes().audio.contains_key(
            key.code(),
        ),
        !has_note_delay(schedule.tasks(), key) ==> !after.delay_nodes().note.contains_key(
            key.code(),
        ),
        !has_param_event_delay(schedule.tasks(), key)
            ==> !after.delay_nodes().param_event.contains_key(key.code()),
{
    let start = before.delay_nodes().all_inactive();
    lemma_audio_nodes_touched(start, schedule.tasks(), key);
    lemma_note_nodes_touched(start, schedule.tasks(), key);
    lemma_param_event_nodes_touched(start, schedule.tasks(), key);
}

/// Every audio delay line is as long as its delay.
pub open spec fn lines_in_order(nodes: DelayNodesView) -> bool {
    forall|k: u64| nodes.audio.contains_key(k) ==> (#[trigger] nodes.audio[k]).ring_wf()
}

/// Making tasks leaves the audio delay lines in order.
pub proof fn lemma_lines_stay_in_order(nodes: DelayNodesView, tasks: Seq<TaskView>)
    requires
        lines_in_order(nodes),
    ensures
        lines_in_order(nodes.touched_by_all(tasks)),
    decreases tasks.len(),
{
    if tasks.len() > 0 {
        lemma_lines_stay_in_order(nodes, tasks.drop_last());
        let mid = nodes.touched_by_all(tasks.drop_last());
        let end = mid.touched_by(tasks.last());
        assert forall|k: u64| end.audio.contains_key(k) implies (#[trigger] end.audio[k]).ring_wf() by {
            if mid.audio.contains_key(k) {
                assert(mid.audio[k].ring_wf());
            }
        }
    }
}

/// A compile that finds every audio delay line as long as its delay leaves
/// every audio delay line so: the lines that it keeps are untouched, and the
/// lines that it makes are lines of silence of the length of the delay.
pub proof fn law_delay_lines_stay_in_order(
    before: GraphSharedPools,
    after: GraphSharedPools,
    plan: AbstractSchedule,
    s: CompileSettings,
    schedule: ProcessorSchedule,
)
    requires
        compiled(before, after, plan, s, schedule),
        lines_in_order(before.delay_nodes()),
    ensures
        lines_in_order(after.delay_nodes()),
{
    let start = before.delay_nodes().all_inactive();
    assert(lines_in_order(start)) by {
        assert forall|k: u64| start.audio.contains_key(k) implies (#[trigger] start.audio[k]).ring_wf() by {
            assert(before.delay_nodes().audio[k].ring_wf());
        }
    }
    lemma_lines_stay_in_order(start, schedule.tasks());
    let touched_all = start.touched_by_all(schedule.tasks());
    assert forall|k: u64| after.delay_nodes().audio.contains_key(k) implies (
    #[trigger] after.delay_nodes().audio[k]).ring_wf() by {
        assert(touched_all.audio[k].ring_wf());
    }
}

/// In a schedule that a compile has handed out, no task writes a buffer that
/// it reads or writes twice, and no task writes a buffer that an earlier task
/// has written unless a task between the two has read it.
pub proof fn law_compiled_schedule_is_sound(
    before: GraphSharedPools,
    after: GraphSharedPools,
    plan: AbstractSchedule,
    s: CompileSettings,
    schedule: ProcessorSchedule,
)
    requires
        compiled(before, after, plan, s, schedule),
    ensures
        forall|k: int, b: crate::schedule::BufferRef|
            0 <= k < schedule.tasks().len() && #[trigger] schedule.tasks()[k].writes().contains(b)
                ==> !schedule.tasks()[k].reads().contains(b),
        forall|i: int, j: int, b: crate::schedule::BufferRef|
            0 <= i < j < schedule.tasks().len() && #[trigger] schedule.tasks()[i].writes().contains(b)
                && #[trigger] schedule.tasks()[j].writes().contains(b) ==> read_between(
                schedule.tasks(),
                i,
                j,
                b,
            ),
{
    let tasks = schedule.tasks();
    assert forall|k: int, b: crate::schedule::BufferRef|
        0 <= k < tasks.len() && #[trigger] tasks[k].writes().contains(b) implies !tasks[k].reads().contains(
        b,
    ) by {
        assert(!aliases_within(tasks[k], b));
    }
    assert forall|i: int, j: int, b: crate::schedule::BufferRef|
        0 <= i < j < tasks.len() && #[trigger] tasks[i].writes().contains(b)
            && #[trigger] tasks[j].writes().contains(b) implies read_between(tasks, i, j, b) by {
        assert(!overwrites(tasks, i, j, b));
    }
}

/// A queue after the producer has put each value of a list under one key, in
/// order, and has released each as it was put.
pub open spec fn set_each<V: ReducValue>(q: QueueState<V>, id: u32, values: Seq<V>) -> QueueState<V>
    decreases values.len(),
{
    if values.len() == 0 {
        q
    } else {
        set_each(q, id, values.drop_last()).set(id, values.last()).producer_done()
    }
}

/// Putting a value under a key leaves a queue in order.
pub proof fn lemma_set_in_order<V: ReducValue>(q: QueueState<V>, id: u32, v: V)
    requires
        q.wf(),
    ensures
        q.set(id, v).wf(),
        q.set(id, v).producer_done().wf(),
        q.set(id, v).order.contains(id),
{
    let next = q.set(id, v);
    if !q.values.contains_key(id) {
        crate::reducing_queue::lemma_push_fresh(q.order, id);
    }
    assert forall|k: u32| next.order.contains(k) <==> next.values.contains_key(k) by {
        assert(q.order.contains(k) <==> q.values.contains_key(k));
    }
}

/// However often the control thread sets a parameter before the audio thread
/// looks, the audio thread finds one entry for the parameter, and it holds
/// the value that was set last. The events that are made of what the audio
/// thread finds hold one event for the parameter, with that value.
pub proof fn law_last_value_wins(q: QueueState<MainToAudioParamValue>, id: ParamID, values: Seq<ParamValue>)
    requires
        q.wf(),
        values.len() > 0,
    ensures
        ({
            let queued = Seq::new(values.len(), |i: int| MainToAudioParamValue { value: values[i] });
            let found = set_each(q, id.0, queued).consumed();
            let events = value_events(found);
            exists|i: int|
                {
                    &&& 0 <= i < found.len()
                    &&& #[trigger] found[i] == (id, MainToAudioParamValue { value: values.last() })
                    &&& events[i] matches ProcEvent::ParamValue(e, target) && e.param_id == id.0
                        && e.value == values.last() && e.frame == 0 && target is None
                    &&& forall|j: int| 0 <= j < found.len() && j != i ==> (#[trigger] found[j]).0 != id
                }
        }),
{
    let queued = Seq::new(values.len(), |i: int| MainToAudioParamValue { value: values[i] });
    lemma_set_each(q, id.0, queued);
    let end = set_each(q, id.0, queued);
    let found = end.consumed();
    let i = choose|i: int| 0 <= i < end.order.len() && end.order[i] == id.0;
    assert(found[i] == (id, MainToAudioParamValue { value: values.last() }));
    assert forall|j: int| 0 <= j < found.len() && j != i implies (#[trigger] found[j]).0 != id by {
        assert(end.order[j] != end.order[i]);
    }
}

/// After a list of values was put under one key, the queue is in order, all
/// of it is released, and the key holds the last value.
pub proof fn lemma_set_each<V: ReducValue>(q: QueueState<V>, id: u32, values: Seq<V>)
    requires
        q.wf(),
        values.len() > 0,
    ensures
        set_each(q, id, values).wf(),
        set_each(q, id, values).published == set_each(q, id, values).order.len(),
        set_each(q, id, values).order.contains(id),
        set_each(q, id, values).values[id] == values.last(),
    decreases values.len(),
{
    let head = values.drop_last();
    if head.len() > 0 {
        lemma_set_each(q, id, head);
    }
    lemma_set_in_order(set_each(q, id, head), id, values.last());
}

/// A report of a value leaves the gesture that waits as it is, and a report
/// of a gesture leaves the value that waits as it is.
pub proof fn law_value_and_gesture_do_not_clobber(
    waiting: AudioToMainParamValue,
    value: ParamValue,
    gesture: ParamGestureInfo,
)
    ensures
        waiting.merged(AudioToMainParamValue { value: Some(value), gesture: None }).gesture
            == waiting.gesture,
        waiting.merged(AudioToMainParamValue { value: Some(value), gesture: None }).value == Some(
            value,
        ),
        waiting.merged(AudioToMainParamValue { value: None, gesture: Some(gesture) }).value
            == waiting.value,
        waiting.merged(AudioToMainParamValue { value: None, gesture: Some(gesture) }).gesture
            == Some(gesture),
{
}

/// A gesture that begins, brings a value and ends within one block reaches
/// the control thread as one report, which holds the value and the end of
/// the gesture: the begin is merged away before the control thread looks.
pub proof fn law_gesture_within_one_block(start: Routing, id: u32, frame: u32, value: ParamEvent)
    requires
        start.reports matches Some(q) && q.wf() && !q.values.contains_key(id),
        !start.is_adjusting(id),
        value.param_id == id,
    ensures
        ({
            let events = seq![
                ProcEvent::ParamGestureBegin(ParamGestureEvent { frame, param_id: id }),
                ProcEvent::ParamValue(value, None),
                ProcEvent::ParamGestureEnd(ParamGestureEvent { frame, param_id: id }),
            ];
            let end = start.route_all(events);
            &&& end.reports matches Some(q) && q.values.contains_key(id) && q.values[id]
                == (AudioToMainParamValue {
                value: Some(value.value),
                gesture: Some(ParamGestureInfo { is_begin: false }),
            })
            &&& !end.is_adjusting(id)
        }),
{
    let begin = ProcEvent::ParamGestureBegin(ParamGestureEvent { frame, param_id: id });
    let val = ProcEvent::ParamValue(value, None);
    let finish = ProcEvent::ParamGestureEnd(ParamGestureEvent { frame, param_id: id });
    let events = seq![begin, val, finish];
    let e2 = events.drop_last();
    let e1 = e2.drop_last();
    assert(e1.drop_last() =~= Seq::<ProcEvent>::empty());
    assert(e1.last() == begin && e2.last() == val && events.last() == finish);
    let r0 = start.route_all(e1.drop_last());
    assert(r0 == start);
    let r1 = start.route_all(e1);
    assert(r1 == r0.route(begin));
    let r2 = start.route_all(e2);
    assert(r2 == r1.route(val));
    let r3 = start.route_all(events);
    assert(r3 == r2.route(finish));
}

/// What the control thread is told of a parameter whose gesture reaches it
/// in two idle ticks: with the report of the begin and a value it is told
/// that the parameter is being adjusted, and with the report of the end that
/// it no longer is.
pub proof fn law_gesture_over_two_ticks(
    taken: ReportsTaken,
    id: ParamID,
    first: ParamValue,
    second: Option<ParamValue>,
)
    ensures
        ({
            let begin = AudioToMainParamValue {
                value: Some(first),
                gesture: Some(ParamGestureInfo { is_begin: true }),
            };
            let end = AudioToMainParamValue {
                value: second,
                gesture: Some(ParamGestureInfo { is_begin: false }),
            };
            let tick_1 = taken.take(id, begin);
            let tick_2 = tick_1.take(id, end);
            &&& tick_1.modified.last() == (ParamModifiedInfo {
                param_id: id,
                new_value: Some(first),
                is_gesturing: true,
            })
            &&& tick_2.modified.last() == (ParamModifiedInfo {
                param_id: id,
                new_value: second,
                is_gesturing: false,
            })
            &&& tick_2.modified.len() == taken.modified.len() + 2
            &&& tick_2.dirty
        }),
{
}

/// After a block in which the plug-in has said `Sleep`, the plug-in sleeps,
/// and a block that follows with no request to process and no note for the
/// plug-in makes no call to the plug-in's `process`.
pub proof fn law_sleep_is_kept(first: BlockInputs, outcome: BlockOutcome, next: BlockInputs, after: BlockOutcome)
    requires
        outcome_follows(first, outcome),
        outcome matches BlockOutcome::Processed { status, .. } && status is Sleep,
        next.state == end_state(first.state, outcome),
        !next.process_requested,
        !next.has_note,
        outcome_follows(next, after),
    ensures
        end_state(first.state, outcome) == PluginState::ActiveAndSleeping,
        !plugin_calls(next, after).contains(PluginCall::Process),
{
    let calls = plugin_calls(next, after);
    assert forall|i: int| 0 <= i < calls.len() implies calls[i] != PluginCall::Process by {}
}

/// After a block in which the plug-in has said `ContinueIfNotQuiet`, the
/// plug-in waits for quiet; and if in the block that follows all audio inputs
/// are silent, no note waits for the plug-in and the control side has not
/// asked for the plug-in to be let go of, then that block stops the plug-in,
/// does not process it, and leaves it asleep.
pub proof fn law_quiet_puts_to_sleep(
    first: BlockInputs,
    outcome: BlockOutcome,
    next: BlockInputs,
    after: BlockOutcome,
)
    requires
        outcome_follows(first, outcome),
        outcome matches BlockOutcome::Processed { status, .. } && status is ContinueIfNotQuiet,
        next.state == end_state(first.state, outcome),
        next.inputs_silent,
        !next.has_note,
        !next.deactivate,
        outcome_follows(next, after),
    ensures
        end_state(first.state, outcome) == PluginState::ActiveAndWaitingForQuiet,
        after is FellAsleep,
        plugin_calls(next, after)[0] == PluginCall::StopProcessing,
        !plugin_calls(next, after).contains(PluginCall::Process),
        end_state(next.state, after) == PluginState::ActiveAndSleeping,
{
    let calls = plugin_calls(next, after);
    assert forall|i: int| 0 <= i < calls.len() implies calls[i] != PluginCall::Process by {}
}

/// A block that finds `DEACTIVATE` waiting for an active plug-in makes no
/// call to the plug-in's `process`, stops the plug-in if it was processing,
/// and leaves the lifecycle word on `WaitingToDrop`; and no block after it
/// calls the plug-in until the plug-in is activated again.
pub proof fn law_deactivate_ends_processing(inp: BlockInputs, outcome: BlockOutcome, next: BlockInputs, after: BlockOutcome)
    requires
        inp.state.active(),
        inp.deactivate,
        outcome_follows(inp, outcome),
        next.state == end_state(inp.state, outcome),
        outcome_follows(next, after),
    ensures
        outcome is Deactivated,
        !plugin_calls(inp, outcome).contains(PluginCall::Process),
        inp.state.processing() ==> plugin_calls(inp, outcome) == seq![PluginCall::StopProcessing],
        end_state(inp.state, outcome) == PluginState::WaitingToDrop,
        after is Inactive,
        plugin_calls(next, after) == Seq::<PluginCall>::empty(),
        end_state(next.state, after) == PluginState::WaitingToDrop,
{
    let calls = plugin_calls(inp, outcome);
    assert forall|i: int| 0 <= i < calls.len() implies calls[i] != PluginCall::Process by {}
}

} // verus!
