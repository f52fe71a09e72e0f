//! The schedule compiler: from the planned schedule to tasks over the shared
//! buffers, with the delay nodes of earlier schedules put to use again.

use crate::events::ProcEvent;
use crate::plugin::PluginInstanceID;
use crate::schedule::{
    task_views, AbstractSchedule, BufferRef, DelayCompKey, InsertedDelay, InsertedSum,
    ProcessorSchedule, ScheduleEntry, ScheduledNode, Task, TaskView, AUDIO_TYPE_IDX, NOTE_TYPE_IDX,
    PARAM_AUTOMATION_TYPE_IDX,
};
use crate::schedule_verifier::{schedule_sound, violation, Verifier, VerifyScheduleError};
use crate::shared_pools::{
    all_inactive, evict_inactive, insert_node, mark_all_inactive, nodes_view, only_active,
    requested_all, resized, resized_events, touch, touched, DelayNodeView, GraphSharedPools,
    PooledAudio,
};
use crate::text::{decimal, decimal_text, joined, signed_decimal, signed_decimal_text};
use vstd::prelude::*;
use vstd::string::StringExecFns;

verus! {

/// Why a schedule could not be compiled.
#[derive(Debug)]
pub enum GraphCompilerError {
    /// The planner could not make a schedule.
    AbstractCompileError(String),
    /// The planned schedule holds something that makes no sense.
    UnexpectedError(String),
    /// The compiled schedule is not sound. The planned schedule and the
    /// compiled one come with the error.
    VerifierError(VerifyScheduleError, AbstractSchedule, ProcessorSchedule),
}

/// How many buffers each pool has.
#[derive(Debug, Clone, Copy, PartialEq, Eq, Structural)]
pub struct BufferCounts {
    pub audio: usize,
    pub note: usize,
    pub param_event: usize,
}

/// What the compiler is told besides the planned schedule.
#[derive(Debug, Clone, Copy, PartialEq, Eq, Structural)]
pub struct CompileSettings {
    /// The node through which audio and notes enter the graph.
    pub graph_in: u64,
    /// The node through which they leave it.
    pub graph_out: u64,
    pub num_graph_in_audio_ports: usize,
    pub num_graph_out_audio_ports: usize,
}

/// The buffer is one of a pool that there is, at a place that the pool has.
pub open spec fn ref_known(r: BufferRef, c: BufferCounts) -> bool {
    ||| r.type_index == AUDIO_TYPE_IDX && r.buffer_index < c.audio
    ||| r.type_index == NOTE_TYPE_IDX && r.buffer_index < c.note
    ||| r.type_index == PARAM_AUTOMATION_TYPE_IDX && r.buffer_index < c.param_event
}

/// Every buffer of a list is known.
pub open spec fn all_known(refs: Seq<BufferRef>, c: BufferCounts) -> bool {
    forall|i: int| 0 <= i < refs.len() ==> ref_known(#[trigger] refs[i], c)
}

/// Every buffer of a list is a known audio buffer.
pub open spec fn all_audio(refs: Seq<BufferRef>, c: BufferCounts) -> bool {
    forall|i: int|
        0 <= i < refs.len() ==> (#[trigger] refs[i]).type_index == AUDIO_TYPE_IDX
            && refs[i].buffer_index < c.audio
}

/// The places of the audio buffers of a list, in their order.
pub open spec fn audio_indices(refs: Seq<BufferRef>) -> Seq<usize>
    decreases refs.len(),
{
    if refs.len() == 0 {
        Seq::empty()
    } else if refs.last().type_index == AUDIO_TYPE_IDX {
        audio_indices(refs.drop_last()).push(refs.last().buffer_index)
    } else {
        audio_indices(refs.drop_last())
    }
}

/// The places of the buffers of a list.
pub open spec fn indices_of(refs: Seq<BufferRef>) -> Seq<usize> {
    Seq::new(refs.len(), |i: int| refs[i].buffer_index)
}

/// The first `n` items of a list, or all of them where there are fewer.
pub open spec fn first<T>(s: Seq<T>, n: usize) -> Seq<T> {
    if n <= s.len() {
        s.take(n as int)
    } else {
        s
    }
}

/// The task that a node of the planned schedule becomes, or nothing for a
/// node that names a buffer that is not there, or that is neither the way
/// into the graph, nor the way out, nor the place of a hosted plug-in.
pub open spec fn node_task(
    n: ScheduledNode,
    s: CompileSettings,
    c: BufferCounts,
    hosts: Seq<u64>,
) -> Option<TaskView> {
    if !all_known(n.input_buffers@, c) || !all_known(n.output_buffers@, c) {
        None
    } else if n.id == s.graph_in {
        Some(
            TaskView::GraphIn {
                audio_out: first(audio_indices(n.output_buffers@), s.num_graph_in_audio_ports),
            },
        )
    } else if n.id == s.graph_out {
        Some(
            TaskView::GraphOut {
                audio_in: first(audio_indices(n.input_buffers@), s.num_graph_out_audio_ports),
            },
        )
    } else if hosts.contains(n.id) {
        Some(TaskView::Plugin { node: n.id, inputs: n.input_buffers@, outputs: n.output_buffers@ })
    } else {
        None
    }
}

/// The task that a delay of the planned schedule becomes, or nothing for a
/// negative delay, for a type of buffer that there is not, or for a buffer
/// that the pool of that type does not have. The type is that of the input.
pub open spec fn delay_task(d: InsertedDelay, c: BufferCounts) -> Option<TaskView> {
    let key = DelayCompKey { edge: d.edge, delay: d.delay as u32 };
    let input = d.input_buffer.buffer_index;
    let output = d.output_buffer.buffer_index;
    if d.delay < 0 {
        None
    } else if d.input_buffer.type_index == AUDIO_TYPE_IDX {
        if input < c.audio && output < c.audio {
            Some(TaskView::AudioDelayComp { key, audio_in: input, audio_out: output })
        } else {
            None
        }
    } else if d.input_buffer.type_index == NOTE_TYPE_IDX {
        if input < c.note && output < c.note {
            Some(TaskView::NoteDelayComp { key, note_in: input, note_out: output })
        } else {
            None
        }
    } else if d.input_buffer.type_index == PARAM_AUTOMATION_TYPE_IDX {
        if input < c.param_event && output < c.param_event {
            Some(TaskView::ParamEventDelayComp { key, event_in: input, event_out: output })
        } else {
            None
        }
    } else {
        None
    }
}

/// The task that a sum of the planned schedule becomes, or nothing for a
/// sum over anything but known audio buffers.
pub open spec fn sum_task(sum: InsertedSum, c: BufferCounts) -> Option<TaskView> {
    if all_audio(sum.input_buffers@, c) && sum.output_buffer.type_index == AUDIO_TYPE_IDX
        && sum.output_buffer.buffer_index < c.audio {
        Some(
            TaskView::Sum {
                audio_in: indices_of(sum.input_buffers@),
                audio_out: sum.output_buffer.buffer_index,
            },
        )
    } else {
        None
    }
}

/// The task that an entry of the planned schedule becomes.
pub open spec fn entry_task(
    e: ScheduleEntry,
    s: CompileSettings,
    c: BufferCounts,
    hosts: Seq<u64>,
) -> Option<TaskView> {
    match e {
        ScheduleEntry::Node(n) => node_task(n, s, c, hosts),
        ScheduleEntry::Delay(d) => delay_task(d, c),
        ScheduleEntry::Sum(sum) => sum_task(sum, c),
    }
}

/// The tasks that the first `n` entries become.
pub open spec fn tasks_of(
    entries: Seq<ScheduleEntry>,
    n: int,
    s: CompileSettings,
    c: BufferCounts,
    hosts: Seq<u64>,
) -> Seq<TaskView>
    decreases n,
{
    if n <= 0 || n > entries.len() {
        Seq::empty()
    } else {
        match entry_task(entries[n - 1], s, c, hosts) {
            Some(t) => tasks_of(entries, n - 1, s, c, hosts).push(t),
            None => tasks_of(entries, n - 1, s, c, hosts),
        }
    }
}

/// Each of the first `n` entries becomes a task.
pub open spec fn well_formed_upto(
    entries: Seq<ScheduleEntry>,
    n: int,
    s: CompileSettings,
    c: BufferCounts,
    hosts: Seq<u64>,
) -> bool {
    forall|j: int| 0 <= j < n ==> (#[trigger] entry_task(entries[j], s, c, hosts)) is Some
}

/// Entry `b` is the first that becomes no task.
pub open spec fn first_malformed(
    entries: Seq<ScheduleEntry>,
    b: int,
    s: CompileSettings,
    c: BufferCounts,
    hosts: Seq<u64>,
) -> bool {
    &&& 0 <= b < entries.len()
    &&& well_formed_upto(entries, b, s, c, hosts)
    &&& entry_task(entries[b], s, c, hosts) is None
}

/// The message for an entry that becomes no task.
pub open spec fn malformed_message(e: ScheduleEntry, c: BufferCounts) -> Seq<char> {
    match e {
        ScheduleEntry::Node(_) => "Abstract schedule holds a node that is unknown or uses a buffer that does not exist"@,
        ScheduleEntry::Delay(d) => if d.delay < 0 {
            "Abstract schedule inserted a delay with negative latency: delay "@ + signed_decimal(
                d.delay as int,
            ) + " on edge "@ + decimal(d.edge as nat)
        } else if d.input_buffer.type_index > PARAM_AUTOMATION_TYPE_IDX {
            "Abstract schedule inserted a delay with unknown type index "@ + decimal(
                d.input_buffer.type_index as nat,
            )
        } else {
            "Abstract schedule inserted a delay on a buffer that does not exist"@
        },
        ScheduleEntry::Sum(_) => "Abstract schedule inserted a sum over a buffer that is not an audio buffer or does not exist"@,
    }
}

/// The delay nodes of the three types, as what they hold.
pub struct DelayNodesView {
    pub audio: Map<u64, DelayNodeView<u32>>,
    pub note: Map<u64, DelayNodeView<ProcEvent>>,
    pub param_event: Map<u64, DelayNodeView<ProcEvent>>,
}

/// A line of silence for a delay of `delay` samples.
pub open spec fn silent_line(delay: u32) -> Seq<u32> {
    Seq::new(delay as nat, |i: int| 0u32)
}

impl DelayNodesView {
    /// The nodes with none of them in use.
    pub open spec fn all_inactive(self) -> DelayNodesView {
        DelayNodesView {
            audio: all_inactive(self.audio),
            note: all_inactive(self.note),
            param_event: all_inactive(self.param_event),
        }
    }

    /// The nodes that are in use.
    pub open spec fn only_active(self) -> DelayNodesView {
        DelayNodesView {
            audio: only_active(self.audio),
            note: only_active(self.note),
            param_event: only_active(self.param_event),
        }
    }

    /// The nodes after a task was made: a delay task puts the node of its
    /// kind and key to use, and makes it where there is none.
    pub open spec fn touched_by(self, t: TaskView) -> DelayNodesView {
        match t {
            TaskView::AudioDelayComp { key, .. } => DelayNodesView {
                audio: touched(self.audio, key, silent_line(key.delay)),
                ..self
            },
            TaskView::NoteDelayComp { key, .. } => DelayNodesView {
                note: touched(self.note, key, Seq::empty()),
                ..self
            },
            TaskView::ParamEventDelayComp { key, .. } => DelayNodesView {
                param_event: touched(self.param_event, key, Seq::empty()),
                ..self
            },
            _ => self,
        }
    }

    /// The nodes after a list of tasks was made, first to last.
    pub open spec fn touched_by_all(self, tasks: Seq<TaskView>) -> DelayNodesView
        decreases tasks.len(),
    {
        if tasks.len() == 0 {
            self
        } else {
            self.touched_by_all(tasks.drop_last()).touched_by(tasks.last())
        }
    }
}

/// The audio buffers that making a task asks for: those that it reads, then
/// those that it writes.
pub open spec fn audio_requests(t: TaskView) -> Seq<usize> {
    audio_indices(t.reads()) + audio_indices(t.writes())
}

/// The audio pool after the tasks of a list were made, first to last.
pub open spec fn requested_by_all(pool: Seq<PooledAudio>, tasks: Seq<TaskView>) -> Seq<PooledAudio>
    decreases tasks.len(),
{
    if tasks.len() == 0 {
        pool
    } else {
        requested_all(requested_by_all(pool, tasks.drop_last()), audio_requests(tasks.last()))
    }
}

impl GraphSharedPools {
    /// The delay nodes, as what they hold.
    pub open spec fn delay_nodes(&self) -> DelayNodesView {
        DelayNodesView {
            audio: nodes_view(self.delay_comp_nodes.audio@),
            note: nodes_view(self.delay_comp_nodes.note@),
            param_event: nodes_view(self.delay_comp_nodes.param_event@),
        }
    }

    /// How many buffers each pool has.
    pub open spec fn counts(&self) -> BufferCounts {
        BufferCounts {
            audio: self.buffers.audio_buffer_pool@.len() as usize,
            note: self.buffers.note_buffer_pool@.len() as usize,
            param_event: self.buffers.param_event_buffer_pool@.len() as usize,
        }
    }

    /// `after` is `self` but for the audio pool and the delay nodes.
    pub open spec fn same_but_audio_and_delays(&self, after: &GraphSharedPools) -> bool {
        &&& after.wf()
        &&& after.buffers.audio_buffer_pool.frames() == self.buffers.audio_buffer_pool.frames()
        &&& after.buffers.note_buffer_pool == self.buffers.note_buffer_pool
        &&& after.buffers.param_event_buffer_pool == self.buffers.param_event_buffer_pool
        &&& after.transport == self.transport
        &&& after.plugin_hosts == self.plugin_hosts
    }

    /// How many buffers each pool has.
    pub fn buffer_counts(&self) -> (c: BufferCounts)
        ensures
            c == self.counts(),
    {
        BufferCounts {
            audio: self.buffers.audio_buffer_pool.len(),
            note: self.buffers.note_buffer_pool.len(),
            param_event: self.buffers.param_event_buffer_pool.len(),
        }
    }
}

fn known(r: BufferRef, c: BufferCounts) -> (k: bool)
    ensures
        k == ref_known(r, c),
{
    (r.type_index == AUDIO_TYPE_IDX && r.buffer_index < c.audio) || (r.type_index == NOTE_TYPE_IDX
        && r.buffer_index < c.note) || (r.type_index == PARAM_AUTOMATION_TYPE_IDX && r.buffer_index
        < c.param_event)
}

fn known_all(refs: &Vec<BufferRef>, c: BufferCounts) -> (k: bool)
    ensures
        k == all_known(refs@, c),
{
    let mut i: usize = 0;
    while i < refs.len()
        invariant
            i <= refs@.len(),
            forall|j: int| 0 <= j < i ==> ref_known(#[trigger] refs@[j], c),
        decreases refs@.len() - i,
    {
        if !known(refs[i], c) {
            return false;
        }
        i = i + 1;
    }
    true
}

fn audio_all(refs: &Vec<BufferRef>, c: BufferCounts) -> (k: bool)
    ensures
        k == all_audio(refs@, c),
{
    let mut i: usize = 0;
    while i < refs.len()
        invariant
            i <= refs@.len(),
            forall|j: int|
                0 <= j < i ==> (#[trigger] refs@[j]).type_index == AUDIO_TYPE_IDX
                    && refs@[j].buffer_index < c.audio,
        decreases refs@.len() - i,
    {
        if !(refs[i].type_index == AUDIO_TYPE_IDX && refs[i].buffer_index < c.audio) {
            return false;
        }
        i = i + 1;
    }
    true
}

/// The places of the audio buffers of a list.
pub fn audio_only(refs: &Vec<BufferRef>) -> (indices: Vec<usize>)
    ensures
        indices@ == audio_indices(refs@),
{
    let mut indices: Vec<usize> = Vec::new();
    let mut i: usize = 0;
    assert(refs@.take(0) =~= Seq::<BufferRef>::empty());
    while i < refs.len()
        invariant
            i <= refs@.len(),
            indices@ == audio_indices(refs@.take(i as int)),
        decreases refs@.len() - i,
    {
        proof {
            assert(refs@.take(i as int + 1).drop_last() =~= refs@.take(i as int));
        }
        if refs[i].type_index == AUDIO_TYPE_IDX {
            indices.push(refs[i].buffer_index);
        }
        i = i + 1;
    }
    assert(refs@.take(refs@.len() as int) =~= refs@);
    indices
}

fn places(refs: &Vec<BufferRef>) -> (indices: Vec<usize>)
    ensures
        indices@ == indices_of(refs@),
{
    let mut indices: Vec<usize> = Vec::with_capacity(refs.len());
    let mut i: usize = 0;
    while i < refs.len()
        invariant
            i <= refs@.len(),
            indices@ == indices_of(refs@.take(i as int)),
        decreases refs@.len() - i,
    {
        indices.push(refs[i].buffer_index);
        i = i + 1;
        assert(indices@ =~= indices_of(refs@.take(i as int)));
    }
    assert(refs@.take(refs@.len() as int) =~= refs@);
    indices
}

fn hosted(hosts: &Vec<u64>, node: u64) -> (r: bool)
    ensures
        r == hosts@.contains(node),
{
    let mut i: usize = 0;
    while i < hosts.len()
        invariant
            i <= hosts@.len(),
            forall|j: int| 0 <= j < i ==> hosts@[j] != node,
        decreases hosts@.len() - i,
    {
        if hosts[i] == node {
            return true;
        }
        i = i + 1;
    }
    false
}

/// The task for a node of the planned schedule.
pub fn construct_node_task(
    node: &ScheduledNode,
    settings: CompileSettings,
    counts: BufferCounts,
    hosts: &Vec<u64>,
) -> (task: Option<Task>)
    ensures
        (match task {
            Some(t) => Some(t@),
            None => None,
        }) == node_task(*node, settings, counts, hosts@),
{
    if !known_all(&node.input_buffers, counts) || !known_all(&node.output_buffers, counts) {
        None
    } else if node.id == settings.graph_in {
        let mut audio_out = audio_only(&node.output_buffers);
        audio_out.truncate(settings.num_graph_in_audio_ports);
        Some(Task::GraphIn { audio_out })
    } else if node.id == settings.graph_out {
        let mut audio_in = audio_only(&node.input_buffers);
        audio_in.truncate(settings.num_graph_out_audio_ports);
        Some(Task::GraphOut { audio_in })
    } else if hosted(hosts, node.id) {
        Some(
            Task::Plugin {
                node: node.id,
                inputs: node.input_buffers.clone(),
                outputs: node.output_buffers.clone(),
            },
        )
    } else {
        None
    }
}

/// The task for a sum of the planned schedule.
pub fn construct_sum_task(sum: &InsertedSum, counts: BufferCounts) -> (task: Option<Task>)
    ensures
        (match task {
            Some(t) => Some(t@),
            None => None,
        }) == sum_task(*sum, counts),
{
    if audio_all(&sum.input_buffers, counts) && sum.output_buffer.type_index == AUDIO_TYPE_IDX
        && sum.output_buffer.buffer_index < counts.audio {
        Some(
            Task::Sum {
                audio_in: places(&sum.input_buffers),
                audio_out: sum.output_buffer.buffer_index,
            },
        )
    } else {
        None
    }
}

/// The task for a delay of the planned schedule, without the delay node.
fn delay_task_only(d: &InsertedDelay, counts: BufferCounts) -> (task: Option<Task>)
    ensures
        (match task {
            Some(t) => Some(t@),
            None => None,
        }) == delay_task(*d, counts),
{
    if d.delay < 0 {
        return None;
    }
    let delay: u32 = #[verifier::truncate]
    (d.delay as u32);
    let key = DelayCompKey { edge: d.edge, delay };
    let input: usize = d.input_buffer.buffer_index;
    let output: usize = d.output_buffer.buffer_index;
    if d.input_buffer.type_index == AUDIO_TYPE_IDX {
        if input < counts.audio && output < counts.audio {
            Some(Task::AudioDelayComp { key, audio_in: input, audio_out: output })
        } else {
            None
        }
    } else if d.input_buffer.type_index == NOTE_TYPE_IDX {
        if input < counts.note && output < counts.note {
            Some(Task::NoteDelayComp { key, note_in: input, note_out: output })
        } else {
            None
        }
    } else if d.input_buffer.type_index == PARAM_AUTOMATION_TYPE_IDX {
        if input < counts.param_event && output < counts.param_event {
            Some(Task::ParamEventDelayComp { key, event_in: input, event_out: output })
        } else {
            None
        }
    } else {
        None
    }
}

/// The message for an entry that becomes no task.
pub fn describe_malformed(e: &ScheduleEntry, counts: BufferCounts) -> (msg: String)
    ensures
        msg@ == malformed_message(*e, counts),
{
    match e {
        ScheduleEntry::Node(_) => String::from_str(
            "Abstract schedule holds a node that is unknown or uses a buffer that does not exist",
        ),
        ScheduleEntry::Delay(d) => {
            if d.delay < 0 {
                let mut msg = joined(
                    "Abstract schedule inserted a delay with negative latency: delay ",
                    signed_decimal_text(d.delay).as_str(),
                );
                msg.append(" on edge ");
                msg.append(decimal_text(d.edge as u64).as_str());
                msg
            } else if d.input_buffer.type_index > PARAM_AUTOMATION_TYPE_IDX {
                joined(
                    "Abstract schedule inserted a delay with unknown type index ",
                    decimal_text(d.input_buffer.type_index as u64).as_str(),
                )
            } else {
                String::from_str("Abstract schedule inserted a delay on a buffer that does not exist")
            }
        },
        ScheduleEntry::Sum(_) => String::from_str(
            "Abstract schedule inserted a sum over a buffer that is not an audio buffer or does not exist",
        ),
    }
}

fn silence(delay: u32) -> (line: Vec<u32>)
    ensures
        line@ == silent_line(delay),
{
    let mut line: Vec<u32> = Vec::new();
    let mut i: u32 = 0;
    while i < delay
        invariant
            i <= delay,
            line@ == silent_line(i),
        decreases delay - i,
    {
        line.push(0);
        i = i + 1;
        assert(line@ =~= silent_line(i));
    }
    line
}

/// Puts the delay node of a delay task to use, and makes it where there is
/// none. Any other task leaves the nodes as they are.
pub fn touch_delay_node(shared_pool: &mut GraphSharedPools, task: &Task)
    ensures
        final(shared_pool).buffers == old(shared_pool).buffers,
        final(shared_pool).transport == old(shared_pool).transport,
        final(shared_pool).plugin_hosts == old(shared_pool).plugin_hosts,
        final(shared_pool).delay_nodes() == old(shared_pool).delay_nodes().touched_by(task@),
{
    match task {
        Task::AudioDelayComp { key, .. } => {
            if !touch(&mut shared_pool.delay_comp_nodes.audio, *key) {
                insert_node(&mut shared_pool.delay_comp_nodes.audio, *key, silence(key.delay));
            } else {
                assert(touched(old(shared_pool).delay_nodes().audio, *key, Seq::empty()) =~= touched(
                    old(shared_pool).delay_nodes().audio,
                    *key,
                    silent_line(key.delay),
                ));
            }
        },
        Task::NoteDelayComp { key, .. } => {
            if !touch(&mut shared_pool.delay_comp_nodes.note, *key) {
                insert_node(&mut shared_pool.delay_comp_nodes.note, *key, Vec::new());
            }
        },
        Task::ParamEventDelayComp { key, .. } => {
            if !touch(&mut shared_pool.delay_comp_nodes.param_event, *key) {
                insert_node(&mut shared_pool.delay_comp_nodes.param_event, *key, Vec::new());
            }
        },
        _ => {},
    }
}

/// Asks the audio pool for the audio buffers of a task: those that it reads,
/// then those that it writes.
pub fn request_audio_buffers(shared_pool: &mut GraphSharedPools, task: &Task)
    requires
        old(shared_pool).wf(),
    ensures
        old(shared_pool).same_but_audio_and_delays(final(shared_pool)),
        final(shared_pool).delay_comp_nodes == old(shared_pool).delay_comp_nodes,
        final(shared_pool).buffers.audio_buffer_pool@ == requested_all(
            old(shared_pool).buffers.audio_buffer_pool@,
            audio_requests(task@),
        ),
{
    let reads = audio_only(&task.reads());
    let writes = audio_only(&task.writes());
    shared_pool.buffers.audio_buffer_pool.request_all(&reads);
    shared_pool.buffers.audio_buffer_pool.request_all(&writes);
    proof {
        lemma_requested_concat(old(shared_pool).buffers.audio_buffer_pool@, reads@, writes@);
    }
}

/// Asking for one list of buffers and then for another is asking for the
/// two lists joined.
pub proof fn lemma_requested_concat(pool: Seq<PooledAudio>, a: Seq<usize>, b: Seq<usize>)
    ensures
        requested_all(requested_all(pool, a), b) == requested_all(pool, a + b),
    decreases b.len(),
{
    if b.len() == 0 {
        assert(a + b =~= a);
    } else {
        lemma_requested_concat(pool, a, b.drop_last());
        assert((a + b).drop_last() =~= a + b.drop_last());
        assert((a + b).last() == b.last());
    }
}

/// The task for a delay of the planned schedule. The buffers of an audio
/// delay are asked for, and the delay node under the edge and the delay is
/// put to use: a node that an earlier schedule has left is taken as it is,
/// and a new one is made where there is none.
///
/// A negative delay, a type of buffer that there is not, and a buffer that
/// its pool does not have are refused with `UnexpectedError`, and nothing
/// changes.
pub fn construct_delay_comp_task(inserted_delay: &InsertedDelay, shared_pool: &mut GraphSharedPools) -> (res:
    Result<Task, GraphCompilerError>)
    requires
        old(shared_pool).wf(),
    ensures
        match res {
            Ok(task) => {
                &&& delay_task(*inserted_delay, old(shared_pool).counts()) == Some(task@)
                &&& old(shared_pool).same_but_audio_and_delays(final(shared_pool))
                &&& final(shared_pool).buffers.audio_buffer_pool@ == requested_all(
                    old(shared_pool).buffers.audio_buffer_pool@,
                    audio_requests(task@),
                )
                &&& final(shared_pool).delay_nodes() == old(shared_pool).delay_nodes().touched_by(
                    task@,
                )
            },
            Err(e) => {
                &&& delay_task(*inserted_delay, old(shared_pool).counts()) is None
                &&& e matches GraphCompilerError::UnexpectedError(msg) && msg@ == malformed_message(
                    ScheduleEntry::Delay(*inserted_delay),
                    old(shared_pool).counts(),
                )
                &&& *final(shared_pool) == *old(shared_pool)
            },
        },
{
    let counts = shared_pool.buffer_counts();
    match delay_task_only(inserted_delay, counts) {
        Some(task) => {
            request_audio_buffers(shared_pool, &task);
            touch_delay_node(shared_pool, &task);
            Ok(task)
        },
        None => Err(
            GraphCompilerError::UnexpectedError(
                describe_malformed(&ScheduleEntry::Delay(*inserted_delay), counts),
            ),
        ),
    }
}

/// How many buffers of each type a planned schedule uses.
pub open spec fn planned_counts(plan: AbstractSchedule) -> BufferCounts {
    BufferCounts {
        audio: plan.num_audio_buffers,
        note: plan.num_note_buffers,
        param_event: plan.num_param_event_buffers,
    }
}

/// The pools as a compile leaves them once it has made the tasks of the
/// first `n` entries of the plan: resized to what the plan uses, with the
/// audio buffers of the tasks asked for and their delay nodes put to use.
/// `trimmed` says that the delay nodes that no task uses are gone.
pub open spec fn pools_after(
    before: GraphSharedPools,
    after: GraphSharedPools,
    plan: AbstractSchedule,
    s: CompileSettings,
    n: int,
    trimmed: bool,
) -> bool {
    let c = planned_counts(plan);
    let tasks = tasks_of(plan.schedule@, n, s, c, before.plugin_hosts@);
    let nodes = before.delay_nodes().all_inactive().touched_by_all(tasks);
    &&& after.wf()
    &&& after.transport == before.transport
    &&& after.plugin_hosts == before.plugin_hosts
    &&& after.buffers.audio_buffer_pool.frames() == before.buffers.audio_buffer_pool.frames()
    &&& after.buffers.audio_buffer_pool@ == requested_by_all(
        resized(
            before.buffers.audio_buffer_pool@,
            c.audio,
            before.buffers.audio_buffer_pool.frames(),
        ),
        tasks,
    )
    &&& after.buffers.note_buffer_pool@ == resized_events(before.buffers.note_buffer_pool@, c.note)
    &&& after.buffers.param_event_buffer_pool@ == resized_events(
        before.buffers.param_event_buffer_pool@,
        c.param_event,
    )
    &&& after.delay_nodes() == (if trimmed {
        nodes.only_active()
    } else {
        nodes
    })
}

/// The compile of a plan has gone through and has ended in a sound
/// schedule: every entry has become a task, the tasks of the schedule are
/// those of the entries, and the pools are as the tasks have left them, with
/// the delay nodes that no task uses removed.
pub open spec fn compiled(
    before: GraphSharedPools,
    after: GraphSharedPools,
    plan: AbstractSchedule,
    s: CompileSettings,
    schedule: ProcessorSchedule,
) -> bool {
    let c = planned_counts(plan);
    let hosts = before.plugin_hosts@;
    let entries = plan.schedule@;
    let tasks = tasks_of(entries, entries.len() as int, s, c, hosts);
    &&& well_formed_upto(entries, entries.len() as int, s, c, hosts)
    &&& schedule.tasks() == tasks
    &&& schedule_sound(tasks)
    &&& schedule.frames() == before.buffers.audio_buffer_pool.frames()
    &&& schedule.transport_info() == before.transport
    &&& pools_after(before, after, plan, s, entries.len() as int, true)
}

/// The compile has stopped at the first entry of the plan that becomes no
/// task: the message is that of the entry, and the pools are as the tasks
/// before it have left them.
pub open spec fn stopped_at_malformed(
    before: GraphSharedPools,
    after: GraphSharedPools,
    plan: AbstractSchedule,
    s: CompileSettings,
    msg: Seq<char>,
) -> bool {
    exists|b: int|
        {
            &&& #[trigger] first_malformed(
                plan.schedule@,
                b,
                s,
                planned_counts(plan),
                before.plugin_hosts@,
            )
            &&& msg == malformed_message(plan.schedule@[b], planned_counts(plan))
            &&& pools_after(before, after, plan, s, b, false)
        }
}

fn begin_compile(shared_pool: &mut GraphSharedPools, plan: &AbstractSchedule, settings: CompileSettings)
    requires
        old(shared_pool).wf(),
    ensures
        pools_after(*old(shared_pool), *final(shared_pool), *plan, settings, 0, false),
        final(shared_pool).counts() == planned_counts(*plan),
{
    mark_all_inactive(&mut shared_pool.delay_comp_nodes.audio);
    mark_all_inactive(&mut shared_pool.delay_comp_nodes.note);
    mark_all_inactive(&mut shared_pool.delay_comp_nodes.param_event);
    shared_pool.buffers.set_num_buffers(
        plan.num_audio_buffers,
        plan.num_note_buffers,
        plan.num_param_event_buffers,
    );
}

fn evict_unused(shared_pool: &mut GraphSharedPools)
    ensures
        final(shared_pool).buffers == old(shared_pool).buffers,
        final(shared_pool).transport == old(shared_pool).transport,
        final(shared_pool).plugin_hosts == old(shared_pool).plugin_hosts,
        final(shared_pool).delay_nodes() == old(shared_pool).delay_nodes().only_active(),
{
    evict_inactive(&mut shared_pool.delay_comp_nodes.audio);
    evict_inactive(&mut shared_pool.delay_comp_nodes.note);
    evict_inactive(&mut shared_pool.delay_comp_nodes.param_event);
}

/// Makes the task of one entry of the plan, asks for its audio buffers and
/// puts its delay node to use.
fn compile_entry(
    shared_pool: &mut GraphSharedPools,
    entry: &ScheduleEntry,
    settings: CompileSettings,
) -> (res: Result<Task, GraphCompilerError>)
    requires
        old(shared_pool).wf(),
    ensures
        match res {
            Ok(task) => {
                &&& entry_task(
                    *entry,
                    settings,
                    old(shared_pool).counts(),
                    old(shared_pool).plugin_hosts@,
                ) == Some(task@)
                &&& old(shared_pool).same_but_audio_and_delays(final(shared_pool))
                &&& final(shared_pool).buffers.audio_buffer_pool@ == requested_all(
                    old(shared_pool).buffers.audio_buffer_pool@,
                    audio_requests(task@),
                )
                &&& final(shared_pool).delay_nodes() == old(shared_pool).delay_nodes().touched_by(
                    task@,
                )
            },
            Err(e) => {
                &&& entry_task(
                    *entry,
                    settings,
                    old(shared_pool).counts(),
                    old(shared_pool).plugin_hosts@,
                ) is None
                &&& e matches GraphCompilerError::UnexpectedError(msg) && msg@ == malformed_message(
                    *entry,
                    old(shared_pool).counts(),
                )
                &&& *final(shared_pool) == *old(shared_pool)
            },
        },
{
    let counts = shared_pool.buffer_counts();
    let task: Option<Task> = match entry {
        ScheduleEntry::Node(scheduled_node) => construct_node_task(
            scheduled_node,
            settings,
            counts,
            &shared_pool.plugin_hosts,
        ),
        ScheduleEntry::Delay(inserted_delay) => {
            return construct_delay_comp_task(inserted_delay, shared_pool);
        },
        ScheduleEntry::Sum(inserted_sum) => construct_sum_task(inserted_sum, counts),
    };
    match task {
        Some(task) => {
            request_audio_buffers(shared_pool, &task);
            Ok(task)
        },
        None => Err(GraphCompilerError::UnexpectedError(describe_malformed(entry, counts))),
    }
}

/// Compiles a planned schedule.
///
/// The delay nodes are marked as not in use, and the pools are resized to
/// what the plan uses. Each entry of the plan becomes a task, in order: a
/// node becomes the way into the graph, the way out of it, or the run of the
/// plug-in hosted there; a delay becomes a delay task of the type of its
/// input buffer, with the delay node under its edge and delay put to use; a
/// sum becomes a sum task. The first entry that becomes no task ends the
/// compile with `UnexpectedError`; the delay nodes are then not trimmed.
/// Otherwise the delay nodes that no task uses are removed, and the schedule
/// is checked: an unsound schedule is handed back inside `VerifierError`,
/// with the plan; a sound one is the result.
pub fn compile_graph(
    shared_pool: &mut GraphSharedPools,
    abstract_schedule: AbstractSchedule,
    graph_in_id: &PluginInstanceID,
    graph_out_id: &PluginInstanceID,
    num_graph_in_audio_ports: usize,
    num_graph_out_audio_ports: usize,
    verifier: &mut Verifier,
) -> (res: Result<ProcessorSchedule, GraphCompilerError>)
    requires
        old(shared_pool).wf(),
    ensures
        ({
            let s = CompileSettings {
                graph_in: graph_in_id.node_ref,
                graph_out: graph_out_id.node_ref,
                num_graph_in_audio_ports,
                num_graph_out_audio_ports,
            };
            let c = planned_counts(abstract_schedule);
            let hosts = old(shared_pool).plugin_hosts@;
            let entries = abstract_schedule.schedule@;
            let tasks = tasks_of(entries, entries.len() as int, s, c, hosts);
            match res {
                Ok(schedule) => compiled(
                    *old(shared_pool),
                    *final(shared_pool),
                    abstract_schedule,
                    s,
                    schedule,
                ),
                Err(GraphCompilerError::UnexpectedError(msg)) => stopped_at_malformed(
                    *old(shared_pool),
                    *final(shared_pool),
                    abstract_schedule,
                    s,
                    msg@,
                ),
                Err(GraphCompilerError::VerifierError(e, plan, schedule)) => {
                    &&& well_formed_upto(entries, entries.len() as int, s, c, hosts)
                    &&& plan == abstract_schedule
                    &&& schedule.tasks() == tasks
                    &&& !schedule_sound(tasks)
                    &&& violation(tasks, e)
                    &&& pools_after(
                        *old(shared_pool),
                        *final(shared_pool),
                        abstract_schedule,
                        s,
                        entries.len() as int,
                        true,
                    )
                },
                Err(GraphCompilerError::AbstractCompileError(_)) => false,
            }
        }),
{
    let settings = CompileSettings {
        graph_in: graph_in_id.node_ref,
        graph_out: graph_out_id.node_ref,
        num_graph_in_audio_ports,
        num_graph_out_audio_ports,
    };
    let ghost c = planned_counts(abstract_schedule);
    let ghost hosts = old(shared_pool).plugin_hosts@;
    let ghost entries = abstract_schedule.schedule@;
    let mut tasks: Vec<Task> = Vec::new();
    begin_compile(shared_pool, &abstract_schedule, settings);
    let mut i: usize = 0;
    let mut failure: Option<GraphCompilerError> = None;
    assert(task_views(tasks@) =~= tasks_of(entries, 0, settings, c, hosts));
    while i < abstract_schedule.schedule.len() && failure.is_none()
        invariant
            i <= entries.len(),
            entries == abstract_schedule.schedule@,
            c == planned_counts(abstract_schedule),
            hosts == old(shared_pool).plugin_hosts@,
            shared_pool.counts() == c,
            well_formed_upto(entries, i as int, settings, c, hosts),
            task_views(tasks@) == tasks_of(entries, i as int, settings, c, hosts),
            pools_after(*old(shared_pool), *shared_pool, abstract_schedule, settings, i as int, false),
            failure matches Some(e) ==> (i < entries.len() && first_malformed(
                entries,
                i as int,
                settings,
                c,
                hosts,
            ) && (e matches GraphCompilerError::UnexpectedError(msg) && msg@ == malformed_message(
                entries[i as int],
                c,
            ))),
        decreases entries.len() - i + (if failure is None { 1int } else { 0int }),
    {
        let ghost before = *shared_pool;
        let ghost done = tasks_of(entries, i as int, settings, c, hosts);
        match compile_entry(shared_pool, &abstract_schedule.schedule[i], settings) {
            Ok(task) => {
                proof {
                    let next = tasks_of(entries, i as int + 1, settings, c, hosts);
                    assert(next == done.push(task@));
                    assert(next.drop_last() =~= done);
                    assert(next.last() == task@);
                    lemma_requested_len(before.buffers.audio_buffer_pool@, audio_requests(task@));
                }
                tasks.push(task);
                assert(task_views(tasks@) =~= done.push(task@));
                i = i + 1;
            },
            Err(e) => {
                proof {
                    assert(*shared_pool == before);
                    assert(first_malformed(entries, i as int, settings, c, hosts));
                }
                failure = Some(e);
            },
        }
    }
    match failure {
        Some(e) => {
            return Err(e);
        },
        None => {},
    }
    evict_unused(shared_pool);
    let new_schedule = ProcessorSchedule::new(
        tasks,
        shared_pool.transport,
        shared_pool.buffers.audio_buffer_pool.buffer_size(),
    );
    match verifier.verify_schedule_for_race_conditions(&new_schedule) {
        Ok(_) => Ok(new_schedule),
        Err(e) => Err(GraphCompilerError::VerifierError(e, abstract_schedule, new_schedule)),
    }
}

/// Asking for buffers leaves the pool as long as it was.
pub proof fn lemma_requested_len(pool: Seq<PooledAudio>, indices: Seq<usize>)
    ensures
        requested_all(pool, indices).len() == pool.len(),
    decreases indices.len(),
{
    if indices.len() > 0 {
        lemma_requested_len(pool, indices.drop_last());
    }
}

} // verus!
