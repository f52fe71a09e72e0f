//! Schedules: the planned schedule that the compiler is given, and the tasks
//! that it makes of it.

use crate::plugin::TransportInfo;
use vstd::prelude::*;

verus! {

/// The type index of audio buffers.
pub const AUDIO_TYPE_IDX: u32 = 0;

/// The type index of note buffers.
pub const NOTE_TYPE_IDX: u32 = 1;

/// The type index of buffers of parameter events.
pub const PARAM_AUTOMATION_TYPE_IDX: u32 = 2;

/// A buffer of one of the three pools: the pool by its type index, the
/// buffer by its place in the pool.
#[derive(Debug, Clone, Copy, PartialEq, Eq, Structural)]
pub struct BufferRef {
    pub type_index: u32,
    pub buffer_index: usize,
}

/// A node of the planned schedule with the buffers that its ports were given,
/// in the order of the ports.
#[derive(Debug)]
pub struct ScheduledNode {
    pub id: u64,
    pub input_buffers: Vec<BufferRef>,
    pub output_buffers: Vec<BufferRef>,
}

/// A delay that the planner has put on an edge, in whole samples.
#[derive(Debug, Clone, Copy, PartialEq, Eq, Structural)]
pub struct InsertedDelay {
    pub edge: u32,
    pub delay: i64,
    pub input_buffer: BufferRef,
    pub output_buffer: BufferRef,
}

/// A sum that the planner has put where several edges meet.
#[derive(Debug)]
pub struct InsertedSum {
    pub input_buffers: Vec<BufferRef>,
    pub output_buffer: BufferRef,
}

/// One entry of the planned schedule.
#[derive(Debug)]
pub enum ScheduleEntry {
    Node(ScheduledNode),
    Delay(InsertedDelay),
    Sum(InsertedSum),
}

/// The planned schedule: how many buffers of each type it uses, and its
/// entries in the order in which they are to run.
#[derive(Debug)]
pub struct AbstractSchedule {
    pub num_audio_buffers: usize,
    pub num_note_buffers: usize,
    pub num_param_event_buffers: usize,
    pub schedule: Vec<ScheduleEntry>,
}

/// The name of a delay node: the edge that it delays and by how many samples.
#[derive(Debug, Clone, Copy, PartialEq, Eq, Structural)]
pub struct DelayCompKey {
    pub edge: u32,
    pub delay: u32,
}

impl DelayCompKey {
    /// The number under which a key is kept: the edge in the upper half, the
    /// delay in the lower.
    pub open spec fn code(&self) -> u64 {
        (self.edge as u64 * 0x1_0000_0000 + self.delay as u64) as u64
    }

    /// The number under which the key is kept.
    #[verifier::when_used_as_spec(code)]
    pub fn to_code(&self) -> (c: u64)
        ensures
            c == self.code(),
    {
        self.edge as u64 * 0x1_0000_0000 + self.delay as u64
    }
}

/// Different keys are kept under different numbers.
pub proof fn lemma_code_injective(a: DelayCompKey, b: DelayCompKey)
    requires
        a.code() == b.code(),
    ensures
        a == b,
{
}

/// What a task is, with its buffers as lists.
#[allow(inconsistent_fields)]
pub enum TaskView {
    /// Copies what comes into the graph to audio buffers.
    GraphIn { audio_out: Seq<usize> },
    /// Copies audio buffers to what leaves the graph.
    GraphOut { audio_in: Seq<usize> },
    /// Runs the plug-in at a node.
    Plugin { node: u64, inputs: Seq<BufferRef>, outputs: Seq<BufferRef> },
    /// Delays audio.
    AudioDelayComp { key: DelayCompKey, audio_in: usize, audio_out: usize },
    /// Delays notes.
    NoteDelayComp { key: DelayCompKey, note_in: usize, note_out: usize },
    /// Delays parameter events.
    ParamEventDelayComp { key: DelayCompKey, event_in: usize, event_out: usize },
    /// Adds audio buffers up.
    Sum { audio_in: Seq<usize>, audio_out: usize },
}

/// One task of a compiled schedule.
#[derive(Debug)]
#[allow(inconsistent_fields)]
pub enum Task {
    GraphIn { audio_out: Vec<usize> },
    GraphOut { audio_in: Vec<usize> },
    Plugin { node: u64, inputs: Vec<BufferRef>, outputs: Vec<BufferRef> },
    AudioDelayComp { key: DelayCompKey, audio_in: usize, audio_out: usize },
    NoteDelayComp { key: DelayCompKey, note_in: usize, note_out: usize },
    ParamEventDelayComp { key: DelayCompKey, event_in: usize, event_out: usize },
    Sum { audio_in: Vec<usize>, audio_out: usize },
}

impl View for Task {
    type V = TaskView;

    open spec fn view(&self) -> TaskView {
        match self {
            Task::GraphIn { audio_out } => TaskView::GraphIn { audio_out: audio_out@ },
            Task::GraphOut { audio_in } => TaskView::GraphOut { audio_in: audio_in@ },
            Task::Plugin { node, inputs, outputs } => TaskView::Plugin {
                node: *node,
                inputs: inputs@,
                outputs: outputs@,
            },
            Task::AudioDelayComp { key, audio_in, audio_out } => TaskView::AudioDelayComp {
                key: *key,
                audio_in: *audio_in,
                audio_out: *audio_out,
            },
            Task::NoteDelayComp { key, note_in, note_out } => TaskView::NoteDelayComp {
                key: *key,
                note_in: *note_in,
                note_out: *note_out,
            },
            Task::ParamEventDelayComp { key, event_in, event_out } => TaskView::ParamEventDelayComp {
                key: *key,
                event_in: *event_in,
                event_out: *event_out,
            },
            Task::Sum { audio_in, audio_out } => TaskView::Sum {
                audio_in: audio_in@,
                audio_out: *audio_out,
            },
        }
    }
}

/// The buffers of one pool, as references.
pub open spec fn refs_of(type_index: u32, indices: Seq<usize>) -> Seq<BufferRef> {
    Seq::new(indices.len(), |i: int| BufferRef { type_index, buffer_index: indices[i] })
}

impl TaskView {
    /// The buffers that the task reads.
    pub open spec fn reads(self) -> Seq<BufferRef> {
        match self {
            TaskView::GraphIn { .. } => Seq::empty(),
            TaskView::GraphOut { audio_in } => refs_of(AUDIO_TYPE_IDX, audio_in),
            TaskView::Plugin { inputs, .. } => inputs,
            TaskView::AudioDelayComp { audio_in, .. } => seq![
                BufferRef { type_index: AUDIO_TYPE_IDX, buffer_index: audio_in },
            ],
            TaskView::NoteDelayComp { note_in, .. } => seq![
                BufferRef { type_index: NOTE_TYPE_IDX, buffer_index: note_in },
            ],
            TaskView::ParamEventDelayComp { event_in, .. } => seq![
                BufferRef { type_index: PARAM_AUTOMATION_TYPE_IDX, buffer_index: event_in },
            ],
            TaskView::Sum { audio_in, .. } => refs_of(AUDIO_TYPE_IDX, audio_in),
        }
    }

    /// The buffers that the task writes.
    pub open spec fn writes(self) -> Seq<BufferRef> {
        match self {
            TaskView::GraphIn { audio_out } => refs_of(AUDIO_TYPE_IDX, audio_out),
            TaskView::GraphOut { .. } => Seq::empty(),
            TaskView::Plugin { outputs, .. } => outputs,
            TaskView::AudioDelayComp { audio_out, .. } => seq![
                BufferRef { type_index: AUDIO_TYPE_IDX, buffer_index: audio_out },
            ],
            TaskView::NoteDelayComp { note_out, .. } => seq![
                BufferRef { type_index: NOTE_TYPE_IDX, buffer_index: note_out },
            ],
            TaskView::ParamEventDelayComp { event_out, .. } => seq![
                BufferRef { type_index: PARAM_AUTOMATION_TYPE_IDX, buffer_index: event_out },
            ],
            TaskView::Sum { audio_out, .. } => seq![
                BufferRef { type_index: AUDIO_TYPE_IDX, buffer_index: audio_out },
            ],
        }
    }
}

fn make_refs(type_index: u32, indices: &Vec<usize>) -> (refs: Vec<BufferRef>)
    ensures
        refs@ == refs_of(type_index, indices@),
{
    let mut refs: Vec<BufferRef> = Vec::with_capacity(indices.len());
    let mut i: usize = 0;
    while i < indices.len()
        invariant
            i <= indices@.len(),
            refs@ == refs_of(type_index, indices@.take(i as int)),
        decreases indices@.len() - i,
    {
        refs.push(BufferRef { type_index, buffer_index: indices[i] });
        i = i + 1;
        assert(refs@ =~= refs_of(type_index, indices@.take(i as int)));
    }
    assert(indices@.take(indices@.len() as int) =~= indices@);
    refs
}

fn one_ref(type_index: u32, buffer_index: usize) -> (refs: Vec<BufferRef>)
    ensures
        refs@ == seq![BufferRef { type_index, buffer_index }],
{
    let mut refs: Vec<BufferRef> = Vec::with_capacity(1);
    refs.push(BufferRef { type_index, buffer_index });
    refs
}

impl Task {
    /// The buffers that the task reads.
    pub fn reads(&self) -> (refs: Vec<BufferRef>)
        ensures
            refs@ == self@.reads(),
    {
        match self {
            Task::GraphIn { .. } => Vec::new(),
            Task::GraphOut { audio_in } => make_refs(AUDIO_TYPE_IDX, audio_in),
            Task::Plugin { inputs, .. } => inputs.clone(),
            Task::AudioDelayComp { audio_in, .. } => one_ref(AUDIO_TYPE_IDX, *audio_in),
            Task::NoteDelayComp { note_in, .. } => one_ref(NOTE_TYPE_IDX, *note_in),
            Task::ParamEventDelayComp { event_in, .. } => one_ref(
                PARAM_AUTOMATION_TYPE_IDX,
                *event_in,
            ),
            Task::Sum { audio_in, .. } => make_refs(AUDIO_TYPE_IDX, audio_in),
        }
    }

    /// The buffers that the task writes.
    pub fn writes(&self) -> (refs: Vec<BufferRef>)
        ensures
            refs@ == self@.writes(),
    {
        match self {
            Task::GraphIn { audio_out } => make_refs(AUDIO_TYPE_IDX, audio_out),
            Task::GraphOut { .. } => Vec::new(),
            Task::Plugin { outputs, .. } => outputs.clone(),
            Task::AudioDelayComp { audio_out, .. } => one_ref(AUDIO_TYPE_IDX, *audio_out),
            Task::NoteDelayComp { note_out, .. } => one_ref(NOTE_TYPE_IDX, *note_out),
            Task::ParamEventDelayComp { event_out, .. } => one_ref(
                PARAM_AUTOMATION_TYPE_IDX,
                *event_out,
            ),
            Task::Sum { audio_out, .. } => one_ref(AUDIO_TYPE_IDX, *audio_out),
        }
    }
}

/// The tasks of a list, as what they are.
pub open spec fn task_views(tasks: Seq<Task>) -> Seq<TaskView> {
    Seq::new(tasks.len(), |i: int| tasks[i]@)
}

/// A compiled schedule: the tasks in the order in which they run, where the
/// transport stood when the schedule was made, and the size of a block.
#[derive(Debug)]
pub struct ProcessorSchedule {
    tasks: Vec<Task>,
    transport: TransportInfo,
    block_size: usize,
}

impl ProcessorSchedule {
    /// The tasks, as what they are.
    pub closed spec fn tasks(&self) -> Seq<TaskView> {
        task_views(self.tasks@)
    }

    /// Where the transport stood when the schedule was made.
    pub closed spec fn transport_info(&self) -> TransportInfo {
        self.transport
    }

    /// The size of a block.
    pub closed spec fn frames(&self) -> usize {
        self.block_size
    }

    /// A schedule of the given tasks.
    pub fn new(tasks: Vec<Task>, transport: TransportInfo, block_size: usize) -> (s: Self)
        ensures
            s.tasks() == task_views(tasks@),
            s.transport_info() == transport,
            s.frames() == block_size,
    {
        ProcessorSchedule { tasks, transport, block_size }
    }

    /// All tasks, in their order.
    pub fn all_tasks(&self) -> (t: &Vec<Task>)
        ensures
            task_views(t@) == self.tasks(),
    {
        &self.tasks
    }

    /// How many tasks there are.
    pub fn num_tasks(&self) -> (n: usize)
        ensures
            n == self.tasks().len(),
    {
        self.tasks.len()
    }

    /// One task.
    pub fn task(&self, i: usize) -> (t: &Task)
        requires
            i < self.tasks().len(),
        ensures
            t@ == self.tasks()[i as int],
    {
        &self.tasks[i]
    }

    /// Where the transport stood when the schedule was made.
    #[verifier::when_used_as_spec(transport_info)]
    pub fn transport(&self) -> (t: TransportInfo)
        ensures
            t == self.transport_info(),
    {
        self.transport
    }

    /// What each task is told of a block: the size of a block as its number
    /// of frames, and where the transport stood when the schedule was made.
    pub fn proc_info(&self) -> (info: crate::plugin::ProcInfo)
        ensures
            info.frames == self.frames(),
            info.transport == self.transport_info(),
    {
        crate::plugin::ProcInfo { frames: self.block_size, transport: self.transport }
    }

    /// The size of a block.
    #[verifier::when_used_as_spec(frames)]
    pub fn block_size(&self) -> (n: usize)
        ensures
            n == self.frames(),
    {
        self.block_size
    }
}

} // verus!
