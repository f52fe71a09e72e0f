//! The audio-thread side of one plug-in: what happens to it in one block.

use crate::buffers::{ports_silenced, AudioPortBuffer, ProcBuffers};
use crate::channel::{MainToAudioParamValue, ParamQueues, PluginHostChannel};
use crate::events::ProcEvent;
use crate::host_request::{DEACTIVATE, PROCESS};
use crate::in_events::{
    drain_port, drain_ports, forwarded_of_port, has_param_event, holds_param_event, mod_events,
    notes_of_ports, port_drained, ports_drained, push_all_notes, push_mod_events,
    push_port_forwarded, push_value_events, value_events,
};
use crate::out_events::{port_view, ports_view, reports_view, route_out_events, Routing};
use crate::params::ParamID;
use crate::plugin::{PluginAudioThread, PluginInstanceID, ProcInfo, ProcessStatus};
use crate::plugin_state::PluginState;
use fnv::FnvHashMap;
use vstd::prelude::*;

verus! {

/// A call into the audio-thread side of a plug-in.
#[derive(Debug, Clone, Copy, PartialEq, Eq, Structural)]
pub enum PluginCall {
    StartProcessing,
    StopProcessing,
    Process,
    ParamFlush,
}

/// How one block went for one plug-in.
#[derive(Debug, Clone, Copy, PartialEq, Eq, Structural)]
pub enum BlockOutcome {
    /// The plug-in was not active; nothing was asked of it.
    Inactive,
    /// The control side had asked for the plug-in to be let go of.
    Deactivated,
    /// The plug-in had failed to start processing earlier.
    Errored,
    /// The plug-in was waiting for quiet and the inputs were silent.
    FellAsleep,
    /// The plug-in was asleep and nothing woke it.
    StayedAsleep,
    /// The plug-in was asleep, was woken, and failed to start processing.
    FailedToStart,
    /// The plug-in processed the block. `woke` says that it was asleep
    /// before, `stopped` that it was sent to sleep afterwards.
    Processed { woke: bool, status: ProcessStatus, stopped: bool },
}

/// What decides how a block goes, apart from what the plug-in answers.
pub struct BlockInputs {
    /// The lifecycle word at the start of the block.
    pub state: PluginState,
    /// `DEACTIVATE` is waiting.
    pub deactivate: bool,
    /// `PROCESS` is waiting.
    pub process_requested: bool,
    /// The note ports hold a note for the plug-in.
    pub has_note: bool,
    /// A parameter event waits for the plug-in, in a queue or in the event port.
    pub has_param: bool,
    /// All audio inputs are silent.
    pub inputs_silent: bool,
}

/// The first decision of a block.
pub enum Gate {
    /// The plug-in is not active.
    Inactive,
    /// The plug-in is to be let go of.
    Deactivate,
    /// The plug-in is in error.
    Errored,
    /// The plug-in takes part in the block.
    Run,
}

/// The second decision of a block, for a plug-in that takes part in it.
pub enum Policy {
    /// Put the plug-in to sleep.
    FallAsleep,
    /// Leave the plug-in asleep.
    StayAsleep,
    /// Wake the plug-in, then process.
    Wake,
    /// Process.
    Run,
}

/// The first decision: a plug-in that is not active is left alone; of the
/// active ones, one that is asked to let go is let go of; of the rest, one
/// in error is left alone; any other takes part.
pub open spec fn gate(state: PluginState, deactivate: bool) -> Gate {
    if !state.active() {
        Gate::Inactive
    } else if deactivate {
        Gate::Deactivate
    } else if state is ActiveWithError {
        Gate::Errored
    } else {
        Gate::Run
    }
}

/// The second decision: a plug-in that waits for quiet falls asleep when its
/// inputs are silent and no note waits for it; a plug-in that sleeps stays
/// asleep unless a request to process or a note wakes it; any other is
/// processed.
pub open spec fn policy(inp: BlockInputs) -> Policy {
    if inp.state is ActiveAndWaitingForQuiet && !inp.has_note && inp.inputs_silent {
        Policy::FallAsleep
    } else if inp.state.sleeping() {
        if !inp.process_requested && !inp.has_note {
            Policy::StayAsleep
        } else {
            Policy::Wake
        }
    } else {
        Policy::Run
    }
}

/// A plug-in that says `Sleep` is stopped; only one that says `Sleep` or
/// `Tail` is.
pub open spec fn stop_rule(status: ProcessStatus, stopped: bool) -> bool {
    &&& status is Sleep ==> stopped
    &&& stopped ==> status is Sleep || status is Tail
}

/// The outcomes that the inputs of a block allow.
pub open spec fn outcome_follows(inp: BlockInputs, o: BlockOutcome) -> bool {
    match gate(inp.state, inp.deactivate) {
        Gate::Inactive => o is Inactive,
        Gate::Deactivate => o is Deactivated,
        Gate::Errored => o is Errored,
        Gate::Run => match policy(inp) {
            Policy::FallAsleep => o is FellAsleep,
            Policy::StayAsleep => o is StayedAsleep,
            Policy::Wake => o is FailedToStart || (o matches BlockOutcome::Processed {
                woke,
                status,
                stopped,
            } && woke && stop_rule(status, stopped)),
            Policy::Run => o matches BlockOutcome::Processed { woke, status, stopped } && !woke
                && stop_rule(status, stopped),
        },
    }
}

/// The lifecycle word at the end of a block.
pub open spec fn end_state(state: PluginState, o: BlockOutcome) -> PluginState {
    match o {
        BlockOutcome::Inactive => state,
        BlockOutcome::Deactivated => PluginState::WaitingToDrop,
        BlockOutcome::Errored => state,
        BlockOutcome::FellAsleep => PluginState::ActiveAndSleeping,
        BlockOutcome::StayedAsleep => state,
        BlockOutcome::FailedToStart => PluginState::ActiveWithError,
        BlockOutcome::Processed { woke, status, stopped } => match status {
            ProcessStatus::Continue => PluginState::ActiveAndProcessing,
            ProcessStatus::ContinueIfNotQuiet => PluginState::ActiveAndWaitingForQuiet,
            ProcessStatus::Tail => if stopped {
                PluginState::ActiveAndSleeping
            } else {
                PluginState::ActiveAndProcessing
            },
            ProcessStatus::Sleep => PluginState::ActiveAndSleeping,
            ProcessStatus::Error => if woke {
                PluginState::ActiveAndProcessing
            } else {
                state
            },
        },
    }
}

/// A flush of parameter events, where there are any.
pub open spec fn flush_calls(has_param: bool) -> Seq<PluginCall> {
    if has_param {
        seq![PluginCall::ParamFlush]
    } else {
        Seq::empty()
    }
}

/// The calls into the plug-in that a block makes, in their order.
pub open spec fn plugin_calls(inp: BlockInputs, o: BlockOutcome) -> Seq<PluginCall> {
    match o {
        BlockOutcome::Inactive => Seq::empty(),
        BlockOutcome::Deactivated => if inp.state.processing() {
            seq![PluginCall::StopProcessing]
        } else {
            Seq::empty()
        },
        BlockOutcome::Errored => Seq::empty(),
        BlockOutcome::FellAsleep => seq![PluginCall::StopProcessing] + flush_calls(inp.has_param),
        BlockOutcome::StayedAsleep => flush_calls(inp.has_param),
        BlockOutcome::FailedToStart => seq![PluginCall::StartProcessing] + flush_calls(
            inp.has_param,
        ),
        BlockOutcome::Processed { woke, status, stopped } => (if woke {
            seq![PluginCall::StartProcessing]
        } else {
            Seq::empty()
        }) + seq![PluginCall::Process] + (if stopped {
            seq![PluginCall::StopProcessing]
        } else {
            Seq::empty()
        }),
    }
}

/// The pairs that wait, released, in a queue towards the audio thread.
pub open spec fn waiting_values(queues: Option<ParamQueues>) -> Seq<(ParamID, MainToAudioParamValue)> {
    match queues {
        Some(q) => q.to_audio_value@.consumed(),
        None => Seq::empty(),
    }
}

/// The pairs that wait, released, in the queue of modulation amounts.
pub open spec fn waiting_mods(queues: Option<ParamQueues>) -> Seq<(ParamID, MainToAudioParamValue)> {
    match queues {
        Some(q) => q.to_audio_mod@.consumed(),
        None => Seq::empty(),
    }
}

/// The step of the transport as a list of one event or none.
pub open spec fn transport_events(info: ProcInfo) -> Seq<ProcEvent> {
    match info.transport.event {
        Some(t) => seq![ProcEvent::Transport(t)],
        None => Seq::empty(),
    }
}

/// All that a plug-in takes in during one block, in the order in which it
/// is handed over: values, modulation, notes, events of the event port, the
/// step of the transport.
pub open spec fn gathered(
    queues: Option<ParamQueues>,
    node: u64,
    info: ProcInfo,
    event_in: Option<Vec<Vec<ProcEvent>>>,
    note_in: Seq<Option<Vec<Vec<ProcEvent>>>>,
) -> Seq<ProcEvent> {
    value_events(waiting_values(queues)) + mod_events(waiting_mods(queues)) + notes_of_ports(
        note_in,
    ) + forwarded_of_port(event_in, node) + transport_events(info)
}

/// Whether a parameter event waits for the plug-in.
pub open spec fn param_waits(
    queues: Option<ParamQueues>,
    node: u64,
    event_in: Option<Vec<Vec<ProcEvent>>>,
) -> bool {
    waiting_values(queues).len() > 0 || waiting_mods(queues).len() > 0 || holds_param_event(
        forwarded_of_port(event_in, node),
    )
}

/// The queues after the audio thread has taken what was released to it.
pub open spec fn queues_consumed(queues: Option<ParamQueues>, before: Option<ParamQueues>) -> bool {
    match (queues, before) {
        (Some(q), Some(b)) => {
            &&& q.wf()
            &&& q.to_audio_value@ == b.to_audio_value@.after_consume()
            &&& q.to_audio_mod@ == b.to_audio_mod@.after_consume()
            &&& q.to_main_value == b.to_main_value
        },
        (None, None) => true,
        _ => false,
    }
}

/// What decides how the block goes, read off what the block starts with.
pub open spec fn block_inputs(
    channel: PluginHostChannel,
    node: u64,
    buffers: ProcBuffers,
    frames: usize,
    event_in: Option<Vec<Vec<ProcEvent>>>,
    note_in: Seq<Option<Vec<Vec<ProcEvent>>>>,
) -> BlockInputs {
    BlockInputs {
        state: channel.state@,
        deactivate: channel.host_request.pending().has(DEACTIVATE),
        process_requested: channel.host_request.pending().has(PROCESS),
        has_note: notes_of_ports(note_in).len() > 0,
        has_param: param_waits(channel.param_queues, node, event_in),
        inputs_silent: buffers.inputs_silent(frames),
    }
}

/// An event port with nothing in it, where there is one.
pub open spec fn emptied_port(port: Option<Vec<ProcEvent>>) -> Option<Seq<ProcEvent>> {
    match port {
        Some(_) => Some(Seq::empty()),
        None => None,
    }
}

/// Note ports with nothing in them.
pub open spec fn emptied_ports(ports: Seq<Option<Vec<ProcEvent>>>) -> Seq<Option<Seq<ProcEvent>>> {
    Seq::new(ports.len(), |i: int| emptied_port(ports[i]))
}

/// Each channel of each port says of itself what the port's mask says of it.
pub open spec fn ports_match_masks(ports: Seq<AudioPortBuffer>) -> bool {
    forall|i: int| 0 <= i < ports.len() ==> (#[trigger] ports[i]).channels_match_mask()
}

/// Where the routing of a block starts: the gestures that are open, the
/// reports that wait, and the event and note ports emptied.
pub open spec fn start_routing(
    adjusting: Map<u32, bool>,
    queues: Option<ParamQueues>,
    event_out: Option<Vec<ProcEvent>>,
    note_out: Seq<Option<Vec<ProcEvent>>>,
) -> Routing {
    Routing {
        adjusting,
        reports: reports_view(queues),
        event_out: emptied_port(event_out),
        note_out: emptied_ports(note_out),
    }
}

/// Where the routing of a block has ended.
pub open spec fn end_routing(
    adjusting: Map<u32, bool>,
    queues: Option<ParamQueues>,
    event_out: Option<Vec<ProcEvent>>,
    note_out: Seq<Option<Vec<ProcEvent>>>,
) -> Routing {
    Routing {
        adjusting,
        reports: reports_view(queues),
        event_out: port_view(event_out),
        note_out: ports_view(note_out),
    }
}

/// The queues towards the audio thread after the audio thread has taken what
/// was released to it.
pub open spec fn values_taken(queues: Option<ParamQueues>, before: Option<ParamQueues>) -> bool {
    match (queues, before) {
        (Some(q), Some(b)) => {
            &&& q.to_audio_value@ == b.to_audio_value@.after_consume()
            &&& q.to_audio_mod@ == b.to_audio_mod@.after_consume()
        },
        (None, None) => true,
        _ => false,
    }
}

/// The audio ports as a plug-in finds them when it is called to process a
/// block: the channels are those that the block began with; the masks of the
/// output ports are empty; and the masks of the input ports say what the
/// channels say, unless the plug-in waits for quiet and is kept awake by a
/// note, in which case the masks of the input ports are as the block began
/// with them.
pub open spec fn shown_to_plugin(inp: BlockInputs, shown: ProcBuffers, before: ProcBuffers) -> bool {
    &&& shown.audio_in@.len() == before.audio_in@.len()
    &&& shown.audio_out@.len() == before.audio_out@.len()
    &&& forall|i: int|
        0 <= i < shown.audio_in@.len() ==> (#[trigger] shown.audio_in@[i]).channels
            == before.audio_in@[i].channels && (if inp.state is ActiveAndWaitingForQuiet
            && inp.has_note {
            shown.audio_in@[i].constant_mask == before.audio_in@[i].constant_mask
        } else {
            shown.audio_in@[i].mask_matches_channels()
        })
    &&& forall|i: int|
        0 <= i < shown.audio_out@.len() ==> (#[trigger] shown.audio_out@[i]).channels
            == before.audio_out@[i].channels && shown.audio_out@[i].constant_mask == 0
}

/// In a block with this outcome the plug-in is handed events: it is where it
/// processes, and where it does not process although it takes part and a
/// parameter event waits for it.
pub open spec fn hands_events(inp: BlockInputs, o: BlockOutcome) -> bool {
    o is Processed || (inp.has_param && (o is FellAsleep || o is StayedAsleep
        || o is FailedToStart))
}

/// The request flags at the end of a block: `PROCESS` is taken away where
/// the plug-in is woken, and nothing else changes.
pub open spec fn end_flags(inp: BlockInputs, bits: u32) -> u32 {
    if gate(inp.state, inp.deactivate) is Run && policy(inp) is Wake {
        bits & !PROCESS
    } else {
        bits
    }
}

/// The audio-thread side of one plug-in.
pub struct PluginInstanceHostAudioThread<P: PluginAudioThread> {
    id: PluginInstanceID,
    plugin: P,
    in_events: Vec<ProcEvent>,
    out_events: Vec<ProcEvent>,
    is_adjusting_parameter: FnvHashMap<u32, bool>,
    calls: Ghost<Seq<PluginCall>>,
    emitted: Ghost<Seq<ProcEvent>>,
    handed: Ghost<Seq<ProcEvent>>,
    quiet: Ghost<bool>,
    shown: Ghost<(ProcInfo, ProcBuffers)>,
}

/// Takes what was released in the two queues towards the audio thread and
/// adds an event for each pair to `dst`. Says whether there was any.
fn take_queued(dst: &mut Vec<ProcEvent>, queues: &mut Option<ParamQueues>) -> (any: bool)
    requires
        *old(queues) matches Some(q) ==> q.wf(),
    ensures
        queues_consumed(*final(queues), *old(queues)),
        final(dst)@ == old(dst)@ + (value_events(waiting_values(*old(queues))) + mod_events(
            waiting_mods(*old(queues)),
        )),
        any == (waiting_values(*old(queues)).len() > 0 || waiting_mods(*old(queues)).len() > 0),
{
    match queues {
        Some(q) => {
            let values = q.to_audio_value.consume();
            push_value_events(dst, &values);
            let mods = q.to_audio_mod.consume();
            push_mod_events(dst, &mods);
            assert(dst@ =~= old(dst)@ + (value_events(values@) + mod_events(mods@)));
            values.len() > 0 || mods.len() > 0
        },
        None => {
            assert(dst@ =~= old(dst)@ + (value_events(waiting_values(*old(queues))) + mod_events(
                waiting_mods(*old(queues)),
            )));
            false
        },
    }
}

/// Takes the notes out of the note ports and adds them, stamped, to `dst`.
/// Says whether there was any.
fn take_notes(dst: &mut Vec<ProcEvent>, ports: &mut Vec<Option<Vec<Vec<ProcEvent>>>>) -> (any: bool)
    ensures
        ports_drained(final(ports)@, old(ports)@),
        final(dst)@ == old(dst)@ + notes_of_ports(old(ports)@),
        any == (notes_of_ports(old(ports)@).len() > 0),
{
    let before: usize = dst.len();
    push_all_notes(dst, ports);
    let any: bool = dst.len() > before;
    drain_ports(ports);
    any
}

/// Takes the events out of the event port and adds those that go to the
/// plug-in at `node` to `dst`. Says whether a parameter event was among them.
fn take_forwarded(dst: &mut Vec<ProcEvent>, port: &mut Option<Vec<Vec<ProcEvent>>>, node: u64) -> (any: bool)
    ensures
        port_drained(*final(port), *old(port)),
        final(dst)@ == old(dst)@ + forwarded_of_port(*old(port), node),
        any == holds_param_event(forwarded_of_port(*old(port), node)),
{
    let before: usize = dst.len();
    match port {
        Some(buffers) => {
            push_port_forwarded(dst, buffers, node);
        },
        None => {
            assert(dst@ =~= old(dst)@ + forwarded_of_port(*old(port), node));
        },
    }
    assert(dst@.subrange(before as int, dst@.len() as int) =~= forwarded_of_port(*old(port), node));
    let any: bool = has_param_event(dst, before);
    drain_port(port);
    any
}

fn clear_port(port: &mut Option<Vec<ProcEvent>>)
    ensures
        port_view(*final(port)) == emptied_port(*old(port)),
{
    match port {
        Some(buffer) => {
            buffer.clear();
        },
        None => {},
    }
}

fn clear_ports(ports: &mut Vec<Option<Vec<ProcEvent>>>)
    ensures
        ports_view(final(ports)@) == emptied_ports(old(ports)@),
{
    let mut i: usize = 0;
    while i < ports.len()
        invariant
            i <= ports@.len(),
            ports@.len() == old(ports)@.len(),
            forall|j: int| 0 <= j < i ==> port_view(#[trigger] ports@[j]) == emptied_port(old(ports)@[j]),
            forall|j: int| i <= j < ports@.len() ==> ports@[j] == old(ports)@[j],
        decreases ports@.len() - i,
    {
        clear_port(&mut ports[i]);
        i = i + 1;
    }
    assert(ports_view(ports@) =~= emptied_ports(old(ports)@));
}

fn sync_input_masks(buffers: &mut ProcBuffers)
    ensures
        final(buffers).audio_out == old(buffers).audio_out,
        final(buffers).audio_in@.len() == old(buffers).audio_in@.len(),
        forall|i: int|
            0 <= i < final(buffers).audio_in@.len() ==> (#[trigger] final(buffers).audio_in@[i]).channels
                == old(buffers).audio_in@[i].channels
                && final(buffers).audio_in@[i].mask_matches_channels(),
        forall|frames: usize| #[trigger]
            final(buffers).inputs_silent(frames) == old(buffers).inputs_silent(frames),
{
    let mut i: usize = 0;
    while i < buffers.audio_in.len()
        invariant
            i <= buffers.audio_in@.len(),
            buffers.audio_out == old(buffers).audio_out,
            buffers.audio_in@.len() == old(buffers).audio_in@.len(),
            forall|j: int|
                0 <= j < i ==> (#[trigger] buffers.audio_in@[j]).channels == old(
                    buffers,
                ).audio_in@[j].channels && buffers.audio_in@[j].mask_matches_channels(),
            forall|j: int|
                i <= j < buffers.audio_in@.len() ==> buffers.audio_in@[j] == old(buffers).audio_in@[j],
        decreases buffers.audio_in@.len() - i,
    {
        buffers.audio_in[i].sync_constant_mask_from_buffers();
        i = i + 1;
    }
    proof {
        assert forall|frames: usize| #[trigger]
            buffers.inputs_silent(frames) == old(buffers).inputs_silent(frames) by {
            let now = buffers.audio_in@;
            let then = old(buffers).audio_in@;
            assert forall|j: int| 0 <= j < now.len() implies now[j].silent(frames) == then[j].silent(
                frames,
            ) by {
                assert(now[j].channels == then[j].channels);
            }
        }
    }
}

fn reset_output_masks(buffers: &mut ProcBuffers)
    ensures
        final(buffers).audio_in == old(buffers).audio_in,
        final(buffers).audio_out@.len() == old(buffers).audio_out@.len(),
        forall|i: int|
            0 <= i < final(buffers).audio_out@.len() ==> (#[trigger] final(buffers).audio_out@[i]).channels
                == old(buffers).audio_out@[i].channels && final(buffers).audio_out@[i].constant_mask
                == 0,
{
    let mut i: usize = 0;
    while i < buffers.audio_out.len()
        invariant
            i <= buffers.audio_out@.len(),
            buffers.audio_in == old(buffers).audio_in,
            buffers.audio_out@.len() == old(buffers).audio_out@.len(),
            forall|j: int|
                0 <= j < i ==> (#[trigger] buffers.audio_out@[j]).channels == old(
                    buffers,
                ).audio_out@[j].channels && buffers.audio_out@[j].constant_mask == 0,
            forall|j: int|
                i <= j < buffers.audio_out@.len() ==> buffers.audio_out@[j] == old(
                    buffers,
                ).audio_out@[j],
        decreases buffers.audio_out@.len() - i,
    {
        buffers.audio_out[i].set_constant_mask(0);
        i = i + 1;
    }
}

fn sync_output_channels(buffers: &mut ProcBuffers)
    ensures
        final(buffers).audio_in == old(buffers).audio_in,
        final(buffers).audio_out@.len() == old(buffers).audio_out@.len(),
        ports_match_masks(final(buffers).audio_out@),
        forall|i: int|
            0 <= i < final(buffers).audio_out@.len() ==> (#[trigger] final(buffers).audio_out@[i]).same_samples(
                &old(buffers).audio_out@[i],
            ) && final(buffers).audio_out@[i].constant_mask == old(buffers).audio_out@[i].constant_mask,
{
    let mut i: usize = 0;
    while i < buffers.audio_out.len()
        invariant
            i <= buffers.audio_out@.len(),
            buffers.audio_in == old(buffers).audio_in,
            buffers.audio_out@.len() == old(buffers).audio_out@.len(),
            forall|j: int|
                0 <= j < i ==> (#[trigger] buffers.audio_out@[j]).channels_match_mask()
                    && buffers.audio_out@[j].same_samples(&old(buffers).audio_out@[j])
                    && buffers.audio_out@[j].constant_mask == old(buffers).audio_out@[j].constant_mask,
            forall|j: int|
                i <= j < buffers.audio_out@.len() ==> buffers.audio_out@[j] == old(
                    buffers,
                ).audio_out@[j],
        decreases buffers.audio_out@.len() - i,
    {
        buffers.audio_out[i].sync_constant_mask_to_buffers();
        i = i + 1;
    }
}

impl<P: PluginAudioThread> PluginInstanceHostAudioThread<P> {
    /// The name of the plug-in instance.
    pub closed spec fn instance_id(&self) -> PluginInstanceID {
        self.id
    }

    /// The events that wait to be handed to the plug-in.
    pub closed spec fn in_events(&self) -> Seq<ProcEvent> {
        self.in_events@
    }

    /// For each parameter that the plug-in has had a gesture on, whether a
    /// gesture is open.
    pub closed spec fn adjusting(&self) -> Map<u32, bool> {
        self.is_adjusting_parameter@
    }

    /// The events that the plug-in has put out and that were not routed yet
    /// are those of `before`.
    pub closed spec fn out_events_kept(&self, before: &Self) -> bool {
        self.out_events == before.out_events
    }

    /// Every call that was made into the plug-in, oldest first.
    pub closed spec fn calls(&self) -> Seq<PluginCall> {
        self.calls@
    }

    /// The events that the plug-in put out when it last processed a block.
    pub closed spec fn emitted(&self) -> Seq<ProcEvent> {
        self.emitted@
    }

    /// Whether the audio outputs were silent when the plug-in had last
    /// processed a block.
    pub closed spec fn left_outputs_silent(&self) -> bool {
        self.quiet@
    }

    /// What the plug-in was told of the block when it was last called to
    /// process one.
    pub closed spec fn shown_info(&self) -> ProcInfo {
        self.shown@.0
    }

    /// The audio ports as the plug-in found them when it was last called to
    /// process a block.
    pub closed spec fn shown_buffers(&self) -> ProcBuffers {
        self.shown@.1
    }

    /// The events that the plug-in was handed when it was last called to
    /// process a block or to take in parameter events.
    pub closed spec fn handed(&self) -> Seq<ProcEvent> {
        self.handed@
    }

    /// The audio-thread side of a plug-in that was just activated, with room
    /// for the events of `num_params` parameters.
    pub fn new(id: PluginInstanceID, plugin: P, num_params: usize) -> (r: Self)
        ensures
            r.instance_id() == id,
            r.in_events() == Seq::<ProcEvent>::empty(),
            r.adjusting() == Map::<u32, bool>::empty(),
            r.calls() == Seq::<PluginCall>::empty(),
    {
        let room: usize = if num_params <= usize::MAX / 3 {
            num_params * 3
        } else {
            usize::MAX
        };
        PluginInstanceHostAudioThread {
            id,
            plugin,
            in_events: Vec::with_capacity(room),
            out_events: Vec::with_capacity(room),
            is_adjusting_parameter: crate::fnv_map::new_map(),
            calls: Ghost(Seq::empty()),
            emitted: Ghost(Seq::empty()),
            handed: Ghost(Seq::empty()),
            quiet: Ghost(true),
            shown: Ghost(arbitrary()),
        }
    }

    fn call_stop(&mut self)
        ensures
            final(self).id == old(self).id,
            final(self).in_events == old(self).in_events,
            final(self).out_events == old(self).out_events,
            final(self).is_adjusting_parameter == old(self).is_adjusting_parameter,
            final(self).emitted == old(self).emitted,
            final(self).handed == old(self).handed,
            final(self).quiet == old(self).quiet,
            final(self).shown == old(self).shown,
            final(self).calls@ == old(self).calls@.push(PluginCall::StopProcessing),
    {
        self.plugin.stop_processing();
        self.calls = Ghost(self.calls@.push(PluginCall::StopProcessing));
    }

    fn call_start(&mut self) -> (ok: bool)
        ensures
            final(self).id == old(self).id,
            final(self).in_events == old(self).in_events,
            final(self).out_events == old(self).out_events,
            final(self).is_adjusting_parameter == old(self).is_adjusting_parameter,
            final(self).emitted == old(self).emitted,
            final(self).handed == old(self).handed,
            final(self).quiet == old(self).quiet,
            final(self).shown == old(self).shown,
            final(self).calls@ == old(self).calls@.push(PluginCall::StartProcessing),
    {
        let res = self.plugin.start_processing();
        self.calls = Ghost(self.calls@.push(PluginCall::StartProcessing));
        res.is_ok()
    }

    fn call_flush(&mut self, has_param: bool)
        ensures
            final(self).id == old(self).id,
            final(self).in_events == old(self).in_events,
            final(self).is_adjusting_parameter == old(self).is_adjusting_parameter,
            final(self).emitted == old(self).emitted,
            final(self).quiet == old(self).quiet,
            final(self).shown == old(self).shown,
            final(self).handed@ == (if has_param {
                old(self).in_events@
            } else {
                old(self).handed@
            }),
            final(self).calls@ == old(self).calls@ + flush_calls(has_param),
    {
        if has_param {
            self.plugin.param_flush(&self.in_events, &mut self.out_events);
            self.calls = Ghost(self.calls@.push(PluginCall::ParamFlush));
            self.handed = Ghost(self.in_events@);
            assert(self.calls@ =~= old(self).calls@ + flush_calls(has_param));
        } else {
            assert(self.calls@ =~= old(self).calls@ + flush_calls(has_param));
        }
    }

    fn call_process(&mut self, info: &ProcInfo, buffers: &mut ProcBuffers) -> (status: ProcessStatus)
        ensures
            final(self).id == old(self).id,
            final(self).in_events == old(self).in_events,
            final(self).is_adjusting_parameter == old(self).is_adjusting_parameter,
            final(self).emitted@ == final(self).out_events@,
            final(self).handed@ == old(self).in_events@,
            final(self).shown@ == (*info, *old(buffers)),
            final(self).quiet@ == final(buffers).outputs_silent(info.frames),
            final(self).calls@ == old(self).calls@.push(PluginCall::Process),
    {
        let ghost found = *buffers;
        let status = self.plugin.process(info, buffers, &self.in_events, &mut self.out_events);
        self.shown = Ghost((*info, found));
        self.calls = Ghost(self.calls@.push(PluginCall::Process));
        self.emitted = Ghost(self.out_events@);
        self.handed = Ghost(self.in_events@);
        self.quiet = Ghost(buffers.outputs_silent(info.frames));
        status
    }

    /// The name of the plug-in instance.
    #[verifier::when_used_as_spec(instance_id)]
    pub fn id(&self) -> (id: PluginInstanceID)
        ensures
            id == self.instance_id(),
    {
        self.id
    }

    /// What follows the plug-in's answer to a block: its events are routed,
    /// and its status decides whether it goes on, waits for quiet or sleeps.
    fn finish_block(
        &mut self,
        channel: &mut PluginHostChannel,
        state_now: PluginState,
        status: ProcessStatus,
        frames: usize,
        buffers: &mut ProcBuffers,
        event_out_buffer: &mut Option<Vec<ProcEvent>>,
        note_out_buffers: &mut Vec<Option<Vec<ProcEvent>>>,
    ) -> (stopped: bool)
        requires
            old(channel).wf(),
            old(channel).state@ == state_now,
            old(self).quiet@ == old(buffers).outputs_silent(frames),
        ensures
            status is Tail ==> stopped == old(self).quiet@,
            final(self).shown == old(self).shown,
            final(channel).wf(),
            final(channel).host_request == old(channel).host_request,
            final(channel).bypassed == old(channel).bypassed,
            crate::out_events::only_reports_differ(
                final(channel).param_queues,
                old(channel).param_queues,
            ),
            stop_rule(status, stopped),
            final(channel).state@ == end_state(
                state_now,
                BlockOutcome::Processed { woke: false, status, stopped },
            ),
            final(self).id == old(self).id,
            final(self).emitted == old(self).emitted,
            final(self).handed == old(self).handed,
            final(self).quiet == old(self).quiet,
            final(self).shown == old(self).shown,
            final(self).in_events@ == Seq::<ProcEvent>::empty(),
            final(self).calls@ == old(self).calls@ + (if stopped {
                seq![PluginCall::StopProcessing]
            } else {
                Seq::<PluginCall>::empty()
            }),
            end_routing(
                final(self).is_adjusting_parameter@,
                final(channel).param_queues,
                *final(event_out_buffer),
                final(note_out_buffers)@,
            ) == end_routing(
                old(self).is_adjusting_parameter@,
                old(channel).param_queues,
                *old(event_out_buffer),
                old(note_out_buffers)@,
            ).route_all(old(self).out_events@).released(),
            final(buffers).audio_in == old(buffers).audio_in,
            status is Error ==> ports_silenced(
                final(buffers).audio_out@,
                old(buffers).audio_out@,
                frames,
            ),
            status is Error && frames > 0 ==> final(buffers).outputs_silent(frames),
            !(status is Error) ==> ports_match_masks(final(buffers).audio_out@),
    {
        self.in_events.clear();
        route_out_events(
            &self.out_events,
            &mut self.is_adjusting_parameter,
            &mut channel.param_queues,
            event_out_buffer,
            note_out_buffers,
        );
        self.out_events.clear();
        let mut stopped: bool = false;
        match status {
            ProcessStatus::Continue => {
                if state_now != PluginState::ActiveAndProcessing {
                    channel.state.set(PluginState::ActiveAndProcessing);
                }
            },
            ProcessStatus::ContinueIfNotQuiet => {
                if state_now != PluginState::ActiveAndWaitingForQuiet {
                    channel.state.set(PluginState::ActiveAndWaitingForQuiet);
                }
            },
            ProcessStatus::Tail => {
                if state_now != PluginState::ActiveAndProcessing {
                    channel.state.set(PluginState::ActiveAndProcessing);
                }
                if buffers.audio_outputs_silent(frames) {
                    self.call_stop();
                    channel.state.set(PluginState::ActiveAndSleeping);
                    stopped = true;
                }
            },
            ProcessStatus::Sleep => {
                self.call_stop();
                channel.state.set(PluginState::ActiveAndSleeping);
                stopped = true;
            },
            ProcessStatus::Error => {
                buffers.silence_outputs(frames);
                assert(self.calls@ =~= old(self).calls@ + Seq::<PluginCall>::empty());
                return false;
            },
        }
        sync_output_channels(buffers);
        proof {
            if stopped {
                assert(self.calls@ =~= old(self).calls@ + seq![PluginCall::StopProcessing]);
            } else {
                assert(self.calls@ =~= old(self).calls@ + Seq::<PluginCall>::empty());
            }
        }
        stopped
    }

    /// One block of a plug-in that is active, not in error and not asked to
    /// let go: gathers its events, decides between sleeping and processing,
    /// and follows up on what the plug-in answers.
    fn run_block(
        &mut self,
        channel: &mut PluginHostChannel,
        state: PluginState,
        process_requested: bool,
        proc_info: &ProcInfo,
        buffers: &mut ProcBuffers,
        event_in_buffers: &mut Option<Vec<Vec<ProcEvent>>>,
        event_out_buffer: &mut Option<Vec<ProcEvent>>,
        note_in_buffers: &mut Vec<Option<Vec<Vec<ProcEvent>>>>,
        note_out_buffers: &mut Vec<Option<Vec<ProcEvent>>>,
    ) -> (outcome: BlockOutcome)
        requires
            old(channel).wf(),
            old(channel).state@ == state,
            gate(state, false) is Run,
            process_requested == old(channel).host_request.pending().has(PROCESS),
            old(self).in_events@.len() == 0,
        ensures
            final(channel).wf(),
            final(channel).bypassed == old(channel).bypassed,
            final(self).id == old(self).id,
            ({
                let inp = BlockInputs {
                    deactivate: false,
                    ..block_inputs(
                        *old(channel),
                        old(self).id.node_ref,
                        *old(buffers),
                        proc_info.frames,
                        *old(event_in_buffers),
                        old(note_in_buffers)@,
                    )
                };
                &&& outcome_follows(inp, outcome)
                &&& final(channel).state@ == end_state(state, outcome)
                &&& final(self).calls@ == old(self).calls@ + plugin_calls(inp, outcome)
                &&& (outcome matches BlockOutcome::Processed { status, stopped, .. } ==> (status is Tail
                    ==> stopped == final(self).quiet@))
                &&& (outcome is Processed ==> final(self).shown@.0 == *proc_info && shown_to_plugin(
                    inp,
                    final(self).shown@.1,
                    *old(buffers),
                ))
                &&& final(self).handed@ == (if hands_events(inp, outcome) {
                    gathered(
                        old(channel).param_queues,
                        old(self).id.node_ref,
                        *proc_info,
                        *old(event_in_buffers),
                        old(note_in_buffers)@,
                    )
                } else {
                    old(self).handed@
                })
                &&& final(channel).host_request.pending().bits == end_flags(
                    inp,
                    old(channel).host_request.pending().bits,
                )
            }),
            final(channel).host_request.pending_gui_size() == old(
                channel,
            ).host_request.pending_gui_size(),
            final(self).in_events@ == Seq::<ProcEvent>::empty(),
            values_taken(final(channel).param_queues, old(channel).param_queues),
            port_drained(*final(event_in_buffers), *old(event_in_buffers)),
            ports_drained(final(note_in_buffers)@, old(note_in_buffers)@),
            !(outcome is Processed) ==> ports_silenced(
                final(buffers).audio_out@,
                old(buffers).audio_out@,
                proc_info.frames,
            ),
            outcome matches BlockOutcome::Processed { status, .. } ==> (if status is Error {
                proc_info.frames > 0 ==> final(buffers).outputs_silent(proc_info.frames)
            } else {
                ports_match_masks(final(buffers).audio_out@)
            }),
            end_routing(
                final(self).is_adjusting_parameter@,
                final(channel).param_queues,
                *final(event_out_buffer),
                final(note_out_buffers)@,
            ) == ({
                let start = end_routing(
                    old(self).is_adjusting_parameter@,
                    old(channel).param_queues,
                    *old(event_out_buffer),
                    old(note_out_buffers)@,
                );
                if outcome is Processed {
                    start.route_all(final(self).emitted@).released()
                } else {
                    start
                }
            }),
    {
        let frames: usize = proc_info.frames;
        self.out_events.clear();
        let (has_param, has_note) = self.gather_in_events(
            channel,
            proc_info,
            event_in_buffers,
            note_in_buffers,
        );
        let ghost inp = BlockInputs {
            state,
            deactivate: false,
            process_requested,
            has_note,
            has_param,
            inputs_silent: old(buffers).inputs_silent(frames),
        };
        let ghost calls0 = self.calls@;
        if state == PluginState::ActiveAndWaitingForQuiet && !has_note {
            sync_input_masks(buffers);
            if buffers.audio_inputs_silent(frames) {
                self.call_stop();
                channel.state.set(PluginState::ActiveAndSleeping);
                buffers.silence_outputs(frames);
                self.call_flush(has_param);
                self.in_events.clear();
                assert(self.calls@ =~= calls0 + plugin_calls(inp, BlockOutcome::FellAsleep));
                return BlockOutcome::FellAsleep;
            }
        }
        let mut state_now: PluginState = state;
        let mut woke: bool = false;
        if state.is_sleeping() {
            if !process_requested && !has_note {
                buffers.silence_outputs(frames);
                self.call_flush(has_param);
                self.in_events.clear();
                assert(self.calls@ =~= calls0 + plugin_calls(inp, BlockOutcome::StayedAsleep));
                return BlockOutcome::StayedAsleep;
            }
            channel.host_request.reset_process();
            if !self.call_start() {
                channel.state.set(PluginState::ActiveWithError);
                buffers.silence_outputs(frames);
                self.call_flush(has_param);
                self.in_events.clear();
                assert(self.calls@ =~= calls0 + plugin_calls(inp, BlockOutcome::FailedToStart));
                return BlockOutcome::FailedToStart;
            }
            channel.state.set(PluginState::ActiveAndProcessing);
            state_now = PluginState::ActiveAndProcessing;
            woke = true;
        }
        if state_now != PluginState::ActiveAndWaitingForQuiet {
            sync_input_masks(buffers);
        }
        reset_output_masks(buffers);
        let ghost calls1 = self.calls@;
        let status = self.call_process(proc_info, buffers);
        let stopped: bool = self.finish_block(
            channel,
            state_now,
            status,
            frames,
            buffers,
            event_out_buffer,
            note_out_buffers,
        );
        let outcome = BlockOutcome::Processed { woke, status, stopped };
        proof {
            assert(self.calls@ =~= calls0 + plugin_calls(inp, outcome));
        }
        outcome
    }

    /// Whether everything is, after one block with this outcome, what the
    /// block makes of what it began with: the audio-thread side itself, what
    /// it shares with the control side, the audio ports, and the ports of
    /// events and notes.
    pub open spec fn block_settled(
        before: &Self,
        after: &Self,
        channel_before: PluginHostChannel,
        channel_after: PluginHostChannel,
        proc_info: ProcInfo,
        buffers_before: ProcBuffers,
        buffers_after: ProcBuffers,
        event_in_before: Option<Vec<Vec<ProcEvent>>>,
        event_in_after: Option<Vec<Vec<ProcEvent>>>,
        event_out_before: Option<Vec<ProcEvent>>,
        event_out_after: Option<Vec<ProcEvent>>,
        note_in_before: Seq<Option<Vec<Vec<ProcEvent>>>>,
        note_in_after: Seq<Option<Vec<Vec<ProcEvent>>>>,
        note_out_before: Seq<Option<Vec<ProcEvent>>>,
        note_out_after: Seq<Option<Vec<ProcEvent>>>,
        outcome: BlockOutcome,
    ) -> bool {
        let inp = block_inputs(
            channel_before,
            before.instance_id().node_ref,
            buffers_before,
            proc_info.frames,
            event_in_before,
            note_in_before,
        );
        let start = start_routing(
            before.adjusting(),
            channel_before.param_queues,
            event_out_before,
            note_out_before,
        );
        &&& channel_after.wf()
        &&& channel_after.bypassed == channel_before.bypassed
        &&& after.instance_id() == before.instance_id()
        &&& outcome_follows(inp, outcome)
        &&& channel_after.state@ == end_state(inp.state, outcome)
        &&& after.calls() == before.calls() + plugin_calls(inp, outcome)
        &&& (outcome matches BlockOutcome::Processed { status, stopped, .. } ==> (status is Tail
            ==> stopped == after.left_outputs_silent()))
        &&& (outcome is Processed ==> after.shown_info() == proc_info && shown_to_plugin(
            inp,
            after.shown_buffers(),
            buffers_before,
        ))
        &&& after.handed() == (if hands_events(inp, outcome) {
            gathered(
                channel_before.param_queues,
                before.instance_id().node_ref,
                proc_info,
                event_in_before,
                note_in_before,
            )
        } else {
            before.handed()
        })
        &&& channel_after.host_request.pending().bits == end_flags(
            inp,
            channel_before.host_request.pending().bits,
        )
        &&& channel_after.host_request.pending_gui_size()
            == channel_before.host_request.pending_gui_size()
        &&& if gate(inp.state, inp.deactivate) is Run {
            &&& values_taken(channel_after.param_queues, channel_before.param_queues)
            &&& port_drained(event_in_after, event_in_before)
            &&& ports_drained(note_in_after, note_in_before)
        } else {
            &&& channel_after.param_queues == channel_before.param_queues
            &&& event_in_after == event_in_before
            &&& note_in_after == note_in_before
        }
        &&& after.in_events() == Seq::<ProcEvent>::empty()
        &&& (!(outcome is Processed) ==> ports_silenced(
            buffers_after.audio_out@,
            buffers_before.audio_out@,
            proc_info.frames,
        ))
        &&& (outcome matches BlockOutcome::Processed { status, .. } ==> (if status is Error {
            proc_info.frames > 0 ==> buffers_after.outputs_silent(proc_info.frames)
        } else {
            ports_match_masks(buffers_after.audio_out@)
        }))
        &&& end_routing(after.adjusting(), channel_after.param_queues, event_out_after, note_out_after)
            == (if outcome is Processed {
            start.route_all(after.emitted()).released()
        } else {
            start
        })
    }

    /// One block of the plug-in.
    ///
    /// The event port and the note ports that the plug-in writes are emptied
    /// first. A plug-in that is not active, that is asked to let go, or that
    /// is in error is not processed, and its audio outputs are silenced. Any
    /// other plug-in is handed the parameter values and amounts that wait for
    /// it, the notes of its note ports and the events of its event port that
    /// are meant for it; it is put to sleep when it waits for quiet and its
    /// inputs are silent, left asleep when nothing wakes it, woken when
    /// something does, and processed otherwise. What it puts out is routed,
    /// and its status decides how it goes on. What the plug-in answers is not
    /// known beforehand: the outcome names it, and everything else is stated
    /// for each outcome.
    pub fn process(
        &mut self,
        channel: &mut PluginHostChannel,
        proc_info: &ProcInfo,
        buffers: &mut ProcBuffers,
        event_in_buffers: &mut Option<Vec<Vec<ProcEvent>>>,
        event_out_buffer: &mut Option<Vec<ProcEvent>>,
        note_in_buffers: &mut Vec<Option<Vec<Vec<ProcEvent>>>>,
        note_out_buffers: &mut Vec<Option<Vec<ProcEvent>>>,
    ) -> (outcome: BlockOutcome)
        requires
            old(channel).wf(),
        ensures
            Self::block_settled(
                old(self),
                final(self),
                *old(channel),
                *final(channel),
                *proc_info,
                *old(buffers),
                *final(buffers),
                *old(event_in_buffers),
                *final(event_in_buffers),
                *old(event_out_buffer),
                *final(event_out_buffer),
                old(note_in_buffers)@,
                final(note_in_buffers)@,
                old(note_out_buffers)@,
                final(note_out_buffers)@,
                outcome,
            ),
    {
        let frames: usize = proc_info.frames;
        clear_port(event_out_buffer);
        clear_ports(note_out_buffers);
        let state: PluginState = channel.state.get();
        let ghost inp = block_inputs(
            *old(channel),
            old(self).id.node_ref,
            *old(buffers),
            proc_info.frames,
            *old(event_in_buffers),
            old(note_in_buffers)@,
        );
        if !state.is_active() {
            buffers.silence_outputs(frames);
            self.in_events.clear();
            assert(self.calls@ =~= old(self).calls@ + plugin_calls(inp, BlockOutcome::Inactive));
            return BlockOutcome::Inactive;
        }
        let request_flags = channel.host_request.load_requested();
        if request_flags.contains(DEACTIVATE) {
            if state.is_processing() {
                self.call_stop();
            }
            channel.state.set(PluginState::WaitingToDrop);
            buffers.silence_outputs(frames);
            self.in_events.clear();
            assert(self.calls@ =~= old(self).calls@ + plugin_calls(inp, BlockOutcome::Deactivated));
            return BlockOutcome::Deactivated;
        }
        if state == PluginState::ActiveWithError {
            buffers.silence_outputs(frames);
            self.in_events.clear();
            assert(self.calls@ =~= old(self).calls@ + plugin_calls(inp, BlockOutcome::Errored));
            return BlockOutcome::Errored;
        }
        self.in_events.clear();
        self.run_block(
            channel,
            state,
            request_flags.contains(PROCESS),
            proc_info,
            buffers,
            event_in_buffers,
            event_out_buffer,
            note_in_buffers,
            note_out_buffers,
        )
    }

    /// What the audio thread does when it lets go of the plug-in: a plug-in
    /// that is processing is stopped, and the lifecycle word says that the
    /// control thread may deactivate.
    pub fn drop_on_audio_thread(&mut self, channel: &mut PluginHostChannel)
        ensures
            final(channel).state@ == PluginState::DroppedAndReadyToDeactivate,
            final(channel).bypassed == old(channel).bypassed,
            final(channel).host_request == old(channel).host_request,
            final(channel).param_queues == old(channel).param_queues,
            final(self).instance_id() == old(self).instance_id(),
            final(self).handed() == old(self).handed(),
            final(self).calls() == old(self).calls() + (if old(channel).state@.processing() {
                seq![PluginCall::StopProcessing]
            } else {
                Seq::<PluginCall>::empty()
            }),
    {
        if channel.state.get().is_processing() {
            self.call_stop();
            assert(self.calls@ =~= old(self).calls@ + seq![PluginCall::StopProcessing]);
        } else {
            assert(self.calls@ =~= old(self).calls@ + Seq::<PluginCall>::empty());
        }
        channel.state.set(PluginState::DroppedAndReadyToDeactivate);
    }

    /// Gathers what the plug-in takes in during this block, behind what
    /// already waits for it, and empties the queues and buffers that it was
    /// taken from. Says whether a parameter event is among it, and whether a
    /// note is.
    pub fn gather_in_events(
        &mut self,
        channel: &mut PluginHostChannel,
        proc_info: &ProcInfo,
        event_in_buffers: &mut Option<Vec<Vec<ProcEvent>>>,
        note_in_buffers: &mut Vec<Option<Vec<Vec<ProcEvent>>>>,
    ) -> (found: (bool, bool))
        requires
            old(channel).wf(),
        ensures
            final(channel).wf(),
            final(channel).state == old(channel).state,
            final(channel).host_request == old(channel).host_request,
            final(channel).bypassed == old(channel).bypassed,
            queues_consumed(final(channel).param_queues, old(channel).param_queues),
            port_drained(*final(event_in_buffers), *old(event_in_buffers)),
            ports_drained(final(note_in_buffers)@, old(note_in_buffers)@),
            final(self).in_events() == old(self).in_events() + gathered(
                old(channel).param_queues,
                old(self).instance_id().node_ref,
                *proc_info,
                *old(event_in_buffers),
                old(note_in_buffers)@,
            ),
            found.0 == param_waits(
                old(channel).param_queues,
                old(self).instance_id().node_ref,
                *old(event_in_buffers),
            ),
            found.1 == (notes_of_ports(old(note_in_buffers)@).len() > 0),
            final(self).instance_id() == old(self).instance_id(),
            final(self).adjusting() == old(self).adjusting(),
            final(self).calls() == old(self).calls(),
            final(self).emitted() == old(self).emitted(),
            final(self).handed() == old(self).handed(),
            final(self).shown_info() == old(self).shown_info(),
            final(self).shown_buffers() == old(self).shown_buffers(),
            final(self).out_events_kept(old(self)),
    {
        let ghost start = self.in_events@;
        let ghost node = self.id.node_ref;
        let queued: bool = take_queued(&mut self.in_events, &mut channel.param_queues);
        let ghost after_queued = self.in_events@;
        let has_note: bool = take_notes(&mut self.in_events, note_in_buffers);
        let ghost after_notes = self.in_events@;
        let targeted: bool = take_forwarded(&mut self.in_events, event_in_buffers, self.id.node_ref);
        let ghost after_forwarded = self.in_events@;
        match proc_info.transport.event {
            Some(t) => {
                self.in_events.push(ProcEvent::Transport(t));
            },
            None => {},
        }
        let has_param: bool = queued || targeted;
        proof {
            let q = old(channel).param_queues;
            let a = value_events(waiting_values(q)) + mod_events(waiting_mods(q));
            let n = notes_of_ports(old(note_in_buffers)@);
            let f = forwarded_of_port(*old(event_in_buffers), node);
            let t = transport_events(*proc_info);
            assert(after_queued == start + a);
            assert(after_notes == after_queued + n);
            assert(after_forwarded == after_notes + f);
            assert(self.in_events@ =~= after_forwarded + t);
            assert(self.in_events@ =~= start + (a + n + f + t));
        }
        (has_param, has_note)
    }
}

} // verus!
