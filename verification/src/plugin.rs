//! What the host knows of a plug-in: the two sets of operations that a
//! plug-in offers, one to the control thread and one to the audio thread,
//! and the plain data that goes through them.

use crate::buffers::ProcBuffers;
use crate::events::{ProcEvent, TransportEvent};
use crate::host_request::GuiSize;
use crate::params::{ParamID, ParamInfo, ParamValue};
use raw_window_handle::RawWindowHandle;
use vstd::prelude::*;

verus! {

/// `raw_window_handle::RawWindowHandle`, taken as it is: the host hands the
/// window of its owner on to the plug-in and reads nothing from it.
#[verifier::external_type_specification]
#[verifier::external_body]
pub struct ExRawWindowHandle(RawWindowHandle);

/// The tempo of the project, for plug-ins that follow it.
#[derive(Debug, Clone, Copy, PartialEq, Eq, Structural)]
pub struct TempoMap {
    pub beats_per_minute: ParamValue,
    pub sample_rate: SampleRate,
}

/// What a plug-in says of the window that it has made inside a window of
/// the host.
#[derive(Debug, Clone, Copy, PartialEq, Eq, Structural)]
pub struct EmbeddedGuiInfo {
    pub size: GuiSize,
    pub resizable: bool,
}

/// A sample rate, held as the 64 bits that stand for it. The library hands
/// it to the plug-in and reads nothing from it.
#[derive(Debug, Clone, Copy, PartialEq, Eq, Structural)]
pub struct SampleRate(pub u64);

/// The kind of thing that sits at a node of the graph.
#[derive(Debug, Clone, Copy, PartialEq, Eq, Structural)]
pub enum PluginInstanceType {
    /// A plug-in that is built into the host.
    Internal,
    /// A plug-in in the CLAP format.
    Clap,
    /// A plug-in that could not be loaded; the node keeps its place.
    Unloaded,
    /// The node through which audio and notes enter the graph.
    GraphInput,
    /// The node through which audio and notes leave the graph.
    GraphOutput,
}

/// The name of one plug-in instance: its node in the graph and its kind.
#[derive(Debug, Clone, Copy, PartialEq, Eq, Structural)]
pub struct PluginInstanceID {
    pub node_ref: u64,
    pub format: PluginInstanceType,
}

/// One audio port of a plug-in.
#[derive(Debug, Clone, Copy, PartialEq, Eq, Structural)]
pub struct AudioPortInfo {
    pub stable_id: u32,
    pub channels: u16,
}

/// One note port of a plug-in.
#[derive(Debug, Clone, Copy, PartialEq, Eq, Structural)]
pub struct NotePortInfo {
    pub stable_id: u32,
    pub supported_dialects: u32,
    pub preferred_dialect: u32,
}

/// The channels of a list of ports, added up.
pub open spec fn channel_sum(ports: Seq<AudioPortInfo>) -> nat
    decreases ports.len(),
{
    if ports.len() == 0 {
        0
    } else {
        channel_sum(ports.drop_last()) + ports.last().channels as nat
    }
}

/// A count as far as `usize` can hold it.
pub open spec fn capped(n: nat) -> usize {
    if n <= usize::MAX {
        n as usize
    } else {
        usize::MAX
    }
}

fn total_channels(ports: &Vec<AudioPortInfo>) -> (total: usize)
    ensures
        total == capped(channel_sum(ports@)),
{
    let mut total: usize = 0;
    let mut i: usize = 0;
    assert(ports@.take(0) =~= Seq::<AudioPortInfo>::empty());
    while i < ports.len()
        invariant
            i <= ports@.len(),
            total == capped(channel_sum(ports@.take(i as int))),
        decreases ports@.len() - i,
    {
        proof {
            assert(ports@.take(i as int + 1).drop_last() =~= ports@.take(i as int));
        }
        let c: usize = ports[i].channels as usize;
        total = if total > usize::MAX - c {
            usize::MAX
        } else {
            total + c
        };
        i = i + 1;
    }
    assert(ports@.take(ports@.len() as int) =~= ports@);
    total
}

fn same_audio_ports(a: &Vec<AudioPortInfo>, b: &Vec<AudioPortInfo>) -> (r: bool)
    ensures
        r == (a@ == b@),
{
    if a.len() != b.len() {
        return false;
    }
    let mut i: usize = 0;
    while i < a.len()
        invariant
            i <= a@.len(),
            a@.len() == b@.len(),
            forall|j: int| 0 <= j < i ==> a@[j] == b@[j],
        decreases a@.len() - i,
    {
        if a[i] != b[i] {
            return false;
        }
        i = i + 1;
    }
    assert(a@ =~= b@);
    true
}

fn same_note_ports(a: &Vec<NotePortInfo>, b: &Vec<NotePortInfo>) -> (r: bool)
    ensures
        r == (a@ == b@),
{
    if a.len() != b.len() {
        return false;
    }
    let mut i: usize = 0;
    while i < a.len()
        invariant
            i <= a@.len(),
            a@.len() == b@.len(),
            forall|j: int| 0 <= j < i ==> a@[j] == b@[j],
        decreases a@.len() - i,
    {
        if a[i] != b[i] {
            return false;
        }
        i = i + 1;
    }
    assert(a@ =~= b@);
    true
}

/// The audio ports of a plug-in.
#[derive(Debug)]
pub struct PluginAudioPortsExt {
    pub inputs: Vec<AudioPortInfo>,
    pub outputs: Vec<AudioPortInfo>,
}

impl View for PluginAudioPortsExt {
    type V = (Seq<AudioPortInfo>, Seq<AudioPortInfo>);

    open spec fn view(&self) -> (Seq<AudioPortInfo>, Seq<AudioPortInfo>) {
        (self.inputs@, self.outputs@)
    }
}

impl Clone for PluginAudioPortsExt {
    fn clone(&self) -> (r: Self)
        ensures
            r@ == self@,
    {
        PluginAudioPortsExt { inputs: self.inputs.clone(), outputs: self.outputs.clone() }
    }
}

impl PluginAudioPortsExt {
    /// No port at all.
    pub fn empty() -> (r: Self)
        ensures
            r@ == (Seq::<AudioPortInfo>::empty(), Seq::<AudioPortInfo>::empty()),
    {
        PluginAudioPortsExt { inputs: Vec::new(), outputs: Vec::new() }
    }

    /// The channels of all input ports together.
    pub fn total_in_channels(&self) -> (n: usize)
        ensures
            n == capped(channel_sum(self@.0)),
    {
        total_channels(&self.inputs)
    }

    /// The channels of all output ports together.
    pub fn total_out_channels(&self) -> (n: usize)
        ensures
            n == capped(channel_sum(self@.1)),
    {
        total_channels(&self.outputs)
    }

    /// The two name the same ports in the same order.
    pub fn same_as(&self, other: &PluginAudioPortsExt) -> (r: bool)
        ensures
            r == (self@ == other@),
    {
        same_audio_ports(&self.inputs, &other.inputs) && same_audio_ports(
            &self.outputs,
            &other.outputs,
        )
    }
}

/// The note ports of a plug-in.
#[derive(Debug)]
pub struct PluginNotePortsExt {
    pub inputs: Vec<NotePortInfo>,
    pub outputs: Vec<NotePortInfo>,
}

impl View for PluginNotePortsExt {
    type V = (Seq<NotePortInfo>, Seq<NotePortInfo>);

    open spec fn view(&self) -> (Seq<NotePortInfo>, Seq<NotePortInfo>) {
        (self.inputs@, self.outputs@)
    }
}

impl Clone for PluginNotePortsExt {
    fn clone(&self) -> (r: Self)
        ensures
            r@ == self@,
    {
        PluginNotePortsExt { inputs: self.inputs.clone(), outputs: self.outputs.clone() }
    }
}

impl PluginNotePortsExt {
    /// No port at all.
    pub fn empty() -> (r: Self)
        ensures
            r@ == (Seq::<NotePortInfo>::empty(), Seq::<NotePortInfo>::empty()),
    {
        PluginNotePortsExt { inputs: Vec::new(), outputs: Vec::new() }
    }

    /// The two name the same ports in the same order.
    pub fn same_as(&self, other: &PluginNotePortsExt) -> (r: bool)
        ensures
            r == (self@ == other@),
    {
        same_note_ports(&self.inputs, &other.inputs) && same_note_ports(
            &self.outputs,
            &other.outputs,
        )
    }
}

/// The ports of an optional configuration, or `None`.
pub open spec fn audio_ports_of(ports: Option<PluginAudioPortsExt>) -> Option<
    (Seq<AudioPortInfo>, Seq<AudioPortInfo>),
> {
    match ports {
        Some(p) => Some(p@),
        None => None,
    }
}

/// The ports of an optional configuration, or `None`.
pub open spec fn note_ports_of(ports: Option<PluginNotePortsExt>) -> Option<
    (Seq<NotePortInfo>, Seq<NotePortInfo>),
> {
    match ports {
        Some(p) => Some(p@),
        None => None,
    }
}

/// The bytes of an optional blob, or `None`.
pub open spec fn bytes_of(blob: Option<Vec<u8>>) -> Option<Seq<u8>> {
    match blob {
        Some(b) => Some(b@),
        None => None,
    }
}

/// Where the transport stands in one block.
#[derive(Debug, Clone, Copy, PartialEq, Eq, Structural)]
pub struct TransportInfo {
    /// The step that the transport takes in this block, if it takes one.
    pub event: Option<TransportEvent>,
}

/// What a plug-in is told of one block.
#[derive(Debug, Clone, Copy, PartialEq, Eq, Structural)]
pub struct ProcInfo {
    pub frames: usize,
    pub transport: TransportInfo,
}

/// What a plug-in says after it has processed one block.
#[derive(Debug, Clone, Copy, PartialEq, Eq, Structural)]
pub enum ProcessStatus {
    /// Go on processing.
    Continue,
    /// Go on processing until the inputs are silent.
    ContinueIfNotQuiet,
    /// Go on processing until the outputs are silent.
    Tail,
    /// No more processing until an event or a request wakes the plug-in.
    Sleep,
    /// The block failed; its output is to be thrown away.
    Error,
}

/// The operations of a plug-in that belong to the audio thread.
pub trait PluginAudioThread {
    /// Gets ready to process. An error leaves the plug-in asleep.
    fn start_processing(&mut self) -> Result<(), String>;

    /// Ends what `start_processing` began.
    fn stop_processing(&mut self);

    /// Processes one block: reads `in_events` and the input ports, writes
    /// the output ports and adds to `out_events`.
    fn process(
        &mut self,
        info: &ProcInfo,
        buffers: &mut ProcBuffers,
        in_events: &Vec<ProcEvent>,
        out_events: &mut Vec<ProcEvent>,
    ) -> ProcessStatus;

    /// Takes in events without processing audio.
    fn param_flush(&mut self, in_events: &Vec<ProcEvent>, out_events: &mut Vec<ProcEvent>);
}

/// What a plug-in hands over when it has been activated.
pub struct PluginActivatedInfo<P, H> {
    /// The audio-thread side of the plug-in.
    pub processor: P,
    /// Whatever the plug-in wants its owner to hold on to.
    pub internal_handle: Option<H>,
}

/// How a plug-in's window may be resized.
#[derive(Debug, Clone, Copy, PartialEq, Eq, Structural)]
pub struct GuiResizeHints {
    pub can_resize_horizontally: bool,
    pub can_resize_vertically: bool,
    pub preserve_aspect_ratio: bool,
    pub aspect_ratio_width: u32,
    pub aspect_ratio_height: u32,
}

/// The operations of a plug-in that belong to the control thread.
pub trait PluginMainThread {
    type AudioThread: PluginAudioThread;

    type Handle;

    /// Gets the plug-in ready for use, with what it saved last if there is
    /// anything.
    fn init(&mut self, preset: Option<Vec<u8>>) -> Result<(), String>;

    fn load_save_state(&mut self, state: Vec<u8>) -> Result<(), String>;

    fn collect_save_state(&mut self) -> Result<Option<Vec<u8>>, String>;

    fn audio_ports_ext(&mut self) -> Result<PluginAudioPortsExt, String>;

    fn note_ports_ext(&mut self) -> Result<PluginNotePortsExt, String>;

    fn num_params(&mut self) -> u32;

    fn param_info(&mut self, index: usize) -> Result<ParamInfo, ()>;

    fn param_value(&self, id: ParamID) -> Result<ParamValue, ()>;

    fn param_value_to_text(&self, id: ParamID, value: ParamValue, text: &mut String) -> Result<
        (),
        String,
    >;

    fn param_text_to_value(&self, id: ParamID, text: &str) -> Option<ParamValue>;

    fn activate(&mut self, sample_rate: SampleRate, min_frames: u32, max_frames: u32) -> Result<
        PluginActivatedInfo<Self::AudioThread, Self::Handle>,
        String,
    >;

    fn deactivate(&mut self);

    fn on_main_thread(&mut self);

    fn latency(&self) -> i64;

    fn has_automation_out_port(&self) -> bool;

    fn update_tempo_map(&mut self, tempo_map: &TempoMap);

    /// Whether the plug-in can show a window: one of its own if `floating`,
    /// else one inside a window of the host.
    fn supports_gui(&self, floating: bool) -> bool;

    fn create_new_floating_gui(&mut self, suggested_title: Option<&str>) -> Result<(), String>;

    /// Makes the plug-in's window inside a window of the host. `scale`
    /// overrides what the system says of scaling; `size` is the size of the
    /// last session, for a window that can be resized.
    fn create_new_embedded_gui(
        &mut self,
        scale: Option<ParamValue>,
        size: Option<GuiSize>,
        parent_window: RawWindowHandle,
    ) -> Result<EmbeddedGuiInfo, String>;

    fn destroy_gui(&mut self);

    fn gui_resize_hints(&self) -> Option<GuiResizeHints>;

    /// The nearest size that the plug-in's window can have.
    fn adjust_gui_size(&mut self, size: GuiSize) -> GuiSize;

    fn set_gui_size(&mut self, size: GuiSize) -> Result<GuiSize, String>;

    /// Sets the scaling; says whether the plug-in has applied it.
    fn set_gui_scale(&mut self, scale: ParamValue) -> bool;

    fn show_gui(&mut self) -> Result<(), String>;

    fn hide_gui(&mut self) -> Result<(), String>;
}

} // verus!
