//! The control-thread side of one plug-in: activation, parameters, the saved
//! state, and the idle tick that follows up on what the plug-in and the audio
//! thread have asked for.

use crate::audio_thread::{BlockOutcome, PluginInstanceHostAudioThread};
use crate::buffers::ProcBuffers;
use crate::channel::{AudioToMainParamValue, MainToAudioParamValue, ParamQueues, PluginHostChannel};
use crate::error::{ActivatePluginError, SetParamValueError};
use crate::events::ProcEvent;
use crate::fnv_map::{map_get, map_insert, new_map};
use crate::host_request::{
    GuiSize, RequestFlags, CALLBACK, DEACTIVATE, GUI_CLOSED, GUI_DESTROYED, GUI_HIDE,
    GUI_HINTS_CHANGED, GUI_RESIZE, GUI_SHOW, MARK_DIRTY, PROCESS, RESCAN_PORTS, RESTART,
};
use crate::params::{
    clamped, ModifiedParams, ParamID, ParamInfo, ParamModifiedInfo, ParamValue, IS_MODULATABLE,
    IS_READONLY,
};
use crate::plugin::{
    capped, channel_sum, GuiResizeHints, PluginActivatedInfo, PluginAudioPortsExt,
    PluginInstanceID, PluginMainThread, PluginNotePortsExt, ProcInfo, SampleRate,
};
use crate::plugin_state::PluginState;
use crate::reducing_queue::QueueState;
use crate::save_state::{DSPluginSaveState, SaveStateView};
use fnv::FnvHashMap;
use vstd::prelude::*;

verus! {

/// The planner's graph, as far as the activation of a plug-in needs it.
pub trait PortGraph {
    /// Brings the ports of a node in line with the ports and the latency of
    /// the plug-in at that node, and says which edges had to go and whether
    /// the schedule has to be made again.
    fn sync_ports(
        &mut self,
        node: u64,
        audio_ports: &PluginAudioPortsExt,
        note_ports: &PluginNotePortsExt,
        automation_out: bool,
        latency: i64,
    ) -> Result<PortSync, String>;
}

/// What bringing the ports of a node in line has done to the graph.
pub struct PortSync {
    /// The edges that were removed because their port is gone.
    pub removed_edges: Vec<u64>,
    /// The schedule has to be made again.
    pub needs_recompile: bool,
}

/// The graph's port ids for the ports and channels of one plug-in.
pub struct PluginHostPortIDs {
    /// From the plug-in's channel to the graph's port.
    pub channel_id_to_port_id: FnvHashMap<u64, u32>,
    /// From the graph's port to the plug-in's channel.
    pub port_id_to_channel_id: FnvHashMap<u32, u64>,
    /// The graph's ports of the channels of the main audio input.
    pub main_audio_in_port_ids: Vec<u32>,
    /// The graph's ports of the channels of the main audio output.
    pub main_audio_out_port_ids: Vec<u32>,
    pub main_note_in_port_id: Option<u32>,
    pub main_note_out_port_id: Option<u32>,
    pub automation_in_port_id: Option<u32>,
    pub automation_out_port_id: Option<u32>,
}

/// The graph's port ids for the ports and channels of one plug-in, as what
/// they are.
pub struct PortIdsView {
    pub channel_id_to_port_id: Map<u64, u32>,
    pub port_id_to_channel_id: Map<u32, u64>,
    pub main_audio_in_port_ids: Seq<u32>,
    pub main_audio_out_port_ids: Seq<u32>,
    pub main_note_in_port_id: Option<u32>,
    pub main_note_out_port_id: Option<u32>,
    pub automation_in_port_id: Option<u32>,
    pub automation_out_port_id: Option<u32>,
}

/// No port has an id.
pub open spec fn no_port_ids() -> PortIdsView {
    PortIdsView {
        channel_id_to_port_id: Map::empty(),
        port_id_to_channel_id: Map::empty(),
        main_audio_in_port_ids: Seq::empty(),
        main_audio_out_port_ids: Seq::empty(),
        main_note_in_port_id: None,
        main_note_out_port_id: None,
        automation_in_port_id: None,
        automation_out_port_id: None,
    }
}

impl View for PluginHostPortIDs {
    type V = PortIdsView;

    open spec fn view(&self) -> PortIdsView {
        PortIdsView {
            channel_id_to_port_id: self.channel_id_to_port_id@,
            port_id_to_channel_id: self.port_id_to_channel_id@,
            main_audio_in_port_ids: self.main_audio_in_port_ids@,
            main_audio_out_port_ids: self.main_audio_out_port_ids@,
            main_note_in_port_id: self.main_note_in_port_id,
            main_note_out_port_id: self.main_note_out_port_id,
            automation_in_port_id: self.automation_in_port_id,
            automation_out_port_id: self.automation_out_port_id,
        }
    }
}

impl PluginHostPortIDs {
    /// No port has an id yet.
    pub fn new() -> (r: Self)
        ensures
            r@ == no_port_ids(),
            r.channel_id_to_port_id@ == Map::<u64, u32>::empty(),
            r.port_id_to_channel_id@ == Map::<u32, u64>::empty(),
            r.main_audio_in_port_ids@ == Seq::<u32>::empty(),
            r.main_audio_out_port_ids@ == Seq::<u32>::empty(),
            r.main_note_in_port_id is None,
            r.main_note_out_port_id is None,
            r.automation_in_port_id is None,
            r.automation_out_port_id is None,
    {
        PluginHostPortIDs {
            channel_id_to_port_id: new_map(),
            port_id_to_channel_id: new_map(),
            main_audio_in_port_ids: Vec::new(),
            main_audio_out_port_ids: Vec::new(),
            main_note_in_port_id: None,
            main_note_out_port_id: None,
            automation_in_port_id: None,
            automation_out_port_id: None,
        }
    }
}

/// What the owner of a plug-in is told when the plug-in has been activated.
pub struct PluginActivatedStatus<H> {
    /// Every parameter with its value, in the plug-in's order.
    pub new_parameters: Vec<(ParamInfo, ParamValue)>,
    /// The audio ports, where they differ from those of the last activation.
    pub new_audio_ports_ext: Option<PluginAudioPortsExt>,
    /// The note ports, where they differ from those of the last activation.
    pub new_note_ports_ext: Option<PluginNotePortsExt>,
    pub internal_handle: Option<H>,
    /// The latency, where it differs from that of the last activation.
    pub new_latency: Option<i64>,
    pub removed_edges: Vec<u64>,
    /// The schedule has to be made again before the plug-in takes part.
    pub caused_recompile: bool,
}

/// How an idle tick ended for a plug-in.
pub enum OnIdleResult<H> {
    /// Nothing happened to where the plug-in stands.
    Nothing,
    PluginDeactivated,
    PluginActivated(PluginActivatedStatus<H>),
    PluginReadyToRemove,
    PluginFailedToActivate(ActivatePluginError),
}

/// What an idle tick tells the user of the host about a plug-in's window.
#[derive(Debug, Clone, Copy, PartialEq, Eq, Structural)]
pub enum OnIdleEvent {
    PluginGuiClosed { plugin_id: PluginInstanceID, was_destroyed: bool },
    PluginRequestedToShowGui { plugin_id: PluginInstanceID },
    PluginRequestedToHideGui { plugin_id: PluginInstanceID },
    PluginRequestedToResizeGui { plugin_id: PluginInstanceID, size: GuiSize },
    PluginChangedGuiResizeHints { plugin_id: PluginInstanceID, resize_hints: Option<GuiResizeHints> },
}

/// A call into the control-thread side of a plug-in of which the host keeps
/// a record, with what the plug-in was handed.
#[allow(inconsistent_fields)]
pub enum MainCall {
    /// `activate`, where the plug-in has answered with its audio-thread
    /// side.
    Activate { sample_rate: SampleRate, min_frames: u32, max_frames: u32 },
    /// `deactivate`.
    Deactivate,
    /// `on_main_thread`.
    OnMainThread,
    /// `destroy_gui`.
    DestroyGui,
    /// `load_save_state`.
    LoadSaveState,
    /// `collect_save_state`.
    CollectSaveState,
    /// `update_tempo_map`.
    UpdateTempoMap { tempo_map: crate::plugin::TempoMap },
    /// `create_new_floating_gui`.
    CreateFloatingGui { suggested_title: Option<Seq<char>> },
    /// `create_new_embedded_gui`.
    CreateEmbeddedGui {
        scale: Option<ParamValue>,
        size: Option<GuiSize>,
        parent_window: raw_window_handle::RawWindowHandle,
    },
    /// `adjust_gui_size`.
    AdjustGuiSize { size: GuiSize },
    /// `set_gui_size`.
    SetGuiSize { size: GuiSize },
    /// `set_gui_scale`.
    SetGuiScale { scale: ParamValue },
    /// `show_gui`.
    ShowGui,
    /// `hide_gui`.
    HideGui,
}

/// A title that may be missing, as a list of characters.
pub open spec fn title_of(title: Option<&str>) -> Option<Seq<char>> {
    match title {
        Some(t) => Some(t@),
        None => None,
    }
}

/// The three parameter queues as what they hold.
pub struct QueuesView {
    pub to_audio_value: QueueState<MainToAudioParamValue>,
    pub to_audio_mod: QueueState<MainToAudioParamValue>,
    pub to_main_value: QueueState<AudioToMainParamValue>,
}

/// The queues of a channel as what they hold.
pub open spec fn queues_view(queues: Option<ParamQueues>) -> Option<QueuesView> {
    match queues {
        Some(q) => Some(
            QueuesView {
                to_audio_value: q.to_audio_value@,
                to_audio_mod: q.to_audio_mod@,
                to_main_value: q.to_main_value@,
            },
        ),
        None => None,
    }
}

/// Queues in which nothing waits.
pub open spec fn empty_queues() -> QueuesView {
    QueuesView {
        to_audio_value: QueueState::empty(),
        to_audio_mod: QueueState::empty(),
        to_main_value: QueueState::empty(),
    }
}

/// What the control-thread side of a plug-in holds.
pub struct MainThreadView {
    pub id: PluginInstanceID,
    /// The lifecycle word.
    pub state: PluginState,
    /// The request flags that wait.
    pub pending: RequestFlags,
    /// The window size that the plug-in has asked for.
    pub pending_gui_size: Option<GuiSize>,
    pub queues: Option<QueuesView>,
    pub bypassed: bool,
    /// The audio-thread side of the plug-in exists.
    pub has_processor: bool,
    /// The version of the schedule from which on the audio-thread side takes part.
    pub first_schedule: u64,
    /// The graph's port ids for the ports of the plug-in.
    pub port_ids: PortIdsView,
    pub save_state: SaveStateView,
    pub params: Map<u32, ParamInfo>,
    /// For each parameter that had a gesture, whether one is open.
    pub gesturing: Map<u32, bool>,
    pub latency: i64,
    pub is_loaded: bool,
    pub num_audio_in_channels: usize,
    pub num_audio_out_channels: usize,
    pub remove_requested: bool,
    pub save_state_dirty: bool,
    pub restarting: bool,
    /// The calls into the plug-in of which the host keeps a record, oldest
    /// first.
    pub calls: Seq<MainCall>,
}

/// The control-thread side of one plug-in, together with what it shares with
/// the audio-thread side and, while the plug-in is activated, the
/// audio-thread side itself.
pub struct PluginHostMainThread<M: PluginMainThread> {
    id: PluginInstanceID,
    plug_main_thread: M,
    port_ids: PluginHostPortIDs,
    channel: PluginHostChannel,
    processor: Option<PluginInstanceHostAudioThread<M::AudioThread>>,
    first_schedule: u64,
    save_state: DSPluginSaveState,
    params: FnvHashMap<u32, ParamInfo>,
    gesturing_params: FnvHashMap<u32, bool>,
    latency: i64,
    is_loaded: bool,
    num_audio_in_channels: usize,
    num_audio_out_channels: usize,
    remove_requested: bool,
    save_state_dirty: bool,
    restarting: bool,
    calls: Ghost<Seq<MainCall>>,
}

impl<M: PluginMainThread> View for PluginHostMainThread<M> {
    type V = MainThreadView;

    closed spec fn view(&self) -> MainThreadView {
        MainThreadView {
            id: self.id,
            state: self.channel.state@,
            pending: self.channel.host_request.pending(),
            pending_gui_size: self.channel.host_request.pending_gui_size(),
            queues: queues_view(self.channel.param_queues),
            bypassed: self.channel.bypassed,
            has_processor: self.processor is Some,
            first_schedule: self.first_schedule,
            port_ids: self.port_ids@,
            save_state: self.save_state@,
            params: self.params@,
            gesturing: self.gesturing_params@,
            latency: self.latency,
            is_loaded: self.is_loaded,
            num_audio_in_channels: self.num_audio_in_channels,
            num_audio_out_channels: self.num_audio_out_channels,
            remove_requested: self.remove_requested,
            save_state_dirty: self.save_state_dirty,
            restarting: self.restarting,
            calls: self.calls@,
        }
    }
}

/// The channels of the input ports of a backup, or none without a backup.
pub open spec fn backup_in_channels(backup: Option<PluginAudioPortsExt>) -> usize {
    match backup {
        Some(p) => capped(channel_sum(p@.0)),
        None => 0,
    }
}

/// The channels of the output ports of a backup, or none without a backup.
pub open spec fn backup_out_channels(backup: Option<PluginAudioPortsExt>) -> usize {
    match backup {
        Some(p) => capped(channel_sum(p@.1)),
        None => 0,
    }
}

/// The saved state as a new host keeps it: a state without a backup of the
/// audio ports gets empty backups of both kinds of ports.
pub open spec fn adopted_save_state(s: SaveStateView) -> SaveStateView {
    if s.backup_audio_ports_ext is None {
        SaveStateView {
            backup_audio_ports_ext: Some((Seq::empty(), Seq::empty())),
            backup_note_ports_ext: Some((Seq::empty(), Seq::empty())),
            ..s
        }
    } else {
        s
    }
}

impl<M: PluginMainThread> PluginHostMainThread<M> {
    /// The queues, where there are any, are in order.
    pub closed spec fn wf(&self) -> bool {
        self.channel.wf()
    }

    /// The host of a plug-in that was just created. The plug-in is handed
    /// what it saved last, if it saved anything; whether it takes it does
    /// not matter to the host.
    pub fn new(
        id: PluginInstanceID,
        save_state: DSPluginSaveState,
        plug_main_thread: M,
        plugin_loaded: bool,
    ) -> (r: Self)
        ensures
            r.wf(),
            r@ == (MainThreadView {
                id,
                state: PluginState::Inactive,
                pending: RequestFlags { bits: 0 },
                pending_gui_size: None,
                queues: None,
                bypassed: save_state.bypassed,
                has_processor: false,
                first_schedule: 0,
                port_ids: no_port_ids(),
                save_state: adopted_save_state(save_state@),
                params: Map::empty(),
                gesturing: Map::empty(),
                latency: 0,
                is_loaded: plugin_loaded,
                num_audio_in_channels: backup_in_channels(save_state.backup_audio_ports_ext),
                num_audio_out_channels: backup_out_channels(save_state.backup_audio_ports_ext),
                remove_requested: false,
                save_state_dirty: false,
                restarting: false,
                calls: if save_state.raw_state is Some {
                    seq![MainCall::LoadSaveState]
                } else {
                    Seq::empty()
                },
            }),
    {
        let mut save_state = save_state;
        let mut plug_main_thread = plug_main_thread;
        let ghost mut calls: Seq<MainCall> = Seq::empty();
        match &save_state.raw_state {
            Some(raw) => {
                let _ = plug_main_thread.load_save_state(raw.clone());
                proof {
                    calls = seq![MainCall::LoadSaveState];
                }
            },
            None => {},
        }
        let (num_audio_in_channels, num_audio_out_channels) = match &save_state.backup_audio_ports_ext {
            Some(ports) => (ports.total_in_channels(), ports.total_out_channels()),
            None => (0, 0),
        };
        if save_state.backup_audio_ports_ext.is_none() {
            save_state.backup_audio_ports_ext = Some(PluginAudioPortsExt::empty());
            save_state.backup_note_ports_ext = Some(PluginNotePortsExt::empty());
        }
        let bypassed: bool = save_state.bypassed;
        let r = PluginHostMainThread {
            id,
            plug_main_thread,
            port_ids: PluginHostPortIDs::new(),
            channel: PluginHostChannel::new(bypassed),
            processor: None,
            first_schedule: 0,
            save_state,
            params: new_map(),
            gesturing_params: new_map(),
            latency: 0,
            is_loaded: plugin_loaded,
            num_audio_in_channels,
            num_audio_out_channels,
            remove_requested: false,
            save_state_dirty: false,
            restarting: false,
            calls: Ghost(calls),
        };
        assert(r@.pending == RequestFlags { bits: 0 });
        r
    }

    /// Whether the plug-in was loaded from disk.
    pub fn is_loaded(&self) -> (r: bool)
        ensures
            r == self@.is_loaded,
    {
        self.is_loaded
    }

    /// Whether the plug-in is bypassed.
    pub fn is_bypassed(&self) -> (r: bool)
        ensures
            r == self@.save_state.bypassed,
    {
        self.save_state.bypassed
    }

    /// Bypasses the plug-in or takes it out of bypass. A change is passed on
    /// to the audio thread and makes the saved state dirty.
    pub fn set_bypassed(&mut self, bypassed: bool)
        ensures
            final(self).wf() == old(self).wf(),
            final(self)@ == (if old(self)@.save_state.bypassed != bypassed {
                MainThreadView {
                    save_state: SaveStateView { bypassed, ..old(self)@.save_state },
                    save_state_dirty: true,
                    bypassed,
                    ..old(self)@
                }
            } else {
                old(self)@
            }),
    {
        if self.save_state.bypassed != bypassed {
            self.save_state.bypassed = bypassed;
            self.save_state_dirty = true;
            self.channel.bypassed = bypassed;
        }
    }

    /// Hands the plug-in a state to load and makes the saved state dirty.
    /// The answer is the plug-in's.
    pub fn load_save_state(&mut self, state: Vec<u8>) -> (res: Result<(), String>)
        ensures
            final(self).wf() == old(self).wf(),
            final(self)@ == (MainThreadView {
                save_state_dirty: true,
                calls: old(self)@.calls.push(MainCall::LoadSaveState),
                ..old(self)@
            }),
    {
        self.save_state_dirty = true;
        self.calls = Ghost(self.calls@.push(MainCall::LoadSaveState));
        self.plug_main_thread.load_save_state(state)
    }

    /// Whether the saved state has changed since it was last collected.
    pub fn is_save_state_dirty(&self) -> (r: bool)
        ensures
            r == self@.save_state_dirty,
    {
        self.save_state_dirty
    }

    /// The saved state as `collect_save_state` leaves it, given what the
    /// plug-in answered when it was asked for its own part: an error counts
    /// as nothing to save.
    pub open spec fn collected(before: MainThreadView, raw: Option<Seq<u8>>) -> MainThreadView {
        if before.save_state_dirty {
            MainThreadView {
                save_state: SaveStateView { raw_state: raw, ..before.save_state },
                save_state_dirty: false,
                calls: before.calls.push(MainCall::CollectSaveState),
                ..before
            }
        } else {
            before
        }
    }

    /// The saved state. Where it is dirty, the plug-in is asked first for
    /// its own part, and the state is clean afterwards.
    pub fn collect_save_state(&mut self) -> (state: DSPluginSaveState)
        ensures
            final(self).wf() == old(self).wf(),
            state@ == final(self)@.save_state,
            !final(self)@.save_state_dirty,
            final(self)@ == Self::collected(old(self)@, final(self)@.save_state.raw_state),
    {
        if self.save_state_dirty {
            self.save_state_dirty = false;
            let raw_state = match self.plug_main_thread.collect_save_state() {
                Ok(raw_state) => raw_state,
                Err(_) => None,
            };
            self.calls = Ghost(self.calls@.push(MainCall::CollectSaveState));
            self.save_state.raw_state = raw_state;
        }
        self.save_state.clone()
    }

    /// What `set_param_value` answers.
    pub open spec fn set_value_result(before: MainThreadView, id: ParamID, value: ParamValue) -> Result<
        ParamValue,
        SetParamValueError,
    > {
        if !before.params.contains_key(id.0) {
            Err(SetParamValueError::ParamDoesNotExist(id))
        } else if before.params[id.0].flags.has(IS_READONLY) {
            Err(SetParamValueError::ParamIsReadOnly(id))
        } else {
            Ok(clamped(value, before.params[id.0].min_value, before.params[id.0].max_value))
        }
    }

    /// What `set_param_value` leaves behind where it answers with the value `v`.
    pub open spec fn after_set_value(before: MainThreadView, id: ParamID, v: ParamValue) -> MainThreadView {
        MainThreadView {
            queues: match before.queues {
                Some(q) => Some(
                    QueuesView {
                        to_audio_value: q.to_audio_value.set(
                            id.0,
                            MainToAudioParamValue { value: v },
                        ).producer_done(),
                        ..q
                    },
                ),
                None => None,
            },
            save_state_dirty: true,
            ..before
        }
    }

    /// Sets a parameter. The value is brought into the range of the
    /// parameter, put into the queue towards the audio thread and released,
    /// and handed back. A parameter that does not exist or is read-only is
    /// refused, and nothing changes.
    pub fn set_param_value(&mut self, param_id: ParamID, value: ParamValue) -> (res: Result<
        ParamValue,
        SetParamValueError,
    >)
        requires
            old(self).wf(),
        ensures
            final(self).wf(),
            res == Self::set_value_result(old(self)@, param_id, value),
            final(self)@ == (match res {
                Ok(v) => Self::after_set_value(old(self)@, param_id, v),
                Err(_) => old(self)@,
            }),
    {
        broadcast use vstd::std_specs::hash::group_hash_axioms;

        let info: ParamInfo = match map_get(&self.params, &param_id.0) {
            Some(info) => *info,
            None => {
                return Err(SetParamValueError::ParamDoesNotExist(param_id));
            },
        };
        if info.flags.contains(IS_READONLY) {
            Err(SetParamValueError::ParamIsReadOnly(param_id))
        } else {
            let value = value.clamp(info.min_value, info.max_value);
            match &mut self.channel.param_queues {
                Some(queues) => {
                    queues.to_audio_value.set(param_id, MainToAudioParamValue { value });
                    queues.to_audio_value.producer_done();
                },
                None => {},
            }
            self.save_state_dirty = true;
            Ok(value)
        }
    }

    /// What `set_param_mod_amount` answers.
    pub open spec fn set_mod_result(before: MainThreadView, id: ParamID, amount: ParamValue) -> Result<
        ParamValue,
        SetParamValueError,
    > {
        if !before.params.contains_key(id.0) {
            Err(SetParamValueError::ParamDoesNotExist(id))
        } else if !before.params[id.0].flags.has(IS_MODULATABLE) {
            Err(SetParamValueError::ParamIsNotModulatable(id))
        } else {
            Ok(amount)
        }
    }

    /// What `set_param_mod_amount` leaves behind where it accepts `amount`.
    pub open spec fn after_set_mod(before: MainThreadView, id: ParamID, amount: ParamValue) -> MainThreadView {
        MainThreadView {
            queues: match before.queues {
                Some(q) => Some(
                    QueuesView {
                        to_audio_mod: q.to_audio_mod.set(
                            id.0,
                            MainToAudioParamValue { value: amount },
                        ).producer_done(),
                        ..q
                    },
                ),
                None => None,
            },
            ..before
        }
    }

    /// Sets the amount of modulation on a parameter. The amount is put, as
    /// it is, into the queue towards the audio thread and released, and
    /// handed back. A parameter that does not exist or does not take
    /// modulation is refused, and nothing changes.
    pub fn set_param_mod_amount(&mut self, param_id: ParamID, mod_amount: ParamValue) -> (res: Result<
        ParamValue,
        SetParamValueError,
    >)
        requires
            old(self).wf(),
        ensures
            final(self).wf(),
            res == Self::set_mod_result(old(self)@, param_id, mod_amount),
            final(self)@ == (match res {
                Ok(v) => Self::after_set_mod(old(self)@, param_id, v),
                Err(_) => old(self)@,
            }),
    {
        broadcast use vstd::std_specs::hash::group_hash_axioms;

        let info: ParamInfo = match map_get(&self.params, &param_id.0) {
            Some(info) => *info,
            None => {
                return Err(SetParamValueError::ParamDoesNotExist(param_id));
            },
        };
        if !info.flags.contains(IS_MODULATABLE) {
            Err(SetParamValueError::ParamIsNotModulatable(param_id))
        } else {
            match &mut self.channel.param_queues {
                Some(queues) => {
                    queues.to_audio_mod.set(param_id, MainToAudioParamValue { value: mod_amount });
                    queues.to_audio_mod.producer_done();
                },
                None => {},
            }
            Ok(mod_amount)
        }
    }

    /// The text that the plug-in shows for a value of a parameter.
    pub fn param_value_to_text(&self, param_id: ParamID, value: ParamValue, text_buffer: &mut String) -> (res:
        Result<(), String>) {
        self.plug_main_thread.param_value_to_text(param_id, value, text_buffer)
    }

    /// The value that the plug-in reads from a text.
    pub fn param_text_to_value(&self, param_id: ParamID, text_input: &str) -> (res: Option<ParamValue>) {
        self.plug_main_thread.param_text_to_value(param_id, text_input)
    }

    /// Whether the plug-in can show a window: one of its own if `floating`,
    /// else one inside a window of the host.
    pub fn supports_gui(&self, floating: bool) -> (r: bool) {
        self.plug_main_thread.supports_gui(floating)
    }

    /// Asks the plug-in to make a window that it manages itself, under the
    /// title that is suggested. Whether there is a window then is the
    /// plug-in's answer.
    pub fn create_new_floating_gui(&mut self, suggested_title: Option<&str>) -> (res: Result<(), String>)
        ensures
            final(self).wf() == old(self).wf(),
            final(self)@ == (MainThreadView {
                calls: old(self)@.calls.push(
                    MainCall::CreateFloatingGui { suggested_title: title_of(suggested_title) },
                ),
                ..old(self)@
            }),
    {
        self.calls = Ghost(
            self.calls@.push(
                MainCall::CreateFloatingGui { suggested_title: title_of(suggested_title) },
            ),
        );
        self.plug_main_thread.create_new_floating_gui(suggested_title)
    }

    /// Asks the plug-in to make its window inside a window of the host, with
    /// the scaling, the size and the window that are given. Whether there is
    /// a window then, and of what size, is the plug-in's answer.
    pub fn create_new_embedded_gui(
        &mut self,
        scale: Option<ParamValue>,
        size: Option<GuiSize>,
        parent_window: raw_window_handle::RawWindowHandle,
    ) -> (res: Result<crate::plugin::EmbeddedGuiInfo, String>)
        ensures
            final(self).wf() == old(self).wf(),
            final(self)@ == (MainThreadView {
                calls: old(self)@.calls.push(
                    MainCall::CreateEmbeddedGui { scale, size, parent_window },
                ),
                ..old(self)@
            }),
    {
        self.calls = Ghost(
            self.calls@.push(MainCall::CreateEmbeddedGui { scale, size, parent_window }),
        );
        self.plug_main_thread.create_new_embedded_gui(scale, size, parent_window)
    }

    /// Destroys the plug-in's window.
    pub fn destroy_gui(&mut self)
        ensures
            final(self).wf() == old(self).wf(),
            final(self)@ == (MainThreadView {
                calls: old(self)@.calls.push(MainCall::DestroyGui),
                ..old(self)@
            }),
    {
        self.plug_main_thread.destroy_gui();
        self.calls = Ghost(self.calls@.push(MainCall::DestroyGui));
    }

    /// How the plug-in's window may be resized.
    pub fn gui_resize_hints(&self) -> (r: Option<GuiResizeHints>) {
        self.plug_main_thread.gui_resize_hints()
    }

    /// Asks the plug-in for the nearest size to `size` that its window can
    /// have. The size is the plug-in's answer; the host keeps nothing of it.
    pub fn adjust_gui_size(&mut self, size: GuiSize) -> (r: GuiSize)
        ensures
            final(self).wf() == old(self).wf(),
            final(self)@ == (MainThreadView {
                calls: old(self)@.calls.push(MainCall::AdjustGuiSize { size }),
                ..old(self)@
            }),
    {
        self.calls = Ghost(self.calls@.push(MainCall::AdjustGuiSize { size }));
        self.plug_main_thread.adjust_gui_size(size)
    }

    /// Asks the plug-in to scale its window by `scale`. Whether it has
    /// applied the scaling is the plug-in's answer; the host keeps nothing
    /// of it.
    pub fn set_gui_scale(&mut self, scale: ParamValue) -> (applied: bool)
        ensures
            final(self).wf() == old(self).wf(),
            final(self)@ == (MainThreadView {
                calls: old(self)@.calls.push(MainCall::SetGuiScale { scale }),
                ..old(self)@
            }),
    {
        self.calls = Ghost(self.calls@.push(MainCall::SetGuiScale { scale }));
        self.plug_main_thread.set_gui_scale(scale)
    }

    /// Asks the plug-in to show its window. Whether it is shown is the
    /// plug-in's answer.
    pub fn show_gui(&mut self) -> (res: Result<(), String>)
        ensures
            final(self).wf() == old(self).wf(),
            final(self)@ == (MainThreadView {
                calls: old(self)@.calls.push(MainCall::ShowGui),
                ..old(self)@
            }),
    {
        self.calls = Ghost(self.calls@.push(MainCall::ShowGui));
        self.plug_main_thread.show_gui()
    }

    /// Asks the plug-in to hide its window; the window is not destroyed.
    /// Whether it is hidden is the plug-in's answer.
    pub fn hide_gui(&mut self) -> (res: Result<(), String>)
        ensures
            final(self).wf() == old(self).wf(),
            final(self)@ == (MainThreadView {
                calls: old(self)@.calls.push(MainCall::HideGui),
                ..old(self)@
            }),
    {
        self.calls = Ghost(self.calls@.push(MainCall::HideGui));
        self.plug_main_thread.hide_gui()
    }

    /// Tells the plug-in of a new tempo. The host keeps nothing of it.
    pub fn update_tempo_map(&mut self, new_tempo_map: &crate::plugin::TempoMap)
        ensures
            final(self).wf() == old(self).wf(),
            final(self)@ == (MainThreadView {
                calls: old(self)@.calls.push(
                    MainCall::UpdateTempoMap { tempo_map: *new_tempo_map },
                ),
                ..old(self)@
            }),
    {
        self.plug_main_thread.update_tempo_map(new_tempo_map);
        self.calls = Ghost(self.calls@.push(MainCall::UpdateTempoMap { tempo_map: *new_tempo_map }));
    }

    /// The version of the schedule from which on the audio-thread side takes
    /// part.
    pub fn first_schedule(&self) -> (v: u64)
        ensures
            v == self@.first_schedule,
    {
        self.first_schedule
    }

    /// Asks the plug-in to give its window the size `size`. The size that
    /// the plug-in has given it, or its refusal, is the plug-in's answer and
    /// is handed back; a size that the plug-in has given is kept in the saved
    /// state, which is dirty then.
    pub fn set_gui_size(&mut self, size: GuiSize) -> (res: Result<GuiSize, String>)
        ensures
            final(self).wf() == old(self).wf(),
            final(self)@ == (match res {
                Ok(new_size) => MainThreadView {
                    save_state: SaveStateView { gui_size: Some(new_size), ..old(self)@.save_state },
                    save_state_dirty: true,
                    calls: old(self)@.calls.push(MainCall::SetGuiSize { size }),
                    ..old(self)@
                },
                Err(_) => MainThreadView {
                    calls: old(self)@.calls.push(MainCall::SetGuiSize { size }),
                    ..old(self)@
                },
            }),
    {
        let res = self.plug_main_thread.set_gui_size(size);
        self.calls = Ghost(self.calls@.push(MainCall::SetGuiSize { size }));
        match &res {
            Ok(new_size) => {
                self.save_state.gui_size = Some(*new_size);
                self.save_state_dirty = true;
            },
            Err(_) => {},
        }
        res
    }

    /// Whether the plug-in can be activated now: it cannot while it is
    /// active, nor while the audio thread has not let go of it.
    pub fn can_activate(&self) -> (res: Result<(), ActivatePluginError>)
        ensures
            res is Ok <==> self@.state.inactive(),
            res is Err ==> res->Err_0 is AlreadyActive,
    {
        if !self.channel.state.get().is_inactive() {
            return Err(ActivatePluginError::AlreadyActive);
        }
        Ok(())
    }

    /// The audio ports of the plug-in as of its last activation.
    pub fn audio_ports_ext(&self) -> (r: Option<&PluginAudioPortsExt>)
        ensures
            r is Some == self@.save_state.backup_audio_ports_ext is Some,
            r matches Some(p) ==> Some(p@) == self@.save_state.backup_audio_ports_ext,
    {
        self.save_state.backup_audio_ports_ext.as_ref()
    }

    /// The note ports of the plug-in as of its last activation.
    pub fn note_ports_ext(&self) -> (r: Option<&PluginNotePortsExt>)
        ensures
            r is Some == self@.save_state.backup_note_ports_ext is Some,
            r matches Some(p) ==> Some(p@) == self@.save_state.backup_note_ports_ext,
    {
        self.save_state.backup_note_ports_ext.as_ref()
    }

    /// The audio input channels of the plug-in, all ports together.
    pub fn num_audio_in_channels(&self) -> (n: usize)
        ensures
            n == self@.num_audio_in_channels,
    {
        self.num_audio_in_channels
    }

    /// The audio output channels of the plug-in, all ports together.
    pub fn num_audio_out_channels(&self) -> (n: usize)
        ensures
            n == self@.num_audio_out_channels,
    {
        self.num_audio_out_channels
    }

    /// The name of the plug-in instance.
    pub fn id(&self) -> (id: &PluginInstanceID)
        ensures
            *id == self@.id,
    {
        &self.id
    }

    /// The lifecycle word.
    pub fn state(&self) -> (s: PluginState)
        ensures
            s == self@.state,
    {
        self.channel.state.get()
    }

    /// The graph's port ids for the ports of the plug-in.
    pub fn port_ids(&self) -> (ids: &PluginHostPortIDs)
        ensures
            ids@ == self@.port_ids,
    {
        &self.port_ids
    }

    /// What the plug-in has of a parameter.
    pub fn param_info(&self, param_id: ParamID) -> (info: Option<ParamInfo>)
        ensures
            info == (if self@.params.contains_key(param_id.0) {
                Some(self@.params[param_id.0])
            } else {
                None::<ParamInfo>
            }),
    {
        broadcast use vstd::std_specs::hash::group_hash_axioms;

        match map_get(&self.params, &param_id.0) {
            Some(info) => Some(*info),
            None => None,
        }
    }

    /// What the plug-in asks of the host goes through here.
    pub fn request(&mut self, flags: u32)
        ensures
            final(self).wf() == old(self).wf(),
            final(self)@ == (MainThreadView {
                pending: RequestFlags { bits: old(self)@.pending.bits | flags },
                ..old(self)@
            }),
    {
        self.channel.host_request.request(flags);
    }

    /// What `schedule_deactivate` leaves behind.
    pub open spec fn after_schedule_deactivate(before: MainThreadView) -> MainThreadView {
        if before.state.active() {
            MainThreadView {
                pending: RequestFlags { bits: before.pending.bits | DEACTIVATE },
                ..before
            }
        } else {
            before
        }
    }

    /// Asks the audio thread to let go of the plug-in. Nothing happens to a
    /// plug-in that is not active. Says whether the audio-thread side has to
    /// leave with the next schedule.
    pub fn schedule_deactivate(&mut self) -> (leaves: bool)
        ensures
            final(self).wf() == old(self).wf(),
            leaves == old(self)@.state.active(),
            final(self)@ == Self::after_schedule_deactivate(old(self)@),
    {
        if !self.channel.state.get().is_active() {
            return false;
        }
        self.channel.host_request.request_deactivate();
        true
    }

    /// Marks the plug-in for removal, destroys its window, and asks the audio
    /// thread to let go of it.
    pub fn schedule_remove(&mut self) -> (leaves: bool)
        ensures
            final(self).wf() == old(self).wf(),
            leaves == old(self)@.state.active(),
            final(self)@ == Self::after_schedule_deactivate(
                MainThreadView {
                    remove_requested: true,
                    calls: old(self)@.calls.push(MainCall::DestroyGui),
                    ..old(self)@
                },
            ),
    {
        self.remove_requested = true;
        self.plug_main_thread.destroy_gui();
        self.calls = Ghost(self.calls@.push(MainCall::DestroyGui));
        self.schedule_deactivate()
    }

    /// What a failed activation leaves behind: the lifecycle word says so,
    /// and the queues are gone.
    pub open spec fn activation_failed(before: MainThreadView) -> MainThreadView {
        MainThreadView { state: PluginState::InactiveWithError, queues: None, ..before }
    }

    /// Whether `after` is what a successful activation makes of `before`,
    /// given what the owner is told of it.
    pub open spec fn activation_applied(
        before: MainThreadView,
        after: MainThreadView,
        status: PluginActivatedStatus<M::Handle>,
        schedule_version: u64,
        call: MainCall,
    ) -> bool {
        &&& after == MainThreadView {
            state: PluginState::ActiveAndSleeping,
            queues: Some(empty_queues()),
            has_processor: true,
            first_schedule: after.first_schedule,
            save_state: after.save_state,
            params: after.params,
            latency: after.latency,
            num_audio_in_channels: after.num_audio_in_channels,
            num_audio_out_channels: after.num_audio_out_channels,
            save_state_dirty: true,
            calls: before.calls.push(call),
            ..before
        }
        &&& after.params == params_of(status.new_parameters@)
        &&& after.save_state == SaveStateView {
            active: true,
            backup_audio_ports_ext: after.save_state.backup_audio_ports_ext,
            backup_note_ports_ext: after.save_state.backup_note_ports_ext,
            ..before.save_state
        }
        &&& match status.new_audio_ports_ext {
            Some(p) => {
                &&& Some(p@) != before.save_state.backup_audio_ports_ext
                &&& after.save_state.backup_audio_ports_ext == Some(p@)
                &&& after.num_audio_in_channels == capped(channel_sum(p@.0))
                &&& after.num_audio_out_channels == capped(channel_sum(p@.1))
            },
            None => {
                &&& after.save_state.backup_audio_ports_ext
                    == before.save_state.backup_audio_ports_ext
                &&& after.num_audio_in_channels == before.num_audio_in_channels
                &&& after.num_audio_out_channels == before.num_audio_out_channels
            },
        }
        &&& match status.new_note_ports_ext {
            Some(p) => {
                &&& Some(p@) != before.save_state.backup_note_ports_ext
                &&& after.save_state.backup_note_ports_ext == Some(p@)
            },
            None => after.save_state.backup_note_ports_ext
                == before.save_state.backup_note_ports_ext,
        }
        &&& status.new_latency == (if after.latency != before.latency {
            Some(after.latency)
        } else {
            None::<i64>
        })
        &&& status.new_latency is Some ==> status.caused_recompile
        &&& after.first_schedule == (if status.caused_recompile {
            next_version(schedule_version)
        } else {
            schedule_version
        })
    }

    fn fail_activation(&mut self)
        ensures
            final(self).wf(),
            final(self)@ == Self::activation_failed(old(self)@),
    {
        self.channel.state.set(PluginState::InactiveWithError);
        self.channel.param_queues = None;
    }

    /// What follows the plug-in's own activation: the host takes over what
    /// the plug-in has said of its ports, parameters and latency, makes the
    /// queues and the audio-thread side, and puts together what the owner is
    /// told.
    fn apply_activation(
        &mut self,
        audio_ports: PluginAudioPortsExt,
        note_ports: PluginNotePortsExt,
        new_params: FnvHashMap<u32, ParamInfo>,
        param_values: Vec<(ParamInfo, ParamValue)>,
        latency: i64,
        synced: PortSync,
        info: PluginActivatedInfo<M::AudioThread, M::Handle>,
        num_params: usize,
        schedule_version: u64,
        call: Ghost<MainCall>,
    ) -> (status: PluginActivatedStatus<M::Handle>)
        requires
            new_params@ == params_of(param_values@),
        ensures
            final(self).wf(),
            Self::activation_applied(old(self)@, final(self)@, status, schedule_version, call@),
            final(self)@.latency == latency,
            status.new_parameters@ == param_values@,
            status.removed_edges@ == synced.removed_edges@,
            status.caused_recompile == (synced.needs_recompile || latency != old(self)@.latency),
            status.new_audio_ports_ext is Some <==> Some(audio_ports@)
                != old(self)@.save_state.backup_audio_ports_ext,
            status.new_audio_ports_ext matches Some(p) ==> p@ == audio_ports@,
            status.new_note_ports_ext is Some <==> Some(note_ports@)
                != old(self)@.save_state.backup_note_ports_ext,
            status.new_note_ports_ext matches Some(p) ==> p@ == note_ports@,
    {
        let mut needs_recompile: bool = synced.needs_recompile;
        let new_latency: Option<i64> = if self.latency != latency {
            self.latency = latency;
            needs_recompile = true;
            Some(latency)
        } else {
            None
        };
        self.params = new_params;
        let audio_ports_changed: bool = match &self.save_state.backup_audio_ports_ext {
            Some(old_audio_ports) => !audio_ports.same_as(old_audio_ports),
            None => true,
        };
        let note_ports_changed: bool = match &self.save_state.backup_note_ports_ext {
            Some(old_note_ports) => !note_ports.same_as(old_note_ports),
            None => true,
        };
        let new_audio_ports_ext: Option<PluginAudioPortsExt> = if audio_ports_changed {
            self.num_audio_in_channels = audio_ports.total_in_channels();
            self.num_audio_out_channels = audio_ports.total_out_channels();
            self.save_state.backup_audio_ports_ext = Some(audio_ports.clone());
            Some(audio_ports)
        } else {
            None
        };
        let new_note_ports_ext: Option<PluginNotePortsExt> = if note_ports_changed {
            self.save_state.backup_note_ports_ext = Some(note_ports.clone());
            Some(note_ports)
        } else {
            None
        };
        self.first_schedule = if needs_recompile {
            schedule_version.wrapping_add(1)
        } else {
            schedule_version
        };
        self.channel.state.set(PluginState::ActiveAndSleeping);
        self.channel.param_queues = Some(ParamQueues::new(num_params));
        self.processor = Some(PluginInstanceHostAudioThread::new(self.id, info.processor, num_params));
        self.save_state.active = true;
        self.save_state_dirty = true;
        self.calls = Ghost(self.calls@.push(call@));
        PluginActivatedStatus {
            new_parameters: param_values,
            new_audio_ports_ext,
            new_note_ports_ext,
            internal_handle: info.internal_handle,
            new_latency,
            removed_edges: synced.removed_edges,
            caused_recompile: needs_recompile,
        }
    }

    /// Activates the plug-in.
    ///
    /// A plug-in whose lifecycle word is not on `Inactive` or on
    /// `InactiveWithError` is refused with `AlreadyActive`, and nothing
    /// changes. Any other plug-in is asked for its audio ports, its
    /// note ports, its parameters with their values, and its latency; the
    /// graph is brought in line with the ports; and the plug-in is told to
    /// activate. What the plug-in and the graph answer decides: the first
    /// failure ends the activation with its error, the lifecycle word on
    /// `InactiveWithError` and no queues; without a failure the lifecycle
    /// word is on `ActiveAndSleeping`, there are three new queues, and the
    /// audio-thread side exists.
    pub fn activate<G: PortGraph>(
        &mut self,
        sample_rate: SampleRate,
        min_frames: u32,
        max_frames: u32,
        graph: &mut G,
        schedule_version: u64,
    ) -> (res: Result<PluginActivatedStatus<M::Handle>, ActivatePluginError>)
        requires
            old(self).wf(),
        ensures
            final(self).wf(),
            !old(self)@.state.inactive() ==> res is Err && res->Err_0 is AlreadyActive && final(self)@
                == old(self)@,
            old(self)@.state.inactive() ==> (match res {
                Ok(status) => Self::activation_applied(
                    old(self)@,
                    final(self)@,
                    status,
                    schedule_version,
                    MainCall::Activate { sample_rate, min_frames, max_frames },
                ),
                Err(e) => {
                    &&& final(self)@ == Self::activation_failed(old(self)@)
                    &&& e is PluginFailedToGetAudioPortsExt || e is PluginFailedToGetNotePortsExt
                        || e is PluginFailedToGetParamInfo || e is PluginFailedToGetParamValue
                        || e is PluginSpecific
                },
            }),
    {
        if !self.channel.state.get().is_inactive() {
            return Err(ActivatePluginError::AlreadyActive);
        }
        match consult(
            &mut self.plug_main_thread,
            graph,
            self.id.node_ref,
            sample_rate,
            min_frames,
            max_frames,
        ) {
            Ok(answers) => Ok(
                self.apply_activation(
                    answers.audio_ports,
                    answers.note_ports,
                    answers.params,
                    answers.param_values,
                    answers.latency,
                    answers.synced,
                    answers.info,
                    answers.num_params,
                    schedule_version,
                    Ghost(MainCall::Activate { sample_rate, min_frames, max_frames }),
                ),
            ),
            Err(e) => {
                self.fail_activation();
                Err(e)
            },
        }
    }

    /// The first part of an idle tick. Hands back the flags that waited.
    fn poll_requests(&mut self) -> (flags: RequestFlags)
        requires
            old(self).wf(),
        ensures
            final(self).wf(),
            flags == old(self)@.pending,
            final(self)@ == polled(old(self)@),
    {
        let flags = self.channel.host_request.fetch_requests();
        if flags.contains(DEACTIVATE) && self.channel.state.get().is_active() {
            self.channel.host_request.request_deactivate();
            assert(0u32 | DEACTIVATE == DEACTIVATE) by (bit_vector);
        }
        if flags.contains(MARK_DIRTY) {
            self.save_state_dirty = true;
        }
        if flags.contains(CALLBACK) {
            self.plug_main_thread.on_main_thread();
            self.calls = Ghost(self.calls@.push(MainCall::OnMainThread));
        }
        flags
    }

    /// The second part of an idle tick. Hands back what the owner is told.
    fn take_reports(&mut self) -> (modified: ModifiedParams)
        requires
            old(self).wf(),
        ensures
            final(self).wf(),
            modified@ == reports_taken(old(self)@).modified,
            final(self)@ == reported(old(self)@),
    {
        broadcast use vstd::std_specs::hash::group_hash_axioms;

        let mut modified = ModifiedParams::new();
        let reports: Vec<(ParamID, AudioToMainParamValue)> = match &mut self.channel.param_queues {
            Some(queues) => queues.to_main_value.consume(),
            None => Vec::new(),
        };
        assert(reports@ == waiting_reports(old(self)@.queues));
        let ghost start = ReportsTaken {
            gesturing: old(self)@.gesturing,
            dirty: old(self)@.save_state_dirty,
            modified: Seq::empty(),
        };
        let ghost mid = self@;
        let mut i: usize = 0;
        assert(reports@.take(0) =~= Seq::<(ParamID, AudioToMainParamValue)>::empty());
        while i < reports.len()
            invariant
                i <= reports@.len(),
                self.wf(),
                self@ == (MainThreadView {
                    gesturing: self@.gesturing,
                    save_state_dirty: self@.save_state_dirty,
                    ..mid
                }),
                (ReportsTaken {
                    gesturing: self@.gesturing,
                    dirty: self@.save_state_dirty,
                    modified: modified@,
                }) == start.take_all(reports@.take(i as int)),
            decreases reports@.len() - i,
        {
            proof {
                assert(reports@.take(i as int + 1).drop_last() =~= reports@.take(i as int));
            }
            let (param_id, new_value) = reports[i];
            let is_gesturing: bool = match new_value.gesture {
                Some(gesture) => {
                    let _ = map_insert(&mut self.gesturing_params, param_id.0, gesture.is_begin);
                    if !gesture.is_begin {
                        self.save_state_dirty = true;
                    }
                    gesture.is_begin
                },
                None => {
                    self.save_state_dirty = true;
                    match map_get(&self.gesturing_params, &param_id.0) {
                        Some(g) => *g,
                        None => false,
                    }
                },
            };
            modified.push(ParamModifiedInfo { param_id, new_value: new_value.value, is_gesturing });
            i = i + 1;
        }
        assert(reports@.take(reports@.len() as int) =~= reports@);
        modified
    }

    /// The third part of an idle tick. Says whether the audio-thread side
    /// has to leave with the next schedule.
    fn restart_if_asked(&mut self, flags: RequestFlags) -> (leaves: bool)
        requires
            old(self).wf(),
        ensures
            final(self).wf(),
            leaves == (flags.has_any(RESTART_OR_RESCAN_PORTS) && old(self)@.state.active()),
            final(self)@ == restart_marked(old(self)@, flags),
    {
        if flags.intersects(RESTART_OR_RESCAN_PORTS) {
            self.restarting = true;
            self.schedule_deactivate()
        } else {
            false
        }
    }

    /// The fourth part of an idle tick.
    fn pass_on_gui_requests(&mut self, flags: RequestFlags, events_out: &mut Vec<OnIdleEvent>) -> (hints:
        Ghost<Option<GuiResizeHints>>)
        requires
            old(self).wf(),
        ensures
            final(self).wf(),
            final(self)@ == gui_passed_on(old(self)@, flags),
            final(events_out)@ == with_gui_events(
                old(events_out)@,
                flags,
                old(self)@.id,
                old(self)@.pending_gui_size,
                hints@,
            ),
    {
        let size: Option<GuiSize> = if flags.contains(GUI_RESIZE) {
            self.channel.host_request.fetch_gui_size_request()
        } else {
            self.channel.host_request.load_gui_size_request()
        };
        let resize_hints: Option<GuiResizeHints> = if flags.contains(GUI_HINTS_CHANGED) {
            self.plug_main_thread.gui_resize_hints()
        } else {
            None
        };
        push_gui_events(events_out, flags, self.id, size, resize_hints);
        Ghost(resize_hints)
    }

    /// The deactivation of a plug-in that the audio thread has let go of.
    fn deactivate(&mut self)
        requires
            old(self).wf(),
        ensures
            final(self).wf(),
            final(self)@ == deactivated(old(self)@),
    {
        self.plug_main_thread.deactivate();
        self.calls = Ghost(self.calls@.push(MainCall::Deactivate));
        self.channel.state.set(PluginState::Inactive);
        self.processor = None;
    }

    /// An activation in the course of an idle tick.
    fn activate_on_idle<G: PortGraph>(
        &mut self,
        sample_rate: SampleRate,
        min_frames: u32,
        max_frames: u32,
        graph: &mut G,
        schedule_version: u64,
    ) -> (res: OnIdleResult<M::Handle>)
        requires
            old(self).wf(),
            old(self)@.state.inactive(),
        ensures
            final(self).wf(),
            Self::activation_tried(
                old(self)@,
                final(self)@,
                res,
                schedule_version,
                MainCall::Activate { sample_rate, min_frames, max_frames },
            ),
    {
        match self.activate(sample_rate, min_frames, max_frames, graph, schedule_version) {
            Ok(r) => {
                self.save_state_dirty = true;
                OnIdleResult::PluginActivated(r)
            },
            Err(e) => OnIdleResult::PluginFailedToActivate(e),
        }
    }

    /// Whether `after` and `res` are what an activation in the course of an
    /// idle tick makes of `before`.
    pub open spec fn activation_tried(
        before: MainThreadView,
        after: MainThreadView,
        res: OnIdleResult<M::Handle>,
        schedule_version: u64,
        call: MainCall,
    ) -> bool {
        match res {
            OnIdleResult::PluginActivated(status) => Self::activation_applied(
                before,
                after,
                status,
                schedule_version,
                call,
            ),
            OnIdleResult::PluginFailedToActivate(e) => after == Self::activation_failed(before)
                && !(e is AlreadyActive),
            _ => false,
        }
    }

    /// Whether `after` and `res` are what the last part of an idle tick makes
    /// of `v`, which the host holds after the first four parts.
    pub open spec fn lifecycle_settled(
        v: MainThreadView,
        flags: RequestFlags,
        state: PluginState,
        after: MainThreadView,
        res: OnIdleResult<M::Handle>,
        schedule_version: u64,
        call: MainCall,
    ) -> bool {
        match idle_case(v, flags, state) {
            IdleCase::Remove => res is PluginReadyToRemove && after == deactivated(v),
            IdleCase::Reactivate => Self::activation_tried(
                deactivated(v),
                after,
                res,
                schedule_version,
                call,
            ),
            IdleCase::Deactivate => res is PluginDeactivated && after == left_deactivated(
                deactivated(v),
            ),
            IdleCase::RequestProcess => res is Nothing && after == (MainThreadView {
                pending: RequestFlags { bits: v.pending.bits | PROCESS },
                ..v
            }),
            IdleCase::Activate => Self::activation_tried(v, after, res, schedule_version, call),
            IdleCase::Nothing => res is Nothing && after == v,
        }
    }

    /// One idle tick.
    ///
    /// In this order: the request flags are taken; `MARK_DIRTY` makes the
    /// saved state dirty; `CALLBACK` gives the plug-in its call on this
    /// thread; the reports of the audio thread are taken, and the owner is
    /// told of each changed parameter; `RESTART` or `RESCAN_PORTS` marks the
    /// plug-in as restarting and asks the audio thread to let go of it; what
    /// the plug-in has asked about its window is added to `events_out`. Then
    /// the lifecycle: a plug-in that the audio thread has let go of is
    /// deactivated, and removed, activated again or left deactivated; a
    /// plug-in that asks to be processed is passed on to the audio thread if
    /// it is active, and activated if it is inactive.
    ///
    /// Hands back how the tick ended, what the owner is told of changed
    /// parameters, and whether the audio-thread side has to leave with the
    /// next schedule.
    pub fn on_idle<G: PortGraph>(
        &mut self,
        sample_rate: SampleRate,
        min_frames: u32,
        max_frames: u32,
        graph: &mut G,
        events_out: &mut Vec<OnIdleEvent>,
        schedule_version: u64,
    ) -> (res: (OnIdleResult<M::Handle>, ModifiedParams, bool))
        requires
            old(self).wf(),
        ensures
            final(self).wf(),
            res.1@ == reports_taken(polled(old(self)@)).modified,
            res.2 == (old(self)@.pending.has_any(RESTART_OR_RESCAN_PORTS)
                && old(self)@.state.active()),
            exists|hints: Option<GuiResizeHints>|
                final(events_out)@ == #[trigger] with_gui_events(
                    old(events_out)@,
                    old(self)@.pending,
                    old(self)@.id,
                    old(self)@.pending_gui_size,
                    hints,
                ),
            Self::lifecycle_settled(
                before_lifecycle(old(self)@),
                old(self)@.pending,
                old(self)@.state,
                final(self)@,
                res.0,
                schedule_version,
                MainCall::Activate { sample_rate, min_frames, max_frames },
            ),
    {
        let active_state: PluginState = self.channel.state.get();
        let request_flags = self.poll_requests();
        let modified_params = self.take_reports();
        let processor_to_drop: bool = self.restart_if_asked(request_flags);
        let hints = self.pass_on_gui_requests(request_flags, events_out);
        let ghost v = self@;
        assert(v == before_lifecycle(old(self)@));
        if active_state == PluginState::DroppedAndReadyToDeactivate {
            self.deactivate();
            if !self.remove_requested {
                if self.restarting || request_flags.contains(PROCESS) {
                    let res = self.activate_on_idle(
                        sample_rate,
                        min_frames,
                        max_frames,
                        graph,
                        schedule_version,
                    );
                    return (res, modified_params, processor_to_drop);
                } else {
                    self.save_state.active = false;
                    self.save_state_dirty = true;
                }
                return (OnIdleResult::PluginDeactivated, modified_params, processor_to_drop);
            } else {
                return (OnIdleResult::PluginReadyToRemove, modified_params, processor_to_drop);
            }
        } else if request_flags.contains(PROCESS) && !self.remove_requested && !self.restarting {
            if active_state.is_active() {
                self.channel.host_request.request_process();
            } else if active_state == PluginState::Inactive || active_state
                == PluginState::InactiveWithError {
                let res = self.activate_on_idle(
                    sample_rate,
                    min_frames,
                    max_frames,
                    graph,
                    schedule_version,
                );
                return (res, modified_params, processor_to_drop);
            }
        }
        (OnIdleResult::Nothing, modified_params, processor_to_drop)
    }

    /// One block on the audio thread, for a plug-in whose audio-thread side
    /// exists; nothing happens otherwise.
    pub fn process(
        &mut self,
        proc_info: &ProcInfo,
        buffers: &mut ProcBuffers,
        event_in_buffers: &mut Option<Vec<Vec<ProcEvent>>>,
        event_out_buffer: &mut Option<Vec<ProcEvent>>,
        note_in_buffers: &mut Vec<Option<Vec<Vec<ProcEvent>>>>,
        note_out_buffers: &mut Vec<Option<Vec<ProcEvent>>>,
    ) -> (outcome: Option<BlockOutcome>)
        requires
            old(self).wf(),
        ensures
            final(self).wf(),
            outcome is Some == old(self)@.has_processor,
            outcome is None ==> final(self)@ == old(self)@ && *final(buffers) == *old(buffers)
                && *final(event_in_buffers) == *old(event_in_buffers) && *final(event_out_buffer)
                == *old(event_out_buffer) && *final(note_in_buffers) == *old(note_in_buffers)
                && *final(note_out_buffers) == *old(note_out_buffers),
            outcome matches Some(o) ==> {
                &&& old(self).audio_side() matches Some(audio_before)
                &&& final(self).audio_side() matches Some(audio_after)
                &&& PluginInstanceHostAudioThread::<M::AudioThread>::block_settled(
                    &audio_before,
                    &audio_after,
                    old(self).shared(),
                    final(self).shared(),
                    *proc_info,
                    *old(buffers),
                    *final(buffers),
                    *old(event_in_buffers),
                    *final(event_in_buffers),
                    *old(event_out_buffer),
                    *final(event_out_buffer),
                    old(note_in_buffers)@,
                    final(note_in_buffers)@,
                    old(note_out_buffers)@,
                    final(note_out_buffers)@,
                    o,
                )
                &&& final(self)@ == (MainThreadView {
                    state: crate::audio_thread::end_state(old(self)@.state, o),
                    pending: final(self)@.pending,
                    queues: final(self)@.queues,
                    ..old(self)@
                })
            },
    {
        match &mut self.processor {
            Some(processor) => {
                let o = processor.process(
                    &mut self.channel,
                    proc_info,
                    buffers,
                    event_in_buffers,
                    event_out_buffer,
                    note_in_buffers,
                    note_out_buffers,
                );
                Some(o)
            },
            None => None,
        }
    }

    /// The audio-thread side of the plug-in, while it exists.
    pub closed spec fn audio_side(&self) -> Option<PluginInstanceHostAudioThread<M::AudioThread>> {
        self.processor
    }

    /// What the two sides of the plug-in share.
    pub closed spec fn shared(&self) -> PluginHostChannel {
        self.channel
    }

    /// What the audio thread does when a schedule without the plug-in has
    /// taken the place of the one with it: the audio-thread side stops the
    /// plug-in if it is processing, says that the control thread may
    /// deactivate, and is gone.
    pub fn drop_processor(&mut self)
        requires
            old(self).wf(),
        ensures
            final(self).wf(),
            final(self)@ == (if old(self)@.has_processor {
                MainThreadView {
                    state: PluginState::DroppedAndReadyToDeactivate,
                    has_processor: false,
                    ..old(self)@
                }
            } else {
                old(self)@
            }),
    {
        match &mut self.processor {
            Some(processor) => {
                processor.drop_on_audio_thread(&mut self.channel);
            },
            None => {},
        }
        self.processor = None;
    }
}

/// What a plug-in and the graph have answered in the course of an activation
/// that none of them has failed.
pub struct ActivationAnswers<M: PluginMainThread> {
    pub audio_ports: PluginAudioPortsExt,
    pub note_ports: PluginNotePortsExt,
    pub num_params: usize,
    pub params: FnvHashMap<u32, ParamInfo>,
    pub param_values: Vec<(ParamInfo, ParamValue)>,
    pub latency: i64,
    pub synced: PortSync,
    pub info: PluginActivatedInfo<M::AudioThread, M::Handle>,
}

/// Asks a plug-in for its audio ports, its note ports, its parameters with
/// their values and its latency, brings the graph in line with the ports,
/// and tells the plug-in to activate. The first failure ends this with its
/// error.
pub fn consult<M: PluginMainThread, G: PortGraph>(
    plugin: &mut M,
    graph: &mut G,
    node: u64,
    sample_rate: SampleRate,
    min_frames: u32,
    max_frames: u32,
) -> (res: Result<ActivationAnswers<M>, ActivatePluginError>)
    ensures
        match res {
            Ok(a) => a.params@ == params_of(a.param_values@) && a.param_values@.len()
                == a.num_params,
            Err(e) => e is PluginFailedToGetAudioPortsExt || e is PluginFailedToGetNotePortsExt
                || e is PluginFailedToGetParamInfo || e is PluginFailedToGetParamValue
                || e is PluginSpecific,
        },
{
    let audio_ports = match plugin.audio_ports_ext() {
        Ok(audio_ports) => audio_ports,
        Err(e) => {
            return Err(ActivatePluginError::PluginFailedToGetAudioPortsExt(e));
        },
    };
    let note_ports = match plugin.note_ports_ext() {
        Ok(note_ports) => note_ports,
        Err(e) => {
            return Err(ActivatePluginError::PluginFailedToGetNotePortsExt(e));
        },
    };
    let num_params: usize = plugin.num_params() as usize;
    let (params, param_values) = match read_params(plugin, num_params) {
        Ok(read) => read,
        Err(e) => {
            return Err(e);
        },
    };
    let latency: i64 = plugin.latency();
    let automation_out: bool = plugin.has_automation_out_port();
    let synced = match graph.sync_ports(node, &audio_ports, &note_ports, automation_out, latency) {
        Ok(synced) => synced,
        Err(e) => {
            return Err(ActivatePluginError::PluginSpecific(e));
        },
    };
    match plugin.activate(sample_rate, min_frames, max_frames) {
        Ok(info) => Ok(
            ActivationAnswers {
                audio_ports,
                note_ports,
                num_params,
                params,
                param_values,
                latency,
                synced,
                info,
            },
        ),
        Err(e) => Err(ActivatePluginError::PluginSpecific(e)),
    }
}

/// `RESTART` and `RESCAN_PORTS` together: either makes the host restart the
/// plug-in.
pub const RESTART_OR_RESCAN_PORTS: u32 = 0x41;

/// `GUI_CLOSED` and `GUI_DESTROYED` together.
pub const GUI_CLOSED_OR_DESTROYED: u32 = 0xc00;

/// What taking the reports of the audio thread has come to so far.
pub struct ReportsTaken {
    /// For each parameter that had a gesture, whether one is open.
    pub gesturing: Map<u32, bool>,
    /// The saved state is dirty.
    pub dirty: bool,
    /// What the owner is told, oldest report first.
    pub modified: Seq<ParamModifiedInfo>,
}

impl ReportsTaken {
    /// After one more report was taken. A report with a gesture opens or
    /// closes the gesture on its parameter; the saved state is dirty once a
    /// gesture ends or a value comes without a gesture.
    pub open spec fn take(self, id: ParamID, r: AudioToMainParamValue) -> ReportsTaken {
        match r.gesture {
            Some(g) => ReportsTaken {
                gesturing: self.gesturing.insert(id.0, g.is_begin),
                dirty: self.dirty || !g.is_begin,
                modified: self.modified.push(
                    ParamModifiedInfo { param_id: id, new_value: r.value, is_gesturing: g.is_begin },
                ),
            },
            None => ReportsTaken {
                gesturing: self.gesturing,
                dirty: true,
                modified: self.modified.push(
                    ParamModifiedInfo {
                        param_id: id,
                        new_value: r.value,
                        is_gesturing: self.gesturing.contains_key(id.0) && self.gesturing[id.0],
                    },
                ),
            },
        }
    }

    /// After a list of reports was taken, first to last.
    pub open spec fn take_all(self, reports: Seq<(ParamID, AudioToMainParamValue)>) -> ReportsTaken
        decreases reports.len(),
    {
        if reports.len() == 0 {
            self
        } else {
            self.take_all(reports.drop_last()).take(reports.last().0, reports.last().1)
        }
    }
}

/// The reports that wait, released, for the control thread.
pub open spec fn waiting_reports(queues: Option<QueuesView>) -> Seq<(ParamID, AudioToMainParamValue)> {
    match queues {
        Some(q) => q.to_main_value.consumed(),
        None => Seq::empty(),
    }
}

/// What the idle tick has come to once the reports are taken.
pub open spec fn reports_taken(v: MainThreadView) -> ReportsTaken {
    (ReportsTaken { gesturing: v.gesturing, dirty: v.save_state_dirty, modified: Seq::empty() }).take_all(
        waiting_reports(v.queues),
    )
}

/// The first part of an idle tick: the flags are taken, `MARK_DIRTY` makes
/// the saved state dirty, `CALLBACK` gives the plug-in its call. `DEACTIVATE`
/// is the host's own message to the audio thread: while the plug-in is
/// active the audio thread has not answered it, and it goes on waiting.
pub open spec fn polled(v: MainThreadView) -> MainThreadView {
    MainThreadView {
        pending: RequestFlags {
            bits: if v.pending.has(DEACTIVATE) && v.state.active() {
                DEACTIVATE
            } else {
                0
            },
        },
        save_state_dirty: v.save_state_dirty || v.pending.has(MARK_DIRTY),
        calls: if v.pending.has(CALLBACK) {
            v.calls.push(MainCall::OnMainThread)
        } else {
            v.calls
        },
        ..v
    }
}

/// The second part: the reports of the audio thread are taken.
pub open spec fn reported(v: MainThreadView) -> MainThreadView {
    MainThreadView {
        gesturing: reports_taken(v).gesturing,
        save_state_dirty: reports_taken(v).dirty,
        queues: match v.queues {
            Some(q) => Some(QueuesView { to_main_value: q.to_main_value.after_consume(), ..q }),
            None => None,
        },
        ..v
    }
}

/// The third part: a plug-in that has asked for a restart, or for its ports
/// to be read again, is marked as restarting and the audio thread is asked
/// to let go of it.
pub open spec fn restart_marked(v: MainThreadView, flags: RequestFlags) -> MainThreadView {
    if flags.has_any(RESTART_OR_RESCAN_PORTS) {
        let marked = MainThreadView { restarting: true, ..v };
        if marked.state.active() {
            MainThreadView {
                pending: RequestFlags { bits: marked.pending.bits | DEACTIVATE },
                ..marked
            }
        } else {
            marked
        }
    } else {
        v
    }
}

/// The fourth part: what the plug-in has asked about its window is passed
/// on, and the size that it asked for is taken.
pub open spec fn gui_passed_on(v: MainThreadView, flags: RequestFlags) -> MainThreadView {
    MainThreadView {
        pending_gui_size: if flags.has(GUI_RESIZE) {
            None
        } else {
            v.pending_gui_size
        },
        ..v
    }
}

/// A list with an event added behind it where a condition holds.
pub open spec fn then_if(events: Seq<OnIdleEvent>, condition: bool, event: OnIdleEvent) -> Seq<
    OnIdleEvent,
> {
    if condition {
        events.push(event)
    } else {
        events
    }
}

/// A list with what the owner is told about the window added behind it, in
/// this order: closed, show, hide, resize, hints. `size` is the size that the
/// plug-in last asked for, `hints` what it answers when it is asked for its
/// hints.
pub open spec fn with_gui_events(
    events: Seq<OnIdleEvent>,
    flags: RequestFlags,
    id: PluginInstanceID,
    size: Option<GuiSize>,
    hints: Option<GuiResizeHints>,
) -> Seq<OnIdleEvent> {
    let after_closed = then_if(
        events,
        flags.has_any(GUI_CLOSED_OR_DESTROYED),
        OnIdleEvent::PluginGuiClosed { plugin_id: id, was_destroyed: flags.has(GUI_DESTROYED) },
    );
    let after_show = then_if(
        after_closed,
        flags.has(GUI_SHOW),
        OnIdleEvent::PluginRequestedToShowGui { plugin_id: id },
    );
    let after_hide = then_if(
        after_show,
        flags.has(GUI_HIDE),
        OnIdleEvent::PluginRequestedToHideGui { plugin_id: id },
    );
    let after_resize = match size {
        Some(s) => then_if(
            after_hide,
            flags.has(GUI_RESIZE),
            OnIdleEvent::PluginRequestedToResizeGui { plugin_id: id, size: s },
        ),
        None => after_hide,
    };
    then_if(
        after_resize,
        flags.has(GUI_HINTS_CHANGED),
        OnIdleEvent::PluginChangedGuiResizeHints { plugin_id: id, resize_hints: hints },
    )
}

/// Adds an event to a list where a condition holds.
fn push_if(events: &mut Vec<OnIdleEvent>, condition: bool, event: OnIdleEvent)
    ensures
        final(events)@ == then_if(old(events)@, condition, event),
{
    if condition {
        events.push(event);
    }
}

/// Adds what the owner is told about the window to a list.
fn push_gui_events(
    events: &mut Vec<OnIdleEvent>,
    flags: RequestFlags,
    id: PluginInstanceID,
    size: Option<GuiSize>,
    hints: Option<GuiResizeHints>,
)
    ensures
        final(events)@ == with_gui_events(old(events)@, flags, id, size, hints),
{
    push_if(
        events,
        flags.intersects(GUI_CLOSED_OR_DESTROYED),
        OnIdleEvent::PluginGuiClosed { plugin_id: id, was_destroyed: flags.contains(GUI_DESTROYED) },
    );
    push_if(events, flags.contains(GUI_SHOW), OnIdleEvent::PluginRequestedToShowGui { plugin_id: id });
    push_if(events, flags.contains(GUI_HIDE), OnIdleEvent::PluginRequestedToHideGui { plugin_id: id });
    match size {
        Some(s) => {
            push_if(
                events,
                flags.contains(GUI_RESIZE),
                OnIdleEvent::PluginRequestedToResizeGui { plugin_id: id, size: s },
            );
        },
        None => {},
    }
    push_if(
        events,
        flags.contains(GUI_HINTS_CHANGED),
        OnIdleEvent::PluginChangedGuiResizeHints { plugin_id: id, resize_hints: hints },
    );
}

/// Everything of an idle tick that comes before the lifecycle is looked at.
pub open spec fn before_lifecycle(v: MainThreadView) -> MainThreadView {
    gui_passed_on(restart_marked(reported(polled(v)), v.pending), v.pending)
}

/// What an idle tick does about the lifecycle.
pub enum IdleCase {
    /// The audio thread has let go and the plug-in is to be removed.
    Remove,
    /// The audio thread has let go and the plug-in is to be activated again.
    Reactivate,
    /// The audio thread has let go and the plug-in stays deactivated.
    Deactivate,
    /// The plug-in is active and asks to be processed.
    RequestProcess,
    /// The plug-in is not active and asks to be processed.
    Activate,
    /// Nothing.
    Nothing,
}

/// The case of an idle tick, from the flags and the lifecycle word that the
/// tick began with and from what the host holds once the first four parts
/// are done.
pub open spec fn idle_case(v: MainThreadView, flags: RequestFlags, state: PluginState) -> IdleCase {
    if state is DroppedAndReadyToDeactivate {
        if v.remove_requested {
            IdleCase::Remove
        } else if v.restarting || flags.has(PROCESS) {
            IdleCase::Reactivate
        } else {
            IdleCase::Deactivate
        }
    } else if flags.has(PROCESS) && !v.remove_requested && !v.restarting {
        if state.active() {
            IdleCase::RequestProcess
        } else if state is Inactive || state is InactiveWithError {
            IdleCase::Activate
        } else {
            IdleCase::Nothing
        }
    } else {
        IdleCase::Nothing
    }
}

/// What the host holds once the plug-in has been deactivated.
pub open spec fn deactivated(v: MainThreadView) -> MainThreadView {
    MainThreadView {
        state: PluginState::Inactive,
        has_processor: false,
        calls: v.calls.push(MainCall::Deactivate),
        ..v
    }
}

/// What the host holds once a deactivated plug-in is left deactivated.
pub open spec fn left_deactivated(v: MainThreadView) -> MainThreadView {
    MainThreadView {
        save_state: SaveStateView { active: false, ..v.save_state },
        save_state_dirty: true,
        ..v
    }
}

/// The version that follows a version of the schedule; the count starts over
/// behind the last number.
pub open spec fn next_version(v: u64) -> u64 {
    if v == u64::MAX {
        0
    } else {
        (v + 1) as u64
    }
}

/// The registry of parameters that a list of parameters with their values
/// makes: each parameter under its id, a later one in place of an earlier
/// one with the same id.
pub open spec fn params_of(values: Seq<(ParamInfo, ParamValue)>) -> Map<u32, ParamInfo>
    decreases values.len(),
{
    if values.len() == 0 {
        Map::empty()
    } else {
        params_of(values.drop_last()).insert(values.last().0.stable_id.0, values.last().0)
    }
}

/// Asks a plug-in for each of its parameters and for the value of each.
///
/// Without a failure there is one entry for each index, in order, and the
/// registry made of them. The first parameter that the plug-in cannot
/// describe, or whose value it cannot give, ends the reading with its error.
pub fn read_params<M: PluginMainThread>(plugin: &mut M, num_params: usize) -> (res: Result<
    (FnvHashMap<u32, ParamInfo>, Vec<(ParamInfo, ParamValue)>),
    ActivatePluginError,
>)
    ensures
        match res {
            Ok((params, values)) => values@.len() == num_params && params@ == params_of(values@),
            Err(e) => (e matches ActivatePluginError::PluginFailedToGetParamInfo(i) && i
                < num_params) || e is PluginFailedToGetParamValue,
        },
{
    broadcast use vstd::std_specs::hash::group_hash_axioms;

    let mut params: FnvHashMap<u32, ParamInfo> = new_map();
    let mut values: Vec<(ParamInfo, ParamValue)> = Vec::with_capacity(num_params);
    let mut i: usize = 0;
    while i < num_params
        invariant
            i <= num_params,
            values@.len() == i,
            params@ == params_of(values@),
        decreases num_params - i,
    {
        match plugin.param_info(i) {
            Ok(info) => match plugin.param_value(info.stable_id) {
                Ok(value) => {
                    let ghost before = values@;
                    let _ = map_insert(&mut params, info.stable_id.0, info);
                    values.push((info, value));
                    assert(values@.drop_last() =~= before);
                },
                Err(_) => {
                    return Err(ActivatePluginError::PluginFailedToGetParamValue(info.stable_id));
                },
            },
            Err(_) => {
                return Err(ActivatePluginError::PluginFailedToGetParamInfo(i));
            },
        }
        i = i + 1;
    }
    Ok((params, values))
}

} // verus!
