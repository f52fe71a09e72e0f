//! The host of one plug-in instance as the scanner makes it: the plug-in may
//! be missing, the plug-in's own saved part is a preset, and an idle tick
//! deactivates only on the word of the audio thread.

use crate::audio_thread::PluginInstanceHostAudioThread;
use crate::channel::{AudioToMainParamValue, MainToAudioParamValue, ParamQueues, PluginHostChannel};
use crate::error::ActivatePluginError;
use crate::fnv_map::{map_get, map_insert, new_map};
use crate::host_request::{RequestFlags, CALLBACK, DEACTIVATE, MARK_DIRTY, PROCESS, RESTART};
use crate::main_thread::{
    empty_queues, params_of, queues_view, waiting_reports, MainCall, QueuesView, ReportsTaken,
};
use crate::params::{ModifiedParams, ParamID, ParamInfo, ParamModifiedInfo, ParamValue, IS_READONLY};
use crate::plugin::{
    audio_ports_of, capped, channel_sum, note_ports_of, AudioPortInfo, NotePortInfo,
    PluginAudioPortsExt, PluginInstanceID, PluginMainThread, PluginNotePortsExt, SampleRate,
};
use crate::plugin_key::{PluginFormat, ScannedPluginKey};
use crate::plugin_state::PluginState;
use crate::save_state::{copy_text, PluginPreset, PluginSaveState, PluginSaveStateView};
use fnv::FnvHashMap;
use vstd::prelude::*;
use vstd::string::StringExecFns;

verus! {

/// The parameters of an activated plug-in, for whoever sets them.
#[derive(Debug)]
pub struct PluginParamsExt {
    /// What the plug-in has said of each parameter, by the parameter's id.
    pub params: FnvHashMap<u32, ParamInfo>,
}

impl PluginParamsExt {
    /// The queues after a value was put under a key and released, where the
    /// parameter exists and can be set; the queues as they were otherwise.
    pub open spec fn value_set(
        params: Map<u32, ParamInfo>,
        queues: Option<QueuesView>,
        id: ParamID,
        value: ParamValue,
    ) -> Option<QueuesView> {
        match queues {
            Some(q) => if params.contains_key(id.0) && !params[id.0].flags.has(IS_READONLY) {
                Some(
                    QueuesView {
                        to_audio_value: q.to_audio_value.set(
                            id.0,
                            MainToAudioParamValue { value },
                        ).producer_done(),
                        ..q
                    },
                )
            } else {
                Some(q)
            },
            None => None,
        }
    }

    /// The queues after an amount was put under a key and released, where the
    /// parameter exists; the queues as they were otherwise.
    pub open spec fn mod_set(
        params: Map<u32, ParamInfo>,
        queues: Option<QueuesView>,
        id: ParamID,
        amount: ParamValue,
    ) -> Option<QueuesView> {
        match queues {
            Some(q) => if params.contains_key(id.0) {
                Some(
                    QueuesView {
                        to_audio_mod: q.to_audio_mod.set(
                            id.0,
                            MainToAudioParamValue { value: amount },
                        ).producer_done(),
                        ..q
                    },
                )
            } else {
                Some(q)
            },
            None => None,
        }
    }

    /// Puts a value for a parameter into the queue towards the audio thread
    /// and releases it. A request for a plug-in without queues, for a
    /// parameter that does not exist, or for one that is read-only is
    /// ignored.
    pub fn set_value(&mut self, channel: &mut PluginHostChannel, param_id: ParamID, value: ParamValue)
        requires
            old(channel).wf(),
        ensures
            final(channel).wf(),
            final(self).params == old(self).params,
            final(channel).state == old(channel).state,
            final(channel).host_request == old(channel).host_request,
            final(channel).bypassed == old(channel).bypassed,
            queues_view(final(channel).param_queues) == Self::value_set(
                old(self).params@,
                queues_view(old(channel).param_queues),
                param_id,
                value,
            ),
    {
        broadcast use vstd::std_specs::hash::group_hash_axioms;

        match &mut channel.param_queues {
            Some(queues) => {
                match map_get(&self.params, &param_id.0) {
                    Some(param_info) => {
                        if !param_info.flags.contains(IS_READONLY) {
                            queues.to_audio_value.set(param_id, MainToAudioParamValue { value });
                            queues.to_audio_value.producer_done();
                        }
                    },
                    None => {},
                }
            },
            None => {},
        }
    }

    /// Puts an amount of modulation for a parameter into the queue towards
    /// the audio thread and releases it. A request for a plug-in without
    /// queues or for a parameter that does not exist is ignored.
    pub fn set_mod_amount(&mut self, channel: &mut PluginHostChannel, param_id: ParamID, amount: ParamValue)
        requires
            old(channel).wf(),
        ensures
            final(channel).wf(),
            final(self).params == old(self).params,
            final(channel).state == old(channel).state,
            final(channel).host_request == old(channel).host_request,
            final(channel).bypassed == old(channel).bypassed,
            queues_view(final(channel).param_queues) == Self::mod_set(
                old(self).params@,
                queues_view(old(channel).param_queues),
                param_id,
                amount,
            ),
    {
        broadcast use vstd::std_specs::hash::group_hash_axioms;

        match &mut channel.param_queues {
            Some(queues) => {
                match map_get(&self.params, &param_id.0) {
                    Some(_) => {
                        queues.to_audio_mod.set(param_id, MainToAudioParamValue { value: amount });
                        queues.to_audio_mod.producer_done();
                    },
                    None => {},
                }
            },
            None => {},
        }
    }
}

/// What the owner of a plug-in holds of it while it is activated.
pub struct PluginHandle<H> {
    pub params: PluginParamsExt,
    pub internal: Option<H>,
    pub audio_ports: PluginAudioPortsExt,
    pub note_ports: PluginNotePortsExt,
    pub has_automation_out_port: bool,
}

impl<H> PluginHandle<H> {
    /// The audio ports of the plug-in.
    pub fn audio_ports(&self) -> (r: &PluginAudioPortsExt)
        ensures
            r@ == self.audio_ports@,
    {
        &self.audio_ports
    }

    /// The note ports of the plug-in.
    pub fn note_ports(&self) -> (r: &PluginNotePortsExt)
        ensures
            r@ == self.note_ports@,
    {
        &self.note_ports
    }

    /// Whether the plug-in sends automation to other plug-ins. Every plug-in
    /// takes automation in.
    pub fn has_automation_out_port(&self) -> (r: bool)
        ensures
            r == self.has_automation_out_port,
    {
        self.has_automation_out_port
    }
}

/// How an idle tick ended for a plug-in.
pub enum OnIdleResult<H> {
    /// Nothing happened to where the plug-in stands.
    Nothing,
    PluginDeactivated,
    PluginActivated(PluginHandle<H>, FnvHashMap<u32, ParamValue>),
    PluginReadyToRemove,
    PluginFailedToActivate(ActivatePluginError),
}

/// What the host of a plug-in instance holds.
pub struct InstanceHostView {
    pub id: PluginInstanceID,
    /// The plug-in was loaded.
    pub loaded: bool,
    pub audio_ports: Option<(Seq<AudioPortInfo>, Seq<AudioPortInfo>)>,
    pub note_ports: Option<(Seq<NotePortInfo>, Seq<NotePortInfo>)>,
    pub num_audio_in_channels: usize,
    pub num_audio_out_channels: usize,
    /// The audio-thread side of the plug-in exists.
    pub has_processor: bool,
    pub state: PluginState,
    pub pending: RequestFlags,
    pub queues: Option<QueuesView>,
    pub save_state: PluginSaveStateView,
    pub plugin_version: Option<Seq<char>>,
    pub gesturing: Map<u32, bool>,
    pub remove_requested: bool,
    /// The calls into the plug-in of which the host keeps a record, oldest
    /// first.
    pub calls: Seq<MainCall>,
}

/// The host of one plug-in instance.
pub struct PluginInstanceHost<M: PluginMainThread> {
    id: PluginInstanceID,
    audio_ports: Option<PluginAudioPortsExt>,
    note_ports: Option<PluginNotePortsExt>,
    num_audio_in_channels: usize,
    num_audio_out_channels: usize,
    main_thread: Option<M>,
    audio_thread: Option<PluginInstanceHostAudioThread<M::AudioThread>>,
    channel: PluginHostChannel,
    save_state: PluginSaveState,
    plugin_version: Option<String>,
    gesturing_params: FnvHashMap<u32, bool>,
    remove_requested: bool,
    calls: Ghost<Seq<MainCall>>,
}

/// A text that may be missing, as a list of characters.
pub open spec fn text_of(text: Option<String>) -> Option<Seq<char>> {
    match text {
        Some(t) => Some(t@),
        None => None,
    }
}

impl<M: PluginMainThread> View for PluginInstanceHost<M> {
    type V = InstanceHostView;

    closed spec fn view(&self) -> InstanceHostView {
        InstanceHostView {
            id: self.id,
            loaded: self.main_thread is Some,
            audio_ports: audio_ports_of(self.audio_ports),
            note_ports: note_ports_of(self.note_ports),
            num_audio_in_channels: self.num_audio_in_channels,
            num_audio_out_channels: self.num_audio_out_channels,
            has_processor: self.audio_thread is Some,
            state: self.channel.state@,
            pending: self.channel.host_request.pending(),
            queues: queues_view(self.channel.param_queues),
            save_state: self.save_state@,
            plugin_version: text_of(self.plugin_version),
            gesturing: self.gesturing_params@,
            remove_requested: self.remove_requested,
            calls: self.calls@,
        }
    }
}

/// The saved state of the node through which the graph is entered or left.
pub open spec fn graph_node_save_state(rdn: Seq<char>) -> PluginSaveStateView {
    PluginSaveStateView {
        key: (rdn, PluginFormat::Internal),
        activation_requested: false,
        backup_audio_ports: None,
        backup_note_ports: None,
        preset: None,
    }
}

/// What a new host holds.
pub open spec fn new_host(
    id: PluginInstanceID,
    loaded: bool,
    save_state: PluginSaveStateView,
    plugin_version: Option<Seq<char>>,
    num_audio_in_channels: usize,
    num_audio_out_channels: usize,
) -> InstanceHostView {
    InstanceHostView {
        id,
        loaded,
        audio_ports: None,
        note_ports: None,
        num_audio_in_channels,
        num_audio_out_channels,
        has_processor: false,
        state: PluginState::Inactive,
        pending: RequestFlags { bits: 0 },
        queues: None,
        save_state,
        plugin_version,
        gesturing: Map::empty(),
        remove_requested: false,
        calls: Seq::empty(),
    }
}

fn graph_node_state(rdn: &str) -> (s: PluginSaveState)
    ensures
        s@ == graph_node_save_state(rdn@),
{
    PluginSaveState {
        key: ScannedPluginKey { rdn: String::from_str(rdn), format: PluginFormat::Internal },
        activation_requested: false,
        backup_audio_ports: None,
        backup_note_ports: None,
        preset: None,
    }
}

impl<M: PluginMainThread> PluginInstanceHost<M> {
    /// The queues, where there are any, are in order.
    pub closed spec fn wf(&self) -> bool {
        self.channel.wf()
    }

    /// The host of a plug-in instance that was just created, or of one that
    /// could not be loaded. A plug-in that was loaded is handed the preset of
    /// the saved state, if there is one; whether it takes it does not matter
    /// to the host. The lifecycle word starts on `Inactive`.
    pub fn new(
        id: PluginInstanceID,
        save_state: PluginSaveState,
        main_thread: Option<M>,
        plugin_version: Option<String>,
    ) -> (r: Self)
        ensures
            r.wf(),
            r@ == (InstanceHostView {
                calls: if save_state.preset is Some && main_thread is Some {
                    seq![MainCall::LoadSaveState]
                } else {
                    Seq::empty()
                },
                ..new_host(
                    id,
                    main_thread is Some,
                    save_state@,
                    text_of(plugin_version),
                    crate::main_thread::backup_in_channels(save_state.backup_audio_ports),
                    crate::main_thread::backup_out_channels(save_state.backup_audio_ports),
                )
            }),
    {
        let mut main_thread = main_thread;
        let ghost mut calls: Seq<MainCall> = Seq::empty();
        match &save_state.preset {
            Some(preset) => {
                match &mut main_thread {
                    Some(plugin) => {
                        let _ = plugin.load_save_state(preset.bytes.clone());
                        proof {
                            calls = seq![MainCall::LoadSaveState];
                        }
                    },
                    None => {},
                }
            },
            None => {},
        }
        let (num_audio_in_channels, num_audio_out_channels) = match &save_state.backup_audio_ports {
            Some(ports) => (ports.total_in_channels(), ports.total_out_channels()),
            None => (0, 0),
        };
        let r = PluginInstanceHost {
            id,
            main_thread,
            audio_thread: None,
            audio_ports: None,
            note_ports: None,
            num_audio_in_channels,
            num_audio_out_channels,
            channel: PluginHostChannel::new(false),
            save_state,
            plugin_version,
            gesturing_params: new_map(),
            remove_requested: false,
            calls: Ghost(calls),
        };
        assert(r@.pending == RequestFlags { bits: 0 });
        r
    }

    /// The host of an instance whose plug-in, if there is one, has been
    /// handed already what the saved state holds of it.
    pub fn adopt(id: PluginInstanceID, save_state: PluginSaveState, main_thread: Option<M>) -> (r: Self)
        ensures
            r.wf(),
            r@ == new_host(
                id,
                main_thread is Some,
                save_state@,
                None,
                crate::main_thread::backup_in_channels(save_state.backup_audio_ports),
                crate::main_thread::backup_out_channels(save_state.backup_audio_ports),
            ),
    {
        let (num_audio_in_channels, num_audio_out_channels) = match &save_state.backup_audio_ports {
            Some(ports) => (ports.total_in_channels(), ports.total_out_channels()),
            None => (0, 0),
        };
        let r = PluginInstanceHost {
            id,
            main_thread,
            audio_thread: None,
            audio_ports: None,
            note_ports: None,
            num_audio_in_channels,
            num_audio_out_channels,
            channel: PluginHostChannel::new(false),
            save_state,
            plugin_version: None,
            gesturing_params: new_map(),
            remove_requested: false,
            calls: Ghost(Seq::empty()),
        };
        assert(r@.pending == RequestFlags { bits: 0 });
        r
    }

    /// The host of the node through which audio and notes enter the graph.
    /// There is no plug-in behind it, and its saved state is never used.
    pub fn new_graph_in(id: PluginInstanceID, num_audio_out_channels: usize) -> (r: Self)
        ensures
            r.wf(),
            r@ == new_host(
                id,
                false,
                graph_node_save_state("app.meadowlark.dropseed-graph-in"@),
                None,
                0,
                num_audio_out_channels,
            ),
    {
        let r = PluginInstanceHost {
            id,
            main_thread: None,
            audio_thread: None,
            audio_ports: None,
            note_ports: None,
            num_audio_in_channels: 0,
            num_audio_out_channels,
            channel: PluginHostChannel::new(false),
            save_state: graph_node_state("app.meadowlark.dropseed-graph-in"),
            plugin_version: None,
            gesturing_params: new_map(),
            remove_requested: false,
            calls: Ghost(Seq::empty()),
        };
        assert(r@.pending == RequestFlags { bits: 0 });
        r
    }

    /// The host of the node through which audio and notes leave the graph.
    /// There is no plug-in behind it, and its saved state is never used.
    pub fn new_graph_out(id: PluginInstanceID, num_audio_in_channels: usize) -> (r: Self)
        ensures
            r.wf(),
            r@ == new_host(
                id,
                false,
                graph_node_save_state("app.meadowlark.dropseed-graph-out"@),
                None,
                num_audio_in_channels,
                0,
            ),
    {
        let r = PluginInstanceHost {
            id,
            main_thread: None,
            audio_thread: None,
            audio_ports: None,
            note_ports: None,
            num_audio_in_channels,
            num_audio_out_channels: 0,
            channel: PluginHostChannel::new(false),
            save_state: graph_node_state("app.meadowlark.dropseed-graph-out"),
            plugin_version: None,
            gesturing_params: new_map(),
            remove_requested: false,
            calls: Ghost(Seq::empty()),
        };
        assert(r@.pending == RequestFlags { bits: 0 });
        r
    }

    /// The saved state. Where the plug-in has marked its state as dirty,
    /// the mark is taken away and a plug-in that is loaded is asked for a
    /// new preset first; a plug-in that fails to give one leaves the saved
    /// state without a preset.
    pub fn collect_save_state(&mut self) -> (state: PluginSaveState)
        ensures
            final(self).wf() == old(self).wf(),
            state@ == final(self)@.save_state,
            final(self)@ == (InstanceHostView {
                pending: RequestFlags { bits: old(self)@.pending.bits & !MARK_DIRTY },
                save_state: final(self)@.save_state,
                calls: if old(self)@.pending.has(MARK_DIRTY) && old(self)@.loaded {
                    old(self)@.calls.push(MainCall::CollectSaveState)
                } else {
                    old(self)@.calls
                },
                ..old(self)@
            }),
            final(self)@.save_state == (PluginSaveStateView {
                preset: final(self)@.save_state.preset,
                ..old(self)@.save_state
            }),
            !(old(self)@.pending.has(MARK_DIRTY) && old(self)@.loaded)
                ==> final(self)@.save_state.preset == old(self)@.save_state.preset,
            old(self)@.pending.has(MARK_DIRTY) && old(self)@.loaded ==> (
            final(self)@.save_state.preset matches Some(p) ==> p.0 == old(self)@.plugin_version),
    {
        if self.channel.host_request.state_marked_dirty_and_reset_dirty() {
            match &mut self.main_thread {
                Some(main_thread) => {
                    let preset: Option<PluginPreset> = match main_thread.collect_save_state() {
                        Ok(Some(bytes)) => Some(
                            PluginPreset { version: copy_text(&self.plugin_version), bytes },
                        ),
                        Ok(None) => None,
                        Err(_) => None,
                    };
                    self.calls = Ghost(self.calls@.push(MainCall::CollectSaveState));
                    self.save_state.preset = preset;
                },
                None => {},
            }
        }
        self.save_state.clone()
    }

    /// Why the plug-in cannot be activated now, if it cannot.
    pub open spec fn activation_refused(v: InstanceHostView) -> Option<ActivatePluginError> {
        if !v.loaded {
            Some(ActivatePluginError::NotLoaded)
        } else if !v.state.inactive() {
            Some(ActivatePluginError::AlreadyActive)
        } else if v.pending.has(RESTART) {
            Some(ActivatePluginError::RestartScheduled)
        } else {
            None
        }
    }

    /// Whether the plug-in can be activated now: it must be loaded, its
    /// lifecycle word must be on `Inactive` or on `InactiveWithError`, and it
    /// must not wait for a restart.
    pub fn can_activate(&self) -> (res: Result<(), ActivatePluginError>)
        ensures
            match res {
                Ok(_) => Self::activation_refused(self@) is None,
                Err(e) => Self::activation_refused(self@) == Some(e),
            },
    {
        if self.main_thread.is_none() {
            return Err(ActivatePluginError::NotLoaded);
        }
        if !self.channel.state.get().is_inactive() {
            return Err(ActivatePluginError::AlreadyActive);
        }
        if self.channel.host_request.load_requested().contains(RESTART) {
            return Err(ActivatePluginError::RestartScheduled);
        }
        Ok(())
    }

    /// What `schedule_deactivate` leaves behind.
    pub open spec fn after_schedule_deactivate(before: InstanceHostView) -> InstanceHostView {
        let noted = InstanceHostView {
            save_state: PluginSaveStateView { activation_requested: false, ..before.save_state },
            ..before
        };
        if before.state.active() {
            InstanceHostView {
                pending: RequestFlags { bits: before.pending.bits | DEACTIVATE },
                ..noted
            }
        } else {
            noted
        }
    }

    /// Notes that the plug-in is not to be activated when the project is
    /// loaded again, and asks the audio thread to let go of a plug-in that
    /// is active.
    pub fn schedule_deactivate(&mut self)
        ensures
            final(self).wf() == old(self).wf(),
            final(self)@ == Self::after_schedule_deactivate(old(self)@),
    {
        self.save_state.activation_requested = false;
        if !self.channel.state.get().is_active() {
            return ;
        }
        self.channel.host_request.request_deactivate();
    }

    /// Marks the plug-in for removal and schedules its deactivation.
    pub fn schedule_remove(&mut self)
        ensures
            final(self).wf() == old(self).wf(),
            final(self)@ == Self::after_schedule_deactivate(
                InstanceHostView { remove_requested: true, ..old(self)@ },
            ),
    {
        self.remove_requested = true;
        self.schedule_deactivate();
    }

    /// The audio ports of the plug-in: those of its last activation in this
    /// session, or else those of the saved state.
    pub fn audio_ports_ext(&self) -> (r: Option<&PluginAudioPortsExt>)
        ensures
            (match r {
                Some(p) => Some(p@),
                None => None,
            }) == (if self@.audio_ports is Some {
                self@.audio_ports
            } else {
                self@.save_state.backup_audio_ports
            }),
    {
        if self.audio_ports.is_some() {
            self.audio_ports.as_ref()
        } else {
            self.save_state.backup_audio_ports.as_ref()
        }
    }

    /// The note ports of the plug-in: those of its last activation in this
    /// session, or else those of the saved state.
    pub fn note_ports_ext(&self) -> (r: Option<&PluginNotePortsExt>)
        ensures
            (match r {
                Some(p) => Some(p@),
                None => None,
            }) == (if self@.note_ports is Some {
                self@.note_ports
            } else {
                self@.save_state.backup_note_ports
            }),
    {
        if self.note_ports.is_some() {
            self.note_ports.as_ref()
        } else {
            self.save_state.backup_note_ports.as_ref()
        }
    }

    /// Whether the plug-in sends automation to other plug-ins. A plug-in
    /// that is not loaded does not; of one that is loaded, the answer is the
    /// plug-in's.
    pub fn has_automation_out_port(&self) -> (r: bool)
        ensures
            !self@.loaded ==> !r,
    {
        match &self.main_thread {
            Some(main_thread) => main_thread.has_automation_out_port(),
            None => false,
        }
    }

    /// Tells the plug-in, if there is one, of a new tempo. The host keeps
    /// nothing of it.
    pub fn update_tempo_map(&mut self, new_tempo_map: &crate::plugin::TempoMap)
        ensures
            final(self).wf() == old(self).wf(),
            final(self)@ == (if old(self)@.loaded {
                InstanceHostView {
                    calls: old(self)@.calls.push(
                        MainCall::UpdateTempoMap { tempo_map: *new_tempo_map },
                    ),
                    ..old(self)@
                }
            } else {
                old(self)@
            }),
    {
        match &mut self.main_thread {
            Some(main_thread) => {
                main_thread.update_tempo_map(new_tempo_map);
                self.calls = Ghost(
                    self.calls@.push(MainCall::UpdateTempoMap { tempo_map: *new_tempo_map }),
                );
            },
            None => {},
        }
    }

    /// The name of the plug-in instance.
    pub fn id(&self) -> (id: PluginInstanceID)
        ensures
            id == self@.id,
    {
        self.id
    }

    /// The lifecycle word.
    pub fn state(&self) -> (s: PluginState)
        ensures
            s == self@.state,
    {
        self.channel.state.get()
    }

    /// What the plug-in asks of the host goes through here.
    pub fn request(&mut self, flags: u32)
        ensures
            final(self).wf() == old(self).wf(),
            final(self)@ == (InstanceHostView {
                pending: RequestFlags { bits: old(self)@.pending.bits | flags },
                ..old(self)@
            }),
    {
        self.channel.host_request.request(flags);
    }

    /// Whether `after` holds the ports `audio` and `note` as those of the
    /// plug-in and as the backup of the saved state, with the channels
    /// counted, and is `before` in everything else but the lifecycle word,
    /// the flags, the queues, the audio-thread side and the calls.
    pub open spec fn ports_adopted(
        before: InstanceHostView,
        after: InstanceHostView,
        audio: (Seq<AudioPortInfo>, Seq<AudioPortInfo>),
        note: (Seq<NotePortInfo>, Seq<NotePortInfo>),
    ) -> bool {
        after == (InstanceHostView {
            audio_ports: Some(audio),
            note_ports: Some(note),
            num_audio_in_channels: capped(channel_sum(audio.0)),
            num_audio_out_channels: capped(channel_sum(audio.1)),
            save_state: PluginSaveStateView {
                activation_requested: true,
                backup_audio_ports: Some(audio),
                backup_note_ports: Some(note),
                ..before.save_state
            },
            state: after.state,
            pending: after.pending,
            queues: after.queues,
            has_processor: after.has_processor,
            calls: after.calls,
            ..before
        })
    }

    /// Whether `after` is what an activation that failed with `e` makes of
    /// `before`. The plug-in is asked for its audio ports, its note ports and
    /// its parameters in this order, and what it has answered before the
    /// failure stays adopted.
    pub open spec fn activation_failed(
        before: InstanceHostView,
        after: InstanceHostView,
        e: ActivatePluginError,
    ) -> bool {
        let noted = InstanceHostView {
            save_state: PluginSaveStateView { activation_requested: true, ..before.save_state },
            ..before
        };
        match e {
            ActivatePluginError::PluginFailedToGetAudioPortsExt(_) => after == (InstanceHostView {
                state: PluginState::InactiveWithError,
                audio_ports: None,
                ..noted
            }),
            ActivatePluginError::PluginFailedToGetNotePortsExt(_) => {
                &&& after.save_state.backup_audio_ports matches Some(audio)
                &&& after == (InstanceHostView {
                    state: PluginState::InactiveWithError,
                    note_ports: None,
                    num_audio_in_channels: capped(channel_sum(audio.0)),
                    num_audio_out_channels: capped(channel_sum(audio.1)),
                    save_state: PluginSaveStateView {
                        backup_audio_ports: Some(audio),
                        ..noted.save_state
                    },
                    ..noted
                })
            },
            ActivatePluginError::PluginFailedToGetParamInfo(_)
            | ActivatePluginError::PluginFailedToGetParamValue(_)
            | ActivatePluginError::PluginSpecific(_) => {
                &&& after.audio_ports matches Some(audio)
                &&& after.note_ports matches Some(note)
                &&& Self::ports_adopted(before, after, audio, note)
                &&& after.state == PluginState::InactiveWithError
                &&& after.pending == before.pending
                &&& after.queues == before.queues
                &&& after.has_processor == before.has_processor
                &&& after.calls == before.calls
            },
            _ => false,
        }
    }

    /// Whether `after`, the handle and the values are what a successful
    /// activation makes of `before`.
    pub open spec fn activation_applied(
        before: InstanceHostView,
        after: InstanceHostView,
        handle: PluginHandle<M::Handle>,
        values: Map<u32, ParamValue>,
        call: MainCall,
    ) -> bool {
        &&& Self::ports_adopted(before, after, handle.audio_ports@, handle.note_ports@)
        &&& after.state == PluginState::ActiveAndSleeping
        &&& after.pending.bits == (before.pending.bits & !DEACTIVATE) | PROCESS
        &&& after.queues == (if handle.params.params@ == Map::<u32, ParamInfo>::empty() {
            None
        } else {
            Some(empty_queues())
        })
        &&& after.has_processor
        &&& after.calls == before.calls.push(call)
        &&& handle.params.params@.dom() == values.dom()
    }

    fn fail(&mut self)
        ensures
            final(self).wf() == old(self).wf(),
            final(self)@ == (InstanceHostView {
                state: PluginState::InactiveWithError,
                ..old(self)@
            }),
    {
        self.channel.state.set(PluginState::InactiveWithError);
    }

    /// Asks the plug-in for its audio ports and adopts them.
    fn adopt_audio_ports(&mut self) -> (res: Result<PluginAudioPortsExt, ActivatePluginError>)
        requires
            old(self)@.loaded,
        ensures
            final(self).wf() == old(self).wf(),
            match res {
                Ok(p) => final(self)@ == (InstanceHostView {
                    num_audio_in_channels: capped(channel_sum(p@.0)),
                    num_audio_out_channels: capped(channel_sum(p@.1)),
                    save_state: PluginSaveStateView {
                        backup_audio_ports: Some(p@),
                        ..old(self)@.save_state
                    },
                    ..old(self)@
                }),
                Err(e) => e is PluginFailedToGetAudioPortsExt && final(self)@ == (InstanceHostView {
                    state: PluginState::InactiveWithError,
                    audio_ports: None,
                    ..old(self)@
                }),
            },
    {
        let answer = match &mut self.main_thread {
            Some(plugin) => plugin.audio_ports_ext(),
            None => Err(String::from_str("")),
        };
        match answer {
            Ok(audio_ports) => {
                self.num_audio_in_channels = audio_ports.total_in_channels();
                self.num_audio_out_channels = audio_ports.total_out_channels();
                self.save_state.backup_audio_ports = Some(audio_ports.clone());
                Ok(audio_ports)
            },
            Err(e) => {
                self.fail();
                self.audio_ports = None;
                Err(ActivatePluginError::PluginFailedToGetAudioPortsExt(e))
            },
        }
    }

    /// Asks the plug-in for its note ports and adopts them.
    fn adopt_note_ports(&mut self) -> (res: Result<PluginNotePortsExt, ActivatePluginError>)
        requires
            old(self)@.loaded,
        ensures
            final(self).wf() == old(self).wf(),
            match res {
                Ok(p) => final(self)@ == (InstanceHostView {
                    save_state: PluginSaveStateView {
                        backup_note_ports: Some(p@),
                        ..old(self)@.save_state
                    },
                    ..old(self)@
                }),
                Err(e) => e is PluginFailedToGetNotePortsExt && final(self)@ == (InstanceHostView {
                    state: PluginState::InactiveWithError,
                    note_ports: None,
                    ..old(self)@
                }),
            },
    {
        let answer = match &mut self.main_thread {
            Some(plugin) => plugin.note_ports_ext(),
            None => Err(String::from_str("")),
        };
        match answer {
            Ok(note_ports) => {
                self.save_state.backup_note_ports = Some(note_ports.clone());
                Ok(note_ports)
            },
            Err(e) => {
                self.fail();
                self.note_ports = None;
                Err(ActivatePluginError::PluginFailedToGetNotePortsExt(e))
            },
        }
    }

    /// Asks the plug-in for its parameters and their values, and tells it to
    /// activate.
    fn consult(&mut self, sample_rate: SampleRate, min_frames: u32, max_frames: u32) -> (res: Result<
        (
            Vec<(ParamInfo, ParamValue)>,
            FnvHashMap<u32, ParamInfo>,
            bool,
            crate::plugin::PluginActivatedInfo<M::AudioThread, M::Handle>,
        ),
        ActivatePluginError,
    >)
        requires
            old(self)@.loaded,
        ensures
            final(self).wf() == old(self).wf(),
            final(self)@ == old(self)@,
            match res {
                Ok((values, params, _, _)) => params@ == params_of(values@),
                Err(e) => e is PluginFailedToGetParamInfo || e is PluginFailedToGetParamValue
                    || e is PluginSpecific,
            },
    {
        match &mut self.main_thread {
            Some(plugin) => {
                let num_params: usize = plugin.num_params() as usize;
                let (params, values) = match crate::main_thread::read_params(plugin, num_params) {
                    Ok(read) => read,
                    Err(e) => {
                        return Err(e);
                    },
                };
                match plugin.activate(sample_rate, min_frames, max_frames) {
                    Ok(info) => {
                        let automation_out: bool = plugin.has_automation_out_port();
                        Ok((values, params, automation_out, info))
                    },
                    Err(e) => Err(ActivatePluginError::PluginSpecific(e)),
                }
            },
            None => Err(ActivatePluginError::PluginSpecific(String::from_str(""))),
        }
    }

    /// Activates the plug-in.
    ///
    /// A plug-in that is not loaded, whose lifecycle word is not on
    /// `Inactive` or on `InactiveWithError`, or that waits for a restart is
    /// refused, and nothing changes. Any other plug-in is to be activated
    /// when the project is loaded again, whatever comes of this activation.
    /// It is asked for its audio ports, its note ports and its parameters
    /// with their values, and told to activate. The first failure ends the
    /// activation with its error and the lifecycle word on
    /// `InactiveWithError`. Without a failure `DEACTIVATE` is taken away,
    /// `PROCESS` is set, the lifecycle word is on `ActiveAndSleeping`, a
    /// plug-in with parameters has three new queues, and the audio-thread
    /// side exists.
    pub fn activate(&mut self, sample_rate: SampleRate, min_frames: u32, max_frames: u32) -> (res:
        Result<(PluginHandle<M::Handle>, FnvHashMap<u32, ParamValue>), ActivatePluginError>)
        requires
            old(self).wf(),
        ensures
            final(self).wf(),
            match Self::activation_refused(old(self)@) {
                Some(refusal) => res is Err && res->Err_0 == refusal && final(self)@ == old(self)@,
                None => match res {
                    Ok((handle, values)) => Self::activation_applied(
                        old(self)@,
                        final(self)@,
                        handle,
                        values@,
                        MainCall::Activate { sample_rate, min_frames, max_frames },
                    ),
                    Err(e) => Self::activation_failed(old(self)@, final(self)@, e),
                },
            },
    {
        match self.can_activate() {
            Ok(_) => {},
            Err(e) => {
                return Err(e);
            },
        }
        self.save_state.activation_requested = true;
        let audio_ports = match self.adopt_audio_ports() {
            Ok(p) => p,
            Err(e) => {
                return Err(e);
            },
        };
        let note_ports = match self.adopt_note_ports() {
            Ok(p) => p,
            Err(e) => {
                return Err(e);
            },
        };
        self.audio_ports = Some(audio_ports.clone());
        self.note_ports = Some(note_ports.clone());
        match self.consult(sample_rate, min_frames, max_frames) {
            Ok((values, params, has_automation_out_port, info)) => {
                let param_values = values_map(&values);
                let num_params: usize = values.len();
                proof {
                    lemma_params_empty(values@);
                    lemma_same_keys(values@);
                }
                self.channel.host_request.reset_deactivate();
                self.channel.host_request.request_process();
                self.channel.state.set(PluginState::ActiveAndSleeping);
                self.channel.param_queues = if num_params > 0 {
                    Some(ParamQueues::new(num_params))
                } else {
                    None
                };
                self.audio_thread = Some(
                    PluginInstanceHostAudioThread::new(self.id, info.processor, num_params),
                );
                self.calls = Ghost(
                    self.calls@.push(MainCall::Activate { sample_rate, min_frames, max_frames }),
                );
                Ok(
                    (
                        PluginHandle {
                            audio_ports,
                            internal: info.internal_handle,
                            note_ports,
                            params: PluginParamsExt { params },
                            has_automation_out_port,
                        },
                        param_values,
                    ),
                )
            },
            Err(e) => {
                self.fail();
                Err(e)
            },
        }
    }

    /// The first part of an idle tick of a plug-in that is loaded: the flags
    /// are read, `CALLBACK` is taken away, and the plug-in gets its call.
    pub open spec fn polled(v: InstanceHostView) -> InstanceHostView {
        InstanceHostView {
            pending: RequestFlags { bits: v.pending.bits & !CALLBACK },
            calls: if v.pending.has(CALLBACK) {
                v.calls.push(MainCall::OnMainThread)
            } else {
                v.calls
            },
            ..v
        }
    }

    /// What the host holds once the plug-in has been deactivated.
    pub open spec fn deactivated(v: InstanceHostView) -> InstanceHostView {
        InstanceHostView {
            state: PluginState::Inactive,
            pending: RequestFlags { bits: v.pending.bits & !DEACTIVATE },
            queues: None,
            has_processor: false,
            calls: v.calls.push(MainCall::Deactivate),
            ..v
        }
    }

    /// The reports that an idle tick takes.
    pub open spec fn reports_taken(v: InstanceHostView) -> ReportsTaken {
        (ReportsTaken { gesturing: v.gesturing, dirty: false, modified: Seq::empty() }).take_all(
            waiting_reports(v.queues),
        )
    }

    /// What the host holds once an idle tick without a deactivation is over:
    /// a restart that the plug-in has asked for is passed on to the audio
    /// thread as `DEACTIVATE`, unless that waits already or the plug-in is to
    /// be removed, and the reports of the audio thread are taken.
    pub open spec fn idled(v: InstanceHostView, flags: RequestFlags) -> InstanceHostView {
        InstanceHostView {
            pending: if !flags.has(DEACTIVATE) && flags.has(RESTART) && !v.remove_requested {
                RequestFlags { bits: v.pending.bits | DEACTIVATE }
            } else {
                v.pending
            },
            gesturing: Self::reports_taken(v).gesturing,
            queues: match v.queues {
                Some(q) => Some(QueuesView { to_main_value: q.to_main_value.after_consume(), ..q }),
                None => None,
            },
            ..v
        }
    }

    /// Whether `after`, `res` and `modified` are what an idle tick makes of
    /// `before`.
    pub open spec fn idle_settled(
        before: InstanceHostView,
        after: InstanceHostView,
        res: OnIdleResult<M::Handle>,
        modified: Seq<ParamModifiedInfo>,
        call: MainCall,
    ) -> bool {
        if !before.loaded {
            &&& after == before
            &&& modified == Seq::<ParamModifiedInfo>::empty()
            &&& if before.remove_requested {
                res is PluginReadyToRemove
            } else {
                res is Nothing
            }
        } else if before.pending.has(DEACTIVATE) && before.state is DroppedAndReadyToDeactivate {
            let down = Self::deactivated(Self::polled(before));
            let ready = InstanceHostView {
                pending: RequestFlags { bits: down.pending.bits & !RESTART },
                ..down
            };
            &&& modified == Seq::<ParamModifiedInfo>::empty()
            &&& if before.remove_requested {
                res is PluginReadyToRemove && after == down
            } else if down.pending.has(RESTART) {
                match res {
                    OnIdleResult::PluginActivated(handle, values) => Self::activation_applied(
                        ready,
                        after,
                        handle,
                        values@,
                        call,
                    ),
                    OnIdleResult::PluginFailedToActivate(e) => Self::activation_failed(
                        ready,
                        after,
                        e,
                    ),
                    _ => false,
                }
            } else {
                res is PluginDeactivated && after == ready
            }
        } else {
            &&& res is Nothing
            &&& after == Self::idled(Self::polled(before), before.pending)
            &&& modified == Self::reports_taken(before).modified
        }
    }

    fn poll_requests(&mut self) -> (flags: RequestFlags)
        requires
            old(self)@.loaded,
        ensures
            final(self).wf() == old(self).wf(),
            flags == old(self)@.pending,
            final(self)@ == Self::polled(old(self)@),
    {
        let flags = self.channel.host_request.load_requests_and_reset_callback();
        if flags.contains(CALLBACK) {
            match &mut self.main_thread {
                Some(plugin) => {
                    plugin.on_main_thread();
                },
                None => {},
            }
            self.calls = Ghost(self.calls@.push(MainCall::OnMainThread));
        }
        flags
    }

    fn deactivate(&mut self)
        requires
            old(self)@.loaded,
        ensures
            final(self).wf(),
            final(self)@ == Self::deactivated(old(self)@),
    {
        match &mut self.main_thread {
            Some(plugin) => {
                plugin.deactivate();
            },
            None => {},
        }
        self.calls = Ghost(self.calls@.push(MainCall::Deactivate));
        self.channel.state.set(PluginState::Inactive);
        self.channel.host_request.reset_deactivate();
        self.channel.param_queues = None;
        self.audio_thread = None;
    }

    fn take_reports(&mut self) -> (modified: ModifiedParams)
        requires
            old(self).wf(),
        ensures
            final(self).wf(),
            modified@ == Self::reports_taken(old(self)@).modified,
            final(self)@ == (InstanceHostView {
                gesturing: Self::reports_taken(old(self)@).gesturing,
                queues: match old(self)@.queues {
                    Some(q) => Some(
                        QueuesView { to_main_value: q.to_main_value.after_consume(), ..q },
                    ),
                    None => None,
                },
                ..old(self)@
            }),
    {
        broadcast use vstd::std_specs::hash::group_hash_axioms;

        let mut modified = ModifiedParams::new();
        let reports: Vec<(ParamID, AudioToMainParamValue)> = match &mut self.channel.param_queues {
            Some(queues) => queues.to_main_value.consume(),
            None => Vec::new(),
        };
        assert(reports@ == waiting_reports(old(self)@.queues));
        let ghost start = ReportsTaken {
            gesturing: old(self)@.gesturing,
            dirty: false,
            modified: Seq::empty(),
        };
        let ghost mid = self@;
        let ghost mut dirty = false;
        let mut i: usize = 0;
        assert(reports@.take(0) =~= Seq::<(ParamID, AudioToMainParamValue)>::empty());
        while i < reports.len()
            invariant
                i <= reports@.len(),
                self.wf(),
                self@ == (InstanceHostView { gesturing: self@.gesturing, ..mid }),
                (ReportsTaken { gesturing: self@.gesturing, dirty, modified: modified@ })
                    == start.take_all(reports@.take(i as int)),
            decreases reports@.len() - i,
        {
            proof {
                assert(reports@.take(i as int + 1).drop_last() =~= reports@.take(i as int));
            }
            let (param_id, new_value) = reports[i];
            let is_gesturing: bool = match new_value.gesture {
                Some(gesture) => {
                    let _ = map_insert(&mut self.gesturing_params, param_id.0, gesture.is_begin);
                    proof {
                        dirty = dirty || !gesture.is_begin;
                    }
                    gesture.is_begin
                },
                None => {
                    proof {
                        dirty = true;
                    }
                    match map_get(&self.gesturing_params, &param_id.0) {
                        Some(g) => *g,
                        None => false,
                    }
                },
            };
            modified.push(ParamModifiedInfo { param_id, new_value: new_value.value, is_gesturing });
            i = i + 1;
        }
        assert(reports@.take(reports@.len() as int) =~= reports@);
        modified
    }

    /// One idle tick.
    ///
    /// Without a plug-in nothing happens; the answer says whether the
    /// instance is ready to be removed. With one: the flags are read and
    /// `CALLBACK` is followed up. Where `DEACTIVATE` waits and the audio
    /// thread has let go of the plug-in, the plug-in is deactivated and its
    /// queues are gone; it is then ready to be removed, or activated again if
    /// it has asked for a restart, or left deactivated. Otherwise a restart
    /// that the plug-in has asked for is passed on to the audio thread, and
    /// the reports of the audio thread are taken.
    pub fn on_idle(&mut self, sample_rate: SampleRate, min_frames: u32, max_frames: u32) -> (res: (
        OnIdleResult<M::Handle>,
        ModifiedParams,
    ))
        requires
            old(self).wf(),
        ensures
            final(self).wf(),
            Self::idle_settled(
                old(self)@,
                final(self)@,
                res.0,
                res.1@,
                MainCall::Activate { sample_rate, min_frames, max_frames },
            ),
    {
        let modified_params = ModifiedParams::new();
        if self.main_thread.is_none() {
            if self.remove_requested {
                return (OnIdleResult::PluginReadyToRemove, modified_params);
            } else {
                return (OnIdleResult::Nothing, modified_params);
            }
        }
        let state: PluginState = self.channel.state.get();
        let request_flags = self.poll_requests();
        proof {
            assert(CALLBACK & DEACTIVATE == 0 && CALLBACK & RESTART == 0) by (bit_vector);
            crate::host_request::lemma_other_flags_keep(old(self)@.pending.bits, CALLBACK, DEACTIVATE);
            crate::host_request::lemma_other_flags_keep(old(self)@.pending.bits, CALLBACK, RESTART);
        }
        if request_flags.contains(DEACTIVATE) {
            if state == PluginState::DroppedAndReadyToDeactivate {
                self.deactivate();
                if !self.remove_requested {
                    let ghost down = self@;
                    if self.channel.host_request.reset_restart() {
                        proof {
                            crate::host_request::lemma_reset_is_clear(down.pending.bits, RESTART);
                        }
                        match self.activate(sample_rate, min_frames, max_frames) {
                            Ok((ui_handle, param_values)) => {
                                return (
                                    OnIdleResult::PluginActivated(ui_handle, param_values),
                                    modified_params,
                                );
                            },
                            Err(e) => {
                                return (OnIdleResult::PluginFailedToActivate(e), modified_params);
                            },
                        }
                    }
                    return (OnIdleResult::PluginDeactivated, modified_params);
                } else {
                    return (OnIdleResult::PluginReadyToRemove, modified_params);
                }
            }
        } else if request_flags.contains(RESTART) && !self.remove_requested {
            self.channel.host_request.request_deactivate();
        }
        let modified_params = self.take_reports();
        (OnIdleResult::Nothing, modified_params)
    }

    /// One block on the audio thread, for a plug-in whose audio-thread side
    /// exists; nothing happens otherwise.
    pub fn process(
        &mut self,
        proc_info: &crate::plugin::ProcInfo,
        buffers: &mut crate::buffers::ProcBuffers,
        event_in_buffers: &mut Option<Vec<Vec<crate::events::ProcEvent>>>,
        event_out_buffer: &mut Option<Vec<crate::events::ProcEvent>>,
        note_in_buffers: &mut Vec<Option<Vec<Vec<crate::events::ProcEvent>>>>,
        note_out_buffers: &mut Vec<Option<Vec<crate::events::ProcEvent>>>,
    ) -> (outcome: Option<crate::audio_thread::BlockOutcome>)
        requires
            old(self).wf(),
        ensures
            final(self).wf(),
            outcome is Some == old(self)@.has_processor,
            outcome is None ==> final(self)@ == old(self)@ && *final(buffers) == *old(buffers)
                && *final(event_in_buffers) == *old(event_in_buffers) && *final(event_out_buffer)
                == *old(event_out_buffer) && *final(note_in_buffers) == *old(note_in_buffers)
                && *final(note_out_buffers) == *old(note_out_buffers),
            outcome matches Some(o) ==> {
                &&& old(self).audio_side() matches Some(audio_before)
                &&& final(self).audio_side() matches Some(audio_after)
                &&& PluginInstanceHostAudioThread::<M::AudioThread>::block_settled(
                    &audio_before,
                    &audio_after,
                    old(self).shared(),
                    final(self).shared(),
                    *proc_info,
                    *old(buffers),
                    *final(buffers),
                    *old(event_in_buffers),
                    *final(event_in_buffers),
                    *old(event_out_buffer),
                    *final(event_out_buffer),
                    old(note_in_buffers)@,
                    final(note_in_buffers)@,
                    old(note_out_buffers)@,
                    final(note_out_buffers)@,
                    o,
                )
                &&& final(self)@ == (InstanceHostView {
                    state: crate::audio_thread::end_state(old(self)@.state, o),
                    pending: final(self)@.pending,
                    queues: final(self)@.queues,
                    ..old(self)@
                })
            },
    {
        match &mut self.audio_thread {
            Some(processor) => {
                let o = processor.process(
                    &mut self.channel,
                    proc_info,
                    buffers,
                    event_in_buffers,
                    event_out_buffer,
                    note_in_buffers,
                    note_out_buffers,
                );
                Some(o)
            },
            None => None,
        }
    }

    /// The audio-thread side of the plug-in, while it exists.
    pub closed spec fn audio_side(&self) -> Option<PluginInstanceHostAudioThread<M::AudioThread>> {
        self.audio_thread
    }

    /// What the two sides of the plug-in share.
    pub closed spec fn shared(&self) -> PluginHostChannel {
        self.channel
    }

    /// What the audio thread does when a schedule without the plug-in has
    /// taken the place of the one with it: the audio-thread side stops the
    /// plug-in if it is processing, says that the control thread may
    /// deactivate, and is gone.
    pub fn drop_processor(&mut self)
        requires
            old(self).wf(),
        ensures
            final(self).wf(),
            final(self)@ == (if old(self)@.has_processor {
                InstanceHostView {
                    state: PluginState::DroppedAndReadyToDeactivate,
                    has_processor: false,
                    ..old(self)@
                }
            } else {
                old(self)@
            }),
    {
        match &mut self.audio_thread {
            Some(processor) => {
                processor.drop_on_audio_thread(&mut self.channel);
            },
            None => {},
        }
        self.audio_thread = None;
    }
}

/// The values of a list of parameters, each under the id of its parameter, a
/// later one in place of an earlier one with the same id.
pub open spec fn values_of(values: Seq<(ParamInfo, ParamValue)>) -> Map<u32, ParamValue>
    decreases values.len(),
{
    if values.len() == 0 {
        Map::empty()
    } else {
        values_of(values.drop_last()).insert(values.last().0.stable_id.0, values.last().1)
    }
}

/// A list of parameters makes an empty registry only if it is empty.
pub proof fn lemma_params_empty(values: Seq<(ParamInfo, ParamValue)>)
    ensures
        (params_of(values) == Map::<u32, ParamInfo>::empty()) <==> values.len() == 0,
{
    if values.len() > 0 {
        assert(params_of(values).contains_key(values.last().0.stable_id.0));
    }
}

/// The registry and the values of a list of parameters have the same keys.
pub proof fn lemma_same_keys(values: Seq<(ParamInfo, ParamValue)>)
    ensures
        params_of(values).dom() == values_of(values).dom(),
    decreases values.len(),
{
    if values.len() > 0 {
        lemma_same_keys(values.drop_last());
        assert(params_of(values).dom() =~= values_of(values).dom());
    }
}

/// The values of a list of parameters as a map.
pub fn values_map(values: &Vec<(ParamInfo, ParamValue)>) -> (map: FnvHashMap<u32, ParamValue>)
    ensures
        map@ == values_of(values@),
{
    broadcast use vstd::std_specs::hash::group_hash_axioms;

    let mut map: FnvHashMap<u32, ParamValue> = new_map();
    let mut i: usize = 0;
    assert(values@.take(0) =~= Seq::<(ParamInfo, ParamValue)>::empty());
    while i < values.len()
        invariant
            i <= values@.len(),
            map@ == values_of(values@.take(i as int)),
        decreases values@.len() - i,
    {
        proof {
            assert(values@.take(i as int + 1).drop_last() =~= values@.take(i as int));
        }
        let (info, value) = values[i];
        let _ = map_insert(&mut map, info.stable_id.0, value);
        i = i + 1;
    }
    assert(values@.take(values@.len() as int) =~= values@);
    map
}

} // verus!
