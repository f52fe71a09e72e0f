use dropseed::audio_thread::BlockOutcome;
use dropseed::buffers::ProcBuffers;
use dropseed::channel::PluginHostChannel;
use dropseed::error::ActivatePluginError;
use dropseed::events::{ParamEvent, ParamGestureEvent, ProcEvent};
use dropseed::host_request::{GuiSize, CALLBACK, DEACTIVATE, MARK_DIRTY, RESTART};
use dropseed::params::{
    ParamID, ParamInfo, ParamInfoFlags, ParamModifiedInfo, ParamValue, IS_READONLY,
};
use dropseed::plugin::{
    AudioPortInfo, GuiResizeHints, NotePortInfo, PluginActivatedInfo, PluginAudioPortsExt,
    PluginAudioThread, PluginInstanceID, PluginInstanceType, PluginMainThread, PluginNotePortsExt,
    ProcInfo, ProcessStatus, SampleRate, TransportInfo,
};
use dropseed::plugin_host::{OnIdleResult, PluginInstanceHost, PluginParamsExt};
use dropseed::plugin_key::{PluginFormat, ScannedPluginKey};
use dropseed::plugin_state::PluginState;
use dropseed::save_state::{PluginPreset, PluginSaveState};
use std::cell::RefCell;
use std::rc::Rc;

#[derive(Default)]
struct Seen {
    calls: Vec<String>,
    in_events: Vec<ProcEvent>,
}

struct Audio {
    seen: Rc<RefCell<Seen>>,
    emit: Vec<ProcEvent>,
}

impl PluginAudioThread for Audio {
    fn start_processing(&mut self) -> Result<(), String> {
        self.seen.borrow_mut().calls.push("start".into());
        Ok(())
    }

    fn stop_processing(&mut self) {
        self.seen.borrow_mut().calls.push("stop".into());
    }

    fn process(
        &mut self,
        _info: &ProcInfo,
        _buffers: &mut ProcBuffers,
        in_events: &Vec<ProcEvent>,
        out_events: &mut Vec<ProcEvent>,
    ) -> ProcessStatus {
        let mut seen = self.seen.borrow_mut();
        seen.calls.push("process".into());
        seen.in_events = in_events.clone();
        out_events.extend(self.emit.iter().copied());
        ProcessStatus::Continue
    }

    fn param_flush(&mut self, _in_events: &Vec<ProcEvent>, _out_events: &mut Vec<ProcEvent>) {
        self.seen.borrow_mut().calls.push("flush".into());
    }
}

#[derive(Clone, Copy, PartialEq)]
enum Fail {
    Nothing,
    AudioPorts,
    NotePorts,
    ParamInfo,
    ParamValue,
    Activate,
}

struct Main {
    seen: Rc<RefCell<Seen>>,
    fail: Rc<RefCell<Fail>>,
    num_params: u32,
    emit: Vec<ProcEvent>,
    saved: Result<Option<Vec<u8>>, String>,
    automation_out: bool,
}

impl PluginMainThread for Main {
    type AudioThread = Audio;
    type Handle = &'static str;

    fn init(&mut self, _preset: Option<Vec<u8>>) -> Result<(), String> {
        Ok(())
    }

    fn load_save_state(&mut self, state: Vec<u8>) -> Result<(), String> {
        self.seen.borrow_mut().calls.push(format!("load {:?}", state));
        Err("never mind".into())
    }

    fn collect_save_state(&mut self) -> Result<Option<Vec<u8>>, String> {
        self.seen.borrow_mut().calls.push("collect".into());
        self.saved.clone()
    }

    fn audio_ports_ext(&mut self) -> Result<PluginAudioPortsExt, String> {
        if *self.fail.borrow() == Fail::AudioPorts {
            return Err("a".into());
        }
        Ok(PluginAudioPortsExt {
            inputs: vec![AudioPortInfo { stable_id: 0, channels: 2 }],
            outputs: vec![AudioPortInfo { stable_id: 1, channels: 4 }],
        })
    }

    fn note_ports_ext(&mut self) -> Result<PluginNotePortsExt, String> {
        if *self.fail.borrow() == Fail::NotePorts {
            return Err("n".into());
        }
        Ok(PluginNotePortsExt {
            inputs: vec![],
            outputs: vec![NotePortInfo { stable_id: 7, supported_dialects: 1, preferred_dialect: 1 }],
        })
    }

    fn num_params(&mut self) -> u32 {
        self.num_params
    }

    fn param_info(&mut self, index: usize) -> Result<ParamInfo, ()> {
        if *self.fail.borrow() == Fail::ParamInfo {
            return Err(());
        }
        Ok(ParamInfo {
            stable_id: ParamID(100 + index as u32),
            flags: ParamInfoFlags { bits: if index == 1 { IS_READONLY } else { 0 } },
            min_value: ParamValue(0),
            max_value: ParamValue(10),
            default_value: ParamValue(1),
        })
    }

    fn param_value(&self, id: ParamID) -> Result<ParamValue, ()> {
        if *self.fail.borrow() == Fail::ParamValue {
            return Err(());
        }
        Ok(ParamValue(id.0 as i64 - 100))
    }

    fn param_value_to_text(&self, _: ParamID, _: ParamValue, _: &mut String) -> Result<(), String> {
        Ok(())
    }

    fn param_text_to_value(&self, _: ParamID, _: &str) -> Option<ParamValue> {
        None
    }

    fn activate(
        &mut self,
        _sample_rate: SampleRate,
        _min_frames: u32,
        _max_frames: u32,
    ) -> Result<PluginActivatedInfo<Audio, &'static str>, String> {
        self.seen.borrow_mut().calls.push("activate".into());
        if *self.fail.borrow() == Fail::Activate {
            return Err("x".into());
        }
        Ok(PluginActivatedInfo {
            processor: Audio { seen: self.seen.clone(), emit: self.emit.clone() },
            internal_handle: Some("handle"),
        })
    }

    fn deactivate(&mut self) {
        self.seen.borrow_mut().calls.push("deactivate".into());
    }

    fn on_main_thread(&mut self) {
        self.seen.borrow_mut().calls.push("on_main_thread".into());
    }

    fn latency(&self) -> i64 {
        0
    }

    fn has_automation_out_port(&self) -> bool {
        self.automation_out
    }

    fn update_tempo_map(&mut self, tempo_map: &dropseed::plugin::TempoMap) {
        self.seen.borrow_mut().calls.push(format!("tempo {}", tempo_map.beats_per_minute.0));
    }

    fn supports_gui(&self, floating: bool) -> bool {
        floating
    }

    fn create_new_floating_gui(&mut self, suggested_title: Option<&str>) -> Result<(), String> {
        self.seen.borrow_mut().calls.push(format!("floating {:?}", suggested_title));
        Ok(())
    }

    fn create_new_embedded_gui(
        &mut self,
        _scale: Option<ParamValue>,
        size: Option<GuiSize>,
        _parent_window: raw_window_handle::RawWindowHandle,
    ) -> Result<dropseed::plugin::EmbeddedGuiInfo, String> {
        match size {
            Some(size) => Ok(dropseed::plugin::EmbeddedGuiInfo { size, resizable: true }),
            None => Err("no size".into()),
        }
    }

    fn adjust_gui_size(&mut self, size: GuiSize) -> GuiSize {
        GuiSize { width: size.width / 2 * 2, height: size.height }
    }

    fn set_gui_scale(&mut self, scale: ParamValue) -> bool {
        scale.0 > 0
    }

    fn show_gui(&mut self) -> Result<(), String> {
        self.seen.borrow_mut().calls.push("show".into());
        Ok(())
    }

    fn hide_gui(&mut self) -> Result<(), String> {
        Err("cannot hide".into())
    }

    fn destroy_gui(&mut self) {}

    fn gui_resize_hints(&self) -> Option<GuiResizeHints> {
        None
    }

    fn set_gui_size(&mut self, size: GuiSize) -> Result<GuiSize, String> {
        Ok(size)
    }
}

const ID: PluginInstanceID = PluginInstanceID { node_ref: 8, format: PluginInstanceType::Internal };
const RATE: SampleRate = SampleRate(44100);

fn save_state() -> PluginSaveState {
    PluginSaveState {
        key: ScannedPluginKey { rdn: "org.example.synth".into(), format: PluginFormat::Internal },
        activation_requested: false,
        backup_audio_ports: None,
        backup_note_ports: None,
        preset: None,
    }
}

struct Rig {
    seen: Rc<RefCell<Seen>>,
    fail: Rc<RefCell<Fail>>,
    host: PluginInstanceHost<Main>,
}

fn rig_with(num_params: u32, emit: Vec<ProcEvent>, save_state: PluginSaveState) -> Rig {
    let seen = Rc::new(RefCell::new(Seen::default()));
    let fail = Rc::new(RefCell::new(Fail::Nothing));
    let main = Main {
        seen: seen.clone(),
        fail: fail.clone(),
        num_params,
        emit,
        saved: Ok(Some(vec![5, 5])),
        automation_out: true,
    };
    let host = PluginInstanceHost::new(ID, save_state, Some(main), Some("1.2.0".to_string()));
    Rig { seen, fail, host }
}

fn rig() -> Rig {
    rig_with(2, vec![], save_state())
}

impl Rig {
    fn block(&mut self) -> Option<BlockOutcome> {
        let mut buffers = ProcBuffers { audio_in: vec![], audio_out: vec![] };
        self.host.process(
            &ProcInfo { frames: 16, transport: TransportInfo { event: None } },
            &mut buffers,
            &mut None,
            &mut None,
            &mut vec![],
            &mut vec![],
        )
    }

    fn idle(&mut self) -> (OnIdleResult<&'static str>, Vec<ParamModifiedInfo>) {
        let (res, modified) = self.host.on_idle(RATE, 1, 64);
        (res, modified.to_vec())
    }

    fn calls(&self) -> Vec<String> {
        self.seen.borrow().calls.clone()
    }
}

#[test]
fn an_instance_without_a_plugin_cannot_be_activated() {
    let mut host: PluginInstanceHost<Main> = PluginInstanceHost::new(ID, save_state(), None, None);
    assert_eq!(host.state(), PluginState::Inactive);
    assert!(matches!(host.can_activate(), Err(ActivatePluginError::NotLoaded)));
    assert!(matches!(host.activate(RATE, 1, 64), Err(ActivatePluginError::NotLoaded)));
    assert!(!host.has_automation_out_port());
    assert!(host.audio_ports_ext().is_none());
    let (res, modified) = host.on_idle(RATE, 1, 64);
    assert!(matches!(res, OnIdleResult::Nothing));
    assert_eq!(modified.to_vec(), vec![]);
    host.schedule_remove();
    let (res, _) = host.on_idle(RATE, 1, 64);
    assert!(matches!(res, OnIdleResult::PluginReadyToRemove));
    assert_eq!(host.state(), PluginState::Inactive);
}

#[test]
fn the_ways_into_and_out_of_the_graph_have_no_plugin() {
    let graph_in: PluginInstanceHost<Main> = PluginInstanceHost::new_graph_in(ID, 2);
    let mut graph_in = graph_in;
    let state = graph_in.collect_save_state();
    assert_eq!(state.key.rdn, "app.meadowlark.dropseed-graph-in");
    assert_eq!(state.key.format, PluginFormat::Internal);
    assert!(!state.activation_requested);
    assert!(state.preset.is_none());
    assert!(matches!(graph_in.can_activate(), Err(ActivatePluginError::NotLoaded)));
    let mut graph_out: PluginInstanceHost<Main> = PluginInstanceHost::new_graph_out(ID, 2);
    assert_eq!(graph_out.collect_save_state().key.rdn, "app.meadowlark.dropseed-graph-out");
    assert_eq!(graph_out.id(), ID);
}

#[test]
fn a_new_instance_is_handed_its_preset() {
    let mut s = save_state();
    s.preset = Some(PluginPreset { version: None, bytes: vec![1, 2] });
    s.backup_audio_ports = Some(PluginAudioPortsExt {
        inputs: vec![AudioPortInfo { stable_id: 0, channels: 3 }],
        outputs: vec![],
    });
    let r = rig_with(0, vec![], s);
    assert_eq!(r.calls(), vec!["load [1, 2]"]);
    assert_eq!(r.host.state(), PluginState::Inactive);
    assert_eq!(r.host.audio_ports_ext().unwrap().inputs[0].channels, 3);
    assert!(r.host.note_ports_ext().is_none());
    assert!(r.host.has_automation_out_port());
}

#[test]
fn activation_hands_out_a_handle_and_the_values() {
    let mut r = rig();
    r.host.request(DEACTIVATE);
    let (handle, values) = r.host.activate(RATE, 1, 64).ok().unwrap();
    assert_eq!(r.host.state(), PluginState::ActiveAndSleeping);
    assert_eq!(handle.audio_ports().outputs[0].channels, 4);
    assert_eq!(handle.note_ports().outputs[0].stable_id, 7);
    assert!(handle.has_automation_out_port());
    assert_eq!(handle.internal, Some("handle"));
    assert_eq!(handle.params.params.len(), 2);
    assert_eq!(handle.params.params[&101].flags.bits, IS_READONLY);
    assert_eq!(values.len(), 2);
    assert_eq!(values[&100], ParamValue(0));
    assert_eq!(values[&101], ParamValue(1));
    assert_eq!(r.host.audio_ports_ext().unwrap().inputs[0].channels, 2);
    assert_eq!(r.host.note_ports_ext().unwrap().outputs.len(), 1);
    assert!(r.host.collect_save_state().activation_requested);
    assert!(matches!(r.host.can_activate(), Err(ActivatePluginError::AlreadyActive)));
    assert!(matches!(r.block(), Some(BlockOutcome::Processed { woke: true, .. })));
}

#[test]
fn a_scheduled_restart_blocks_activation() {
    let mut r = rig();
    r.host.request(RESTART);
    assert!(matches!(r.host.can_activate(), Err(ActivatePluginError::RestartScheduled)));
    assert!(matches!(r.host.activate(RATE, 1, 64), Err(ActivatePluginError::RestartScheduled)));
    assert_eq!(r.host.state(), PluginState::Inactive);
    assert!(!r.host.collect_save_state().activation_requested);
    assert_eq!(r.calls(), Vec::<String>::new());
}

#[test]
fn a_failed_activation_keeps_what_was_answered_before_the_failure() {
    let cases = [
        (Fail::AudioPorts, false, false),
        (Fail::NotePorts, true, false),
        (Fail::ParamInfo, true, true),
        (Fail::ParamValue, true, true),
        (Fail::Activate, true, true),
    ];
    for (fail, audio_backed_up, note_backed_up) in cases {
        let mut r = rig();
        *r.fail.borrow_mut() = fail;
        let err = r.host.activate(RATE, 1, 64).err().unwrap();
        let right = match fail {
            Fail::AudioPorts => matches!(err, ActivatePluginError::PluginFailedToGetAudioPortsExt(_)),
            Fail::NotePorts => matches!(err, ActivatePluginError::PluginFailedToGetNotePortsExt(_)),
            Fail::ParamInfo => matches!(err, ActivatePluginError::PluginFailedToGetParamInfo(0)),
            Fail::ParamValue => {
                matches!(err, ActivatePluginError::PluginFailedToGetParamValue(ParamID(100)))
            }
            Fail::Activate => matches!(err, ActivatePluginError::PluginSpecific(_)),
            Fail::Nothing => false,
        };
        assert!(right);
        assert_eq!(r.host.state(), PluginState::InactiveWithError);
        let saved = r.host.collect_save_state();
        assert!(saved.activation_requested);
        assert_eq!(saved.backup_audio_ports.is_some(), audio_backed_up);
        assert_eq!(saved.backup_note_ports.is_some(), note_backed_up);
        assert_eq!(r.block(), None);
    }
}

#[test]
fn a_plugin_without_parameters_gets_no_queues() {
    let mut r = rig_with(0, vec![], save_state());
    let (mut handle, values) = r.host.activate(RATE, 1, 64).ok().unwrap();
    assert!(values.is_empty());
    let mut channel = PluginHostChannel::new(false);
    handle.params.set_value(&mut channel, ParamID(1), ParamValue(1));
    assert!(channel.param_queues.is_none());
}

#[test]
fn the_handle_sets_values_that_exist_and_can_be_set() {
    let mut channel = PluginHostChannel::new(false);
    channel.param_queues = Some(dropseed::channel::ParamQueues::new(2));
    let mut r = rig();
    let (handle, _) = r.host.activate(RATE, 1, 64).ok().unwrap();
    let mut params: PluginParamsExt = handle.params;
    params.set_value(&mut channel, ParamID(100), ParamValue(500));
    params.set_value(&mut channel, ParamID(101), ParamValue(5));
    params.set_value(&mut channel, ParamID(999), ParamValue(5));
    params.set_mod_amount(&mut channel, ParamID(101), ParamValue(-3));
    params.set_mod_amount(&mut channel, ParamID(999), ParamValue(-3));
    let q = channel.param_queues.as_mut().unwrap();
    let values = q.to_audio_value.consume();
    assert_eq!(values.len(), 1);
    assert_eq!(values[0].0, ParamID(100));
    assert_eq!(values[0].1.value, ParamValue(500));
    let mods = q.to_audio_mod.consume();
    assert_eq!(mods.len(), 1);
    assert_eq!(mods[0].0, ParamID(101));
    assert_eq!(mods[0].1.value, ParamValue(-3));
}

#[test]
fn collecting_takes_the_dirty_mark_and_asks_for_a_preset() {
    let mut r = rig();
    assert!(r.host.collect_save_state().preset.is_none());
    assert_eq!(r.calls(), Vec::<String>::new());
    r.host.request(MARK_DIRTY);
    let preset = r.host.collect_save_state().preset.unwrap();
    assert_eq!(preset.bytes, vec![5, 5]);
    assert_eq!(preset.version, Some("1.2.0".to_string()));
    assert_eq!(r.calls(), vec!["collect"]);
    assert!(r.host.collect_save_state().preset.is_some());
    assert_eq!(r.calls(), vec!["collect"]);
}

#[test]
fn an_instance_is_deactivated_on_the_word_of_the_audio_thread() {
    let mut r = rig();
    r.host.activate(RATE, 1, 64).ok().unwrap();
    r.block();
    assert_eq!(r.host.state(), PluginState::ActiveAndProcessing);
    r.host.schedule_deactivate();
    assert!(!r.host.collect_save_state().activation_requested);
    let (res, _) = r.idle();
    assert!(matches!(res, OnIdleResult::Nothing));
    assert_eq!(r.block(), Some(BlockOutcome::Deactivated));
    r.host.drop_processor();
    assert_eq!(r.host.state(), PluginState::DroppedAndReadyToDeactivate);
    let (res, _) = r.idle();
    assert!(matches!(res, OnIdleResult::PluginDeactivated));
    assert_eq!(r.host.state(), PluginState::Inactive);
    assert_eq!(r.calls(), vec!["activate", "start", "process", "stop", "deactivate"]);
    assert!(r.host.can_activate().is_ok());
    let (res, _) = r.idle();
    assert!(matches!(res, OnIdleResult::Nothing));
}

#[test]
fn an_instance_that_asks_for_a_restart_is_activated_again() {
    let mut r = rig();
    r.host.activate(RATE, 1, 64).ok().unwrap();
    r.host.request(RESTART | CALLBACK);
    let (res, _) = r.idle();
    assert!(matches!(res, OnIdleResult::Nothing));
    assert_eq!(r.block(), Some(BlockOutcome::Deactivated));
    r.host.drop_processor();
    let (res, _) = r.idle();
    match res {
        OnIdleResult::PluginActivated(handle, values) => {
            assert_eq!(handle.params.params.len(), 2);
            assert_eq!(values.len(), 2);
        }
        _ => panic!("wrong result"),
    }
    assert_eq!(r.host.state(), PluginState::ActiveAndSleeping);
    assert_eq!(r.calls(), vec!["activate", "on_main_thread", "deactivate", "activate"]);
    assert!(matches!(r.block(), Some(BlockOutcome::Processed { woke: true, .. })));
}

#[test]
fn a_restart_that_fails_is_reported() {
    let mut r = rig();
    r.host.activate(RATE, 1, 64).ok().unwrap();
    r.host.request(RESTART);
    r.idle();
    r.block();
    r.host.drop_processor();
    *r.fail.borrow_mut() = Fail::Activate;
    let (res, _) = r.idle();
    assert!(matches!(
        res,
        OnIdleResult::PluginFailedToActivate(ActivatePluginError::PluginSpecific(_))
    ));
    assert_eq!(r.host.state(), PluginState::InactiveWithError);
}

#[test]
fn an_instance_marked_for_removal_ends_ready_to_remove() {
    let mut r = rig();
    r.host.activate(RATE, 1, 64).ok().unwrap();
    r.host.schedule_remove();
    r.host.request(RESTART);
    r.block();
    r.host.drop_processor();
    let (res, _) = r.idle();
    assert!(matches!(res, OnIdleResult::PluginReadyToRemove));
    assert_eq!(r.host.state(), PluginState::Inactive);
}

#[test]
fn reports_of_an_instance_reach_the_owner() {
    let value = ProcEvent::ParamValue(
        ParamEvent {
            frame: 3,
            note_id: -1,
            param_id: 100,
            port_index: -1,
            channel: -1,
            key: -1,
            value: ParamValue(8),
        },
        None,
    );
    let emit = vec![
        ProcEvent::ParamGestureBegin(ParamGestureEvent { frame: 0, param_id: 100 }),
        value,
        ProcEvent::ParamGestureEnd(ParamGestureEvent { frame: 9, param_id: 100 }),
    ];
    let mut r = rig_with(2, emit, save_state());
    r.host.activate(RATE, 1, 64).ok().unwrap();
    r.block();
    let (res, modified) = r.idle();
    assert!(matches!(res, OnIdleResult::Nothing));
    assert_eq!(
        modified,
        vec![ParamModifiedInfo {
            param_id: ParamID(100),
            new_value: Some(ParamValue(8)),
            is_gesturing: false
        }]
    );
    let (_, modified) = r.idle();
    assert_eq!(modified, vec![]);
}

#[test]
fn a_new_tempo_is_passed_on_to_a_plugin_that_is_there() {
    let mut r = rig();
    let tempo = dropseed::plugin::TempoMap { beats_per_minute: ParamValue(90), sample_rate: RATE };
    r.host.update_tempo_map(&tempo);
    assert_eq!(r.calls(), vec!["tempo 90"]);
    let mut empty: PluginInstanceHost<Main> = PluginInstanceHost::new(ID, save_state(), None, None);
    empty.update_tempo_map(&tempo);
    assert_eq!(empty.state(), PluginState::Inactive);
}

#[test]
fn an_instance_that_the_audio_thread_has_not_let_go_of_cannot_be_activated() {
    let mut r = rig();
    r.host.activate(RATE, 1, 64).ok().unwrap();
    r.host.schedule_deactivate();
    r.block();
    assert_eq!(r.host.state(), PluginState::WaitingToDrop);
    assert!(matches!(r.host.can_activate(), Err(ActivatePluginError::AlreadyActive)));
    r.host.drop_processor();
    assert!(matches!(r.host.activate(RATE, 1, 64), Err(ActivatePluginError::AlreadyActive)));
    assert!(PluginState::Inactive.is_inactive());
    assert!(PluginState::InactiveWithError.is_inactive());
    assert!(!PluginState::WaitingToDrop.is_inactive());
    assert!(!PluginState::ActiveAndSleeping.is_inactive());
}
