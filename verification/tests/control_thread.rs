use dropseed::audio_thread::BlockOutcome;
use dropseed::buffers::ProcBuffers;
use dropseed::error::{ActivatePluginError, SetParamValueError};
use dropseed::events::{ParamEvent, ParamGestureEvent, ProcEvent};
use dropseed::host_request::{
    GuiSize, CALLBACK, GUI_CLOSED, GUI_DESTROYED, GUI_HIDE, GUI_HINTS_CHANGED, GUI_RESIZE,
    GUI_SHOW, MARK_DIRTY, PROCESS, RESCAN_PORTS, RESTART,
};
use dropseed::main_thread::{OnIdleEvent, OnIdleResult, PluginHostMainThread, PortGraph, PortSync};
use dropseed::params::{
    ParamID, ParamInfo, ParamInfoFlags, ParamModifiedInfo, ParamValue, IS_MODULATABLE, IS_READONLY,
};
use dropseed::plugin::{
    AudioPortInfo, GuiResizeHints, NotePortInfo, PluginActivatedInfo, PluginAudioPortsExt,
    PluginAudioThread, PluginInstanceID, PluginInstanceType, PluginMainThread, PluginNotePortsExt,
    ProcInfo, ProcessStatus, SampleRate, TransportInfo,
};
use dropseed::plugin_key::{PluginFormat, ScannedPluginKey};
use dropseed::plugin_state::PluginState;
use dropseed::save_state::DSPluginSaveState;
use std::cell::RefCell;
use std::rc::Rc;

#[derive(Default)]
struct Seen {
    calls: Vec<String>,
    in_events: Vec<ProcEvent>,
}

struct Audio {
    seen: Rc<RefCell<Seen>>,
    emit: Vec<ProcEvent>,
}

impl PluginAudioThread for Audio {
    fn start_processing(&mut self) -> Result<(), String> {
        self.seen.borrow_mut().calls.push("start".into());
        Ok(())
    }

    fn stop_processing(&mut self) {
        self.seen.borrow_mut().calls.push("stop".into());
    }

    fn process(
        &mut self,
        _info: &ProcInfo,
        _buffers: &mut ProcBuffers,
        in_events: &Vec<ProcEvent>,
        out_events: &mut Vec<ProcEvent>,
    ) -> ProcessStatus {
        let mut seen = self.seen.borrow_mut();
        seen.calls.push("process".into());
        seen.in_events = in_events.clone();
        out_events.extend(self.emit.iter().copied());
        ProcessStatus::Continue
    }

    fn param_flush(&mut self, _in_events: &Vec<ProcEvent>, _out_events: &mut Vec<ProcEvent>) {
        self.seen.borrow_mut().calls.push("flush".into());
    }
}

#[derive(Clone, Copy, PartialEq)]
enum Fail {
    Nothing,
    AudioPorts,
    NotePorts,
    ParamInfo(usize),
    ParamValue(usize),
    Activate,
}

struct Main {
    seen: Rc<RefCell<Seen>>,
    fail: Rc<RefCell<Fail>>,
    params: Vec<ParamInfo>,
    channels: u16,
    latency: i64,
    emit: Vec<ProcEvent>,
    saved: Result<Option<Vec<u8>>, String>,
    accept_size: bool,
}

fn info(id: u32, flags: u32, min: i64, max: i64) -> ParamInfo {
    ParamInfo {
        stable_id: ParamID(id),
        flags: ParamInfoFlags { bits: flags },
        min_value: ParamValue(min),
        max_value: ParamValue(max),
        default_value: ParamValue(min),
    }
}

impl PluginMainThread for Main {
    type AudioThread = Audio;
    type Handle = u8;

    fn init(&mut self, _preset: Option<Vec<u8>>) -> Result<(), String> {
        Ok(())
    }

    fn load_save_state(&mut self, state: Vec<u8>) -> Result<(), String> {
        self.seen.borrow_mut().calls.push(format!("load {:?}", state));
        if state.is_empty() {
            Err("empty".into())
        } else {
            Ok(())
        }
    }

    fn collect_save_state(&mut self) -> Result<Option<Vec<u8>>, String> {
        self.seen.borrow_mut().calls.push("collect".into());
        self.saved.clone()
    }

    fn audio_ports_ext(&mut self) -> Result<PluginAudioPortsExt, String> {
        if *self.fail.borrow() == Fail::AudioPorts {
            return Err("no audio ports".into());
        }
        Ok(PluginAudioPortsExt {
            inputs: vec![AudioPortInfo { stable_id: 0, channels: self.channels }],
            outputs: vec![
                AudioPortInfo { stable_id: 1, channels: self.channels },
                AudioPortInfo { stable_id: 2, channels: 1 },
            ],
        })
    }

    fn note_ports_ext(&mut self) -> Result<PluginNotePortsExt, String> {
        if *self.fail.borrow() == Fail::NotePorts {
            return Err("no note ports".into());
        }
        Ok(PluginNotePortsExt {
            inputs: vec![NotePortInfo { stable_id: 0, supported_dialects: 1, preferred_dialect: 1 }],
            outputs: vec![],
        })
    }

    fn num_params(&mut self) -> u32 {
        self.params.len() as u32
    }

    fn param_info(&mut self, index: usize) -> Result<ParamInfo, ()> {
        if *self.fail.borrow() == Fail::ParamInfo(index) {
            return Err(());
        }
        Ok(self.params[index])
    }

    fn param_value(&self, id: ParamID) -> Result<ParamValue, ()> {
        if let Fail::ParamValue(i) = *self.fail.borrow() {
            if self.params[i].stable_id == id {
                return Err(());
            }
        }
        Ok(ParamValue(id.0 as i64 * 10))
    }

    fn param_value_to_text(
        &self,
        id: ParamID,
        value: ParamValue,
        text: &mut String,
    ) -> Result<(), String> {
        text.push_str(&format!("{}={}", id.0, value.0));
        Ok(())
    }

    fn param_text_to_value(&self, _id: ParamID, text: &str) -> Option<ParamValue> {
        text.parse::<i64>().ok().map(ParamValue)
    }

    fn activate(
        &mut self,
        sample_rate: SampleRate,
        min_frames: u32,
        max_frames: u32,
    ) -> Result<PluginActivatedInfo<Audio, u8>, String> {
        self.seen
            .borrow_mut()
            .calls
            .push(format!("activate {} {} {}", sample_rate.0, min_frames, max_frames));
        if *self.fail.borrow() == Fail::Activate {
            return Err("will not".into());
        }
        Ok(PluginActivatedInfo {
            processor: Audio { seen: self.seen.clone(), emit: self.emit.clone() },
            internal_handle: Some(42),
        })
    }

    fn deactivate(&mut self) {
        self.seen.borrow_mut().calls.push("deactivate".into());
    }

    fn on_main_thread(&mut self) {
        self.seen.borrow_mut().calls.push("on_main_thread".into());
    }

    fn latency(&self) -> i64 {
        self.latency
    }

    fn has_automation_out_port(&self) -> bool {
        false
    }

    fn update_tempo_map(&mut self, tempo_map: &dropseed::plugin::TempoMap) {
        self.seen.borrow_mut().calls.push(format!("tempo {}", tempo_map.beats_per_minute.0));
    }

    fn supports_gui(&self, floating: bool) -> bool {
        floating
    }

    fn create_new_floating_gui(&mut self, suggested_title: Option<&str>) -> Result<(), String> {
        self.seen.borrow_mut().calls.push(format!("floating {:?}", suggested_title));
        Ok(())
    }

    fn create_new_embedded_gui(
        &mut self,
        _scale: Option<ParamValue>,
        size: Option<GuiSize>,
        _parent_window: raw_window_handle::RawWindowHandle,
    ) -> Result<dropseed::plugin::EmbeddedGuiInfo, String> {
        match size {
            Some(size) => Ok(dropseed::plugin::EmbeddedGuiInfo { size, resizable: true }),
            None => Err("no size".into()),
        }
    }

    fn adjust_gui_size(&mut self, size: GuiSize) -> GuiSize {
        GuiSize { width: size.width / 2 * 2, height: size.height }
    }

    fn set_gui_scale(&mut self, scale: ParamValue) -> bool {
        scale.0 > 0
    }

    fn show_gui(&mut self) -> Result<(), String> {
        self.seen.borrow_mut().calls.push("show".into());
        Ok(())
    }

    fn hide_gui(&mut self) -> Result<(), String> {
        Err("cannot hide".into())
    }

    fn destroy_gui(&mut self) {
        self.seen.borrow_mut().calls.push("destroy_gui".into());
    }

    fn gui_resize_hints(&self) -> Option<GuiResizeHints> {
        Some(GuiResizeHints {
            can_resize_horizontally: true,
            can_resize_vertically: false,
            preserve_aspect_ratio: false,
            aspect_ratio_width: 4,
            aspect_ratio_height: 3,
        })
    }

    fn set_gui_size(&mut self, size: GuiSize) -> Result<GuiSize, String> {
        if self.accept_size {
            Ok(GuiSize { width: size.width - 1, height: size.height })
        } else {
            Err("fixed".into())
        }
    }
}

struct Graph {
    fail: bool,
    needs_recompile: bool,
    synced: Vec<(u64, usize, i64)>,
}

impl PortGraph for Graph {
    fn sync_ports(
        &mut self,
        node: u64,
        audio_ports: &PluginAudioPortsExt,
        _note_ports: &PluginNotePortsExt,
        _automation_out: bool,
        latency: i64,
    ) -> Result<PortSync, String> {
        self.synced.push((node, audio_ports.outputs.len(), latency));
        if self.fail {
            Err("graph says no".into())
        } else {
            Ok(PortSync { removed_edges: vec![5, 6], needs_recompile: self.needs_recompile })
        }
    }
}

struct Rig {
    seen: Rc<RefCell<Seen>>,
    fail: Rc<RefCell<Fail>>,
    host: PluginHostMainThread<Main>,
    graph: Graph,
    events: Vec<OnIdleEvent>,
}

const RATE: SampleRate = SampleRate(48000);
const ID: PluginInstanceID = PluginInstanceID { node_ref: 3, format: PluginInstanceType::Clap };

fn save_state() -> DSPluginSaveState {
    DSPluginSaveState::new_with_default_state(ScannedPluginKey {
        rdn: "org.example.gain".into(),
        format: PluginFormat::Clap,
    })
}

fn rig_with(save_state: DSPluginSaveState, emit: Vec<ProcEvent>) -> Rig {
    let seen = Rc::new(RefCell::new(Seen::default()));
    let fail = Rc::new(RefCell::new(Fail::Nothing));
    let main = Main {
        seen: seen.clone(),
        fail: fail.clone(),
        params: vec![
            info(1, 0, -10, 20),
            info(2, IS_READONLY, 0, 1),
            info(3, IS_MODULATABLE, 0, 100),
        ],
        channels: 2,
        latency: 0,
        emit,
        saved: Ok(Some(vec![1, 2, 3])),
        accept_size: true,
    };
    let host = PluginHostMainThread::new(ID, save_state, main, true);
    Rig {
        seen,
        fail,
        host,
        graph: Graph { fail: false, needs_recompile: false, synced: vec![] },
        events: vec![],
    }
}

fn rig() -> Rig {
    rig_with(save_state(), vec![])
}

impl Rig {
    fn activate(&mut self) -> Result<dropseed::main_thread::PluginActivatedStatus<u8>, ActivatePluginError> {
        self.host.activate(RATE, 32, 512, &mut self.graph, 7)
    }

    fn idle(&mut self) -> (OnIdleResult<u8>, Vec<ParamModifiedInfo>, bool) {
        let (res, modified, drop) =
            self.host.on_idle(RATE, 32, 512, &mut self.graph, &mut self.events, 7);
        (res, modified.to_vec(), drop)
    }

    fn block(&mut self) -> Option<BlockOutcome> {
        let mut buffers = ProcBuffers { audio_in: vec![], audio_out: vec![] };
        self.host.process(
            &ProcInfo { frames: 16, transport: TransportInfo { event: None } },
            &mut buffers,
            &mut None,
            &mut None,
            &mut vec![],
            &mut vec![],
        )
    }

    fn calls(&self) -> Vec<String> {
        self.seen.borrow().calls.clone()
    }
}

#[test]
fn a_new_host_is_inactive_and_clean() {
    let r = rig();
    assert_eq!(r.host.state(), PluginState::Inactive);
    assert!(r.host.is_loaded());
    assert!(!r.host.is_bypassed());
    assert!(!r.host.is_save_state_dirty());
    assert_eq!(*r.host.id(), ID);
    assert_eq!(r.host.num_audio_in_channels(), 0);
    assert_eq!(r.host.num_audio_out_channels(), 0);
    assert_eq!(r.host.audio_ports_ext().unwrap().inputs, vec![]);
    assert_eq!(r.host.note_ports_ext().unwrap().inputs, vec![]);
    assert!(r.host.can_activate().is_ok());
    assert_eq!(r.calls(), Vec::<String>::new());
    assert!(r.host.port_ids().main_audio_in_port_ids.is_empty());
    assert!(r.host.port_ids().channel_id_to_port_id.is_empty());
}

#[test]
fn a_new_host_hands_the_plugin_what_it_saved_and_counts_the_backed_up_channels() {
    let mut s = save_state();
    s.raw_state = Some(vec![9, 9]);
    s.bypassed = true;
    s.backup_audio_ports_ext = Some(PluginAudioPortsExt {
        inputs: vec![
            AudioPortInfo { stable_id: 0, channels: 2 },
            AudioPortInfo { stable_id: 1, channels: 6 },
        ],
        outputs: vec![AudioPortInfo { stable_id: 2, channels: 1 }],
    });
    let r = rig_with(s, vec![]);
    assert_eq!(r.calls(), vec!["load [9, 9]"]);
    assert_eq!(r.host.num_audio_in_channels(), 8);
    assert_eq!(r.host.num_audio_out_channels(), 1);
    assert!(r.host.is_bypassed());
    assert!(r.host.note_ports_ext().is_none());
    assert!(!r.host.is_save_state_dirty());
}

#[test]
fn activation_takes_over_ports_parameters_and_latency() {
    let mut r = rig();
    let status = r.activate().ok().unwrap();
    assert_eq!(r.host.state(), PluginState::ActiveAndSleeping);
    assert_eq!(
        status.new_parameters,
        vec![
            (info(1, 0, -10, 20), ParamValue(10)),
            (info(2, IS_READONLY, 0, 1), ParamValue(20)),
            (info(3, IS_MODULATABLE, 0, 100), ParamValue(30)),
        ]
    );
    assert_eq!(status.new_audio_ports_ext.unwrap().outputs.len(), 2);
    assert_eq!(status.new_note_ports_ext.unwrap().inputs.len(), 1);
    assert_eq!(status.internal_handle, Some(42));
    assert_eq!(status.new_latency, None);
    assert_eq!(status.removed_edges, vec![5, 6]);
    assert!(!status.caused_recompile);
    assert_eq!(r.host.num_audio_in_channels(), 2);
    assert_eq!(r.host.num_audio_out_channels(), 3);
    assert!(r.host.is_save_state_dirty());
    assert_eq!(r.host.param_info(ParamID(3)), Some(info(3, IS_MODULATABLE, 0, 100)));
    assert_eq!(r.host.param_info(ParamID(4)), None);
    assert_eq!(r.graph.synced, vec![(3, 2, 0)]);
    assert_eq!(r.calls(), vec!["activate 48000 32 512"]);
    let saved = r.host.collect_save_state();
    assert!(saved.active);
    assert_eq!(saved.backup_audio_ports_ext.unwrap().inputs[0].channels, 2);
}

#[test]
fn a_second_activation_with_the_same_ports_reports_no_new_ports() {
    let mut r = rig();
    r.activate().ok().unwrap();
    r.host.schedule_deactivate();
    r.block();
    r.host.drop_processor();
    let (res, _, _) = r.idle();
    assert!(matches!(res, OnIdleResult::PluginDeactivated));
    let status = r.activate().ok().unwrap();
    assert!(status.new_audio_ports_ext.is_none());
    assert!(status.new_note_ports_ext.is_none());
    assert!(status.new_latency.is_none());
}

#[test]
fn a_changed_latency_causes_a_recompile() {
    let seen = Rc::new(RefCell::new(Seen::default()));
    let main = Main {
        seen: seen.clone(),
        fail: Rc::new(RefCell::new(Fail::Nothing)),
        params: vec![],
        channels: 1,
        latency: 64,
        emit: vec![],
        saved: Ok(None),
        accept_size: true,
    };
    let mut host = PluginHostMainThread::new(ID, save_state(), main, true);
    let mut graph = Graph { fail: false, needs_recompile: false, synced: vec![] };
    let status = host.activate(RATE, 1, 2, &mut graph, 7).ok().unwrap();
    assert_eq!(status.new_latency, Some(64));
    assert!(status.caused_recompile);
    assert_eq!(graph.synced, vec![(3, 2, 64)]);
}

#[test]
fn an_active_plugin_cannot_be_activated() {
    let mut r = rig();
    r.activate().ok().unwrap();
    assert!(matches!(r.host.can_activate(), Err(ActivatePluginError::AlreadyActive)));
    assert!(matches!(r.activate(), Err(ActivatePluginError::AlreadyActive)));
    assert_eq!(r.host.state(), PluginState::ActiveAndSleeping);
    assert_eq!(r.calls(), vec!["activate 48000 32 512"]);
}

#[test]
fn each_failure_of_an_activation_has_its_error() {
    let cases = [Fail::AudioPorts, Fail::NotePorts, Fail::ParamInfo(1), Fail::ParamValue(2), Fail::Activate];
    for fail in cases {
        let mut r = rig();
        *r.fail.borrow_mut() = fail;
        let err = r.activate().err().unwrap();
        match (fail, &err) {
            (Fail::AudioPorts, ActivatePluginError::PluginFailedToGetAudioPortsExt(e)) => {
                assert_eq!(e, "no audio ports")
            }
            (Fail::NotePorts, ActivatePluginError::PluginFailedToGetNotePortsExt(e)) => {
                assert_eq!(e, "no note ports")
            }
            (Fail::ParamInfo(_), ActivatePluginError::PluginFailedToGetParamInfo(i)) => {
                assert_eq!(*i, 1)
            }
            (Fail::ParamValue(_), ActivatePluginError::PluginFailedToGetParamValue(id)) => {
                assert_eq!(*id, ParamID(3))
            }
            (Fail::Activate, ActivatePluginError::PluginSpecific(e)) => assert_eq!(e, "will not"),
            _ => panic!("wrong error"),
        }
        assert_eq!(r.host.state(), PluginState::InactiveWithError);
        assert!(!r.host.is_save_state_dirty());
        assert_eq!(r.host.param_info(ParamID(1)), None);
        assert_eq!(r.block(), None);
        *r.fail.borrow_mut() = Fail::Nothing;
        assert!(r.activate().is_ok());
        assert_eq!(r.host.state(), PluginState::ActiveAndSleeping);
    }
}

#[test]
fn a_graph_that_refuses_the_ports_fails_the_activation() {
    let mut r = rig();
    r.graph.fail = true;
    match r.activate() {
        Err(ActivatePluginError::PluginSpecific(e)) => assert_eq!(e, "graph says no"),
        _ => panic!("wrong result"),
    }
    assert_eq!(r.host.state(), PluginState::InactiveWithError);
    assert_eq!(r.calls(), Vec::<String>::new());
}

#[test]
fn setting_a_value_clamps_it_and_the_audio_thread_sees_the_last_one() {
    let mut r = rig();
    r.activate().ok().unwrap();
    r.host.collect_save_state();
    assert!(!r.host.is_save_state_dirty());
    assert_eq!(r.host.set_param_value(ParamID(1), ParamValue(5)), Ok(ParamValue(5)));
    assert_eq!(r.host.set_param_value(ParamID(1), ParamValue(99)), Ok(ParamValue(20)));
    assert_eq!(r.host.set_param_value(ParamID(1), ParamValue(-99)), Ok(ParamValue(-10)));
    assert!(r.host.is_save_state_dirty());
    r.host.request(PROCESS);
    assert!(matches!(r.block(), Some(BlockOutcome::Processed { woke: true, .. })));
    let seen = r.seen.borrow().in_events.clone();
    assert_eq!(seen.len(), 1);
    match seen[0] {
        ProcEvent::ParamValue(e, None) => {
            assert_eq!(e.param_id, 1);
            assert_eq!(e.value, ParamValue(-10));
            assert_eq!((e.frame, e.note_id, e.port_index, e.channel, e.key), (0, -1, -1, -1, -1));
        }
        _ => panic!("wrong event"),
    }
}

#[test]
fn a_value_for_a_missing_or_read_only_parameter_is_refused() {
    let mut r = rig();
    r.activate().ok().unwrap();
    r.host.collect_save_state();
    assert_eq!(
        r.host.set_param_value(ParamID(9), ParamValue(5)),
        Err(SetParamValueError::ParamDoesNotExist(ParamID(9)))
    );
    assert_eq!(
        r.host.set_param_value(ParamID(2), ParamValue(1)),
        Err(SetParamValueError::ParamIsReadOnly(ParamID(2)))
    );
    assert!(!r.host.is_save_state_dirty());
    r.host.request(PROCESS);
    r.block();
    assert_eq!(r.seen.borrow().in_events, vec![]);
}

#[test]
fn before_the_first_activation_no_parameter_exists() {
    let mut r = rig();
    assert_eq!(
        r.host.set_param_value(ParamID(1), ParamValue(5)),
        Err(SetParamValueError::ParamDoesNotExist(ParamID(1)))
    );
    assert_eq!(
        r.host.set_param_mod_amount(ParamID(3), ParamValue(5)),
        Err(SetParamValueError::ParamDoesNotExist(ParamID(3)))
    );
}

#[test]
fn an_amount_of_modulation_is_not_clamped() {
    let mut r = rig();
    r.activate().ok().unwrap();
    r.host.collect_save_state();
    assert_eq!(r.host.set_param_mod_amount(ParamID(3), ParamValue(1000)), Ok(ParamValue(1000)));
    assert!(!r.host.is_save_state_dirty());
    assert_eq!(
        r.host.set_param_mod_amount(ParamID(1), ParamValue(1)),
        Err(SetParamValueError::ParamIsNotModulatable(ParamID(1)))
    );
    assert_eq!(
        r.host.set_param_mod_amount(ParamID(8), ParamValue(1)),
        Err(SetParamValueError::ParamDoesNotExist(ParamID(8)))
    );
    r.host.request(PROCESS);
    r.block();
    let seen = r.seen.borrow().in_events.clone();
    assert_eq!(seen.len(), 1);
    match seen[0] {
        ProcEvent::ParamMod(e, None) => {
            assert_eq!(e.param_id, 3);
            assert_eq!(e.value, ParamValue(1000));
        }
        _ => panic!("wrong event"),
    }
}

#[test]
fn bypassing_makes_the_saved_state_dirty_once() {
    let mut r = rig();
    r.host.set_bypassed(false);
    assert!(!r.host.is_save_state_dirty());
    r.host.set_bypassed(true);
    assert!(r.host.is_bypassed());
    assert!(r.host.is_save_state_dirty());
    assert!(r.host.collect_save_state().bypassed);
    r.host.set_bypassed(true);
    assert!(!r.host.is_save_state_dirty());
}

#[test]
fn collecting_asks_the_plugin_only_when_dirty() {
    let mut r = rig();
    let clean = r.host.collect_save_state();
    assert_eq!(clean.raw_state, None);
    assert_eq!(r.calls(), Vec::<String>::new());
    assert_eq!(r.host.load_save_state(vec![4]), Ok(()));
    assert_eq!(r.host.load_save_state(vec![]), Err("empty".to_string()));
    assert!(r.host.is_save_state_dirty());
    let collected = r.host.collect_save_state();
    assert_eq!(collected.raw_state, Some(vec![1, 2, 3]));
    assert_eq!(collected.key.rdn, "org.example.gain");
    assert!(!r.host.is_save_state_dirty());
    assert_eq!(r.calls(), vec!["load [4]", "load []", "collect"]);
    r.host.collect_save_state();
    assert_eq!(r.calls(), vec!["load [4]", "load []", "collect"]);
}

#[test]
fn a_plugin_that_fails_to_save_leaves_nothing_of_its_own() {
    let seen = Rc::new(RefCell::new(Seen::default()));
    let main = Main {
        seen,
        fail: Rc::new(RefCell::new(Fail::Nothing)),
        params: vec![],
        channels: 1,
        latency: 0,
        emit: vec![],
        saved: Err("disk full".into()),
        accept_size: false,
    };
    let mut s = save_state();
    s.raw_state = Some(vec![7]);
    let mut host = PluginHostMainThread::new(ID, s, main, false);
    assert!(!host.is_loaded());
    host.set_bypassed(true);
    assert_eq!(host.collect_save_state().raw_state, None);
    assert_eq!(host.set_gui_size(GuiSize { width: 10, height: 10 }), Err("fixed".to_string()));
    assert!(!host.is_save_state_dirty());
}

#[test]
fn an_accepted_window_size_is_saved() {
    let mut r = rig();
    assert_eq!(
        r.host.set_gui_size(GuiSize { width: 10, height: 20 }),
        Ok(GuiSize { width: 9, height: 20 })
    );
    assert!(r.host.is_save_state_dirty());
    assert_eq!(r.host.collect_save_state().gui_size, Some(GuiSize { width: 9, height: 20 }));
}

#[test]
fn texts_and_values_are_the_plugins() {
    let r = rig();
    let mut text = String::from(">");
    assert_eq!(r.host.param_value_to_text(ParamID(2), ParamValue(5), &mut text), Ok(()));
    assert_eq!(text, ">2=5");
    assert_eq!(r.host.param_text_to_value(ParamID(2), "17"), Some(ParamValue(17)));
    assert_eq!(r.host.param_text_to_value(ParamID(2), "x"), None);
}

#[test]
fn deactivation_handshake() {
    let mut r = rig();
    r.activate().ok().unwrap();
    r.host.request(PROCESS);
    assert!(matches!(r.block(), Some(BlockOutcome::Processed { woke: true, .. })));
    assert_eq!(r.host.state(), PluginState::ActiveAndProcessing);
    assert!(r.host.schedule_deactivate());
    assert_eq!(r.block(), Some(BlockOutcome::Deactivated));
    assert_eq!(r.host.state(), PluginState::WaitingToDrop);
    assert_eq!(r.block(), Some(BlockOutcome::Inactive));
    let (res, _, _) = r.idle();
    assert!(matches!(res, OnIdleResult::Nothing));
    assert_eq!(r.host.state(), PluginState::WaitingToDrop);
    r.host.drop_processor();
    assert_eq!(r.host.state(), PluginState::DroppedAndReadyToDeactivate);
    assert_eq!(r.block(), None);
    let (res, modified, drop) = r.idle();
    assert!(matches!(res, OnIdleResult::PluginDeactivated));
    assert_eq!(modified, vec![]);
    assert!(!drop);
    assert_eq!(r.host.state(), PluginState::Inactive);
    assert_eq!(
        r.calls(),
        vec!["activate 48000 32 512", "start", "process", "stop", "deactivate"]
    );
    let saved = r.host.collect_save_state();
    assert!(!saved.active);
    assert!(!r.host.schedule_deactivate());
}

#[test]
fn a_deactivation_that_the_audio_thread_has_not_seen_survives_an_idle_tick() {
    let mut r = rig();
    r.activate().ok().unwrap();
    r.host.schedule_deactivate();
    let (res, _, _) = r.idle();
    assert!(matches!(res, OnIdleResult::Nothing));
    assert_eq!(r.block(), Some(BlockOutcome::Deactivated));
    assert_eq!(r.host.state(), PluginState::WaitingToDrop);
}

#[test]
fn removal_destroys_the_window_and_ends_ready_to_remove() {
    let mut r = rig();
    r.activate().ok().unwrap();
    assert!(r.host.schedule_remove());
    r.host.request(PROCESS | RESTART);
    r.block();
    r.host.drop_processor();
    let (res, _, _) = r.idle();
    assert!(matches!(res, OnIdleResult::PluginReadyToRemove));
    assert_eq!(r.host.state(), PluginState::Inactive);
    assert_eq!(r.calls(), vec!["activate 48000 32 512", "destroy_gui", "deactivate"]);
}

#[test]
fn a_restart_request_deactivates_and_activates_again() {
    let mut r = rig();
    r.activate().ok().unwrap();
    r.host.request(RESTART);
    let (res, _, drop) = r.idle();
    assert!(matches!(res, OnIdleResult::Nothing));
    assert!(drop);
    assert_eq!(r.block(), Some(BlockOutcome::Deactivated));
    r.host.drop_processor();
    let (res, _, drop) = r.idle();
    assert!(!drop);
    match res {
        OnIdleResult::PluginActivated(status) => assert_eq!(status.new_parameters.len(), 3),
        _ => panic!("wrong result"),
    }
    assert_eq!(r.host.state(), PluginState::ActiveAndSleeping);
    assert_eq!(
        r.calls(),
        vec!["activate 48000 32 512", "deactivate", "activate 48000 32 512"]
    );
}

#[test]
fn a_port_rescan_request_restarts_too_and_a_failure_is_reported() {
    let mut r = rig();
    r.activate().ok().unwrap();
    r.host.request(RESCAN_PORTS);
    let (_, _, drop) = r.idle();
    assert!(drop);
    r.block();
    r.host.drop_processor();
    *r.fail.borrow_mut() = Fail::NotePorts;
    let (res, _, _) = r.idle();
    assert!(matches!(
        res,
        OnIdleResult::PluginFailedToActivate(ActivatePluginError::PluginFailedToGetNotePortsExt(_))
    ));
    assert_eq!(r.host.state(), PluginState::InactiveWithError);
}

#[test]
fn a_request_to_process_is_passed_on_or_activates() {
    let mut r = rig();
    r.host.request(PROCESS);
    let (res, _, _) = r.idle();
    assert!(matches!(res, OnIdleResult::PluginActivated(_)));
    assert_eq!(r.host.state(), PluginState::ActiveAndSleeping);
    assert_eq!(r.block(), Some(BlockOutcome::StayedAsleep));
    r.host.request(PROCESS);
    let (res, _, _) = r.idle();
    assert!(matches!(res, OnIdleResult::Nothing));
    assert!(matches!(r.block(), Some(BlockOutcome::Processed { woke: true, .. })));
}

#[test]
fn a_request_to_process_activates_after_a_failed_activation() {
    let mut r = rig();
    *r.fail.borrow_mut() = Fail::Activate;
    assert!(r.activate().is_err());
    *r.fail.borrow_mut() = Fail::Nothing;
    r.host.request(PROCESS);
    let (res, _, _) = r.idle();
    assert!(matches!(res, OnIdleResult::PluginActivated(_)));
}

#[test]
fn an_idle_tick_follows_up_on_dirty_marks_and_callbacks() {
    let mut r = rig();
    r.host.request(MARK_DIRTY | CALLBACK);
    let (res, modified, drop) = r.idle();
    assert!(matches!(res, OnIdleResult::Nothing));
    assert_eq!(modified, vec![]);
    assert!(!drop);
    assert!(r.host.is_save_state_dirty());
    assert_eq!(r.calls(), vec!["on_main_thread"]);
    r.host.collect_save_state();
    r.idle();
    assert!(!r.host.is_save_state_dirty());
    assert_eq!(r.calls(), vec!["on_main_thread", "collect"]);
}

#[test]
fn window_requests_become_events_in_a_fixed_order() {
    let mut r = rig();
    r.host.request(GUI_HINTS_CHANGED | GUI_HIDE | GUI_SHOW | GUI_DESTROYED | GUI_RESIZE);
    r.idle();
    let hints = Some(GuiResizeHints {
        can_resize_horizontally: true,
        can_resize_vertically: false,
        preserve_aspect_ratio: false,
        aspect_ratio_width: 4,
        aspect_ratio_height: 3,
    });
    assert_eq!(
        r.events,
        vec![
            OnIdleEvent::PluginGuiClosed { plugin_id: ID, was_destroyed: true },
            OnIdleEvent::PluginRequestedToShowGui { plugin_id: ID },
            OnIdleEvent::PluginRequestedToHideGui { plugin_id: ID },
            OnIdleEvent::PluginChangedGuiResizeHints { plugin_id: ID, resize_hints: hints },
        ]
    );
    r.events.clear();
    r.host.request(GUI_CLOSED);
    r.idle();
    assert_eq!(r.events, vec![OnIdleEvent::PluginGuiClosed { plugin_id: ID, was_destroyed: false }]);
    r.idle();
    assert_eq!(r.events.len(), 1);
}

#[test]
fn what_the_plugin_changes_reaches_the_owner() {
    let value = |v: i64| {
        ProcEvent::ParamValue(
            ParamEvent {
                frame: 0,
                note_id: -1,
                param_id: 1,
                port_index: -1,
                channel: -1,
                key: -1,
                value: ParamValue(v),
            },
            None,
        )
    };
    let emit = vec![
        ProcEvent::ParamGestureBegin(ParamGestureEvent { frame: 0, param_id: 1 }),
        value(4),
        value(6),
        ProcEvent::ParamGestureBegin(ParamGestureEvent { frame: 0, param_id: 3 }),
    ];
    let mut r = rig_with(save_state(), emit);
    r.activate().ok().unwrap();
    r.host.collect_save_state();
    r.host.request(PROCESS);
    r.block();
    assert!(!r.host.is_save_state_dirty());
    let (_, modified, _) = r.idle();
    assert_eq!(
        modified,
        vec![
            ParamModifiedInfo { param_id: ParamID(1), new_value: Some(ParamValue(6)), is_gesturing: true },
            ParamModifiedInfo { param_id: ParamID(3), new_value: None, is_gesturing: true },
        ]
    );
    assert!(!r.host.is_save_state_dirty());
    r.block();
    let (_, modified, _) = r.idle();
    assert_eq!(
        modified,
        vec![ParamModifiedInfo {
            param_id: ParamID(1),
            new_value: Some(ParamValue(6)),
            is_gesturing: true
        }]
    );
    assert!(r.host.is_save_state_dirty());
    let (_, modified, _) = r.idle();
    assert_eq!(modified, vec![]);
}

#[test]
fn the_total_of_channels_stops_at_the_largest_count() {
    let ports = PluginAudioPortsExt {
        inputs: vec![AudioPortInfo { stable_id: 0, channels: u16::MAX }; 3],
        outputs: vec![],
    };
    assert_eq!(ports.total_in_channels(), 3 * 65535);
    assert_eq!(ports.total_out_channels(), 0);
    assert!(ports.same_as(&ports.clone()));
    assert!(!ports.same_as(&PluginAudioPortsExt::empty()));
    let notes = PluginNotePortsExt {
        inputs: vec![NotePortInfo { stable_id: 1, supported_dialects: 3, preferred_dialect: 1 }],
        outputs: vec![],
    };
    assert!(notes.same_as(&notes.clone()));
    assert!(!notes.same_as(&PluginNotePortsExt::empty()));
}

#[test]
fn what_is_asked_about_the_window_goes_to_the_plugin() {
    let mut r = rig();
    assert!(r.host.supports_gui(true));
    assert!(!r.host.supports_gui(false));
    assert_eq!(r.host.create_new_floating_gui(Some("Gain")), Ok(()));
    assert_eq!(r.host.adjust_gui_size(GuiSize { width: 7, height: 3 }), GuiSize { width: 6, height: 3 });
    assert!(r.host.set_gui_scale(ParamValue(2)));
    assert!(!r.host.set_gui_scale(ParamValue(0)));
    assert_eq!(r.host.show_gui(), Ok(()));
    assert_eq!(r.host.hide_gui(), Err("cannot hide".to_string()));
    assert!(r.host.gui_resize_hints().unwrap().can_resize_horizontally);
    r.host.destroy_gui();
    r.host.update_tempo_map(&dropseed::plugin::TempoMap {
        beats_per_minute: ParamValue(140),
        sample_rate: RATE,
    });
    let window = raw_window_handle::RawWindowHandle::Xlib(raw_window_handle::XlibWindowHandle::empty());
    let made = r.host.create_new_embedded_gui(None, Some(GuiSize { width: 3, height: 4 }), window);
    assert_eq!(
        made,
        Ok(dropseed::plugin::EmbeddedGuiInfo { size: GuiSize { width: 3, height: 4 }, resizable: true })
    );
    assert_eq!(r.host.create_new_embedded_gui(None, None, window), Err("no size".to_string()));
    assert_eq!(r.calls(), vec!["floating Some(\"Gain\")", "show", "destroy_gui", "tempo 140"]);
    assert!(!r.host.is_save_state_dirty());
    assert_eq!(r.host.first_schedule(), 0);
    r.graph.needs_recompile = true;
    r.activate().ok().unwrap();
    assert_eq!(r.host.first_schedule(), 8);
}

#[test]
fn a_plugin_that_the_audio_thread_has_not_let_go_of_cannot_be_activated() {
    let mut r = rig();
    r.activate().ok().unwrap();
    r.host.schedule_deactivate();
    r.block();
    assert_eq!(r.host.state(), PluginState::WaitingToDrop);
    assert!(matches!(r.host.can_activate(), Err(ActivatePluginError::AlreadyActive)));
    assert!(matches!(r.activate(), Err(ActivatePluginError::AlreadyActive)));
    r.host.drop_processor();
    assert_eq!(r.host.state(), PluginState::DroppedAndReadyToDeactivate);
    assert!(matches!(r.activate(), Err(ActivatePluginError::AlreadyActive)));
    assert_eq!(r.host.state(), PluginState::DroppedAndReadyToDeactivate);
    r.idle();
    assert!(r.host.can_activate().is_ok());
}
