use dropseed::error::ActivatePluginError;
use dropseed::host_request::{GuiSize, HostRequest, PROCESS, RESTART};
use dropseed::params::{ParamID, ParamInfo, ParamValue};
use dropseed::plugin::{
    GuiResizeHints, PluginActivatedInfo, PluginAudioPortsExt, PluginAudioThread,
    PluginInstanceType, PluginMainThread, PluginNotePortsExt, ProcInfo, ProcessStatus, SampleRate,
};
use dropseed::buffers::ProcBuffers;
use dropseed::events::ProcEvent;
use dropseed::plugin_key::{PluginFormat, ScannedPluginKey};
use dropseed::plugin_scanner::{
    ClapVersion, NewPluginInstanceError, PluginDescriptor, PluginFactory, PluginScanner,
    ScannedBinary, MAX_SCAN_DEPTH,
};
use dropseed::plugin_state::PluginState;
use dropseed::save_state::{PluginPreset, PluginSaveState};
use std::cell::RefCell;
use std::rc::Rc;

struct Audio;

impl PluginAudioThread for Audio {
    fn start_processing(&mut self) -> Result<(), String> {
        Ok(())
    }

    fn stop_processing(&mut self) {}

    fn process(
        &mut self,
        _: &ProcInfo,
        _: &mut ProcBuffers,
        _: &Vec<ProcEvent>,
        _: &mut Vec<ProcEvent>,
    ) -> ProcessStatus {
        ProcessStatus::Continue
    }

    fn param_flush(&mut self, _: &Vec<ProcEvent>, _: &mut Vec<ProcEvent>) {}
}

struct Main {
    log: Rc<RefCell<Vec<String>>>,
    init_ok: bool,
}

impl PluginMainThread for Main {
    type AudioThread = Audio;
    type Handle = ();

    fn init(&mut self, preset: Option<Vec<u8>>) -> Result<(), String> {
        self.log.borrow_mut().push(format!("init {:?}", preset));
        if self.init_ok {
            Ok(())
        } else {
            Err("bad preset".into())
        }
    }

    fn load_save_state(&mut self, _: Vec<u8>) -> Result<(), String> {
        self.log.borrow_mut().push("load".into());
        Ok(())
    }

    fn collect_save_state(&mut self) -> Result<Option<Vec<u8>>, String> {
        Ok(None)
    }

    fn audio_ports_ext(&mut self) -> Result<PluginAudioPortsExt, String> {
        Ok(PluginAudioPortsExt::empty())
    }

    fn note_ports_ext(&mut self) -> Result<PluginNotePortsExt, String> {
        Ok(PluginNotePortsExt::empty())
    }

    fn num_params(&mut self) -> u32 {
        0
    }

    fn param_info(&mut self, _: usize) -> Result<ParamInfo, ()> {
        Err(())
    }

    fn param_value(&self, _: ParamID) -> Result<ParamValue, ()> {
        Err(())
    }

    fn param_value_to_text(&self, _: ParamID, _: ParamValue, _: &mut String) -> Result<(), String> {
        Ok(())
    }

    fn param_text_to_value(&self, _: ParamID, _: &str) -> Option<ParamValue> {
        None
    }

    fn activate(
        &mut self,
        _: SampleRate,
        _: u32,
        _: u32,
    ) -> Result<PluginActivatedInfo<Audio, ()>, String> {
        Ok(PluginActivatedInfo { processor: Audio, internal_handle: None })
    }

    fn deactivate(&mut self) {}

    fn on_main_thread(&mut self) {}

    fn latency(&self) -> i64 {
        0
    }

    fn has_automation_out_port(&self) -> bool {
        false
    }

    fn update_tempo_map(&mut self, _: &dropseed::plugin::TempoMap) {}

    fn supports_gui(&self, _: bool) -> bool {
        false
    }

    fn create_new_floating_gui(&mut self, _: Option<&str>) -> Result<(), String> {
        Ok(())
    }

    fn create_new_embedded_gui(
        &mut self,
        _: Option<ParamValue>,
        _: Option<GuiSize>,
        _: raw_window_handle::RawWindowHandle,
    ) -> Result<dropseed::plugin::EmbeddedGuiInfo, String> {
        Err("no window".into())
    }

    fn adjust_gui_size(&mut self, size: GuiSize) -> GuiSize {
        size
    }

    fn set_gui_scale(&mut self, _: ParamValue) -> bool {
        false
    }

    fn show_gui(&mut self) -> Result<(), String> {
        Ok(())
    }

    fn hide_gui(&mut self) -> Result<(), String> {
        Ok(())
    }

    fn destroy_gui(&mut self) {}

    fn gui_resize_hints(&self) -> Option<GuiResizeHints> {
        None
    }

    fn set_gui_size(&mut self, size: GuiSize) -> Result<GuiSize, String> {
        Ok(size)
    }
}

struct Factory {
    id: &'static str,
    version: &'static str,
    log: Rc<RefCell<Vec<String>>>,
    make_ok: bool,
    init_ok: bool,
}

impl PluginFactory for Factory {
    type MainThread = Main;

    fn description(&self) -> PluginDescriptor {
        PluginDescriptor {
            id: self.id.into(),
            version: self.version.into(),
            name: "Name".into(),
            vendor: "Vendor".into(),
        }
    }

    fn new_instance(&mut self, host_request: &mut HostRequest) -> Result<Main, String> {
        self.log.borrow_mut().push(format!("new {} {}", self.id, self.version));
        host_request.request(RESTART | PROCESS);
        if self.make_ok {
            Ok(Main { log: self.log.clone(), init_ok: self.init_ok })
        } else {
            Err("out of instances".into())
        }
    }
}

fn factory(id: &'static str, version: &'static str, log: &Rc<RefCell<Vec<String>>>) -> Factory {
    Factory { id, version, log: log.clone(), make_ok: true, init_ok: true }
}

fn save_state(rdn: &str, format: PluginFormat) -> PluginSaveState {
    PluginSaveState {
        key: ScannedPluginKey { rdn: rdn.into(), format },
        activation_requested: true,
        backup_audio_ports: None,
        backup_note_ports: None,
        preset: Some(PluginPreset { version: None, bytes: vec![3] }),
    }
}

const V: ClapVersion = ClapVersion { major: 1, minor: 0, revision: 12 };

fn scanner(log: &Rc<RefCell<Vec<String>>>) -> PluginScanner<Factory> {
    let mut s = PluginScanner::new();
    s.scan_internal_plugin(factory("both", "internal", log)).unwrap();
    s.scan_internal_plugin(factory("only.internal", "internal", log)).unwrap();
    let res = s.rescan_plugin_directories(vec![ScannedBinary::Factories(vec![
        (factory("both", "clap", log), V),
        (factory("only.clap", "clap", log), V),
    ])]);
    assert_eq!(res.scanned_plugins.len(), 2);
    s
}

#[test]
fn directories_are_added_once_and_only_if_they_exist() {
    let mut s: PluginScanner<Factory> = PluginScanner::new();
    assert!(!s.add_clap_scan_directory("/usr/lib/clap".into(), true));
    assert!(!s.add_clap_scan_directory("/usr/local/lib/clap".into(), true));
    assert!(!s.add_clap_scan_directory("/opt/clap".into(), false));
    assert!(s.add_clap_scan_directory("/opt/clap".into(), true));
    assert!(!s.add_clap_scan_directory("/opt/clap".into(), true));
    assert!(s.add_clap_scan_directory("/opt/more".into(), true));
    assert_eq!(
        s.scan_directories(Some("/home/me".into())),
        vec!["/usr/lib/clap", "/usr/local/lib/clap", "/home/me/.clap", "/opt/clap", "/opt/more"]
    );
    assert_eq!(
        s.scan_directories(None),
        vec!["/usr/lib/clap", "/usr/local/lib/clap", "/opt/clap", "/opt/more"]
    );
    assert!(s.remove_clap_scan_directory("/opt/clap".into()));
    assert!(!s.remove_clap_scan_directory("/opt/clap".into()));
    assert!(!s.remove_clap_scan_directory("/usr/lib/clap".into()));
    assert_eq!(s.scan_directories(None), vec!["/usr/lib/clap", "/usr/local/lib/clap", "/opt/more"]);
    assert_eq!(MAX_SCAN_DEPTH, 10);
}

#[test]
fn a_rescan_lists_each_name_once_and_keeps_the_failures() {
    let log = Rc::new(RefCell::new(vec![]));
    let mut s: PluginScanner<Factory> = PluginScanner::new();
    let found = vec![
        ScannedBinary::Factories(vec![(factory("a", "1", &log), V), (factory("b", "1", &log), V)]),
        ScannedBinary::Unreadable("/opt/broken.clap".into(), "not a plug-in".into()),
        ScannedBinary::Factories(vec![(
            factory("a", "2", &log),
            ClapVersion { major: 2, minor: 3, revision: 4 },
        )]),
        ScannedBinary::Unreadable("/opt/worse.clap".into(), "no entry".into()),
        ScannedBinary::Factories(vec![]),
    ];
    let res = s.rescan_plugin_directories(found);
    let listed: Vec<(String, String, Option<String>)> = res
        .scanned_plugins
        .iter()
        .map(|p| (p.key.rdn.clone(), p.description.version.clone(), p.format_version.clone()))
        .collect();
    assert_eq!(
        listed,
        vec![
            ("a".to_string(), "1".to_string(), Some("1.0.12".to_string())),
            ("b".to_string(), "1".to_string(), Some("1.0.12".to_string())),
        ]
    );
    assert!(res.scanned_plugins.iter().all(|p| p.format == PluginFormat::Clap));
    assert_eq!(
        res.failed_plugins,
        vec![
            ("/opt/broken.clap".to_string(), "not a plug-in".to_string()),
            ("/opt/worse.clap".to_string(), "no entry".to_string()),
        ]
    );
    let made = s.create_plugin(save_state("a", PluginFormat::Clap), 1, false);
    assert!(made.status.is_ok());
    assert_eq!(log.borrow()[0], "new a 2");
    let res = s.rescan_plugin_directories(vec![]);
    assert!(res.scanned_plugins.is_empty());
    let made = s.create_plugin(save_state("a", PluginFormat::Clap), 1, false);
    assert!(made.status.is_err());
}

#[test]
fn a_built_in_plugin_is_known_under_its_own_name() {
    let log = Rc::new(RefCell::new(vec![]));
    let mut s: PluginScanner<Factory> = PluginScanner::new();
    let key = s.scan_internal_plugin(factory("x", "1", &log)).unwrap();
    assert_eq!(key.rdn, "x");
    assert_eq!(key.format, PluginFormat::Internal);
    s.scan_internal_plugin(factory("x", "2", &log)).unwrap();
    let made = s.create_plugin(save_state("x", PluginFormat::Internal), 1, false);
    assert!(made.status.is_ok());
    assert_eq!(*log.borrow(), vec!["new x 2", "init Some([3])"]);
    assert!(key.same_as(&key.clone()));
    assert!(!key.same_as(&ScannedPluginKey { rdn: "x".into(), format: PluginFormat::Clap }));
}

#[test]
fn an_instance_is_made_of_the_format_that_the_saved_state_names() {
    let log = Rc::new(RefCell::new(vec![]));
    let mut s = scanner(&log);
    let made = s.create_plugin(save_state("both", PluginFormat::Clap), 5, false);
    assert!(made.status.is_ok());
    assert_eq!(made.save_state.key.format, PluginFormat::Clap);
    assert_eq!(made.plugin_host.id().node_ref, 5);
    assert_eq!(made.plugin_host.id().format, PluginInstanceType::Clap);
    assert_eq!(made.plugin_host.state(), PluginState::Inactive);
    assert!(made.plugin_host.can_activate().is_ok());
    assert_eq!(*log.borrow(), vec!["new both clap", "init Some([3])"]);
}

#[test]
fn with_a_fallback_the_built_in_plugin_is_taken_first() {
    let log = Rc::new(RefCell::new(vec![]));
    let mut s = scanner(&log);
    let made = s.create_plugin(save_state("both", PluginFormat::Clap), 5, true);
    assert!(made.status.is_ok());
    assert_eq!(made.save_state.key.format, PluginFormat::Internal);
    assert_eq!(made.save_state.key.rdn, "both");
    assert!(made.save_state.activation_requested);
    assert_eq!(made.plugin_host.id().format, PluginInstanceType::Internal);
    assert_eq!(log.borrow()[0], "new both internal");
    let made = s.create_plugin(save_state("only.clap", PluginFormat::Internal), 5, true);
    assert!(made.status.is_ok());
    assert_eq!(made.save_state.key.format, PluginFormat::Clap);
    assert_eq!(made.plugin_host.id().format, PluginInstanceType::Clap);
}

#[test]
fn a_plugin_that_is_missing_in_the_format_leaves_an_unloaded_instance() {
    let log = Rc::new(RefCell::new(vec![]));
    let mut s = scanner(&log);
    let made = s.create_plugin(save_state("only.clap", PluginFormat::Internal), 5, false);
    match made.status {
        Err(NewPluginInstanceError::FormatNotFound(n, f)) => {
            assert_eq!(n, "only.clap");
            assert_eq!(f, PluginFormat::Internal);
        }
        _ => panic!("wrong status"),
    }
    assert_eq!(made.save_state.key.format, PluginFormat::Internal);
    assert_eq!(made.plugin_host.id().format, PluginInstanceType::Unloaded);
    assert!(matches!(made.plugin_host.can_activate(), Err(ActivatePluginError::NotLoaded)));
    let made = s.create_plugin(save_state("only.internal", PluginFormat::Clap), 5, false);
    assert!(matches!(
        made.status,
        Err(NewPluginInstanceError::FormatNotFound(_, PluginFormat::Clap))
    ));
    let made = s.create_plugin(save_state("nowhere", PluginFormat::Internal), 5, true);
    assert!(matches!(
        made.status,
        Err(NewPluginInstanceError::FormatNotFound(_, PluginFormat::Clap))
    ));
    assert_eq!(*log.borrow(), Vec::<String>::new());
}

#[test]
fn a_factory_or_a_plugin_that_fails_leaves_an_unloaded_host() {
    let log = Rc::new(RefCell::new(vec![]));
    let mut s: PluginScanner<Factory> = PluginScanner::new();
    s.scan_internal_plugin(Factory { id: "f", version: "1", log: log.clone(), make_ok: false, init_ok: true })
        .unwrap();
    s.scan_internal_plugin(Factory { id: "i", version: "1", log: log.clone(), make_ok: true, init_ok: false })
        .unwrap();
    let made = s.create_plugin(save_state("f", PluginFormat::Internal), 2, false);
    match &made.status {
        Err(e @ NewPluginInstanceError::FactoryFailedToCreateNewInstance(n, reason)) => {
            assert_eq!(n, "f");
            assert_eq!(reason, "out of instances");
            assert_eq!(
                e.message(),
                "Failed to create instance of plugin f: plugin factory failed to create new instance: out of instances"
            );
        }
        _ => panic!("wrong status"),
    }
    assert_eq!(made.plugin_host.id().format, PluginInstanceType::Internal);
    assert!(matches!(made.plugin_host.can_activate(), Err(ActivatePluginError::NotLoaded)));
    let made = s.create_plugin(save_state("i", PluginFormat::Internal), 2, false);
    match &made.status {
        Err(e @ NewPluginInstanceError::PluginFailedToInit(n, reason)) => {
            assert_eq!(n, "i");
            assert_eq!(reason, "bad preset");
            assert_eq!(
                e.message(),
                "Failed to create instance of plugin i: plugin instance failed to initialize: bad preset"
            );
        }
        _ => panic!("wrong status"),
    }
    assert!(matches!(made.plugin_host.can_activate(), Err(ActivatePluginError::NotLoaded)));
}

#[test]
fn messages_of_instance_errors() {
    assert_eq!(
        NewPluginInstanceError::NotFound("org.x".into()).message(),
        "Failed to create instance of plugin org.x: not in list of scanned plugins"
    );
    assert_eq!(
        NewPluginInstanceError::FormatNotFound("org.x".into(), PluginFormat::Clap).message(),
        "Failed to create instance of plugin org.x: the format Clap not found for this plugin"
    );
    assert_eq!(
        NewPluginInstanceError::FormatNotFound("".into(), PluginFormat::Internal).message(),
        "Failed to create instance of plugin : the format Internal not found for this plugin"
    );
    assert_eq!(PluginFormat::Internal.name(), "internal");
    assert_eq!(PluginFormat::Clap.name(), "clap");
    assert_eq!(PluginFormat::Clap.debug_name(), "Clap");
    assert_eq!(ClapVersion { major: 10, minor: 0, revision: 4294967295 }.text(), "10.0.4294967295");
}

#[test]
fn messages_of_activation_errors() {
    assert_eq!(ActivatePluginError::NotLoaded.message(), "plugin failed to load from disk");
    assert_eq!(ActivatePluginError::AlreadyActive.message(), "plugin is already active");
    assert_eq!(
        ActivatePluginError::RestartScheduled.message(),
        "a restart is scheduled for this plugin"
    );
    assert_eq!(
        ActivatePluginError::PluginFailedToGetAudioPortsExt("a \"b\"\n".into()).message(),
        "plugin returned error while getting audio ports extension: \"a \\\"b\\\"\\n\""
    );
    assert_eq!(
        ActivatePluginError::PluginFailedToGetNotePortsExt("x".into()).message(),
        "plugin returned error while getting note ports extension: \"x\""
    );
    assert_eq!(
        ActivatePluginError::PluginFailedToGetParamInfo(0).message(),
        "plugin returned error while getting parameter info at index: 0"
    );
    assert_eq!(
        ActivatePluginError::PluginFailedToGetParamInfo(1203).message(),
        "plugin returned error while getting parameter info at index: 1203"
    );
    assert_eq!(
        ActivatePluginError::PluginFailedToGetParamValue(ParamID(4294967295)).message(),
        "plugin returned error while getting parameter value with ID: ParamID(4294967295)"
    );
    assert_eq!(
        ActivatePluginError::PluginSpecific("".into()).message(),
        "plugin returned error while activating: \"\""
    );
    assert_eq!(
        ActivatePluginError::from("late".to_string()).message(),
        "plugin returned error while activating: \"late\""
    );
    assert_eq!(dropseed::text::joined("a", "b"), "ab");
    assert_eq!(dropseed::text::signed_decimal_text(-7), "-7");
    assert_eq!(dropseed::text::signed_decimal_text(i64::MAX), "9223372036854775807");
    assert_eq!(dropseed::error::param_id_debug(ParamID(0)), "ParamID(0)");
    assert_eq!(format!("{:?}", ParamID(12)), "ParamID(12)");
}

#[test]
fn plugins_are_listed_in_the_order_in_which_their_names_came() {
    let log = Rc::new(RefCell::new(vec![]));
    let mut s: PluginScanner<Factory> = PluginScanner::new();
    let found = vec![
        ScannedBinary::Factories(vec![(factory("b", "1", &log), V)]),
        ScannedBinary::Factories(vec![
            (factory("a", "1", &log), ClapVersion { major: 1, minor: 1, revision: 0 }),
            (factory("b", "2", &log), ClapVersion { major: 9, minor: 9, revision: 9 }),
        ]),
        ScannedBinary::Factories(vec![(factory("c", "1", &log), V), (factory("a", "2", &log), V)]),
    ];
    let res = s.rescan_plugin_directories(found);
    let listed: Vec<(String, Option<String>)> =
        res.scanned_plugins.iter().map(|p| (p.key.rdn.clone(), p.format_version.clone())).collect();
    assert_eq!(
        listed,
        vec![
            ("b".to_string(), Some("1.0.12".to_string())),
            ("a".to_string(), Some("1.1.0".to_string())),
            ("c".to_string(), Some("1.0.12".to_string())),
        ]
    );
    assert!(res.failed_plugins.is_empty());
    for name in ["a", "b"] {
        assert!(s.create_plugin(save_state(name, PluginFormat::Clap), 1, false).status.is_ok());
    }
    assert_eq!(log.borrow()[0], "new a 2");
    assert_eq!(log.borrow()[2], "new b 2");
}
