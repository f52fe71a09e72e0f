//! What is kept of a plug-in between sessions.

use crate::host_request::GuiSize;
use crate::plugin::{
    audio_ports_of, bytes_of, note_ports_of, AudioPortInfo, NotePortInfo, PluginAudioPortsExt,
    PluginNotePortsExt,
};
use crate::plugin_key::{PluginFormat, ScannedPluginKey};
use vstd::prelude::*;

verus! {

/// A copy of an optional blob.
pub fn copy_bytes(blob: &Option<Vec<u8>>) -> (r: Option<Vec<u8>>)
    ensures
        bytes_of(r) == bytes_of(*blob),
{
    match blob {
        Some(b) => Some(b.clone()),
        None => None,
    }
}

/// A copy of an optional port configuration.
pub fn copy_audio_ports(ports: &Option<PluginAudioPortsExt>) -> (r: Option<PluginAudioPortsExt>)
    ensures
        audio_ports_of(r) == audio_ports_of(*ports),
{
    match ports {
        Some(p) => Some(p.clone()),
        None => None,
    }
}

/// A copy of an optional port configuration.
pub fn copy_note_ports(ports: &Option<PluginNotePortsExt>) -> (r: Option<PluginNotePortsExt>)
    ensures
        note_ports_of(r) == note_ports_of(*ports),
{
    match ports {
        Some(p) => Some(p.clone()),
        None => None,
    }
}

/// What a saved state holds.
pub struct SaveStateView {
    pub key: (Seq<char>, PluginFormat),
    pub active: bool,
    pub backup_audio_ports_ext: Option<(Seq<AudioPortInfo>, Seq<AudioPortInfo>)>,
    pub backup_note_ports_ext: Option<(Seq<NotePortInfo>, Seq<NotePortInfo>)>,
    pub raw_state: Option<Seq<u8>>,
    pub bypassed: bool,
    pub gui_size: Option<GuiSize>,
}

/// The state of a plug-in as it is saved with a project.
#[derive(Debug)]
pub struct DSPluginSaveState {
    /// Which plug-in this is.
    pub key: ScannedPluginKey,
    /// The plug-in is to be activated when the project is loaded.
    pub active: bool,
    /// The audio ports that the plug-in had when it was last activated.
    pub backup_audio_ports_ext: Option<PluginAudioPortsExt>,
    /// The note ports that the plug-in had when it was last activated.
    pub backup_note_ports_ext: Option<PluginNotePortsExt>,
    /// What the plug-in itself saved.
    pub raw_state: Option<Vec<u8>>,
    /// The plug-in is bypassed.
    pub bypassed: bool,
    /// The size of the plug-in's window.
    pub gui_size: Option<GuiSize>,
}

impl View for DSPluginSaveState {
    type V = SaveStateView;

    open spec fn view(&self) -> SaveStateView {
        SaveStateView {
            key: self.key@,
            active: self.active,
            backup_audio_ports_ext: audio_ports_of(self.backup_audio_ports_ext),
            backup_note_ports_ext: note_ports_of(self.backup_note_ports_ext),
            raw_state: bytes_of(self.raw_state),
            bypassed: self.bypassed,
            gui_size: self.gui_size,
        }
    }
}

impl Clone for DSPluginSaveState {
    fn clone(&self) -> (r: Self)
        ensures
            r@ == self@,
    {
        DSPluginSaveState {
            key: self.key.clone(),
            active: self.active,
            backup_audio_ports_ext: copy_audio_ports(&self.backup_audio_ports_ext),
            backup_note_ports_ext: copy_note_ports(&self.backup_note_ports_ext),
            raw_state: copy_bytes(&self.raw_state),
            bypassed: self.bypassed,
            gui_size: self.gui_size,
        }
    }
}

impl DSPluginSaveState {
    /// The state of a plug-in that was never activated and never saved
    /// anything.
    pub fn new_with_default_state(key: ScannedPluginKey) -> (r: Self)
        ensures
            r@ == (SaveStateView {
                key: key@,
                active: true,
                backup_audio_ports_ext: None,
                backup_note_ports_ext: None,
                raw_state: None,
                bypassed: false,
                gui_size: None,
            }),
    {
        DSPluginSaveState {
            key,
            active: true,
            backup_audio_ports_ext: None,
            backup_note_ports_ext: None,
            raw_state: None,
            bypassed: false,
            gui_size: None,
        }
    }
}

/// What a plug-in saved of itself, with the version of the plug-in that saved
/// it.
#[derive(Debug)]
pub struct PluginPreset {
    pub version: Option<String>,
    pub bytes: Vec<u8>,
}

/// What a preset holds.
pub open spec fn preset_of(preset: Option<PluginPreset>) -> Option<(Option<Seq<char>>, Seq<u8>)> {
    match preset {
        Some(p) => Some(
            (
                match p.version {
                    Some(v) => Some(v@),
                    None => None,
                },
                p.bytes@,
            ),
        ),
        None => None,
    }
}

/// A copy of an optional text.
pub fn copy_text(text: &Option<String>) -> (r: Option<String>)
    ensures
        r is Some == text is Some,
        r matches Some(t) ==> t@ == text->0@,
{
    match text {
        Some(t) => Some(t.clone()),
        None => None,
    }
}

/// A copy of an optional preset.
pub fn copy_preset(preset: &Option<PluginPreset>) -> (r: Option<PluginPreset>)
    ensures
        preset_of(r) == preset_of(*preset),
{
    match preset {
        Some(p) => Some(PluginPreset { version: copy_text(&p.version), bytes: p.bytes.clone() }),
        None => None,
    }
}

/// What a saved state with a preset holds.
pub struct PluginSaveStateView {
    pub key: (Seq<char>, PluginFormat),
    pub activation_requested: bool,
    pub backup_audio_ports: Option<(Seq<AudioPortInfo>, Seq<AudioPortInfo>)>,
    pub backup_note_ports: Option<(Seq<NotePortInfo>, Seq<NotePortInfo>)>,
    pub preset: Option<(Option<Seq<char>>, Seq<u8>)>,
}

/// The state of a plug-in as it is saved with a project, with the plug-in's
/// own part as a preset.
#[derive(Debug)]
pub struct PluginSaveState {
    pub key: ScannedPluginKey,
    pub activation_requested: bool,
    pub backup_audio_ports: Option<PluginAudioPortsExt>,
    pub backup_note_ports: Option<PluginNotePortsExt>,
    pub preset: Option<PluginPreset>,
}

impl View for PluginSaveState {
    type V = PluginSaveStateView;

    open spec fn view(&self) -> PluginSaveStateView {
        PluginSaveStateView {
            key: self.key@,
            activation_requested: self.activation_requested,
            backup_audio_ports: audio_ports_of(self.backup_audio_ports),
            backup_note_ports: note_ports_of(self.backup_note_ports),
            preset: preset_of(self.preset),
        }
    }
}

impl Clone for PluginSaveState {
    fn clone(&self) -> (r: Self)
        ensures
            r@ == self@,
    {
        PluginSaveState {
            key: self.key.clone(),
            activation_requested: self.activation_requested,
            backup_audio_ports: copy_audio_ports(&self.backup_audio_ports),
            backup_note_ports: copy_note_ports(&self.backup_note_ports),
            preset: copy_preset(&self.preset),
        }
    }
}

} // verus!
