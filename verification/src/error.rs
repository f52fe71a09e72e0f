//! What can go wrong when a plug-in is activated or one of its parameters
//! is set.

use crate::params::ParamID;
use crate::text::{debug_quoted, debug_text, decimal, decimal_text, joined};
use vstd::prelude::*;
use vstd::string::StringExecFns;

verus! {

/// Why a plug-in could not be activated.
#[derive(Debug)]
pub enum ActivatePluginError {
    /// The plug-in was not loaded, so there is nothing to activate.
    NotLoaded,
    /// The plug-in is active already.
    AlreadyActive,
    /// The plug-in has asked for a restart that has not happened yet.
    RestartScheduled,
    /// The plug-in could not say what audio ports it has.
    PluginFailedToGetAudioPortsExt(String),
    /// The plug-in could not say what note ports it has.
    PluginFailedToGetNotePortsExt(String),
    /// The plug-in could not describe the parameter at this index.
    PluginFailedToGetParamInfo(usize),
    /// The plug-in could not say what value this parameter has.
    PluginFailedToGetParamValue(ParamID),
    /// The plug-in failed to activate, for a reason of its own.
    PluginSpecific(String),
}

/// A parameter id as `{:?}` prints it.
pub open spec fn param_id_text(id: ParamID) -> Seq<char> {
    "ParamID("@ + decimal(id.0 as nat) + ")"@
}

impl ActivatePluginError {
    /// The message of an error.
    pub open spec fn message_text(&self) -> Seq<char> {
        match self {
            ActivatePluginError::NotLoaded => "plugin failed to load from disk"@,
            ActivatePluginError::AlreadyActive => "plugin is already active"@,
            ActivatePluginError::RestartScheduled => "a restart is scheduled for this plugin"@,
            ActivatePluginError::PluginFailedToGetAudioPortsExt(e) => {
                "plugin returned error while getting audio ports extension: "@ + debug_quoted(e@)
            },
            ActivatePluginError::PluginFailedToGetNotePortsExt(e) => {
                "plugin returned error while getting note ports extension: "@ + debug_quoted(e@)
            },
            ActivatePluginError::PluginFailedToGetParamInfo(index) => {
                "plugin returned error while getting parameter info at index: "@ + decimal(
                    *index as nat,
                )
            },
            ActivatePluginError::PluginFailedToGetParamValue(id) => {
                "plugin returned error while getting parameter value with ID: "@ + param_id_text(
                    *id,
                )
            },
            ActivatePluginError::PluginSpecific(e) => {
                "plugin returned error while activating: "@ + debug_quoted(e@)
            },
        }
    }

    /// The message of an error, for a person to read.
    pub fn message(&self) -> (msg: String)
        ensures
            msg@ == self.message_text(),
    {
        match self {
            ActivatePluginError::NotLoaded => String::from_str("plugin failed to load from disk"),
            ActivatePluginError::AlreadyActive => String::from_str("plugin is already active"),
            ActivatePluginError::RestartScheduled => String::from_str(
                "a restart is scheduled for this plugin",
            ),
            ActivatePluginError::PluginFailedToGetAudioPortsExt(e) => joined(
                "plugin returned error while getting audio ports extension: ",
                debug_text(e.as_str()).as_str(),
            ),
            ActivatePluginError::PluginFailedToGetNotePortsExt(e) => joined(
                "plugin returned error while getting note ports extension: ",
                debug_text(e.as_str()).as_str(),
            ),
            ActivatePluginError::PluginFailedToGetParamInfo(index) => joined(
                "plugin returned error while getting parameter info at index: ",
                decimal_text(*index as u64).as_str(),
            ),
            ActivatePluginError::PluginFailedToGetParamValue(id) => joined(
                "plugin returned error while getting parameter value with ID: ",
                param_id_debug(*id).as_str(),
            ),
            ActivatePluginError::PluginSpecific(e) => joined(
                "plugin returned error while activating: ",
                debug_text(e.as_str()).as_str(),
            ),
        }
    }
}

/// A parameter id as `{:?}` prints it.
pub fn param_id_debug(id: ParamID) -> (text: String)
    ensures
        text@ == param_id_text(id),
{
    let mut text = joined("ParamID(", decimal_text(id.0 as u64).as_str());
    text.append(")");
    text
}

impl From<String> for ActivatePluginError {
    fn from(e: String) -> (r: Self) {
        ActivatePluginError::PluginSpecific(e)
    }
}

impl vstd::std_specs::convert::FromSpecImpl<String> for ActivatePluginError {
    open spec fn obeys_from_spec() -> bool {
        true
    }

    open spec fn from_spec(e: String) -> Self {
        ActivatePluginError::PluginSpecific(e)
    }
}

/// Why a parameter could not be set.
#[derive(Debug, Clone, Copy, PartialEq, Eq, Structural)]
pub enum SetParamValueError {
    /// The plug-in has no parameter with this id.
    ParamDoesNotExist(ParamID),
    /// The parameter cannot be set by the host.
    ParamIsReadOnly(ParamID),
    /// The parameter does not take modulation.
    ParamIsNotModulatable(ParamID),
}

} // verus!
