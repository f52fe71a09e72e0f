//! What the control side and the audio side of one plug-in share: the
//! lifecycle word, the request flags, and the parameter queues in both
//! directions.

use crate::host_request::HostRequest;
use crate::params::{ParamGestureInfo, ParamValue};
use crate::plugin_state::SharedPluginState;
use crate::reducing_queue::{ReducValue, ReducingQueue};
use vstd::prelude::*;

verus! {

/// A value, or an amount of modulation, on its way to the audio thread. A
/// newer one takes the place of the one that waits.
#[derive(Debug, Clone, Copy, PartialEq, Eq, Structural)]
pub struct MainToAudioParamValue {
    pub value: ParamValue,
}

impl ReducValue for MainToAudioParamValue {
    open spec fn merged(self, newer: Self) -> Self {
        newer
    }

    fn update(&mut self, newer: &Self) {
        *self = *newer;
    }
}

/// What the audio thread reports of one parameter: a new value, the begin
/// or end of a gesture, or both. A newer report overwrites, of the one that
/// waits, only the fields that it fills.
#[derive(Debug, Clone, Copy, PartialEq, Eq, Structural)]
pub struct AudioToMainParamValue {
    pub value: Option<ParamValue>,
    pub gesture: Option<ParamGestureInfo>,
}

impl ReducValue for AudioToMainParamValue {
    open spec fn merged(self, newer: Self) -> Self {
        AudioToMainParamValue {
            value: if newer.value is Some {
                newer.value
            } else {
                self.value
            },
            gesture: if newer.gesture is Some {
                newer.gesture
            } else {
                self.gesture
            },
        }
    }

    fn update(&mut self, newer: &Self) {
        if newer.value.is_some() {
            self.value = newer.value;
        }
        if newer.gesture.is_some() {
            self.gesture = newer.gesture;
        }
    }
}

/// The three parameter queues of an activated plug-in.
pub struct ParamQueues {
    /// Values from the control thread to the audio thread.
    pub to_audio_value: ReducingQueue<MainToAudioParamValue>,
    /// Amounts of modulation from the control thread to the audio thread.
    pub to_audio_mod: ReducingQueue<MainToAudioParamValue>,
    /// Reports from the audio thread to the control thread.
    pub to_main_value: ReducingQueue<AudioToMainParamValue>,
}

impl ParamQueues {
    /// All three queues are in order.
    pub open spec fn wf(&self) -> bool {
        &&& self.to_audio_value.wf()
        &&& self.to_audio_mod.wf()
        &&& self.to_main_value.wf()
    }

    /// Three queues in which nothing waits, with room for `num_params` keys each.
    pub fn new(num_params: usize) -> (q: Self)
        ensures
            q.wf(),
            q.to_audio_value@ == crate::reducing_queue::QueueState::<MainToAudioParamValue>::empty(),
            q.to_audio_mod@ == crate::reducing_queue::QueueState::<MainToAudioParamValue>::empty(),
            q.to_main_value@ == crate::reducing_queue::QueueState::<AudioToMainParamValue>::empty(),
    {
        ParamQueues {
            to_audio_value: ReducingQueue::new(num_params),
            to_audio_mod: ReducingQueue::new(num_params),
            to_main_value: ReducingQueue::new(num_params),
        }
    }
}

/// All that the two sides of one plug-in share.
pub struct PluginHostChannel {
    pub state: SharedPluginState,
    pub host_request: HostRequest,
    pub param_queues: Option<ParamQueues>,
    /// The plug-in is bypassed: the audio thread passes its inputs on.
    pub bypassed: bool,
}

impl PluginHostChannel {
    /// The queues, where there are any, are in order.
    pub open spec fn wf(&self) -> bool {
        self.param_queues matches Some(q) ==> q.wf()
    }

    /// A channel for a plug-in that is not activated: no flag waits and there
    /// are no queues.
    pub fn new(bypassed: bool) -> (c: Self)
        ensures
            c.wf(),
            c.bypassed == bypassed,
            c.state@ == crate::plugin_state::PluginState::Inactive,
            c.host_request.pending().bits == 0,
            c.host_request.pending_gui_size() is None,
            c.param_queues is None,
    {
        PluginHostChannel {
            state: SharedPluginState::new(),
            host_request: HostRequest::new(),
            param_queues: None,
            bypassed,
        }
    }
}

} // verus!
