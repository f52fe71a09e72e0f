//! The lifecycle word of one plug-in.

use vstd::prelude::*;

verus! {

/// Where one plug-in stands in its lifecycle.
#[derive(Debug, Clone, Copy, PartialEq, Eq, Structural)]
pub enum PluginState {
    /// Not activated; only the control thread touches the plug-in.
    Inactive,
    /// The last attempt to activate failed.
    InactiveWithError,
    /// Activated and asleep; the audio thread may start processing.
    ActiveAndSleeping,
    /// Activated and processing.
    ActiveAndProcessing,
    /// Processing, to be put to sleep by the first block whose inputs are silent.
    ActiveAndWaitingForQuiet,
    /// Activated, but the plug-in failed to start processing.
    ActiveWithError,
    /// The audio thread has stopped using the plug-in and waits to let go of it.
    WaitingToDrop,
    /// The audio thread has let go; the control thread may deactivate.
    DroppedAndReadyToDeactivate,
}

impl PluginState {
    /// Every state but the two inactive ones and the two on the way out.
    pub open spec fn active(&self) -> bool {
        !(self is Inactive || self is InactiveWithError || self is WaitingToDrop
            || self is DroppedAndReadyToDeactivate)
    }

    /// The two states in which the plug-in is between start and stop of processing.
    pub open spec fn processing(&self) -> bool {
        self is ActiveAndProcessing || self is ActiveAndWaitingForQuiet
    }

    /// The one state in which the plug-in is activated and asleep.
    pub open spec fn sleeping(&self) -> bool {
        self is ActiveAndSleeping
    }

    /// The two states from which a plug-in can be activated.
    pub open spec fn inactive(&self) -> bool {
        self is Inactive || self is InactiveWithError
    }

    /// The number that stands for a state in the shared word.
    pub open spec fn word(self) -> u32 {
        match self {
            PluginState::Inactive => 0,
            PluginState::InactiveWithError => 1,
            PluginState::ActiveAndSleeping => 2,
            PluginState::ActiveAndProcessing => 3,
            PluginState::ActiveAndWaitingForQuiet => 4,
            PluginState::ActiveWithError => 5,
            PluginState::WaitingToDrop => 6,
            PluginState::DroppedAndReadyToDeactivate => 7,
        }
    }

    /// The state that a word stands for. A word that no state is written as
    /// reads as a failed activation.
    pub open spec fn of_word(w: u32) -> PluginState {
        if w == 0 {
            PluginState::Inactive
        } else if w == 2 {
            PluginState::ActiveAndSleeping
        } else if w == 3 {
            PluginState::ActiveAndProcessing
        } else if w == 4 {
            PluginState::ActiveAndWaitingForQuiet
        } else if w == 5 {
            PluginState::ActiveWithError
        } else if w == 6 {
            PluginState::WaitingToDrop
        } else if w == 7 {
            PluginState::DroppedAndReadyToDeactivate
        } else {
            PluginState::InactiveWithError
        }
    }

    /// Whether the plug-in is active.
    #[verifier::when_used_as_spec(active)]
    pub fn is_active(&self) -> (r: bool)
        ensures
            r == self.active(),
    {
        !matches!(
            self,
            PluginState::Inactive | PluginState::InactiveWithError | PluginState::WaitingToDrop
                | PluginState::DroppedAndReadyToDeactivate
        )
    }

    /// Whether the plug-in is between start and stop of processing.
    #[verifier::when_used_as_spec(processing)]
    pub fn is_processing(&self) -> (r: bool)
        ensures
            r == self.processing(),
    {
        matches!(self, PluginState::ActiveAndProcessing | PluginState::ActiveAndWaitingForQuiet)
    }

    /// Whether the plug-in is activated and asleep.
    #[verifier::when_used_as_spec(sleeping)]
    pub fn is_sleeping(&self) -> (r: bool)
        ensures
            r == self.sleeping(),
    {
        *self == PluginState::ActiveAndSleeping
    }

    /// Whether the plug-in can be activated.
    #[verifier::when_used_as_spec(inactive)]
    pub fn is_inactive(&self) -> (r: bool)
        ensures
            r == self.inactive(),
    {
        matches!(self, PluginState::Inactive | PluginState::InactiveWithError)
    }

    /// The word that is stored for this state.
    pub fn to_word(self) -> (w: u32)
        ensures
            w == self.word(),
            w < 8,
    {
        match self {
            PluginState::Inactive => 0,
            PluginState::InactiveWithError => 1,
            PluginState::ActiveAndSleeping => 2,
            PluginState::ActiveAndProcessing => 3,
            PluginState::ActiveAndWaitingForQuiet => 4,
            PluginState::ActiveWithError => 5,
            PluginState::WaitingToDrop => 6,
            PluginState::DroppedAndReadyToDeactivate => 7,
        }
    }
}

impl From<u32> for PluginState {
    fn from(s: u32) -> (r: Self) {
        match s {
            0 => PluginState::Inactive,
            1 => PluginState::InactiveWithError,
            2 => PluginState::ActiveAndSleeping,
            3 => PluginState::ActiveAndProcessing,
            4 => PluginState::ActiveAndWaitingForQuiet,
            5 => PluginState::ActiveWithError,
            6 => PluginState::WaitingToDrop,
            7 => PluginState::DroppedAndReadyToDeactivate,
            _ => PluginState::InactiveWithError,
        }
    }
}

impl vstd::std_specs::convert::FromSpecImpl<u32> for PluginState {
    open spec fn obeys_from_spec() -> bool {
        true
    }

    open spec fn from_spec(s: u32) -> Self {
        PluginState::of_word(s)
    }
}

/// Reading back the word of a state gives that state.
pub proof fn lemma_word_round_trip(s: PluginState)
    ensures
        PluginState::of_word(s.word()) == s,
{
}

/// The lifecycle word that the control side and the audio side of one plug-in
/// both read and write.
#[derive(Debug)]
pub struct SharedPluginState {
    word: u32,
}

impl View for SharedPluginState {
    type V = PluginState;

    closed spec fn view(&self) -> PluginState {
        PluginState::of_word(self.word)
    }
}

impl SharedPluginState {
    /// A word that reads `Inactive`.
    pub fn new() -> (r: Self)
        ensures
            r@ == PluginState::Inactive,
    {
        SharedPluginState { word: 0 }
    }

    /// The state that was stored last.
    pub fn get(&self) -> (s: PluginState)
        ensures
            s == self@,
    {
        PluginState::from(self.word)
    }

    /// Stores a state; nothing else changes.
    pub fn set(&mut self, state: PluginState)
        ensures
            final(self)@ == state,
    {
        self.word = state.to_word();
    }
}

} // verus!
