//! The events that travel between plug-ins within one block.

use crate::params::ParamValue;
use vstd::prelude::*;

verus! {

/// A note that starts, stops, is choked or has ended.
#[derive(Debug, Clone, Copy, PartialEq, Eq, Structural)]
pub struct NoteEvent {
    pub frame: u32,
    pub note_id: i32,
    pub port_index: i16,
    pub channel: i16,
    pub key: i16,
    pub velocity: ParamValue,
}

/// An expression applied to a sounding note.
#[derive(Debug, Clone, Copy, PartialEq, Eq, Structural)]
pub struct NoteExpressionEvent {
    pub frame: u32,
    pub note_id: i32,
    pub port_index: i16,
    pub channel: i16,
    pub key: i16,
    pub expression: i32,
    pub value: ParamValue,
}

/// A short MIDI message.
#[derive(Debug, Clone, Copy, PartialEq, Eq, Structural)]
pub struct MidiEvent {
    pub frame: u32,
    pub port_index: u16,
    pub status: u8,
    pub data1: u8,
    pub data2: u8,
}

/// A MIDI 2.0 packet.
#[derive(Debug, Clone, Copy, PartialEq, Eq, Structural)]
pub struct Midi2Event {
    pub frame: u32,
    pub port_index: u16,
    pub packet: u128,
}

/// A new value of a parameter, or a new amount of modulation on it.
#[derive(Debug, Clone, Copy, PartialEq, Eq, Structural)]
pub struct ParamEvent {
    pub frame: u32,
    pub note_id: i32,
    pub param_id: u32,
    pub port_index: i16,
    pub channel: i16,
    pub key: i16,
    pub value: ParamValue,
}

/// The begin or the end of a gesture on a parameter.
#[derive(Debug, Clone, Copy, PartialEq, Eq, Structural)]
pub struct ParamGestureEvent {
    pub frame: u32,
    pub param_id: u32,
}

/// A step of the transport.
#[derive(Debug, Clone, Copy, PartialEq, Eq, Structural)]
pub struct TransportEvent {
    pub frame: u32,
    pub flags: u32,
    pub song_position: i64,
    pub tempo: ParamValue,
}

/// One event. An event on a parameter may name the node of the plug-in that
/// it is meant for.
#[derive(Debug, Clone, Copy, PartialEq, Eq, Structural)]
pub enum ProcEvent {
    NoteOn(NoteEvent),
    NoteOff(NoteEvent),
    NoteChoke(NoteEvent),
    NoteEnd(NoteEvent),
    NoteExpression(NoteExpressionEvent),
    Midi(MidiEvent),
    Midi2(Midi2Event),
    ParamValue(ParamEvent, Option<u64>),
    ParamMod(ParamEvent, Option<u64>),
    ParamGestureBegin(ParamGestureEvent),
    ParamGestureEnd(ParamGestureEvent),
    Transport(TransportEvent),
}

impl ProcEvent {
    /// The event is one of the seven kinds that a note port carries.
    pub open spec fn is_note_kind(&self) -> bool {
        self is NoteOn || self is NoteOff || self is NoteChoke || self is NoteEnd
            || self is NoteExpression || self is Midi || self is Midi2
    }

    /// The port that a note-kind event names, as an index into a list of ports.
    pub open spec fn note_port(&self) -> Option<usize> {
        match *self {
            ProcEvent::NoteOn(e) => Some(e.port_index as usize),
            ProcEvent::NoteOff(e) => Some(e.port_index as usize),
            ProcEvent::NoteChoke(e) => Some(e.port_index as usize),
            ProcEvent::NoteEnd(e) => Some(e.port_index as usize),
            ProcEvent::NoteExpression(e) => Some(e.port_index as usize),
            ProcEvent::Midi(e) => Some(e.port_index as usize),
            ProcEvent::Midi2(e) => Some(e.port_index as usize),
            _ => None,
        }
    }

    /// A note-kind event with its port overwritten by `port`; no other event.
    pub open spec fn stamped(&self, port: usize) -> Option<ProcEvent> {
        match *self {
            ProcEvent::NoteOn(e) => Some(
                ProcEvent::NoteOn(NoteEvent { port_index: port as i16, ..e }),
            ),
            ProcEvent::NoteOff(e) => Some(
                ProcEvent::NoteOff(NoteEvent { port_index: port as i16, ..e }),
            ),
            ProcEvent::NoteChoke(e) => Some(
                ProcEvent::NoteChoke(NoteEvent { port_index: port as i16, ..e }),
            ),
            ProcEvent::NoteEnd(e) => Some(
                ProcEvent::NoteEnd(NoteEvent { port_index: port as i16, ..e }),
            ),
            ProcEvent::NoteExpression(e) => Some(
                ProcEvent::NoteExpression(NoteExpressionEvent { port_index: port as i16, ..e }),
            ),
            ProcEvent::Midi(e) => Some(ProcEvent::Midi(MidiEvent { port_index: port as u16, ..e })),
            ProcEvent::Midi2(e) => Some(
                ProcEvent::Midi2(Midi2Event { port_index: port as u16, ..e }),
            ),
            _ => None,
        }
    }

    /// The frame of the block at which the event happens.
    pub open spec fn at(&self) -> u32 {
        match *self {
            ProcEvent::NoteOn(e) => e.frame,
            ProcEvent::NoteOff(e) => e.frame,
            ProcEvent::NoteChoke(e) => e.frame,
            ProcEvent::NoteEnd(e) => e.frame,
            ProcEvent::NoteExpression(e) => e.frame,
            ProcEvent::Midi(e) => e.frame,
            ProcEvent::Midi2(e) => e.frame,
            ProcEvent::ParamValue(e, _) => e.frame,
            ProcEvent::ParamMod(e, _) => e.frame,
            ProcEvent::ParamGestureBegin(e) => e.frame,
            ProcEvent::ParamGestureEnd(e) => e.frame,
            ProcEvent::Transport(e) => e.frame,
        }
    }

    /// The event moved to another frame.
    pub open spec fn moved_to(&self, frame: u32) -> ProcEvent {
        match *self {
            ProcEvent::NoteOn(e) => ProcEvent::NoteOn(NoteEvent { frame, ..e }),
            ProcEvent::NoteOff(e) => ProcEvent::NoteOff(NoteEvent { frame, ..e }),
            ProcEvent::NoteChoke(e) => ProcEvent::NoteChoke(NoteEvent { frame, ..e }),
            ProcEvent::NoteEnd(e) => ProcEvent::NoteEnd(NoteEvent { frame, ..e }),
            ProcEvent::NoteExpression(e) => ProcEvent::NoteExpression(
                NoteExpressionEvent { frame, ..e },
            ),
            ProcEvent::Midi(e) => ProcEvent::Midi(MidiEvent { frame, ..e }),
            ProcEvent::Midi2(e) => ProcEvent::Midi2(Midi2Event { frame, ..e }),
            ProcEvent::ParamValue(e, t) => ProcEvent::ParamValue(ParamEvent { frame, ..e }, t),
            ProcEvent::ParamMod(e, t) => ProcEvent::ParamMod(ParamEvent { frame, ..e }, t),
            ProcEvent::ParamGestureBegin(e) => ProcEvent::ParamGestureBegin(
                ParamGestureEvent { frame, ..e },
            ),
            ProcEvent::ParamGestureEnd(e) => ProcEvent::ParamGestureEnd(
                ParamGestureEvent { frame, ..e },
            ),
            ProcEvent::Transport(e) => ProcEvent::Transport(TransportEvent { frame, ..e }),
        }
    }

    /// The event is a parameter event meant for the plug-in at `node`.
    pub open spec fn targets(&self, node: u64) -> bool {
        match *self {
            ProcEvent::ParamValue(_, Some(t)) => t == node,
            ProcEvent::ParamMod(_, Some(t)) => t == node,
            _ => false,
        }
    }

    /// The frame of the block at which the event happens.
    #[verifier::when_used_as_spec(at)]
    pub fn frame(&self) -> (f: u32)
        ensures
            f == self.at(),
    {
        match self {
            ProcEvent::NoteOn(e) => e.frame,
            ProcEvent::NoteOff(e) => e.frame,
            ProcEvent::NoteChoke(e) => e.frame,
            ProcEvent::NoteEnd(e) => e.frame,
            ProcEvent::NoteExpression(e) => e.frame,
            ProcEvent::Midi(e) => e.frame,
            ProcEvent::Midi2(e) => e.frame,
            ProcEvent::ParamValue(e, _) => e.frame,
            ProcEvent::ParamMod(e, _) => e.frame,
            ProcEvent::ParamGestureBegin(e) => e.frame,
            ProcEvent::ParamGestureEnd(e) => e.frame,
            ProcEvent::Transport(e) => e.frame,
        }
    }

    /// The event moved to another frame.
    #[verifier::when_used_as_spec(moved_to)]
    pub fn with_frame(&self, frame: u32) -> (e: ProcEvent)
        ensures
            e == self.moved_to(frame),
    {
        match *self {
            ProcEvent::NoteOn(e) => ProcEvent::NoteOn(NoteEvent { frame, ..e }),
            ProcEvent::NoteOff(e) => ProcEvent::NoteOff(NoteEvent { frame, ..e }),
            ProcEvent::NoteChoke(e) => ProcEvent::NoteChoke(NoteEvent { frame, ..e }),
            ProcEvent::NoteEnd(e) => ProcEvent::NoteEnd(NoteEvent { frame, ..e }),
            ProcEvent::NoteExpression(e) => ProcEvent::NoteExpression(
                NoteExpressionEvent { frame, ..e },
            ),
            ProcEvent::Midi(e) => ProcEvent::Midi(MidiEvent { frame, ..e }),
            ProcEvent::Midi2(e) => ProcEvent::Midi2(Midi2Event { frame, ..e }),
            ProcEvent::ParamValue(e, t) => ProcEvent::ParamValue(ParamEvent { frame, ..e }, t),
            ProcEvent::ParamMod(e, t) => ProcEvent::ParamMod(ParamEvent { frame, ..e }, t),
            ProcEvent::ParamGestureBegin(e) => ProcEvent::ParamGestureBegin(
                ParamGestureEvent { frame, ..e },
            ),
            ProcEvent::ParamGestureEnd(e) => ProcEvent::ParamGestureEnd(
                ParamGestureEvent { frame, ..e },
            ),
            ProcEvent::Transport(e) => ProcEvent::Transport(TransportEvent { frame, ..e }),
        }
    }

    /// Whether the event is one of the seven kinds that a note port carries.
    #[verifier::when_used_as_spec(is_note_kind)]
    pub fn is_note(&self) -> (r: bool)
        ensures
            r == self.is_note_kind(),
    {
        match self {
            ProcEvent::NoteOn(_) => true,
            ProcEvent::NoteOff(_) => true,
            ProcEvent::NoteChoke(_) => true,
            ProcEvent::NoteEnd(_) => true,
            ProcEvent::NoteExpression(_) => true,
            ProcEvent::Midi(_) => true,
            ProcEvent::Midi2(_) => true,
            _ => false,
        }
    }

    /// The port that a note-kind event names.
    #[verifier::when_used_as_spec(note_port)]
    pub fn port_index(&self) -> (r: Option<usize>)
        ensures
            r == self.note_port(),
    {
        match self {
            ProcEvent::NoteOn(e) => Some(
                #[verifier::truncate]
                (e.port_index as usize),
            ),
            ProcEvent::NoteOff(e) => Some(
                #[verifier::truncate]
                (e.port_index as usize),
            ),
            ProcEvent::NoteChoke(e) => Some(
                #[verifier::truncate]
                (e.port_index as usize),
            ),
            ProcEvent::NoteEnd(e) => Some(
                #[verifier::truncate]
                (e.port_index as usize),
            ),
            ProcEvent::NoteExpression(e) => Some(
                #[verifier::truncate]
                (e.port_index as usize),
            ),
            ProcEvent::Midi(e) => Some(e.port_index as usize),
            ProcEvent::Midi2(e) => Some(e.port_index as usize),
            _ => None,
        }
    }

    /// Overwrites the port of a note-kind event; gives `None` for any other.
    #[verifier::when_used_as_spec(stamped)]
    pub fn with_port_index(&self, port: usize) -> (r: Option<ProcEvent>)
        ensures
            r == self.stamped(port),
    {
        let narrow: i16 = #[verifier::truncate]
        (port as i16);
        let wide: u16 = #[verifier::truncate]
        (port as u16);
        match *self {
            ProcEvent::NoteOn(e) => Some(ProcEvent::NoteOn(NoteEvent { port_index: narrow, ..e })),
            ProcEvent::NoteOff(e) => Some(
                ProcEvent::NoteOff(NoteEvent { port_index: narrow, ..e }),
            ),
            ProcEvent::NoteChoke(e) => Some(
                ProcEvent::NoteChoke(NoteEvent { port_index: narrow, ..e }),
            ),
            ProcEvent::NoteEnd(e) => Some(
                ProcEvent::NoteEnd(NoteEvent { port_index: narrow, ..e }),
            ),
            ProcEvent::NoteExpression(e) => Some(
                ProcEvent::NoteExpression(NoteExpressionEvent { port_index: narrow, ..e }),
            ),
            ProcEvent::Midi(e) => Some(ProcEvent::Midi(MidiEvent { port_index: wide, ..e })),
            ProcEvent::Midi2(e) => Some(ProcEvent::Midi2(Midi2Event { port_index: wide, ..e })),
            _ => None,
        }
    }

    /// Whether the event is a parameter event meant for the plug-in at `node`.
    #[verifier::when_used_as_spec(targets)]
    pub fn is_for(&self, node: u64) -> (r: bool)
        ensures
            r == self.targets(node),
    {
        match self {
            ProcEvent::ParamValue(_, Some(t)) => *t == node,
            ProcEvent::ParamMod(_, Some(t)) => *t == node,
            _ => false,
        }
    }
}

} // verus!
