//! Gathering what a plug-in takes in during one block: the parameter values
//! and amounts that wait in the queues, the notes of its note ports, and the
//! events of its event port that are meant for it.

use crate::channel::MainToAudioParamValue;
use crate::events::{ParamEvent, ProcEvent};
use crate::params::{ParamID, ParamValue};
use vstd::prelude::*;

verus! {

/// The event that carries a value from the queue: at the first frame of the
/// block, for the parameter as a whole.
pub open spec fn param_event_of(id: ParamID, v: MainToAudioParamValue) -> ParamEvent {
    ParamEvent {
        frame: 0,
        note_id: -1i32,
        param_id: id.0,
        port_index: -1i16,
        channel: -1i16,
        key: -1i16,
        value: v.value,
    }
}

/// One value event for each pair, in their order.
pub open spec fn value_events(pairs: Seq<(ParamID, MainToAudioParamValue)>) -> Seq<ProcEvent> {
    Seq::new(pairs.len(), |i: int| ProcEvent::ParamValue(param_event_of(pairs[i].0, pairs[i].1), None))
}

/// One modulation event for each pair, in their order.
pub open spec fn mod_events(pairs: Seq<(ParamID, MainToAudioParamValue)>) -> Seq<ProcEvent> {
    Seq::new(pairs.len(), |i: int| ProcEvent::ParamMod(param_event_of(pairs[i].0, pairs[i].1), None))
}

/// The note-kind events of a list, each with its port overwritten by `port`.
pub open spec fn stamped_notes(events: Seq<ProcEvent>, port: usize) -> Seq<ProcEvent>
    decreases events.len(),
{
    if events.len() == 0 {
        Seq::empty()
    } else {
        let rest = stamped_notes(events.drop_last(), port);
        match events.last().stamped(port) {
            Some(e) => rest.push(e),
            None => rest,
        }
    }
}

/// The stamped notes of the buffers of one port, buffer after buffer.
pub open spec fn notes_of_buffers(buffers: Seq<Vec<ProcEvent>>, port: usize) -> Seq<ProcEvent>
    decreases buffers.len(),
{
    if buffers.len() == 0 {
        Seq::empty()
    } else {
        notes_of_buffers(buffers.drop_last(), port) + stamped_notes(buffers.last()@, port)
    }
}

/// The stamped notes of all note ports, port after port; each port stamps
/// its place in the list.
pub open spec fn notes_of_ports(ports: Seq<Option<Vec<Vec<ProcEvent>>>>) -> Seq<ProcEvent>
    decreases ports.len(),
{
    if ports.len() == 0 {
        Seq::empty()
    } else {
        let rest = notes_of_ports(ports.drop_last());
        match ports.last() {
            Some(buffers) => rest + notes_of_buffers(buffers@, (ports.len() - 1) as usize),
            None => rest,
        }
    }
}

/// An event of the event port goes to the plug-in at `node` if it is a
/// parameter event meant for that node, or a step of the transport.
pub open spec fn forwards(e: ProcEvent, node: u64) -> bool {
    e.targets(node) || e is Transport
}

/// The events of a list that go to the plug-in at `node`.
pub open spec fn forwarded(events: Seq<ProcEvent>, node: u64) -> Seq<ProcEvent>
    decreases events.len(),
{
    if events.len() == 0 {
        Seq::empty()
    } else {
        let rest = forwarded(events.drop_last(), node);
        if forwards(events.last(), node) {
            rest.push(events.last())
        } else {
            rest
        }
    }
}

/// The forwarded events of the buffers of the event port, buffer after buffer.
pub open spec fn forwarded_of_buffers(buffers: Seq<Vec<ProcEvent>>, node: u64) -> Seq<ProcEvent>
    decreases buffers.len(),
{
    if buffers.len() == 0 {
        Seq::empty()
    } else {
        forwarded_of_buffers(buffers.drop_last(), node) + forwarded(buffers.last()@, node)
    }
}

/// The forwarded events of an event port that may not be there.
pub open spec fn forwarded_of_port(port: Option<Vec<Vec<ProcEvent>>>, node: u64) -> Seq<ProcEvent> {
    match port {
        Some(buffers) => forwarded_of_buffers(buffers@, node),
        None => Seq::empty(),
    }
}

/// A list holds an event that sets or modulates a parameter.
pub open spec fn holds_param_event(events: Seq<ProcEvent>) -> bool {
    exists|i: int| 0 <= i < events.len() && (#[trigger] events[i] is ParamValue || events[i] is ParamMod)
}

/// The buffers after they were drained: as many as before, each empty.
pub open spec fn drained(buffers: Seq<Vec<ProcEvent>>, before: Seq<Vec<ProcEvent>>) -> bool {
    &&& buffers.len() == before.len()
    &&& forall|i: int| 0 <= i < buffers.len() ==> (#[trigger] buffers[i])@.len() == 0
}

/// A port after its buffers were drained; a port that is not there stays so.
pub open spec fn port_drained(
    port: Option<Vec<Vec<ProcEvent>>>,
    before: Option<Vec<Vec<ProcEvent>>>,
) -> bool {
    match (port, before) {
        (Some(now), Some(then)) => drained(now@, then@),
        (None, None) => true,
        _ => false,
    }
}

/// Every port of a list after its buffers were drained.
pub open spec fn ports_drained(
    ports: Seq<Option<Vec<Vec<ProcEvent>>>>,
    before: Seq<Option<Vec<Vec<ProcEvent>>>>,
) -> bool {
    &&& ports.len() == before.len()
    &&& forall|i: int| 0 <= i < ports.len() ==> port_drained(#[trigger] ports[i], before[i])
}

/// Adds one value event for each pair to `dst`.
pub fn push_value_events(dst: &mut Vec<ProcEvent>, pairs: &Vec<(ParamID, MainToAudioParamValue)>)
    ensures
        final(dst)@ == old(dst)@ + value_events(pairs@),
{
    let mut i: usize = 0;
    assert(dst@ =~= old(dst)@ + value_events(pairs@).take(0));
    while i < pairs.len()
        invariant
            i <= pairs@.len(),
            dst@ == old(dst)@ + value_events(pairs@).take(i as int),
        decreases pairs@.len() - i,
    {
        let (id, v) = pairs[i];
        let event = ParamEvent {
            frame: 0,
            note_id: -1,
            param_id: id.as_u32(),
            port_index: -1,
            channel: -1,
            key: -1,
            value: v.value,
        };
        dst.push(ProcEvent::ParamValue(event, None));
        i = i + 1;
        assert(dst@ =~= old(dst)@ + value_events(pairs@).take(i as int));
    }
    assert(value_events(pairs@).take(pairs@.len() as int) =~= value_events(pairs@));
}

/// Adds one modulation event for each pair to `dst`.
pub fn push_mod_events(dst: &mut Vec<ProcEvent>, pairs: &Vec<(ParamID, MainToAudioParamValue)>)
    ensures
        final(dst)@ == old(dst)@ + mod_events(pairs@),
{
    let mut i: usize = 0;
    assert(dst@ =~= old(dst)@ + mod_events(pairs@).take(0));
    while i < pairs.len()
        invariant
            i <= pairs@.len(),
            dst@ == old(dst)@ + mod_events(pairs@).take(i as int),
        decreases pairs@.len() - i,
    {
        let (id, v) = pairs[i];
        let event = ParamEvent {
            frame: 0,
            note_id: -1,
            param_id: id.as_u32(),
            port_index: -1,
            channel: -1,
            key: -1,
            value: v.value,
        };
        dst.push(ProcEvent::ParamMod(event, None));
        i = i + 1;
        assert(dst@ =~= old(dst)@ + mod_events(pairs@).take(i as int));
    }
    assert(mod_events(pairs@).take(pairs@.len() as int) =~= mod_events(pairs@));
}

/// Adds the stamped notes of one buffer to `dst`.
pub fn push_stamped_notes(dst: &mut Vec<ProcEvent>, events: &Vec<ProcEvent>, port: usize)
    ensures
        final(dst)@ == old(dst)@ + stamped_notes(events@, port),
{
    let mut i: usize = 0;
    assert(events@.take(0) =~= Seq::<ProcEvent>::empty());
    assert(dst@ =~= old(dst)@ + stamped_notes(events@.take(0), port));
    while i < events.len()
        invariant
            i <= events@.len(),
            dst@ == old(dst)@ + stamped_notes(events@.take(i as int), port),
        decreases events@.len() - i,
    {
        proof {
            assert(events@.take(i as int + 1).drop_last() =~= events@.take(i as int));
        }
        match events[i].with_port_index(port) {
            Some(e) => {
                dst.push(e);
            },
            None => {},
        }
        i = i + 1;
        assert(dst@ =~= old(dst)@ + stamped_notes(events@.take(i as int), port));
    }
    assert(events@.take(events@.len() as int) =~= events@);
}

/// Adds the stamped notes of the buffers of one port to `dst`.
pub fn push_port_notes(dst: &mut Vec<ProcEvent>, buffers: &Vec<Vec<ProcEvent>>, port: usize)
    ensures
        final(dst)@ == old(dst)@ + notes_of_buffers(buffers@, port),
{
    let mut i: usize = 0;
    assert(buffers@.take(0) =~= Seq::<Vec<ProcEvent>>::empty());
    assert(dst@ =~= old(dst)@ + notes_of_buffers(buffers@.take(0), port));
    while i < buffers.len()
        invariant
            i <= buffers@.len(),
            dst@ == old(dst)@ + notes_of_buffers(buffers@.take(i as int), port),
        decreases buffers@.len() - i,
    {
        proof {
            assert(buffers@.take(i as int + 1).drop_last() =~= buffers@.take(i as int));
        }
        push_stamped_notes(dst, &buffers[i], port);
        i = i + 1;
        assert(dst@ =~= old(dst)@ + notes_of_buffers(buffers@.take(i as int), port));
    }
    assert(buffers@.take(buffers@.len() as int) =~= buffers@);
}

/// Adds the stamped notes of all note ports to `dst`.
pub fn push_all_notes(dst: &mut Vec<ProcEvent>, ports: &Vec<Option<Vec<Vec<ProcEvent>>>>)
    ensures
        final(dst)@ == old(dst)@ + notes_of_ports(ports@),
{
    let mut i: usize = 0;
    assert(ports@.take(0) =~= Seq::<Option<Vec<Vec<ProcEvent>>>>::empty());
    assert(dst@ =~= old(dst)@ + notes_of_ports(ports@.take(0)));
    while i < ports.len()
        invariant
            i <= ports@.len(),
            dst@ == old(dst)@ + notes_of_ports(ports@.take(i as int)),
        decreases ports@.len() - i,
    {
        proof {
            assert(ports@.take(i as int + 1).drop_last() =~= ports@.take(i as int));
        }
        match &ports[i] {
            Some(buffers) => {
                push_port_notes(dst, buffers, i);
            },
            None => {},
        }
        i = i + 1;
        assert(dst@ =~= old(dst)@ + notes_of_ports(ports@.take(i as int)));
    }
    assert(ports@.take(ports@.len() as int) =~= ports@);
}

/// Adds the events of one buffer that go to the plug-in at `node` to `dst`.
pub fn push_forwarded(dst: &mut Vec<ProcEvent>, events: &Vec<ProcEvent>, node: u64)
    ensures
        final(dst)@ == old(dst)@ + forwarded(events@, node),
{
    let mut i: usize = 0;
    assert(events@.take(0) =~= Seq::<ProcEvent>::empty());
    assert(dst@ =~= old(dst)@ + forwarded(events@.take(0), node));
    while i < events.len()
        invariant
            i <= events@.len(),
            dst@ == old(dst)@ + forwarded(events@.take(i as int), node),
        decreases events@.len() - i,
    {
        proof {
            assert(events@.take(i as int + 1).drop_last() =~= events@.take(i as int));
        }
        let e: ProcEvent = events[i];
        let transport: bool = match e {
            ProcEvent::Transport(_) => true,
            _ => false,
        };
        if e.is_for(node) || transport {
            dst.push(e);
        }
        i = i + 1;
        assert(dst@ =~= old(dst)@ + forwarded(events@.take(i as int), node));
    }
    assert(events@.take(events@.len() as int) =~= events@);
}

/// Adds the forwarded events of the buffers of the event port to `dst`.
pub fn push_port_forwarded(dst: &mut Vec<ProcEvent>, buffers: &Vec<Vec<ProcEvent>>, node: u64)
    ensures
        final(dst)@ == old(dst)@ + forwarded_of_buffers(buffers@, node),
{
    let mut i: usize = 0;
    assert(buffers@.take(0) =~= Seq::<Vec<ProcEvent>>::empty());
    assert(dst@ =~= old(dst)@ + forwarded_of_buffers(buffers@.take(0), node));
    while i < buffers.len()
        invariant
            i <= buffers@.len(),
            dst@ == old(dst)@ + forwarded_of_buffers(buffers@.take(i as int), node),
        decreases buffers@.len() - i,
    {
        proof {
            assert(buffers@.take(i as int + 1).drop_last() =~= buffers@.take(i as int));
        }
        push_forwarded(dst, &buffers[i], node);
        i = i + 1;
        assert(dst@ =~= old(dst)@ + forwarded_of_buffers(buffers@.take(i as int), node));
    }
    assert(buffers@.take(buffers@.len() as int) =~= buffers@);
}

/// Says whether a list holds an event that sets or modulates a parameter.
pub fn has_param_event(events: &Vec<ProcEvent>, from: usize) -> (r: bool)
    requires
        from <= events@.len(),
    ensures
        r == holds_param_event(events@.subrange(from as int, events@.len() as int)),
{
    let ghost tail = events@.subrange(from as int, events@.len() as int);
    let mut i: usize = from;
    while i < events.len()
        invariant
            from <= i <= events@.len(),
            tail == events@.subrange(from as int, events@.len() as int),
            forall|j: int| 0 <= j < i - from ==> !(#[trigger] tail[j] is ParamValue || tail[j] is ParamMod),
        decreases events@.len() - i,
    {
        let hit: bool = match events[i] {
            ProcEvent::ParamValue(_, _) => true,
            ProcEvent::ParamMod(_, _) => true,
            _ => false,
        };
        if hit {
            assert(tail[i - from] is ParamValue || tail[i - from] is ParamMod);
            return true;
        }
        i = i + 1;
    }
    false
}

/// Empties every buffer of a list.
pub fn drain_buffers(buffers: &mut Vec<Vec<ProcEvent>>)
    ensures
        drained(final(buffers)@, old(buffers)@),
{
    let mut i: usize = 0;
    while i < buffers.len()
        invariant
            i <= buffers@.len(),
            buffers@.len() == old(buffers)@.len(),
            forall|j: int| 0 <= j < i ==> (#[trigger] buffers@[j])@.len() == 0,
        decreases buffers@.len() - i,
    {
        buffers[i].clear();
        i = i + 1;
    }
}

/// Empties every buffer of a port, if the port is there.
pub fn drain_port(port: &mut Option<Vec<Vec<ProcEvent>>>)
    ensures
        port_drained(*final(port), *old(port)),
{
    match port {
        Some(buffers) => {
            drain_buffers(buffers);
        },
        None => {},
    }
}

/// Empties every buffer of every port.
pub fn drain_ports(ports: &mut Vec<Option<Vec<Vec<ProcEvent>>>>)
    ensures
        ports_drained(final(ports)@, old(ports)@),
{
    let mut i: usize = 0;
    while i < ports.len()
        invariant
            i <= ports@.len(),
            ports@.len() == old(ports)@.len(),
            forall|j: int| 0 <= j < i ==> port_drained(#[trigger] ports@[j], old(ports)@[j]),
            forall|j: int| i <= j < ports@.len() ==> ports@[j] == old(ports)@[j],
        decreases ports@.len() - i,
    {
        drain_port(&mut ports[i]);
        i = i + 1;
    }
}

} // verus!
