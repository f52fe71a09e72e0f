//! Routing what a plug-in has put out in one block: gestures and values go
//! to the control thread as reports, modulation and transport go to the event
//! port, notes go to the note port that each names.

use crate::channel::{AudioToMainParamValue, ParamQueues};
use crate::events::ProcEvent;
use crate::fnv_map::{map_get, map_insert};
use crate::params::{ParamGestureInfo, ParamID};
use crate::reducing_queue::QueueState;
use fnv::FnvHashMap;
use vstd::prelude::*;

verus! {

/// Where the events of one block have gone so far.
pub struct Routing {
    /// For each parameter that the plug-in has had a gesture on, whether a
    /// gesture is open now.
    pub adjusting: Map<u32, bool>,
    /// The reports that wait for the control thread, where the plug-in has
    /// parameter queues.
    pub reports: Option<QueueState<AudioToMainParamValue>>,
    /// The event port, where the plug-in has one.
    pub event_out: Option<Seq<ProcEvent>>,
    /// The note ports; a port may be unconnected.
    pub note_out: Seq<Option<Seq<ProcEvent>>>,
}

/// The report of a gesture that begins or ends.
pub open spec fn gesture_report(is_begin: bool) -> AudioToMainParamValue {
    AudioToMainParamValue { value: None, gesture: Some(ParamGestureInfo { is_begin }) }
}

impl Routing {
    /// A gesture is open on the parameter.
    pub open spec fn is_adjusting(self, id: u32) -> bool {
        self.adjusting.contains_key(id) && self.adjusting[id]
    }

    /// After a report was merged into those that wait.
    pub open spec fn report(self, id: u32, r: AudioToMainParamValue) -> Routing {
        Routing { reports: Some(self.reports->0.set_or_update(id, r)), ..self }
    }

    /// After one more event of the plug-in was routed.
    ///
    /// A gesture that begins while one is open on the parameter, or ends
    /// while none is, is dropped. Without parameter queues gestures and
    /// values are dropped. An event for a port that is not there is dropped.
    pub open spec fn route(self, e: ProcEvent) -> Routing {
        match e {
            ProcEvent::ParamGestureBegin(g) => if self.reports is Some {
                let marked = Routing { adjusting: self.adjusting.insert(g.param_id, true), ..self };
                if self.is_adjusting(g.param_id) {
                    marked
                } else {
                    marked.report(g.param_id, gesture_report(true))
                }
            } else {
                self
            },
            ProcEvent::ParamGestureEnd(g) => if self.reports is Some {
                let marked = Routing { adjusting: self.adjusting.insert(g.param_id, false), ..self };
                if self.is_adjusting(g.param_id) {
                    marked.report(g.param_id, gesture_report(false))
                } else {
                    marked
                }
            } else {
                self
            },
            ProcEvent::ParamValue(v, _) => if self.reports is Some {
                self.report(
                    v.param_id,
                    AudioToMainParamValue { value: Some(v.value), gesture: None },
                )
            } else {
                self
            },
            ProcEvent::ParamMod(_, _) | ProcEvent::Transport(_) => match self.event_out {
                Some(s) => Routing { event_out: Some(s.push(e)), ..self },
                None => self,
            },
            _ => match e.note_port() {
                Some(port) => if port < self.note_out.len() && self.note_out[port as int] is Some {
                    Routing {
                        note_out: self.note_out.update(
                            port as int,
                            Some(self.note_out[port as int]->0.push(e)),
                        ),
                        ..self
                    }
                } else {
                    self
                },
                None => self,
            },
        }
    }

    /// After a list of events was routed, first to last.
    pub open spec fn route_all(self, events: Seq<ProcEvent>) -> Routing
        decreases events.len(),
    {
        if events.len() == 0 {
            self
        } else {
            self.route_all(events.drop_last()).route(events.last())
        }
    }

    /// After the reports were released to the control thread.
    pub open spec fn released(self) -> Routing {
        match self.reports {
            Some(q) => Routing { reports: Some(q.producer_done()), ..self },
            None => self,
        }
    }
}

/// An event port as a list of events.
pub open spec fn port_view(port: Option<Vec<ProcEvent>>) -> Option<Seq<ProcEvent>> {
    match port {
        Some(b) => Some(b@),
        None => None,
    }
}

/// The note ports as lists of events.
pub open spec fn ports_view(ports: Seq<Option<Vec<ProcEvent>>>) -> Seq<Option<Seq<ProcEvent>>> {
    Seq::new(ports.len(), |i: int| port_view(ports[i]))
}

/// The reports that wait, where there are queues.
pub open spec fn reports_view(queues: Option<ParamQueues>) -> Option<
    QueueState<AudioToMainParamValue>,
> {
    match queues {
        Some(q) => Some(q.to_main_value@),
        None => None,
    }
}

/// The queues are those of `before` but for the reports.
pub open spec fn only_reports_differ(queues: Option<ParamQueues>, before: Option<ParamQueues>) -> bool {
    match (queues, before) {
        (Some(q), Some(b)) => q.to_audio_value == b.to_audio_value && q.to_audio_mod
            == b.to_audio_mod,
        (None, None) => true,
        _ => false,
    }
}

/// Where things stand, read off the data that the audio thread holds.
pub open spec fn routing_of(
    adjusting: FnvHashMap<u32, bool>,
    queues: Option<ParamQueues>,
    event_out: Option<Vec<ProcEvent>>,
    note_out: Vec<Option<Vec<ProcEvent>>>,
) -> Routing {
    Routing {
        adjusting: adjusting@,
        reports: reports_view(queues),
        event_out: port_view(event_out),
        note_out: ports_view(note_out@),
    }
}

fn push_to_port(port: &mut Option<Vec<ProcEvent>>, e: ProcEvent)
    ensures
        port_view(*final(port)) == (match port_view(*old(port)) {
            Some(s) => Some(s.push(e)),
            None => None::<Seq<ProcEvent>>,
        }),
{
    match port {
        Some(buffer) => {
            buffer.push(e);
        },
        None => {},
    }
}

fn report(queues: &mut Option<ParamQueues>, id: u32, r: AudioToMainParamValue)
    requires
        *old(queues) matches Some(q) && q.wf(),
    ensures
        *final(queues) matches Some(q) && q.wf(),
        only_reports_differ(*final(queues), *old(queues)),
        reports_view(*final(queues)) == Some(reports_view(*old(queues))->0.set_or_update(id, r)),
{
    match queues {
        Some(q) => {
            q.to_main_value.set_or_update(ParamID(id), r);
        },
        None => {},
    }
}

/// Routes one event.
fn route_event(
    e: ProcEvent,
    adjusting: &mut FnvHashMap<u32, bool>,
    queues: &mut Option<ParamQueues>,
    event_out: &mut Option<Vec<ProcEvent>>,
    note_out: &mut Vec<Option<Vec<ProcEvent>>>,
)
    requires
        *old(queues) matches Some(q) ==> q.wf(),
    ensures
        *final(queues) matches Some(q) ==> q.wf(),
        only_reports_differ(*final(queues), *old(queues)),
        routing_of(*final(adjusting), *final(queues), *final(event_out), *final(note_out))
            == routing_of(*old(adjusting), *old(queues), *old(event_out), *old(note_out)).route(e),
{
    broadcast use vstd::std_specs::hash::group_hash_axioms;

    let ghost before = routing_of(*adjusting, *queues, *event_out, *note_out);
    match e {
        ProcEvent::ParamGestureBegin(g) => {
            if queues.is_some() {
                let was: bool = match map_get(adjusting, &g.param_id) {
                    Some(b) => *b,
                    None => false,
                };
                let _ = map_insert(adjusting, g.param_id, true);
                if !was {
                    report(
                        queues,
                        g.param_id,
                        AudioToMainParamValue {
                            value: None,
                            gesture: Some(ParamGestureInfo { is_begin: true }),
                        },
                    );
                }
            }
        },
        ProcEvent::ParamGestureEnd(g) => {
            if queues.is_some() {
                let was: bool = match map_get(adjusting, &g.param_id) {
                    Some(b) => *b,
                    None => false,
                };
                let _ = map_insert(adjusting, g.param_id, false);
                if was {
                    report(
                        queues,
                        g.param_id,
                        AudioToMainParamValue {
                            value: None,
                            gesture: Some(ParamGestureInfo { is_begin: false }),
                        },
                    );
                }
            }
        },
        ProcEvent::ParamValue(v, _) => {
            if queues.is_some() {
                report(
                    queues,
                    v.param_id,
                    AudioToMainParamValue { value: Some(v.value), gesture: None },
                );
            }
        },
        ProcEvent::ParamMod(_, _) => {
            push_to_port(event_out, e);
        },
        ProcEvent::Transport(_) => {
            push_to_port(event_out, e);
        },
        _ => {
            match e.port_index() {
                Some(port) => {
                    if port < note_out.len() {
                        push_to_port(&mut note_out[port], e);
                        proof {
                            let now = ports_view(note_out@);
                            let then = before.note_out;
                            if then[port as int] is Some {
                                assert(now =~= then.update(
                                    port as int,
                                    Some(then[port as int]->0.push(e)),
                                ));
                            } else {
                                assert(now =~= then);
                            }
                        }
                    }
                },
                None => {},
            }
        },
    }
}

/// Routes the events that a plug-in has put out, first to last, and then
/// releases the reports to the control thread.
pub fn route_out_events(
    events: &Vec<ProcEvent>,
    adjusting: &mut FnvHashMap<u32, bool>,
    queues: &mut Option<ParamQueues>,
    event_out: &mut Option<Vec<ProcEvent>>,
    note_out: &mut Vec<Option<Vec<ProcEvent>>>,
)
    requires
        *old(queues) matches Some(q) ==> q.wf(),
    ensures
        *final(queues) matches Some(q) ==> q.wf(),
        only_reports_differ(*final(queues), *old(queues)),
        routing_of(*final(adjusting), *final(queues), *final(event_out), *final(note_out))
            == routing_of(*old(adjusting), *old(queues), *old(event_out), *old(note_out)).route_all(
            events@,
        ).released(),
{
    let ghost start = routing_of(*adjusting, *queues, *event_out, *note_out);
    let mut i: usize = 0;
    assert(events@.take(0) =~= Seq::<ProcEvent>::empty());
    while i < events.len()
        invariant
            i <= events@.len(),
            *queues matches Some(q) ==> q.wf(),
            only_reports_differ(*queues, *old(queues)),
            start == routing_of(*old(adjusting), *old(queues), *old(event_out), *old(note_out)),
            routing_of(*adjusting, *queues, *event_out, *note_out) == start.route_all(
                events@.take(i as int),
            ),
        decreases events@.len() - i,
    {
        proof {
            assert(events@.take(i as int + 1).drop_last() =~= events@.take(i as int));
        }
        route_event(events[i], adjusting, queues, event_out, note_out);
        i = i + 1;
    }
    assert(events@.take(events@.len() as int) =~= events@);
    match queues {
        Some(q) => {
            q.to_main_value.producer_done();
        },
        None => {},
    }
}

} // verus!
