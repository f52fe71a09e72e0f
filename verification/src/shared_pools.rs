//! What schedules share: the pools of buffers, and the delay nodes that
//! outlive the schedule they were made for.

use crate::buffers::AudioChannel;
use crate::events::ProcEvent;
use crate::fnv_map::{lists_keys, map_get, map_insert, map_keys, map_remove, new_map};
use crate::plugin::TransportInfo;
use crate::schedule::DelayCompKey;
use fnv::FnvHashMap;
use vstd::prelude::*;

verus! {

/// What an audio buffer of the pool holds, and whether it was asked for
/// since the pool was last resized.
pub struct PooledAudio {
    pub samples: Seq<u32>,
    pub is_constant: bool,
    pub requested: bool,
}

/// A buffer of silence that was not asked for yet.
pub open spec fn fresh_audio(buffer_size: usize) -> PooledAudio {
    PooledAudio {
        samples: Seq::new(buffer_size as nat, |i: int| 0u32),
        is_constant: true,
        requested: false,
    }
}

/// A pool after it was resized: the buffers that stay are no longer asked
/// for, and new ones are silent.
pub open spec fn resized(pool: Seq<PooledAudio>, n: usize, buffer_size: usize) -> Seq<PooledAudio> {
    Seq::new(
        n as nat,
        |i: int|
            if i < pool.len() {
                PooledAudio { requested: false, ..pool[i] }
            } else {
                fresh_audio(buffer_size)
            },
    )
}

/// A pool after one buffer was asked for: the first time since the pool was
/// resized, the buffer is overwritten with zeros and marked as not constant.
pub open spec fn requested_at(pool: Seq<PooledAudio>, i: usize) -> Seq<PooledAudio> {
    if i < pool.len() && !pool[i as int].requested {
        pool.update(
            i as int,
            PooledAudio {
                samples: Seq::new(pool[i as int].samples.len(), |k: int| 0u32),
                is_constant: false,
                requested: true,
            },
        )
    } else {
        pool
    }
}

/// A pool after a list of buffers was asked for, first to last.
pub open spec fn requested_all(pool: Seq<PooledAudio>, indices: Seq<usize>) -> Seq<PooledAudio>
    decreases indices.len(),
{
    if indices.len() == 0 {
        pool
    } else {
        requested_at(requested_all(pool, indices.drop_last()), indices.last())
    }
}

/// The pool of audio buffers. Every buffer has the size of a block.
pub struct AudioBufferPool {
    buffers: Vec<AudioChannel>,
    requested: Vec<bool>,
    buffer_size: usize,
}

impl View for AudioBufferPool {
    type V = Seq<PooledAudio>;

    closed spec fn view(&self) -> Seq<PooledAudio> {
        Seq::new(
            self.buffers@.len(),
            |i: int|
                PooledAudio {
                    samples: self.buffers@[i].samples@,
                    is_constant: self.buffers@[i].is_constant,
                    requested: self.requested@[i],
                },
        )
    }
}

impl AudioBufferPool {
    /// There is a mark for each buffer.
    pub closed spec fn wf(&self) -> bool {
        self.buffers@.len() == self.requested@.len()
    }

    /// The size of a block.
    pub closed spec fn frames(&self) -> usize {
        self.buffer_size
    }

    /// A pool without a buffer.
    pub fn new(buffer_size: usize) -> (p: Self)
        ensures
            p.wf(),
            p@ == Seq::<PooledAudio>::empty(),
            p.frames() == buffer_size,
    {
        let p = AudioBufferPool { buffers: Vec::new(), requested: Vec::new(), buffer_size };
        assert(p@ =~= Seq::<PooledAudio>::empty());
        p
    }

    /// The size of a block.
    #[verifier::when_used_as_spec(frames)]
    pub fn buffer_size(&self) -> (n: usize)
        ensures
            n == self.frames(),
    {
        self.buffer_size
    }

    /// How many buffers there are.
    pub fn len(&self) -> (n: usize)
        ensures
            n == self@.len(),
    {
        self.buffers.len()
    }

    /// Makes the pool hold `n` buffers: buffers behind the first `n` go, and
    /// silent buffers are added where there are fewer. No buffer counts as
    /// asked for afterwards.
    pub fn set_num_buffers(&mut self, n: usize)
        requires
            old(self).wf(),
        ensures
            final(self).wf(),
            final(self).frames() == old(self).frames(),
            final(self)@ == resized(old(self)@, n, old(self).frames()),
    {
        self.buffers.truncate(n);
        self.requested.truncate(n);
        let mut i: usize = 0;
        while i < self.requested.len()
            invariant
                i <= self.requested@.len(),
                self.requested@.len() == self.buffers@.len(),
                self.buffer_size == old(self).buffer_size,
                self.buffers@ == old(self).buffers@.take(self.buffers@.len() as int),
                self.buffers@.len() <= n,
                self.buffers@.len() <= old(self).buffers@.len(),
                self.buffers@.len() == n || self.buffers@.len() == old(self).buffers@.len(),
                forall|j: int| 0 <= j < i ==> !self.requested@[j],
            decreases self.requested@.len() - i,
        {
            self.requested[i] = false;
            i = i + 1;
        }
        let ghost kept = self.buffers@.len();
        while self.buffers.len() < n
            invariant
                self.requested@.len() == self.buffers@.len(),
                self.buffer_size == old(self).buffer_size,
                kept <= self.buffers@.len() <= n,
                kept <= old(self).buffers@.len(),
                kept == n || kept == old(self).buffers@.len(),
                forall|j: int| 0 <= j < kept ==> self.buffers@[j] == old(self).buffers@[j],
                forall|j: int| 0 <= j < self.requested@.len() ==> !self.requested@[j],
                forall|j: int|
                    kept <= j < self.buffers@.len() ==> (#[trigger] self.buffers@[j]).is_constant
                        && self.buffers@[j].samples@ =~= Seq::new(
                        self.buffer_size as nat,
                        |k: int| 0u32,
                    ),
            decreases n - self.buffers@.len(),
        {
            let fresh = AudioChannel::new(self.buffer_size);
            assert(fresh.samples@ =~= Seq::new(self.buffer_size as nat, |k: int| 0u32));
            self.buffers.push(fresh);
            self.requested.push(false);
        }
        assert(self@ =~= resized(old(self)@, n, old(self).frames()));
    }

    /// Asks for a buffer. The first time since the pool was resized, the
    /// buffer is overwritten with zeros and marked as not constant. Hands
    /// back the place of the buffer, or nothing for a place that the pool
    /// does not have.
    pub fn initialized_buffer_at_index(&mut self, index: usize) -> (r: Option<usize>)
        requires
            old(self).wf(),
        ensures
            final(self).wf(),
            final(self).frames() == old(self).frames(),
            r == (if index < old(self)@.len() {
                Some(index)
            } else {
                None::<usize>
            }),
            final(self)@ == requested_at(old(self)@, index),
    {
        if index >= self.buffers.len() {
            return None;
        }
        if !self.requested[index] {
            let len: usize = self.buffers[index].samples.len();
            self.buffers[index].clear(len);
            self.buffers[index].is_constant = false;
            self.requested[index] = true;
            assert(self.buffers@[index as int].samples@ =~= Seq::new(
                old(self)@[index as int].samples.len(),
                |k: int| 0u32,
            ));
            assert(self@ =~= requested_at(old(self)@, index));
        }
        Some(index)
    }

    /// Asks for each buffer of a list that the pool has.
    pub fn request_all(&mut self, indices: &Vec<usize>)
        requires
            old(self).wf(),
        ensures
            final(self).wf(),
            final(self).frames() == old(self).frames(),
            final(self)@ == requested_all(old(self)@, indices@),
    {
        let mut i: usize = 0;
        assert(indices@.take(0) =~= Seq::<usize>::empty());
        while i < indices.len()
            invariant
                i <= indices@.len(),
                self.wf(),
                self.frames() == old(self).frames(),
                self@ == requested_all(old(self)@, indices@.take(i as int)),
            decreases indices@.len() - i,
        {
            proof {
                assert(indices@.take(i as int + 1).drop_last() =~= indices@.take(i as int));
            }
            let _ = self.initialized_buffer_at_index(indices[i]);
            i = i + 1;
        }
        assert(indices@.take(indices@.len() as int) =~= indices@);
    }

    /// Exchanges a buffer of the pool with a buffer from outside, so that a
    /// task can work on the buffer and hand it back without a copy.
    pub fn swap_buffer(&mut self, index: usize, other: &mut AudioChannel)
        requires
            old(self).wf(),
            index < old(self)@.len(),
        ensures
            final(self).wf(),
            final(self).frames() == old(self).frames(),
            final(other).samples@ == old(self)@[index as int].samples,
            final(other).is_constant == old(self)@[index as int].is_constant,
            final(self)@ == old(self)@.update(
                index as int,
                PooledAudio {
                    samples: old(other).samples@,
                    is_constant: old(other).is_constant,
                    requested: old(self)@[index as int].requested,
                },
            ),
    {
        core::mem::swap(&mut self.buffers[index], other);
        assert(self@ =~= old(self)@.update(
            index as int,
            PooledAudio {
                samples: old(other).samples@,
                is_constant: old(other).is_constant,
                requested: old(self)@[index as int].requested,
            },
        ));
    }

    /// One buffer.
    pub fn buffer(&self, index: usize) -> (b: &AudioChannel)
        requires
            self.wf(),
            index < self@.len(),
        ensures
            b.samples@ == self@[index as int].samples,
            b.is_constant == self@[index as int].is_constant,
    {
        &self.buffers[index]
    }
}

/// A pool of buffers of events.
pub struct EventBufferPool {
    buffers: Vec<Vec<ProcEvent>>,
}

impl View for EventBufferPool {
    type V = Seq<Seq<ProcEvent>>;

    closed spec fn view(&self) -> Seq<Seq<ProcEvent>> {
        Seq::new(self.buffers@.len(), |i: int| self.buffers@[i]@)
    }
}

/// A pool of event buffers after it was resized: new buffers are empty.
pub open spec fn resized_events(pool: Seq<Seq<ProcEvent>>, n: usize) -> Seq<Seq<ProcEvent>> {
    Seq::new(
        n as nat,
        |i: int|
            if i < pool.len() {
                pool[i]
            } else {
                Seq::empty()
            },
    )
}

impl EventBufferPool {
    /// A pool without a buffer.
    pub fn new() -> (p: Self)
        ensures
            p@ == Seq::<Seq<ProcEvent>>::empty(),
    {
        let p = EventBufferPool { buffers: Vec::new() };
        assert(p@ =~= Seq::<Seq<ProcEvent>>::empty());
        p
    }

    /// How many buffers there are.
    pub fn len(&self) -> (n: usize)
        ensures
            n == self@.len(),
    {
        self.buffers.len()
    }

    /// Makes the pool hold `n` buffers: buffers behind the first `n` go, and
    /// empty buffers are added where there are fewer.
    pub fn set_num_buffers(&mut self, n: usize)
        ensures
            final(self)@ == resized_events(old(self)@, n),
    {
        self.buffers.truncate(n);
        let ghost kept = self.buffers@.len();
        while self.buffers.len() < n
            invariant
                kept <= self.buffers@.len() <= n,
                kept <= old(self).buffers@.len(),
                kept == n || kept == old(self).buffers@.len(),
                forall|j: int| 0 <= j < kept ==> self.buffers@[j] == old(self).buffers@[j],
                forall|j: int| kept <= j < self.buffers@.len() ==> (#[trigger] self.buffers@[j])@.len() == 0,
            decreases n - self.buffers@.len(),
        {
            self.buffers.push(Vec::new());
        }
        proof {
            let now = self@;
            let want = resized_events(old(self)@, n);
            assert(now.len() == want.len());
            assert forall|j: int| 0 <= j < now.len() implies now[j] == want[j] by {
                if j < kept {
                    assert(self.buffers@[j] == old(self).buffers@[j]);
                } else {
                    assert(self.buffers@[j]@.len() == 0);
                    assert(self.buffers@[j]@ =~= Seq::<ProcEvent>::empty());
                }
            }
            assert(now =~= want);
        }
    }

    /// Exchanges a buffer of the pool with a buffer from outside, so that a
    /// task can work on the buffer and hand it back without a copy.
    pub fn swap_buffer(&mut self, index: usize, other: &mut Vec<ProcEvent>)
        requires
            index < old(self)@.len(),
        ensures
            final(other)@ == old(self)@[index as int],
            final(self)@ == old(self)@.update(index as int, old(other)@),
    {
        core::mem::swap(&mut self.buffers[index], other);
        assert(self@ =~= old(self)@.update(index as int, old(other)@));
    }

    /// The place of a buffer, or nothing for a place that the pool does not
    /// have. The buffer is left as it is.
    pub fn buffer_at_index(&self, index: usize) -> (r: Option<usize>)
        ensures
            r == (if index < self@.len() {
                Some(index)
            } else {
                None::<usize>
            }),
    {
        if index < self.buffers.len() {
            Some(index)
        } else {
            None
        }
    }
}

/// The three pools of buffers.
pub struct SharedBufferPools {
    pub audio_buffer_pool: AudioBufferPool,
    pub note_buffer_pool: EventBufferPool,
    pub param_event_buffer_pool: EventBufferPool,
}

impl SharedBufferPools {
    /// The audio pool is in order.
    pub open spec fn wf(&self) -> bool {
        self.audio_buffer_pool.wf()
    }

    /// Three pools without a buffer.
    pub fn new(buffer_size: usize) -> (p: Self)
        ensures
            p.wf(),
            p.audio_buffer_pool@ == Seq::<PooledAudio>::empty(),
            p.audio_buffer_pool.frames() == buffer_size,
            p.note_buffer_pool@ == Seq::<Seq<ProcEvent>>::empty(),
            p.param_event_buffer_pool@ == Seq::<Seq<ProcEvent>>::empty(),
    {
        SharedBufferPools {
            audio_buffer_pool: AudioBufferPool::new(buffer_size),
            note_buffer_pool: EventBufferPool::new(),
            param_event_buffer_pool: EventBufferPool::new(),
        }
    }

    /// Resizes the three pools.
    pub fn set_num_buffers(&mut self, num_audio: usize, num_note: usize, num_param_event: usize)
        requires
            old(self).wf(),
        ensures
            final(self).wf(),
            final(self).audio_buffer_pool.frames() == old(self).audio_buffer_pool.frames(),
            final(self).audio_buffer_pool@ == resized(
                old(self).audio_buffer_pool@,
                num_audio,
                old(self).audio_buffer_pool.frames(),
            ),
            final(self).note_buffer_pool@ == resized_events(old(self).note_buffer_pool@, num_note),
            final(self).param_event_buffer_pool@ == resized_events(
                old(self).param_event_buffer_pool@,
                num_param_event,
            ),
    {
        self.audio_buffer_pool.set_num_buffers(num_audio);
        self.note_buffer_pool.set_num_buffers(num_note);
        self.param_event_buffer_pool.set_num_buffers(num_param_event);
    }
}

/// A delay node: a line of as many items as it delays by, and the place in
/// the line where the next item goes. `active` says that the schedule that
/// is being made uses the node.
pub struct DelayCompNode<T> {
    pub active: bool,
    pub delay: u32,
    pub line: Vec<T>,
    pub position: usize,
}

/// What a delay node holds.
pub struct DelayNodeView<T> {
    pub active: bool,
    pub delay: u32,
    pub line: Seq<T>,
    pub position: usize,
}

impl<T> View for DelayCompNode<T> {
    type V = DelayNodeView<T>;

    open spec fn view(&self) -> DelayNodeView<T> {
        DelayNodeView {
            active: self.active,
            delay: self.delay,
            line: self.line@,
            position: self.position,
        }
    }
}

impl DelayNodeView<u32> {
    /// The line is as long as the delay, and the place in it is a place of
    /// the line.
    pub open spec fn ring_wf(self) -> bool {
        &&& self.line.len() == self.delay
        &&& self.position <= self.line.len()
        &&& self.line.len() > 0 ==> self.position < self.line.len()
    }

    /// The samples that wait in the line, the one that has waited longest
    /// first.
    pub open spec fn waiting(self) -> Seq<u32> {
        self.line.subrange(self.position as int, self.line.len() as int) + self.line.subrange(
            0,
            self.position as int,
        )
    }
}

/// The first `n` items of a list, or all of them where there are fewer.
pub open spec fn front(s: Seq<u32>, n: usize) -> Seq<u32> {
    if n <= s.len() {
        s.take(n as int)
    } else {
        s
    }
}

impl DelayCompNode<u32> {
    /// Delays one block of audio. The block is as long as `frames`, the
    /// input and the output allow: what has waited in the line comes out
    /// first, then the input; what does not come out in this block waits for
    /// the next. With a delay of zero the input comes out as it is. The
    /// output behind the block is left alone.
    pub fn process(&mut self, input: &Vec<u32>, output: &mut Vec<u32>, frames: usize)
        requires
            old(self)@.ring_wf(),
        ensures
            final(self)@.ring_wf(),
            final(self).active == old(self).active,
            final(self).delay == old(self).delay,
            final(output)@.len() == old(output)@.len(),
            ({
                let taken = front(front(input@, frames), old(output)@.len() as usize);
                let all = old(self)@.waiting() + taken;
                &&& final(output)@ == all.take(taken.len() as int) + old(output)@.subrange(
                    taken.len() as int,
                    old(output)@.len() as int,
                )
                &&& final(self)@.waiting() == all.subrange(taken.len() as int, all.len() as int)
            }),
    {
        let mut n: usize = frames;
        if input.len() < n {
            n = input.len();
        }
        if output.len() < n {
            n = output.len();
        }
        let ghost taken = front(front(input@, frames), old(output)@.len() as usize);
        let ghost start = old(self)@.waiting();
        let ghost all = start + taken;
        assert(taken =~= input@.take(n as int));
        let d: usize = self.line.len();
        let mut i: usize = 0;
        assert(all.subrange(0, d as int) =~= start);
        while i < n
            invariant
                i <= n,
                n <= input@.len(),
                n <= output@.len(),
                output@.len() == old(output)@.len(),
                taken == input@.take(n as int),
                all == start + taken,
                start.len() == d,
                d == self.line@.len(),
                self.active == old(self).active,
                self.delay == old(self).delay,
                self@.ring_wf(),
                self@.waiting() == all.subrange(i as int, i as int + d as int),
                output@ == all.take(i as int) + old(output)@.subrange(
                    i as int,
                    old(output)@.len() as int,
                ),
            decreases n - i,
        {
            let sample: u32 = input[i];
            let ghost before = self@;
            let ghost out_before = output@;
            if d == 0 {
                output[i] = sample;
                proof {
                    assert(all[i as int] == sample);
                    assert(self@.waiting() =~= all.subrange(i as int + 1, i as int + 1 + d as int));
                }
            } else {
                let position: usize = self.position;
                output[i] = self.line[position];
                self.line[position] = sample;
                self.position = if position + 1 == d {
                    0
                } else {
                    position + 1
                };
                proof {
                    let w = before.waiting();
                    assert(w[0] == before.line[position as int]);
                    assert(w[0] == all[i as int]);
                    assert(all[i as int + d as int] == sample);
                    let now = self@.waiting();
                    let want = all.subrange(i as int + 1, i as int + 1 + d as int);
                    assert(now.len() == want.len());
                    assert forall|k: int| 0 <= k < now.len() implies now[k] == want[k] by {
                        if k < d - 1 {
                            assert(want[k] == w[k + 1]);
                        } else {
                            assert(want[k] == sample);
                        }
                    }
                    assert(now =~= want);
                }
            }
            proof {
                assert(output@ =~= all.take(i as int + 1) + old(output)@.subrange(
                    i as int + 1,
                    old(output)@.len() as int,
                ));
            }
            i = i + 1;
        }
        proof {
            assert(all.subrange(n as int, n as int + d as int) =~= all.subrange(
                taken.len() as int,
                all.len() as int,
            ));
        }
    }
}

/// The frame, counted from the start of the block, at which an event that
/// is delayed by `delay` frames happens.
pub open spec fn delayed_frame(e: ProcEvent, delay: u32) -> int {
    e.at() + delay
}

/// An event as it waits for a later block: its frame counted from the start
/// of the next block, as far as a frame can count.
pub open spec fn carried(e: ProcEvent, frame: int, frames: usize) -> ProcEvent {
    let rest = frame - frames;
    e.moved_to(
        if rest > u32::MAX {
            u32::MAX
        } else {
            rest as u32
        },
    )
}

/// The events of a list that happen within a block of `frames` frames once
/// they are delayed, each at its delayed frame, in their order.
pub open spec fn due(events: Seq<ProcEvent>, delay: u32, frames: usize) -> Seq<ProcEvent>
    decreases events.len(),
{
    if events.len() == 0 {
        Seq::empty()
    } else {
        let rest = due(events.drop_last(), delay, frames);
        let e = events.last();
        if delayed_frame(e, delay) < frames {
            rest.push(e.moved_to(delayed_frame(e, delay) as u32))
        } else {
            rest
        }
    }
}

/// The events of a list that happen behind a block of `frames` frames once
/// they are delayed, each as it waits for a later block, in their order.
pub open spec fn not_due(events: Seq<ProcEvent>, delay: u32, frames: usize) -> Seq<ProcEvent>
    decreases events.len(),
{
    if events.len() == 0 {
        Seq::empty()
    } else {
        let rest = not_due(events.drop_last(), delay, frames);
        let e = events.last();
        if delayed_frame(e, delay) < frames {
            rest
        } else {
            rest.push(carried(e, delayed_frame(e, delay), frames))
        }
    }
}

fn sort_out(
    events: &Vec<ProcEvent>,
    delay: u32,
    frames: usize,
    output: &mut Vec<ProcEvent>,
    later: &mut Vec<ProcEvent>,
)
    ensures
        final(output)@ == old(output)@ + due(events@, delay, frames),
        final(later)@ == old(later)@ + not_due(events@, delay, frames),
{
    let mut i: usize = 0;
    assert(events@.take(0) =~= Seq::<ProcEvent>::empty());
    assert(output@ =~= old(output)@ + due(events@.take(0), delay, frames));
    assert(later@ =~= old(later)@ + not_due(events@.take(0), delay, frames));
    while i < events.len()
        invariant
            i <= events@.len(),
            output@ == old(output)@ + due(events@.take(i as int), delay, frames),
            later@ == old(later)@ + not_due(events@.take(i as int), delay, frames),
        decreases events@.len() - i,
    {
        proof {
            assert(events@.take(i as int + 1).drop_last() =~= events@.take(i as int));
        }
        let e: ProcEvent = events[i];
        let frame: u64 = e.frame() as u64 + delay as u64;
        if frame < frames as u64 {
            output.push(e.with_frame(frame as u32));
        } else {
            let rest: u64 = frame - frames as u64;
            let waits: u32 = if rest > u32::MAX as u64 {
                u32::MAX
            } else {
                rest as u32
            };
            later.push(e.with_frame(waits));
        }
        i = i + 1;
        assert(output@ =~= old(output)@ + due(events@.take(i as int), delay, frames));
        assert(later@ =~= old(later)@ + not_due(events@.take(i as int), delay, frames));
    }
    assert(events@.take(events@.len() as int) =~= events@);
}

impl DelayCompNode<ProcEvent> {
    /// Delays one block of events. The events that have waited in the line
    /// and are due within the block come out first, each at its frame; then
    /// the events of the input that are due within the block once they are
    /// delayed. What is not due waits in the line for a later block, what has
    /// waited before what came in now. The input is emptied.
    pub fn process(&mut self, input: &mut Vec<ProcEvent>, output: &mut Vec<ProcEvent>, frames: usize)
        ensures
            final(self).active == old(self).active,
            final(self).delay == old(self).delay,
            final(self).position == old(self).position,
            final(input)@ == Seq::<ProcEvent>::empty(),
            final(output)@ == old(output)@ + due(old(self).line@, 0, frames) + due(
                old(input)@,
                old(self).delay,
                frames,
            ),
            final(self).line@ == not_due(old(self).line@, 0, frames) + not_due(
                old(input)@,
                old(self).delay,
                frames,
            ),
    {
        let ghost line0 = self.line@;
        let ghost out0 = output@;
        let len: usize = self.line.len();
        let mut kept: usize = 0;
        let mut i: usize = 0;
        assert(line0.take(0) =~= Seq::<ProcEvent>::empty());
        assert(output@ =~= out0 + due(line0.take(0), 0, frames));
        assert(self.line@.take(0) =~= not_due(line0.take(0), 0, frames));
        while i < len
            invariant
                kept <= i <= len,
                len == line0.len(),
                self.line@.len() == len,
                self.active == old(self).active,
                self.delay == old(self).delay,
                self.position == old(self).position,
                output@ == out0 + due(line0.take(i as int), 0, frames),
                self.line@.take(kept as int) == not_due(line0.take(i as int), 0, frames),
                forall|j: int| i <= j < len ==> self.line@[j] == line0[j],
            decreases len - i,
        {
            proof {
                assert(line0.take(i as int + 1).drop_last() =~= line0.take(i as int));
            }
            let e: ProcEvent = self.line[i];
            let frame: u32 = e.frame();
            let ghost before = self.line@;
            if (frame as u64) < frames as u64 {
                output.push(e.with_frame(frame));
                assert(output@ =~= out0 + due(line0.take(i as int + 1), 0, frames));
                assert(self.line@.take(kept as int) =~= not_due(
                    line0.take(i as int + 1),
                    0,
                    frames,
                ));
            } else {
                let rest: u64 = frame as u64 - frames as u64;
                self.line[kept] = e.with_frame(rest as u32);
                kept = kept + 1;
                proof {
                    assert(self.line@.take(kept as int) =~= before.take(kept as int - 1).push(
                        carried(e, delayed_frame(e, 0), frames),
                    ));
                    assert(output@ =~= out0 + due(line0.take(i as int + 1), 0, frames));
                }
            }
            i = i + 1;
        }
        assert(line0.take(len as int) =~= line0);
        self.line.truncate(kept);
        assert(self.line@ =~= not_due(line0, 0, frames));
        sort_out(input, self.delay, frames, output, &mut self.line);
        input.clear();
        assert(output@ =~= old(output)@ + due(old(self).line@, 0, frames) + due(
            old(input)@,
            old(self).delay,
            frames,
        ));
    }
}

/// The delay nodes of a map, as what they hold.
pub open spec fn nodes_view<T>(m: Map<u64, DelayCompNode<T>>) -> Map<u64, DelayNodeView<T>> {
    Map::new(|k: u64| m.contains_key(k), |k: u64| m[k]@)
}

/// The nodes with none of them in use.
pub open spec fn all_inactive<T>(m: Map<u64, DelayNodeView<T>>) -> Map<u64, DelayNodeView<T>> {
    Map::new(|k: u64| m.contains_key(k), |k: u64| DelayNodeView { active: false, ..m[k] })
}

/// The nodes that are in use.
pub open spec fn only_active<T>(m: Map<u64, DelayNodeView<T>>) -> Map<u64, DelayNodeView<T>> {
    Map::new(|k: u64| m.contains_key(k) && m[k].active, |k: u64| m[k])
}

/// The nodes after the node under a key was put to use: a node that is
/// there keeps what it holds, and a new one is made with `line` where there
/// is none.
pub open spec fn touched<T>(
    m: Map<u64, DelayNodeView<T>>,
    key: DelayCompKey,
    line: Seq<T>,
) -> Map<u64, DelayNodeView<T>> {
    if m.contains_key(key.code()) {
        m.insert(key.code(), DelayNodeView { active: true, ..m[key.code()] })
    } else {
        m.insert(
            key.code(),
            DelayNodeView { active: true, delay: key.delay, line, position: 0 },
        )
    }
}

/// Marks every node of a map as not in use.
pub fn mark_all_inactive<T>(m: &mut FnvHashMap<u64, DelayCompNode<T>>)
    ensures
        nodes_view(final(m)@) == all_inactive(nodes_view(old(m)@)),
{
    broadcast use vstd::std_specs::hash::group_hash_axioms;

    let keys = map_keys(m);
    let mut i: usize = 0;
    while i < keys.len()
        invariant
            i <= keys@.len(),
            lists_keys(keys@, old(m)@),
            forall|k: u64| m@.contains_key(k) <==> old(m)@.contains_key(k),
            forall|j: int|
                0 <= j < i ==> (#[trigger] m@[keys@[j]])@ == (DelayNodeView {
                    active: false,
                    ..old(m)@[keys@[j]]@
                }),
            forall|j: int| i <= j < keys@.len() ==> #[trigger] m@[keys@[j]] == old(m)@[keys@[j]],
        decreases keys@.len() - i,
    {
        let key: u64 = keys[i];
        assert(keys@.contains(key));
        match map_remove(m, &key) {
            Some(node) => {
                let mut node = node;
                node.active = false;
                let _ = map_insert(m, key, node);
            },
            None => {},
        }
        i = i + 1;
    }
    proof {
        assert forall|k: u64| old(m)@.contains_key(k) implies (#[trigger] m@[k])@ == (DelayNodeView {
            active: false,
            ..old(m)@[k]@
        }) by {
            assert(keys@.contains(k));
            let j = choose|j: int| 0 <= j < keys@.len() && keys@[j] == k;
            assert(m@[keys@[j]]@ == (DelayNodeView { active: false, ..old(m)@[keys@[j]]@ }));
        }
        assert(nodes_view(m@) =~= all_inactive(nodes_view(old(m)@)));
    }
}

/// Puts the node under a key to use if there is one, and says whether there
/// is.
pub fn touch<T>(m: &mut FnvHashMap<u64, DelayCompNode<T>>, key: DelayCompKey) -> (found: bool)
    ensures
        found == old(m)@.contains_key(key.code()),
        found ==> nodes_view(final(m)@) == touched(nodes_view(old(m)@), key, Seq::empty()),
        !found ==> final(m)@ == old(m)@,
{
    broadcast use vstd::std_specs::hash::group_hash_axioms;

    let code: u64 = key.to_code();
    match map_remove(m, &code) {
        Some(node) => {
            let mut node = node;
            node.active = true;
            let _ = map_insert(m, code, node);
            assert(nodes_view(m@) =~= touched(nodes_view(old(m)@), key, Seq::empty()));
            true
        },
        None => {
            assert(m@ =~= old(m)@);
            false
        },
    }
}

/// Puts a new node under a key that has none.
pub fn insert_node<T>(m: &mut FnvHashMap<u64, DelayCompNode<T>>, key: DelayCompKey, line: Vec<T>)
    requires
        !old(m)@.contains_key(key.code()),
    ensures
        nodes_view(final(m)@) == touched(nodes_view(old(m)@), key, line@),
{
    broadcast use vstd::std_specs::hash::group_hash_axioms;

    let node = DelayCompNode { active: true, delay: key.delay, line, position: 0 };
    let _ = map_insert(m, key.to_code(), node);
    assert(nodes_view(m@) =~= touched(nodes_view(old(m)@), key, line@));
}

/// Removes every node that is not in use.
pub fn evict_inactive<T>(m: &mut FnvHashMap<u64, DelayCompNode<T>>)
    ensures
        nodes_view(final(m)@) == only_active(nodes_view(old(m)@)),
{
    broadcast use vstd::std_specs::hash::group_hash_axioms;

    let keys = map_keys(m);
    let mut i: usize = 0;
    assert forall|j: int| 0 <= j < keys@.len() implies m@.contains_key(#[trigger] keys@[j]) by {
        assert(keys@.contains(keys@[j]));
    }
    while i < keys.len()
        invariant
            i <= keys@.len(),
            lists_keys(keys@, old(m)@),
            forall|k: u64| #[trigger]
                m@.contains_key(k) ==> old(m)@.contains_key(k) && m@[k] == old(m)@[k],
            forall|j: int|
                0 <= j < i ==> (m@.contains_key(#[trigger] keys@[j]) <==> old(m)@[keys@[j]].active),
            forall|j: int| i <= j < keys@.len() ==> m@.contains_key(#[trigger] keys@[j]),
        decreases keys@.len() - i,
    {
        let key: u64 = keys[i];
        assert(keys@.contains(key));
        let in_use: bool = match map_get(m, &key) {
            Some(node) => node.active,
            None => true,
        };
        let ghost before = m@;
        if !in_use {
            let _ = map_remove(m, &key);
        }
        proof {
            assert forall|j: int| 0 <= j < i + 1 implies (m@.contains_key(#[trigger] keys@[j])
                <==> old(m)@[keys@[j]].active) by {
                if j < i {
                    assert(keys@[j] != key);
                    assert(before.contains_key(keys@[j]) <==> old(m)@[keys@[j]].active);
                }
            }
            assert forall|j: int| i + 1 <= j < keys@.len() implies m@.contains_key(
                #[trigger] keys@[j],
            ) by {
                assert(keys@[j] != key);
                assert(before.contains_key(keys@[j]));
            }
        }
        i = i + 1;
    }
    proof {
        assert forall|k: u64| m@.contains_key(k) <==> (old(m)@.contains_key(k)
            && old(m)@[k].active) by {
            if old(m)@.contains_key(k) {
                assert(keys@.contains(k));
                let j = choose|j: int| 0 <= j < keys@.len() && keys@[j] == k;
                assert(m@.contains_key(keys@[j]) <==> old(m)@[keys@[j]].active);
            }
        }
        assert(nodes_view(m@) =~= only_active(nodes_view(old(m)@)));
    }
}

/// The delay nodes, by the type of what they delay.
pub struct DelayCompNodePool {
    pub audio: FnvHashMap<u64, DelayCompNode<u32>>,
    pub note: FnvHashMap<u64, DelayCompNode<ProcEvent>>,
    pub param_event: FnvHashMap<u64, DelayCompNode<ProcEvent>>,
}

impl DelayCompNodePool {
    /// No delay node.
    pub fn new() -> (p: Self)
        ensures
            p.audio@ == Map::<u64, DelayCompNode<u32>>::empty(),
            p.note@ == Map::<u64, DelayCompNode<ProcEvent>>::empty(),
            p.param_event@ == Map::<u64, DelayCompNode<ProcEvent>>::empty(),
    {
        DelayCompNodePool { audio: new_map(), note: new_map(), param_event: new_map() }
    }
}

/// Everything that schedules share.
pub struct GraphSharedPools {
    pub buffers: SharedBufferPools,
    pub delay_comp_nodes: DelayCompNodePool,
    pub transport: TransportInfo,
    /// The nodes of the graph at which a plug-in is hosted.
    pub plugin_hosts: Vec<u64>,
}

impl GraphSharedPools {
    /// The pools of buffers are in order.
    pub open spec fn wf(&self) -> bool {
        self.buffers.wf()
    }

    /// Pools without a buffer and without a delay node.
    pub fn new(buffer_size: usize) -> (p: Self)
        ensures
            p.wf(),
            p.buffers.audio_buffer_pool@ == Seq::<PooledAudio>::empty(),
            p.buffers.audio_buffer_pool.frames() == buffer_size,
            p.delay_comp_nodes.audio@ == Map::<u64, DelayCompNode<u32>>::empty(),
            p.delay_comp_nodes.note@ == Map::<u64, DelayCompNode<ProcEvent>>::empty(),
            p.delay_comp_nodes.param_event@ == Map::<u64, DelayCompNode<ProcEvent>>::empty(),
            p.transport.event is None,
            p.plugin_hosts@ == Seq::<u64>::empty(),
    {
        GraphSharedPools {
            buffers: SharedBufferPools::new(buffer_size),
            delay_comp_nodes: DelayCompNodePool::new(),
            transport: TransportInfo { event: None },
            plugin_hosts: Vec::new(),
        }
    }
}

} // verus!
