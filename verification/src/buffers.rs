//! The audio that one plug-in reads and writes in one block.
//!
//! A sample is held as the 32 bits that stand for it; the library only tells
//! silence, which is the sample `0`, from anything else.

use vstd::prelude::*;

verus! {

/// One channel of audio. `is_constant` says that all samples of the block
/// equal the first.
#[derive(Debug)]
pub struct AudioChannel {
    pub samples: Vec<u32>,
    pub is_constant: bool,
}

/// The first `frames` samples, or all of them where there are fewer.
pub open spec fn block_of(samples: Seq<u32>, frames: usize) -> Seq<u32> {
    if frames <= samples.len() {
        samples.subrange(0, frames as int)
    } else {
        samples
    }
}

/// Every sample is `0`.
pub open spec fn all_zero(samples: Seq<u32>) -> bool {
    forall|i: int| 0 <= i < samples.len() ==> samples[i] == 0
}

impl AudioChannel {
    /// The block is silent: a constant channel by its first sample, any other
    /// by all the samples of the block.
    pub open spec fn silent(&self, frames: usize) -> bool {
        if self.is_constant {
            self.samples@.len() == 0 || self.samples@[0] == 0
        } else {
            all_zero(block_of(self.samples@, frames))
        }
    }

    /// The samples after the block was overwritten with zeros: the samples
    /// behind the block are untouched.
    pub open spec fn zeroed(&self, frames: usize) -> Seq<u32> {
        Seq::new(
            self.samples@.len(),
            |i: int|
                if i < frames {
                    0u32
                } else {
                    self.samples@[i]
                },
        )
    }

    /// A channel of `len` samples of silence.
    pub fn new(len: usize) -> (ch: Self)
        ensures
            ch.samples@.len() == len,
            all_zero(ch.samples@),
            ch.is_constant,
    {
        let mut samples: Vec<u32> = Vec::with_capacity(len);
        let mut i: usize = 0;
        while i < len
            invariant
                i <= len,
                samples@.len() == i,
                all_zero(samples@),
            decreases len - i,
        {
            samples.push(0);
            i = i + 1;
        }
        AudioChannel { samples, is_constant: true }
    }

    /// Whether the block is silent.
    #[verifier::when_used_as_spec(silent)]
    pub fn is_silent(&self, frames: usize) -> (r: bool)
        ensures
            r == self.silent(frames),
    {
        if self.is_constant {
            self.samples.len() == 0 || self.samples[0] == 0
        } else {
            let n: usize = if frames <= self.samples.len() {
                frames
            } else {
                self.samples.len()
            };
            let mut i: usize = 0;
            while i < n
                invariant
                    !self.is_constant,
                    i <= n,
                    n == block_of(self.samples@, frames).len(),
                    n <= self.samples@.len(),
                    forall|j: int| 0 <= j < i ==> self.samples@[j] == 0,
                decreases n - i,
            {
                if self.samples[i] != 0 {
                    proof {
                        let blk = block_of(self.samples@, frames);
                        assert(blk[i as int] != 0);
                        assert(!all_zero(blk));
                    }
                    return false;
                }
                i = i + 1;
            }
            true
        }
    }

    /// Writes silence over the block and marks the channel constant.
    pub fn clear(&mut self, frames: usize)
        ensures
            final(self).samples@ == old(self).zeroed(frames),
            final(self).is_constant,
            frames > 0 ==> final(self).silent(frames),
    {
        let n: usize = if frames <= self.samples.len() {
            frames
        } else {
            self.samples.len()
        };
        let mut i: usize = 0;
        while i < n
            invariant
                i <= n,
                n <= self.samples@.len(),
                self.samples@.len() == old(self).samples@.len(),
                forall|j: int|
                    0 <= j < self.samples@.len() ==> self.samples@[j] == if j < i {
                        0
                    } else {
                        old(self).samples@[j]
                    },
            decreases n - i,
        {
            self.samples[i] = 0;
            i = i + 1;
        }
        self.is_constant = true;
        assert(self.samples@ =~= old(self).zeroed(frames));
    }
}

/// Bit `i` of a mask.
pub open spec fn mask_bit(mask: u64, i: int) -> bool {
    0 <= i < 64 && (mask >> (i as u64)) & 1 == 1
}

/// The channels of one audio port. Bit `i` of `constant_mask` is where a
/// plug-in reads and writes whether channel `i` is constant; ports have at
/// most 64 channels that the mask can speak of.
#[derive(Debug)]
pub struct AudioPortBuffer {
    pub channels: Vec<AudioChannel>,
    pub constant_mask: u64,
}

impl AudioPortBuffer {
    /// Every channel is silent.
    pub open spec fn silent(&self, frames: usize) -> bool {
        forall|i: int| 0 <= i < self.channels@.len() ==> self.channels@[i].silent(frames)
    }

    /// The port after its block was cleared: every channel holds zeros in the
    /// block and is marked constant, and the mask says so.
    pub open spec fn cleared_from(&self, before: &AudioPortBuffer, frames: usize) -> bool {
        &&& self.channels@.len() == before.channels@.len()
        &&& self.mask_matches_channels()
        &&& forall|i: int|
            0 <= i < self.channels@.len() ==> self.channels@[i].is_constant
                && self.channels@[i].samples@ == before.channels@[i].zeroed(frames)
    }

    /// The mask says of each channel what the channel says of itself.
    pub open spec fn mask_matches_channels(&self) -> bool {
        forall|i: int|
            0 <= i < 64 ==> mask_bit(self.constant_mask, i) == (i < self.channels@.len()
                && self.channels@[i].is_constant)
    }

    /// Each channel says of itself what the mask says of it.
    pub open spec fn channels_match_mask(&self) -> bool {
        forall|i: int|
            0 <= i < self.channels@.len() ==> self.channels@[i].is_constant == mask_bit(
                self.constant_mask,
                i,
            )
    }

    /// The samples of every channel are those of `before`.
    pub open spec fn same_samples(&self, before: &AudioPortBuffer) -> bool {
        &&& self.channels@.len() == before.channels@.len()
        &&& forall|i: int|
            0 <= i < self.channels@.len() ==> self.channels@[i].samples@
                == before.channels@[i].samples@
    }

    /// Whether every channel is silent.
    #[verifier::when_used_as_spec(silent)]
    pub fn is_silent(&self, frames: usize) -> (r: bool)
        ensures
            r == self.silent(frames),
    {
        let mut i: usize = 0;
        while i < self.channels.len()
            invariant
                i <= self.channels@.len(),
                forall|j: int| 0 <= j < i ==> self.channels@[j].silent(frames),
            decreases self.channels@.len() - i,
        {
            if !self.channels[i].is_silent(frames) {
                return false;
            }
            i = i + 1;
        }
        true
    }

    /// Clears every channel and sets the mask to match.
    pub fn clear_all(&mut self, frames: usize)
        ensures
            final(self).cleared_from(old(self), frames),
            frames > 0 ==> final(self).silent(frames),
    {
        let mut i: usize = 0;
        while i < self.channels.len()
            invariant
                i <= self.channels@.len(),
                self.channels@.len() == old(self).channels@.len(),
                forall|j: int|
                    0 <= j < i ==> self.channels@[j].is_constant && self.channels@[j].samples@
                        == old(self).channels@[j].zeroed(frames) && (frames > 0
                        ==> self.channels@[j].silent(frames)),
                forall|j: int|
                    i <= j < self.channels@.len() ==> self.channels@[j] == old(self).channels@[j],
            decreases self.channels@.len() - i,
        {
            self.channels[i].clear(frames);
            i = i + 1;
        }
        self.sync_constant_mask_from_buffers();
    }

    /// Sets the mask; the channels stay.
    pub fn set_constant_mask(&mut self, mask: u64)
        ensures
            final(self).constant_mask == mask,
            final(self).channels == old(self).channels,
    {
        self.constant_mask = mask;
    }

    /// Makes the mask say what the channels say of themselves.
    pub fn sync_constant_mask_from_buffers(&mut self)
        ensures
            final(self).channels == old(self).channels,
            final(self).mask_matches_channels(),
    {
        let mut mask: u64 = 0;
        let mut i: usize = 0;
        assert(forall|j: u64| j < 64 ==> (0u64 >> j) & 1 == 0) by (bit_vector);
        while i < self.channels.len() && i < 64
            invariant
                i <= self.channels@.len(),
                i <= 64,
                *self == *old(self),
                forall|j: int|
                    0 <= j < 64 ==> mask_bit(mask, j) == (j < i && self.channels@[j].is_constant),
            decreases 64 - i,
        {
            if self.channels[i].is_constant {
                let bit: u64 = 1u64 << (i as u64);
                let ghost before = mask;
                mask = mask | bit;
                proof {
                    let k = i as u64;
                    assert(forall|j: u64|
                        j < 64 && k < 64 ==> (#[trigger] ((before | (1u64 << k)) >> j) & 1 == 1 <==> (
                        (before >> j) & 1 == 1 || j == k))) by (bit_vector);
                    assert forall|j: int| 0 <= j < 64 implies mask_bit(mask, j) == (j < i + 1
                        && self.channels@[j].is_constant) by {
                        let ju = j as u64;
                        assert(((before | (1u64 << k)) >> ju) & 1 == 1 <==> ((before >> ju) & 1 == 1
                            || ju == k));
                        assert(mask_bit(before, j) == (j < i && self.channels@[j].is_constant));
                    }
                }
            }
            i = i + 1;
        }
        self.constant_mask = mask;
    }

    /// Makes each channel say of itself what the mask says of it.
    pub fn sync_constant_mask_to_buffers(&mut self)
        ensures
            final(self).constant_mask == old(self).constant_mask,
            final(self).same_samples(old(self)),
            final(self).channels_match_mask(),
    {
        let mut i: usize = 0;
        while i < self.channels.len()
            invariant
                i <= self.channels@.len(),
                self.constant_mask == old(self).constant_mask,
                self.same_samples(old(self)),
                forall|j: int|
                    0 <= j < i ==> self.channels@[j].is_constant == mask_bit(
                        self.constant_mask,
                        j,
                    ),
            decreases self.channels@.len() - i,
        {
            let constant: bool = i < 64 && (self.constant_mask >> (i as u64)) & 1 == 1;
            self.channels[i].is_constant = constant;
            i = i + 1;
        }
    }
}

/// The audio ports of one plug-in for one block.
#[derive(Debug)]
pub struct ProcBuffers {
    pub audio_in: Vec<AudioPortBuffer>,
    pub audio_out: Vec<AudioPortBuffer>,
}

/// Every port of a list is silent.
pub open spec fn ports_silent(ports: Seq<AudioPortBuffer>, frames: usize) -> bool {
    forall|i: int| 0 <= i < ports.len() ==> ports[i].silent(frames)
}

/// Every port of a list is what silencing made of the port before: zeros in
/// the block of every channel, and mask and channels agreeing that each channel
/// the mask can speak of is constant.
pub open spec fn ports_silenced(
    ports: Seq<AudioPortBuffer>,
    before: Seq<AudioPortBuffer>,
    frames: usize,
) -> bool {
    &&& ports.len() == before.len()
    &&& forall|i: int| 0 <= i < ports.len() ==> (#[trigger] ports[i]).silenced_from(&before[i], frames)
}

impl AudioPortBuffer {
    /// The port after it was cleared and its channels were then set by the mask.
    pub open spec fn silenced_from(&self, before: &AudioPortBuffer, frames: usize) -> bool {
        &&& self.channels@.len() == before.channels@.len()
        &&& self.mask_matches_channels()
        &&& forall|c: int|
            0 <= c < self.channels@.len() ==> (#[trigger] self.channels@[c]).is_constant == (c < 64)
                && self.channels@[c].samples@ == before.channels@[c].zeroed(frames)
    }
}

impl ProcBuffers {
    /// Every input port is silent.
    pub open spec fn inputs_silent(&self, frames: usize) -> bool {
        ports_silent(self.audio_in@, frames)
    }

    /// Every output port is silent.
    pub open spec fn outputs_silent(&self, frames: usize) -> bool {
        ports_silent(self.audio_out@, frames)
    }

    /// Clears every output port, then sets the channels of each by its mask.
    pub fn silence_outputs(&mut self, frames: usize)
        ensures
            final(self).audio_in == old(self).audio_in,
            ports_silenced(final(self).audio_out@, old(self).audio_out@, frames),
            frames > 0 ==> final(self).outputs_silent(frames),
    {
        let mut i: usize = 0;
        while i < self.audio_out.len()
            invariant
                i <= self.audio_out@.len(),
                self.audio_in == old(self).audio_in,
                self.audio_out@.len() == old(self).audio_out@.len(),
                forall|j: int|
                    0 <= j < i ==> (#[trigger] self.audio_out@[j]).silenced_from(
                        &old(self).audio_out@[j],
                        frames,
                    ) && (frames > 0 ==> self.audio_out@[j].silent(frames)),
                forall|j: int|
                    i <= j < self.audio_out@.len() ==> self.audio_out@[j] == old(self).audio_out@[j],
            decreases self.audio_out@.len() - i,
        {
            self.audio_out[i].clear_all(frames);
            let ghost mid = self.audio_out@[i as int];
            self.audio_out[i].sync_constant_mask_to_buffers();
            proof {
                let port = self.audio_out@[i as int];
                assert forall|c: int| 0 <= c < port.channels@.len() implies (
                #[trigger] port.channels@[c]).is_constant == (c < 64) && port.channels@[c].samples@
                    == old(self).audio_out@[i as int].channels@[c].zeroed(frames) by {
                    assert(mid.channels@[c].is_constant);
                    assert(port.channels@[c].is_constant == mask_bit(port.constant_mask, c));
                    assert(port.channels@[c].samples@ == mid.channels@[c].samples@);
                    if c < 64 {
                        assert(mask_bit(mid.constant_mask, c));
                    }
                }
                assert forall|k: int| 0 <= k < 64 implies mask_bit(port.constant_mask, k) == (k
                    < port.channels@.len() && port.channels@[k].is_constant) by {
                    assert(mask_bit(mid.constant_mask, k) == (k < mid.channels@.len()
                        && mid.channels@[k].is_constant));
                }
                if frames > 0 {
                    assert forall|c: int| 0 <= c < port.channels@.len() implies (
                    #[trigger] port.channels@[c]).silent(frames) by {
                        assert(port.channels@[c].samples@ == mid.channels@[c].samples@);
                        assert(mid.channels@[c].silent(frames));
                        let smp = port.channels@[c].samples@;
                        if smp.len() > 0 {
                            assert(smp[0] == 0);
                        }
                        assert(all_zero(block_of(smp, frames)));
                    }
                }
            }
            i = i + 1;
        }
    }

    /// Whether every input port is silent.
    #[verifier::when_used_as_spec(inputs_silent)]
    pub fn audio_inputs_silent(&self, frames: usize) -> (r: bool)
        ensures
            r == self.inputs_silent(frames),
    {
        let mut i: usize = 0;
        while i < self.audio_in.len()
            invariant
                i <= self.audio_in@.len(),
                forall|j: int| 0 <= j < i ==> self.audio_in@[j].silent(frames),
            decreases self.audio_in@.len() - i,
        {
            if !self.audio_in[i].is_silent(frames) {
                return false;
            }
            i = i + 1;
        }
        true
    }

    /// Whether every output port is silent.
    #[verifier::when_used_as_spec(outputs_silent)]
    pub fn audio_outputs_silent(&self, frames: usize) -> (r: bool)
        ensures
            r == self.outputs_silent(frames),
    {
        let mut i: usize = 0;
        while i < self.audio_out.len()
            invariant
                i <= self.audio_out@.len(),
                forall|j: int| 0 <= j < i ==> self.audio_out@[j].silent(frames),
            decreases self.audio_out@.len() - i,
        {
            if !self.audio_out[i].is_silent(frames) {
                return false;
            }
            i = i + 1;
        }
        true
    }
}

} // verus!
