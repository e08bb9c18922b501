//! Digital input and digital output terminals: one bit per channel.

use vstd::prelude::*;
use crate::bits::{raw_get, raw_len, raw_repeat, raw_set, Bits};
use crate::channel::{ChannelInput, TermChannel, TermError};
use crate::observable::{bit_level, reading_of, ElectricalObservable, Getter, Reading, Setter};

verus! {

/// What a single-channel read of a bit buffer reports: the level of the
/// addressed bit, or an error when no channel is given or the offset lies
/// outside the buffer.
pub open spec fn channel_reading(values: Seq<bool>, channel: Option<ChannelInput>) -> Result<
    Reading,
    TermError,
> {
    match channel {
        None => Err(TermError::ChannelRequired),
        Some(ch) => {
            if ch.spec_offset() < values.len() {
                Ok(Reading::Simple(bit_level(values[ch.spec_offset() as int])))
            } else {
                Err(TermError::OutOfBounds(ch.spec_offset() as usize))
            }
        },
    }
}

/// Reads the bit at `offset` as a signal level.
pub(crate) fn read_level(values: &Bits, offset: usize) -> (r: Result<
    ElectricalObservable,
    TermError,
>)
    ensures
        reading_of(r) == (if offset < values@.len() {
            Ok::<Reading, TermError>(Reading::Simple(bit_level(values@[offset as int])))
        } else {
            Err::<Reading, TermError>(TermError::OutOfBounds(offset))
        }),
{
    match raw_get(values, offset) {
        Some(bit) => Ok(ElectricalObservable::Simple(if bit { 1 } else { 0 })),
        None => Err(TermError::OutOfBounds(offset)),
    }
}

/// Overwrites `dst` with `src`, bit by bit. Both hold the same number of bits.
pub(crate) fn copy_bits(dst: &mut Bits, src: &Bits)
    requires
        old(dst)@.len() == src@.len(),
    ensures
        final(dst)@ == src@,
{
    let n = raw_len(src);
    let mut i: usize = 0;
    while i < n
        invariant
            n == src@.len(),
            dst@.len() == n,
            i <= n,
            forall|k: int| 0 <= k < i ==> dst@[k] == src@[k],
        decreases n - i,
    {
        match raw_get(src, i) {
            Some(bit) => {
                raw_set(dst, i, bit);
            },
            None => {},
        }
        i = i + 1;
    }
    assert(dst@ =~= src@);
}

/// A digital input terminal. Its bits mirror the terminal's input image.
pub struct DITerm {
    pub values: Bits,
    pub num_of_channels: u8,
}

impl DITerm {
    /// The buffer holds one bit per declared channel.
    pub open spec fn wf(&self) -> bool {
        self.values@.len() == self.num_of_channels
    }

    /// A terminal with `num_of_channels` channels, all low.
    pub fn new(num_of_channels: u8) -> (t: DITerm)
        ensures
            t.wf(),
            t.num_of_channels == num_of_channels,
            t.values@ == Seq::new(num_of_channels as nat, |i: int| false),
    {
        DITerm { values: raw_repeat(false, num_of_channels as usize), num_of_channels }
    }

    /// Takes over the terminal's input image. The image has exactly as many
    /// bits as the terminal.
    pub fn refresh(&mut self, bits: &Bits)
        requires
            bits@.len() == old(self).values@.len(),
        ensures
            final(self).values@ == bits@,
            final(self).num_of_channels == old(self).num_of_channels,
            old(self).wf() ==> final(self).wf(),
    {
        copy_bits(&mut self.values, bits);
    }
}

impl Getter for DITerm {
    open spec fn readable(&self) -> bool {
        true
    }

    open spec fn reading(&self, channel: Option<ChannelInput>) -> Result<Reading, TermError> {
        channel_reading(self.values@, channel)
    }

    fn read(&self, channel: Option<ChannelInput>) -> (r: Result<ElectricalObservable, TermError>) {
        match channel {
            Some(ch) => read_level(&self.values, ch.offset()),
            None => Err(TermError::ChannelRequired),
        }
    }
}

/// A digital output terminal. Its bits are the commanded states that each
/// cycle pushes into the terminal's output image.
pub struct DOTerm {
    pub values: Bits,
    pub num_of_channels: u8,
}

impl DOTerm {
    /// The buffer holds one bit per declared channel.
    pub open spec fn wf(&self) -> bool {
        self.values@.len() == self.num_of_channels
    }

    /// A terminal with `num_of_channels` channels, all commanded low.
    pub fn new(num_of_channels: u8) -> (t: DOTerm)
        ensures
            t.wf(),
            t.num_of_channels == num_of_channels,
            t.values@ == Seq::new(num_of_channels as nat, |i: int| false),
    {
        DOTerm { values: raw_repeat(false, num_of_channels as usize), num_of_channels }
    }

    /// Pushes the commanded states into the terminal's output image, which has
    /// exactly as many bits as the terminal.
    pub fn refresh(&self, dst: &mut Bits)
        requires
            old(dst)@.len() == self.values@.len(),
        ensures
            final(dst)@ == self.values@,
    {
        copy_bits(dst, &self.values);
    }

    /// Whether a write to bit `offset` is accepted.
    pub open spec fn accepts(&self, offset: nat) -> bool {
        offset < self.values@.len() && offset < self.num_of_channels
    }
}

impl Setter for DOTerm {
    open spec fn writable(&self) -> bool {
        true
    }

    open spec fn written(
        &self,
        data: bool,
        channel: ChannelInput,
        after: &Self,
        r: Result<(), TermError>,
    ) -> bool {
        &&& after.num_of_channels == self.num_of_channels
        &&& if self.accepts(channel.spec_offset()) {
            &&& r == Ok::<(), TermError>(())
            &&& after.values@ == self.values@.update(channel.spec_offset() as int, data)
        } else {
            &&& r == Err::<(), TermError>(TermError::OutOfBounds(channel.spec_offset() as usize))
            &&& after.values@ == self.values@
        }
    }

    fn write(&mut self, data_to_write: bool, channel: ChannelInput) -> (r: Result<(), TermError>) {
        let offset = channel.offset();
        if offset >= raw_len(&self.values) || offset >= self.num_of_channels as usize {
            return Err(TermError::OutOfBounds(offset));
        }
        raw_set(&mut self.values, offset, data_to_write);
        Ok(())
    }
}

impl Getter for DOTerm {
    open spec fn readable(&self) -> bool {
        true
    }

    open spec fn reading(&self, channel: Option<ChannelInput>) -> Result<Reading, TermError> {
        channel_reading(self.values@, channel)
    }

    fn read(&self, channel: Option<ChannelInput>) -> (r: Result<ElectricalObservable, TermError>) {
        match channel {
            Some(ch) => read_level(&self.values, ch.offset()),
            None => Err(TermError::ChannelRequired),
        }
    }
}

/// A write to a channel that the output terminal has, followed by a read of
/// the same channel, reports the level that was written.
pub proof fn lemma_write_then_read(
    before: DOTerm,
    after: DOTerm,
    v: bool,
    c: TermChannel,
    r: Result<(), TermError>,
)
    requires
        before.wf(),
        c.spec_number() <= before.num_of_channels,
        before.written(v, ChannelInput::Channel(c), &after, r),
    ensures
        r.is_ok(),
        after.wf(),
        after.reading(Some(ChannelInput::Channel(c))) == Ok::<Reading, TermError>(
            Reading::Simple(bit_level(v)),
        ),
{
}

/// A write leaves every other channel of an output terminal as it was.
pub proof fn lemma_write_keeps_others(
    before: DOTerm,
    after: DOTerm,
    v: bool,
    target: ChannelInput,
    other: ChannelInput,
    r: Result<(), TermError>,
)
    requires
        before.written(v, target, &after, r),
        other.spec_offset() != target.spec_offset(),
    ensures
        after.reading(Some(other)) == before.reading(Some(other)),
{
}

/// A channel beyond the declared channel count is refused by an output
/// terminal: reads and writes report the offset as out of bounds, and a write
/// changes no bit.
pub proof fn lemma_output_beyond_count(
    before: DOTerm,
    after: DOTerm,
    v: bool,
    channel: ChannelInput,
    r: Result<(), TermError>,
)
    requires
        before.wf(),
        channel.spec_position() > before.num_of_channels,
        before.written(v, channel, &after, r),
    ensures
        r == Err::<(), TermError>(TermError::OutOfBounds(channel.spec_offset() as usize)),
        after.values@ == before.values@,
        before.reading(Some(channel)) == Err::<Reading, TermError>(
            TermError::OutOfBounds(channel.spec_offset() as usize),
        ),
{
}

/// A channel beyond the declared channel count is refused by an input
/// terminal: the read reports the offset as out of bounds.
pub proof fn lemma_input_beyond_count(t: DITerm, channel: ChannelInput)
    requires
        t.wf(),
        channel.spec_position() > t.num_of_channels,
    ensures
        t.reading(Some(channel)) == Err::<Reading, TermError>(
            TermError::OutOfBounds(channel.spec_offset() as usize),
        ),
{
}

} // verus!
