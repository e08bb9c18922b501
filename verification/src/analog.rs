//! Analog input terminals: a 16-bit raw value and a status word per channel.
//!
//! In a terminal's input image every channel occupies 32 bits: the status word
//! first, the raw value second. Bit 15 of the status word is the toggle bit,
//! which the terminal flips whenever it publishes a new sample. A channel takes
//! over its block only when the block shows a set toggle bit that the image
//! before did not show. A block with an unset toggle bit never changes the
//! value or the status word that the channel holds.

use vstd::prelude::*;
use crate::bits::{
    le_value, lemma_le_value_bound, pow2, raw_get, raw_load_u16, raw_load_u8, raw_new, raw_push,
    raw_range, raw_repeat, raw_set, Bits,
};
use crate::channel::{ChannelInput, TermError};
use crate::observable::{Checker, ElectricalObservable, Getter, Reading};

verus! {

/// The measuring range an analog terminal is wired for.
#[allow(non_camel_case_types)]
#[derive(Debug, Clone, Copy, PartialEq, Eq, Structural)]
pub enum InputRange {
    Current_0_20mA,
    Current_4_20mA,
    Voltage_0_10V,
    Voltage_2_10V,
}

/// Whether an analog terminal measures voltage or current.
#[derive(Debug, Clone, Copy, PartialEq, Eq, Structural)]
pub enum VoltageOrCurrent {
    Voltage,
    Current,
}

/// Bits per channel in an analog terminal's input image.
pub const ANALOG_BLOCK_BITS: usize = 32;

/// Bits in a raw value, and in a status word.
pub const ANALOG_WORD_BITS: usize = 16;

/// Position of the toggle bit within a status word.
pub const TOGGLE_BIT: usize = 15;

/// The raw count at which a 4-20 mA channel reads 20 mA.
pub const FULL_SCALE_COUNT: u64 = 30518;

/// The current of a 4-20 mA channel in nanoamperes: 4 mA at a raw count of
/// zero, 20 mA at the full-scale count, linear in between and beyond, rounded
/// down to a whole nanoampere.
pub open spec fn scaled_current(raw: nat) -> nat {
    4_000_000 + (16_000_000 * raw) / 30518
}

/// Converts a raw count of a 4-20 mA channel to nanoamperes.
pub fn current_from_raw(raw: u16) -> (na: u32)
    ensures
        na == scaled_current(raw as nat),
        4_000_000 <= na <= 38_358_739,
{
    let product: u64 = 16_000_000u64 * (raw as u64);
    assert(product <= 16_000_000u64 * 65535);
    let scaled: u64 = product / FULL_SCALE_COUNT;
    assert(scaled <= 34_358_739);
    (4_000_000u64 + scaled) as u32
}

/// The bit at `index` of a buffer that has one there.
pub(crate) fn bit_at(b: &Bits, index: usize) -> (bit: bool)
    requires
        index < b@.len(),
    ensures
        bit == b@[index as int],
{
    match raw_get(b, index) {
        Some(bit) => bit,
        None => false,
    }
}

/// A number written by two binary digits is below four.
pub(crate) proof fn lemma_two_digits(s: Seq<bool>)
    requires
        s.len() == 2,
    ensures
        le_value(s) <= 3,
{
    lemma_le_value_bound(s);
    assert(pow2(2) == 4) by {
        reveal_with_fuel(pow2, 3);
    }
}

/// The status flags of one channel of an EL30xx analog input terminal.
#[derive(Debug, Clone, Copy, PartialEq, Eq, Structural)]
pub struct El30xxStatuses {
    pub txpdo_toggle: bool,
    pub txpdo_state: bool,
    pub err: bool,
    pub limit1: u8,
    pub limit2: u8,
    pub underrange: bool,
    pub overrange: bool,
}

impl El30xxStatuses {
    /// The record with all flags clear.
    pub open spec fn cleared() -> El30xxStatuses {
        El30xxStatuses {
            txpdo_toggle: false,
            txpdo_state: false,
            err: false,
            limit1: 0,
            limit2: 0,
            underrange: false,
            overrange: false,
        }
    }

    /// All flags clear.
    pub fn new() -> (s: El30xxStatuses)
        ensures
            s == El30xxStatuses::cleared(),
    {
        El30xxStatuses {
            txpdo_toggle: false,
            txpdo_state: false,
            err: false,
            limit1: 0b00,
            limit2: 0b00,
            underrange: false,
            overrange: false,
        }
    }

    /// The flags that a 32-bit channel block carries in its status word.
    pub open spec fn decoded(block: Seq<bool>) -> El30xxStatuses {
        El30xxStatuses {
            txpdo_toggle: block[15],
            txpdo_state: block[14],
            err: block[6],
            limit1: le_value(block.subrange(2, 4)) as u8,
            limit2: le_value(block.subrange(4, 6)) as u8,
            underrange: block[0],
            overrange: block[1],
        }
    }

    /// The flags as the nine bits a status check reports: toggle, state,
    /// error, the two bits of limit 2, the two bits of limit 1, over-range,
    /// under-range.
    pub open spec fn flags(self) -> Seq<bool> {
        seq![
            self.txpdo_toggle,
            self.txpdo_state,
            self.err,
            (self.limit2 & 0b01) != 0,
            (self.limit2 & 0b10) != 0,
            (self.limit1 & 0b01) != 0,
            (self.limit1 & 0b10) != 0,
            self.overrange,
            self.underrange,
        ]
    }

    /// The flags as the nine bits a status check reports.
    pub fn to_bits(&self) -> (bits: Bits)
        ensures
            bits@ == self.flags(),
    {
        let mut bits = raw_new();
        raw_push(&mut bits, self.txpdo_toggle);
        raw_push(&mut bits, self.txpdo_state);
        raw_push(&mut bits, self.err);
        raw_push(&mut bits, (self.limit2 & 0b01) != 0);
        raw_push(&mut bits, (self.limit2 & 0b10) != 0);
        raw_push(&mut bits, (self.limit1 & 0b01) != 0);
        raw_push(&mut bits, (self.limit1 & 0b10) != 0);
        raw_push(&mut bits, self.overrange);
        raw_push(&mut bits, self.underrange);
        assert(bits@ =~= self.flags());
        bits
    }

    /// Decodes the status word of a 32-bit channel block.
    pub fn decode(block: &Bits) -> (s: El30xxStatuses)
        requires
            block@.len() == 32,
        ensures
            s == El30xxStatuses::decoded(block@),
            s.limit1 <= 3,
            s.limit2 <= 3,
    {
        let lim1 = raw_range(block, 2, 4);
        let lim2 = raw_range(block, 4, 6);
        proof {
            lemma_two_digits(lim1@);
            lemma_two_digits(lim2@);
        }
        El30xxStatuses {
            txpdo_toggle: bit_at(block, 15),
            txpdo_state: bit_at(block, 14),
            err: bit_at(block, 6),
            limit1: raw_load_u8(&lim1),
            limit2: raw_load_u8(&lim2),
            underrange: bit_at(block, 0),
            overrange: bit_at(block, 1),
        }
    }
}

/// The raw values of the four channels of an EL30x4 terminal.
pub struct Analog4ChValues {
    pub ch1: Bits,
    pub ch2: Bits,
    pub ch3: Bits,
    pub ch4: Bits,
}

impl Analog4ChValues {
    /// Four raw values of 16 zero bits each.
    pub fn new() -> (v: Analog4ChValues)
        ensures
            v.wf(),
            forall|c: nat| 1 <= c <= 4 ==> #[trigger] v.channel(c) == Seq::new(16, |i: int| false),
    {
        Analog4ChValues {
            ch1: raw_repeat(false, 16),
            ch2: raw_repeat(false, 16),
            ch3: raw_repeat(false, 16),
            ch4: raw_repeat(false, 16),
        }
    }

    /// Every raw value has 16 bits.
    pub open spec fn wf(&self) -> bool {
        &&& self.ch1@.len() == 16
        &&& self.ch2@.len() == 16
        &&& self.ch3@.len() == 16
        &&& self.ch4@.len() == 16
    }

    /// The raw value of channel `c`, counted from one.
    pub open spec fn channel(&self, c: nat) -> Seq<bool> {
        if c == 1 {
            self.ch1@
        } else if c == 2 {
            self.ch2@
        } else if c == 3 {
            self.ch3@
        } else {
            self.ch4@
        }
    }
}

/// The status flags of the four channels of an EL30x4 terminal.
#[derive(Debug, Clone, Copy, PartialEq, Eq, Structural)]
pub struct Analog4ChStatuses {
    pub ch1: El30xxStatuses,
    pub ch2: El30xxStatuses,
    pub ch3: El30xxStatuses,
    pub ch4: El30xxStatuses,
}

impl Analog4ChStatuses {
    /// All flags of all channels clear.
    pub fn new() -> (s: Analog4ChStatuses)
        ensures
            s.ch1 == El30xxStatuses::cleared(),
            s.ch2 == El30xxStatuses::cleared(),
            s.ch3 == El30xxStatuses::cleared(),
            s.ch4 == El30xxStatuses::cleared(),
    {
        Analog4ChStatuses {
            ch1: El30xxStatuses::new(),
            ch2: El30xxStatuses::new(),
            ch3: El30xxStatuses::new(),
            ch4: El30xxStatuses::new(),
        }
    }

    /// The flags of channel `c`, counted from one.
    pub open spec fn channel(&self, c: nat) -> El30xxStatuses {
        if c == 1 {
            self.ch1
        } else if c == 2 {
            self.ch2
        } else if c == 3 {
            self.ch3
        } else {
            self.ch4
        }
    }
}

/// The toggle bit that each of the four channels of an EL30x4 terminal showed
/// in the image handled last.
#[derive(Debug, Clone, Copy, PartialEq, Eq, Structural)]
pub struct Analog4ChToggles {
    pub ch1: bool,
    pub ch2: bool,
    pub ch3: bool,
    pub ch4: bool,
}

impl Analog4ChToggles {
    /// The toggle bit seen last on channel `c`, counted from one.
    pub open spec fn channel(&self, c: nat) -> bool {
        if c == 1 {
            self.ch1
        } else if c == 2 {
            self.ch2
        } else if c == 3 {
            self.ch3
        } else {
            self.ch4
        }
    }
}

/// A four-channel analog input terminal with one record per channel.
///
/// `ch_toggles` follows the toggle bits of the images cycle by cycle. The
/// values and flags in `ch_values` and `ch_statuses` are those of the last
/// sample taken, and change only when a new sample is taken.
pub struct AITerm4Ch {
    pub v_or_i: VoltageOrCurrent,
    pub input_range: InputRange,
    pub num_of_channels: u8,
    pub ch_values: Analog4ChValues,
    pub ch_statuses: Analog4ChStatuses,
    pub ch_toggles: Analog4ChToggles,
}

impl AITerm4Ch {
    /// A 4-20 mA current terminal with all values and flags zero.
    pub fn new() -> (t: AITerm4Ch)
        ensures
            t.readable(),
            t.num_of_channels == 4,
            forall|c: nat|
                1 <= c <= 4 ==> {
                    &&& (#[trigger] t.ch_values.channel(c)) == Seq::new(16, |i: int| false)
                    &&& t.ch_statuses.channel(c) == El30xxStatuses::cleared()
                    &&& !t.ch_toggles.channel(c)
                },
    {
        AITerm4Ch {
            v_or_i: VoltageOrCurrent::Current,
            input_range: InputRange::Current_4_20mA,
            num_of_channels: 4,
            ch_values: Analog4ChValues::new(),
            ch_statuses: Analog4ChStatuses::new(),
            ch_toggles: Analog4ChToggles { ch1: false, ch2: false, ch3: false, ch4: false },
        }
    }

    /// Whether `other` has the same configuration, and the same value, flags
    /// and toggle bit seen last on every channel but `c`.
    pub open spec fn same_besides(&self, other: &AITerm4Ch, c: nat) -> bool {
        &&& other.v_or_i == self.v_or_i
        &&& other.input_range == self.input_range
        &&& other.num_of_channels == self.num_of_channels
        &&& forall|k: nat|
            1 <= k <= 4 && k != c ==> {
                &&& (#[trigger] other.ch_values.channel(k)) == self.ch_values.channel(k)
                &&& other.ch_statuses.channel(k) == self.ch_statuses.channel(k)
                &&& other.ch_toggles.channel(k) == self.ch_toggles.channel(k)
            }
    }

    /// Notes the toggle bit that channel `c` showed.
    pub(crate) fn note_toggle(&mut self, c: usize, toggle: bool)
        requires
            1 <= c <= 4,
        ensures
            old(self).same_besides(final(self), c as nat),
            final(self).ch_values == old(self).ch_values,
            final(self).ch_statuses == old(self).ch_statuses,
            final(self).ch_toggles.channel(c as nat) == toggle,
    {
        if c == 1 {
            self.ch_toggles.ch1 = toggle;
        } else if c == 2 {
            self.ch_toggles.ch2 = toggle;
        } else if c == 3 {
            self.ch_toggles.ch3 = toggle;
        } else {
            self.ch_toggles.ch4 = toggle;
        }
    }

    /// The toggle bit that channel `c` showed last.
    pub(crate) fn toggle_at(&self, c: usize) -> (toggle: bool)
        requires
            1 <= c <= 4,
        ensures
            toggle == self.ch_toggles.channel(c as nat),
    {
        if c == 1 {
            self.ch_toggles.ch1
        } else if c == 2 {
            self.ch_toggles.ch2
        } else if c == 3 {
            self.ch_toggles.ch3
        } else {
            self.ch_toggles.ch4
        }
    }

    /// Stores a value and flags for channel `c`.
    pub(crate) fn store(&mut self, c: usize, value: Bits, status: El30xxStatuses)
        requires
            1 <= c <= 4,
        ensures
            old(self).same_besides(final(self), c as nat),
            final(self).ch_toggles == old(self).ch_toggles,
            final(self).ch_values.channel(c as nat) == value@,
            final(self).ch_statuses.channel(c as nat) == status,
    {
        if c == 1 {
            self.ch_values.ch1 = value;
            self.ch_statuses.ch1 = status;
        } else if c == 2 {
            self.ch_values.ch2 = value;
            self.ch_statuses.ch2 = status;
        } else if c == 3 {
            self.ch_values.ch3 = value;
            self.ch_statuses.ch3 = status;
        } else {
            self.ch_values.ch4 = value;
            self.ch_statuses.ch4 = status;
        }
    }

    /// The flags of channel `c`.
    pub(crate) fn status_at(&self, c: usize) -> (s: El30xxStatuses)
        requires
            1 <= c <= 4,
        ensures
            s == self.ch_statuses.channel(c as nat),
    {
        if c == 1 {
            self.ch_statuses.ch1
        } else if c == 2 {
            self.ch_statuses.ch2
        } else if c == 3 {
            self.ch_statuses.ch3
        } else {
            self.ch_statuses.ch4
        }
    }

    /// The raw count of channel `c`.
    pub(crate) fn raw_at(&self, c: usize) -> (raw: u16)
        requires
            1 <= c <= 4,
            self.ch_values.wf(),
        ensures
            raw == le_value(self.ch_values.channel(c as nat)),
    {
        if c == 1 {
            raw_load_u16(&self.ch_values.ch1)
        } else if c == 2 {
            raw_load_u16(&self.ch_values.ch2)
        } else if c == 3 {
            raw_load_u16(&self.ch_values.ch3)
        } else {
            raw_load_u16(&self.ch_values.ch4)
        }
    }
}

/// What a read of an analog channel reports, given the raw value of each of
/// the first four channels that exist: the scaled current of the addressed
/// channel, or an error when no channel is given or it is not one of them.
pub open spec fn analog_reading(
    channels: nat,
    raw: spec_fn(nat) -> Seq<bool>,
    channel: Option<ChannelInput>,
) -> Result<Reading, TermError> {
    match channel {
        None => Err(TermError::ChannelRequired),
        Some(ch) => {
            if ch.spec_position() <= 4 && ch.spec_position() <= channels {
                Ok(Reading::Current(scaled_current(le_value(raw(ch.spec_position()))) as u32))
            } else {
                Err(TermError::InvalidChannel)
            }
        },
    }
}

impl Getter for AITerm4Ch {
    /// The terminal measures current on the 4-20 mA range and every raw value
    /// has 16 bits.
    open spec fn readable(&self) -> bool {
        &&& self.v_or_i == VoltageOrCurrent::Current
        &&& self.input_range == InputRange::Current_4_20mA
        &&& self.ch_values.wf()
    }

    open spec fn reading(&self, channel: Option<ChannelInput>) -> Result<Reading, TermError> {
        analog_reading(4, |c: nat| self.ch_values.channel(c), channel)
    }

    fn read(&self, channel: Option<ChannelInput>) -> (r: Result<ElectricalObservable, TermError>) {
        match channel {
            None => Err(TermError::ChannelRequired),
            Some(ch) => {
                let pos = ch.position();
                if pos > 4 {
                    return Err(TermError::InvalidChannel);
                }
                let raw = self.raw_at(pos);
                Ok(ElectricalObservable::Current(current_from_raw(raw)))
            },
        }
    }
}

impl Checker for AITerm4Ch {
    open spec fn checkable(&self) -> bool {
        true
    }

    open spec fn status(&self, channel: Option<ChannelInput>) -> Option<
        Result<Seq<bool>, TermError>,
    > {
        match channel {
            None => Some(Err(TermError::ChannelRequired)),
            Some(ch) => {
                if ch.spec_position() <= 4 {
                    Some(Ok(self.ch_statuses.channel(ch.spec_position()).flags()))
                } else {
                    Some(Err(TermError::InvalidChannel))
                }
            },
        }
    }

    fn check(&self, channel: Option<ChannelInput>) -> (r: Option<Result<Bits, TermError>>) {
        match channel {
            None => Some(Err(TermError::ChannelRequired)),
            Some(ch) => {
                let pos = ch.position();
                if pos > 4 {
                    return Some(Err(TermError::InvalidChannel));
                }
                let status = self.status_at(pos);
                Some(Ok(status.to_bits()))
            },
        }
    }
}

/// Whether the image `bits` carries a new sample for channel `c` (counted from
/// zero) of a terminal that saw the toggle bits `toggles` in the image before:
/// the toggle bit of the channel's block is set, and it was not set before.
pub open spec fn fresh_sample(toggles: Seq<bool>, bits: Seq<bool>, c: int) -> bool {
    bits[32 * c + 15] && !toggles[c]
}

/// The status words after a refresh from the image `bits`: a channel with a
/// new sample takes the first word of its block, any other keeps its word.
pub open spec fn refreshed_statuses(
    statuses: Seq<bool>,
    toggles: Seq<bool>,
    bits: Seq<bool>,
) -> Seq<bool> {
    Seq::new(
        statuses.len(),
        |i: int|
            if fresh_sample(toggles, bits, i / 16) {
                bits[32 * (i / 16) + i % 16]
            } else {
                statuses[i]
            },
    )
}

/// The raw values after a refresh from the image `bits`: a channel with a new
/// sample takes the second word of its block, any other keeps its value.
pub open spec fn refreshed_values(values: Seq<bool>, toggles: Seq<bool>, bits: Seq<bool>) -> Seq<
    bool,
> {
    Seq::new(
        values.len(),
        |i: int|
            if fresh_sample(toggles, bits, i / 16) {
                bits[32 * (i / 16) + 16 + i % 16]
            } else {
                values[i]
            },
    )
}

/// The toggle bits that the blocks of an image show, one per channel.
pub open spec fn shown_toggles(bits: Seq<bool>, channels: nat) -> Seq<bool> {
    Seq::new(channels, |c: int| bits[32 * c + 15])
}

/// An analog input terminal with any number of channels up to 15. The raw
/// values of all channels lie end to end in one buffer, the status words in
/// another; both are those of the last sample taken on each channel.
/// `ch_toggles` holds, per channel, the toggle bit that the last image showed.
pub struct AITerm {
    pub v_or_i: VoltageOrCurrent,
    pub input_range: InputRange,
    pub num_of_channels: u8,
    pub ch_values: Bits,
    pub ch_statuses: Bits,
    pub ch_toggles: Bits,
}

impl AITerm {
    /// The value and status buffers hold 16 bits per declared channel, and
    /// there is one toggle bit per channel.
    pub open spec fn wf(&self) -> bool {
        &&& self.ch_values@.len() == 16 * self.num_of_channels
        &&& self.ch_statuses@.len() == 16 * self.num_of_channels
        &&& self.ch_toggles@.len() == self.num_of_channels
    }

    /// The raw value of channel `c`, counted from one.
    pub open spec fn raw(&self, c: nat) -> Seq<bool> {
        self.ch_values@.subrange(16 * (c - 1), 16 * c as int)
    }

    /// The status word of channel `c`, counted from one.
    pub open spec fn status_word(&self, c: nat) -> Seq<bool> {
        self.ch_statuses@.subrange(16 * (c - 1), 16 * c as int)
    }

    /// A 4-20 mA current terminal with `num_of_channels` channels, all values,
    /// status words and toggle bits zero.
    pub fn new(num_of_channels: u8) -> (t: AITerm)
        requires
            num_of_channels <= 15,
        ensures
            t.wf(),
            t.v_or_i == VoltageOrCurrent::Current,
            t.input_range == InputRange::Current_4_20mA,
            t.num_of_channels == num_of_channels,
            t.ch_values@ == Seq::new(16 * num_of_channels as nat, |i: int| false),
            t.ch_statuses@ == Seq::new(16 * num_of_channels as nat, |i: int| false),
            t.ch_toggles@ == Seq::new(num_of_channels as nat, |i: int| false),
    {
        AITerm {
            v_or_i: VoltageOrCurrent::Current,
            input_range: InputRange::Current_4_20mA,
            num_of_channels,
            ch_values: raw_repeat(false, (16 * num_of_channels) as usize),
            ch_statuses: raw_repeat(false, (16 * num_of_channels) as usize),
            ch_toggles: raw_repeat(false, num_of_channels as usize),
        }
    }

    /// Takes over the terminal's input image, which holds one 32-bit block per
    /// channel. A channel whose block shows a set toggle bit that was not set
    /// in the image before takes the status word and raw value of its block.
    /// Any other channel keeps what it has; in particular a block with an
    /// unset toggle bit changes neither value nor status word. The toggle bits
    /// shown are noted for the next image.
    pub fn refresh(&mut self, bits: &Bits)
        requires
            old(self).wf(),
            bits@.len() == 32 * old(self).num_of_channels,
        ensures
            final(self).wf(),
            final(self).v_or_i == old(self).v_or_i,
            final(self).input_range == old(self).input_range,
            final(self).num_of_channels == old(self).num_of_channels,
            final(self).ch_statuses@ == refreshed_statuses(
                old(self).ch_statuses@,
                old(self).ch_toggles@,
                bits@,
            ),
            final(self).ch_values@ == refreshed_values(
                old(self).ch_values@,
                old(self).ch_toggles@,
                bits@,
            ),
            final(self).ch_toggles@ == shown_toggles(bits@, old(self).num_of_channels as nat),
    {
        let n: usize = self.num_of_channels as usize;
        let ghost st0 = self.ch_statuses@;
        let ghost val0 = self.ch_values@;
        let ghost tg0 = self.ch_toggles@;
        let ghost st1 = refreshed_statuses(st0, tg0, bits@);
        let ghost val1 = refreshed_values(val0, tg0, bits@);
        let ghost tg1 = shown_toggles(bits@, n as nat);
        let mut c: usize = 0;
        while c < n
            invariant
                c <= n,
                n == self.num_of_channels,
                self.v_or_i == old(self).v_or_i,
                self.input_range == old(self).input_range,
                self.num_of_channels == old(self).num_of_channels,
                bits@.len() == 32 * n,
                st0.len() == 16 * n,
                val0.len() == 16 * n,
                tg0.len() == n,
                self.ch_statuses@.len() == 16 * n,
                self.ch_values@.len() == 16 * n,
                self.ch_toggles@.len() == n,
                st1 == refreshed_statuses(st0, tg0, bits@),
                val1 == refreshed_values(val0, tg0, bits@),
                tg1 == shown_toggles(bits@, n as nat),
                forall|i: int|
                    0 <= i < n ==> self.ch_toggles@[i] == (if i < c {
                        tg1[i]
                    } else {
                        tg0[i]
                    }),
                forall|i: int|
                    0 <= i < 16 * n ==> self.ch_statuses@[i] == (if i < 16 * c {
                        st1[i]
                    } else {
                        st0[i]
                    }),
                forall|i: int|
                    0 <= i < 16 * n ==> self.ch_values@[i] == (if i < 16 * c {
                        val1[i]
                    } else {
                        val0[i]
                    }),
            decreases n - c,
        {
            let shown = bit_at(bits, 32 * c + 15);
            let before = bit_at(&self.ch_toggles, c);
            raw_set(&mut self.ch_toggles, c, shown);
            if shown && !before {
                let mut k: usize = 0;
                while k < 16
                    invariant
                        k <= 16,
                        c < n <= 255,
                        bits@.len() == 32 * n,
                        st0.len() == 16 * n,
                        val0.len() == 16 * n,
                        tg0.len() == n,
                        self.ch_statuses@.len() == 16 * n,
                        self.ch_values@.len() == 16 * n,
                        self.ch_toggles@.len() == n,
                        self.v_or_i == old(self).v_or_i,
                        self.input_range == old(self).input_range,
                        self.num_of_channels == old(self).num_of_channels,
                        st1 == refreshed_statuses(st0, tg0, bits@),
                        val1 == refreshed_values(val0, tg0, bits@),
                        tg1 == shown_toggles(bits@, n as nat),
                        fresh_sample(tg0, bits@, c as int),
                        forall|i: int|
                            0 <= i < n ==> self.ch_toggles@[i] == (if i < c + 1 {
                                tg1[i]
                            } else {
                                tg0[i]
                            }),
                        forall|i: int|
                            0 <= i < 16 * n ==> self.ch_statuses@[i] == (if i < 16 * c + k {
                                st1[i]
                            } else {
                                st0[i]
                            }),
                        forall|i: int|
                            0 <= i < 16 * n ==> self.ch_values@[i] == (if i < 16 * c + k {
                                val1[i]
                            } else {
                                val0[i]
                            }),
                    decreases 16 - k,
                {
                    let s = bit_at(bits, 32 * c + k);
                    let v = bit_at(bits, 32 * c + 16 + k);
                    raw_set(&mut self.ch_statuses, 16 * c + k, s);
                    raw_set(&mut self.ch_values, 16 * c + k, v);
                    k = k + 1;
                }
            }
            c = c + 1;
        }
        assert(self.ch_statuses@ =~= st1);
        assert(self.ch_values@ =~= val1);
        assert(self.ch_toggles@ =~= tg1);
    }
}

impl Getter for AITerm {
    /// The terminal measures current on the 4-20 mA range and its buffers
    /// match its channel count.
    open spec fn readable(&self) -> bool {
        &&& self.v_or_i == VoltageOrCurrent::Current
        &&& self.input_range == InputRange::Current_4_20mA
        &&& self.wf()
    }

    open spec fn reading(&self, channel: Option<ChannelInput>) -> Result<Reading, TermError> {
        analog_reading(self.num_of_channels as nat, |c: nat| self.raw(c), channel)
    }

    fn read(&self, channel: Option<ChannelInput>) -> (r: Result<ElectricalObservable, TermError>) {
        match channel {
            None => Err(TermError::ChannelRequired),
            Some(ch) => {
                let pos = ch.position();
                if pos > 4 || pos > self.num_of_channels as usize {
                    return Err(TermError::InvalidChannel);
                }
                let word = raw_range(&self.ch_values, 16 * (pos - 1), 16 * pos);
                let raw = raw_load_u16(&word);
                Ok(ElectricalObservable::Current(current_from_raw(raw)))
            },
        }
    }
}

impl Checker for AITerm {
    /// The status buffer matches the channel count.
    open spec fn checkable(&self) -> bool {
        self.wf()
    }

    open spec fn status(&self, channel: Option<ChannelInput>) -> Option<
        Result<Seq<bool>, TermError>,
    > {
        match channel {
            None => Some(Err(TermError::ChannelRequired)),
            Some(ch) => {
                if ch.spec_position() <= 4 && ch.spec_position() <= self.num_of_channels {
                    Some(Ok(self.status_word(ch.spec_position())))
                } else {
                    Some(Err(TermError::InvalidChannel))
                }
            },
        }
    }

    fn check(&self, channel: Option<ChannelInput>) -> (r: Option<Result<Bits, TermError>>) {
        match channel {
            None => Some(Err(TermError::ChannelRequired)),
            Some(ch) => {
                let pos = ch.position();
                if pos > 4 || pos > self.num_of_channels as usize {
                    return Some(Err(TermError::InvalidChannel));
                }
                Some(Ok(raw_range(&self.ch_statuses, 16 * (pos - 1), 16 * pos)))
            },
        }
    }
}

/// How a refresh from the image `bits` relates the terminal before to the one
/// after, as the contract of `refresh` states it.
pub open spec fn refreshed(before: &AITerm, after: &AITerm, bits: Seq<bool>) -> bool {
    &&& after.wf()
    &&& after.v_or_i == before.v_or_i
    &&& after.input_range == before.input_range
    &&& after.num_of_channels == before.num_of_channels
    &&& after.ch_statuses@ == refreshed_statuses(before.ch_statuses@, before.ch_toggles@, bits)
    &&& after.ch_values@ == refreshed_values(before.ch_values@, before.ch_toggles@, bits)
    &&& after.ch_toggles@ == shown_toggles(bits, before.num_of_channels as nat)
}

/// A refresh from an image whose block for channel `c` (counted from one) has
/// its toggle bit unset leaves that channel's raw value and whole status word
/// as they were, whatever the terminal holds and whatever else the block
/// holds. A read and a status check of the channel report what they reported
/// before.
pub proof fn lemma_refresh_retains(before: AITerm, after: AITerm, bits: Seq<bool>, c: nat)
    requires
        before.wf(),
        1 <= c <= before.num_of_channels,
        bits.len() == 32 * before.num_of_channels,
        !bits[32 * (c - 1) + 15],
        refreshed(&before, &after, bits),
    ensures
        after.raw(c) == before.raw(c),
        after.status_word(c) == before.status_word(c),
        after.reading(Some(ChannelInput::Index((c - 1) as u8))) == before.reading(
            Some(ChannelInput::Index((c - 1) as u8)),
        ),
        after.status(Some(ChannelInput::Index((c - 1) as u8))) == before.status(
            Some(ChannelInput::Index((c - 1) as u8)),
        ),
{
    assert(!fresh_sample(before.ch_toggles@, bits, c - 1));
    assert(after.raw(c) =~= before.raw(c));
    assert(after.status_word(c) =~= before.status_word(c));
}

/// A refresh from an image whose block for channel `c` (counted from one)
/// shows the same toggle bit as the image before leaves that channel's raw
/// value and status word as they were.
pub proof fn lemma_refresh_keeps_without_flip(
    before: AITerm,
    after: AITerm,
    bits: Seq<bool>,
    c: nat,
)
    requires
        before.wf(),
        1 <= c <= before.num_of_channels,
        bits.len() == 32 * before.num_of_channels,
        bits[32 * (c - 1) + 15] == before.ch_toggles@[c - 1],
        refreshed(&before, &after, bits),
    ensures
        after.raw(c) == before.raw(c),
        after.status_word(c) == before.status_word(c),
{
    assert(!fresh_sample(before.ch_toggles@, bits, c - 1));
    assert(after.raw(c) =~= before.raw(c));
    assert(after.status_word(c) =~= before.status_word(c));
}

/// A refresh from an image that carries a new sample for channel `c` (counted
/// from one) stores the block's two words as the channel's status word and raw
/// value.
pub proof fn lemma_refresh_takes(before: AITerm, after: AITerm, bits: Seq<bool>, c: nat)
    requires
        before.wf(),
        1 <= c <= before.num_of_channels,
        bits.len() == 32 * before.num_of_channels,
        bits[32 * (c - 1) + 15],
        !before.ch_toggles@[c - 1],
        refreshed(&before, &after, bits),
    ensures
        after.status_word(c) == bits.subrange(32 * (c - 1), 32 * (c - 1) + 16),
        after.raw(c) == bits.subrange(32 * (c - 1) + 16, 32 * c as int),
{
    assert(fresh_sample(before.ch_toggles@, bits, c - 1));
    assert(after.raw(c) =~= bits.subrange(32 * (c - 1) + 16, 32 * c as int));
    assert(after.status_word(c) =~= bits.subrange(32 * (c - 1), 32 * (c - 1) + 16));
}

/// A channel beyond the declared channel count of an analog terminal is
/// refused: the read and the status check both report an invalid channel.
pub proof fn lemma_analog_beyond_count(t: AITerm, channel: ChannelInput)
    requires
        t.wf(),
        channel.spec_position() > t.num_of_channels,
    ensures
        t.reading(Some(channel)) == Err::<Reading, TermError>(TermError::InvalidChannel),
        t.status(Some(channel)) == Some(
            Err::<Seq<bool>, TermError>(TermError::InvalidChannel),
        ),
{
}

} // verus!
