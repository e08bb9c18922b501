//! Terminals on the sub-bus behind a bridging coupler.
//!
//! Such a terminal is not addressed on the fieldbus itself. Its bits live in a
//! slot of the coupler's input and output images, given as an inclusive pair
//! of bit offsets.

use vstd::prelude::*;
use crate::bits::{raw_extend, raw_get, raw_len, raw_range, raw_repeat, raw_set, Bits};
use crate::channel::{ChannelInput, TermError};
use crate::digital::read_level;
use crate::observable::{bit_level, Checker, ElectricalObservable, Getter, Reading, Setter};

verus! {

/// The direction in which a sub-bus terminal moves process data.
#[derive(Debug, Clone, Copy, PartialEq, Eq, Structural)]
pub enum KBusTerminalGender {
    /// Both directions.
    Enby,
    /// Controller to terminal only.
    Output,
    /// Terminal to controller only.
    Input,
}

/// The bits of an optional buffer.
pub open spec fn opt_view(o: Option<Bits>) -> Option<Seq<bool>> {
    match o {
        Some(b) => Some(b@),
        None => None,
    }
}

/// `base` with the bits of `patch` laid over it from offset `at` on.
pub open spec fn overlay(base: Seq<bool>, at: int, patch: Seq<bool>) -> Seq<bool> {
    Seq::new(
        base.len(),
        |i: int|
            if at <= i < at + patch.len() {
                patch[i - at]
            } else {
                base[i]
            },
    )
}

/// Copies bits `lo .. hi` of `src` over `dst`, starting at offset `at`.
pub(crate) fn overlay_bits(dst: &mut Bits, at: usize, src: &Bits, lo: usize, hi: usize)
    requires
        lo <= hi <= src@.len(),
        at + (hi - lo) <= old(dst)@.len(),
    ensures
        final(dst)@ == overlay(old(dst)@, at as int, src@.subrange(lo as int, hi as int)),
{
    let n = hi - lo;
    let total = raw_len(dst);
    let ghost patch = src@.subrange(lo as int, hi as int);
    let mut i: usize = 0;
    while i < n
        invariant
            i <= n,
            n == hi - lo,
            lo <= hi <= src@.len(),
            at + n <= total,
            dst@.len() == total,
            old(dst)@.len() == total,
            patch == src@.subrange(lo as int, hi as int),
            forall|k: int|
                0 <= k < dst@.len() ==> dst@[k] == (if at <= k < at + i {
                    patch[k - at]
                } else {
                    old(dst)@[k]
                }),
        decreases n - i,
    {
        match raw_get(src, lo + i) {
            Some(bit) => {
                raw_set(dst, at + i, bit);
            },
            None => {},
        }
        i = i + 1;
    }
    assert(dst@ =~= overlay(old(dst)@, at as int, patch));
}

/// A terminal on the sub-bus, as discovered behind the coupler.
///
/// `tx_data` holds what flows from the terminal to the controller, `rx_data`
/// what flows from the controller to the terminal. `slot_idx_range` is the
/// inclusive pair `(begin, end)` of bit offsets that the terminal occupies in
/// the coupler's images.
pub struct KBusTerm {
    pub name: u16,
    pub intelligent: bool,
    pub size_in_bits: u8,
    pub gender: KBusTerminalGender,
    pub tx_data: Option<Bits>,
    pub rx_data: Option<Bits>,
    pub slot_idx_range: (u8, u8),
}

impl Clone for KBusTerm {
    fn clone(&self) -> (r: Self)
        ensures
            r.same_record(self),
            opt_view(r.tx_data) == opt_view(self.tx_data),
            opt_view(r.rx_data) == opt_view(self.rx_data),
            r.slot_idx_range == self.slot_idx_range,
    {
        let tx = match &self.tx_data {
            Some(b) => Some(b.clone()),
            None => None,
        };
        let rx = match &self.rx_data {
            Some(b) => Some(b.clone()),
            None => None,
        };
        KBusTerm {
            name: self.name,
            intelligent: self.intelligent,
            size_in_bits: self.size_in_bits,
            gender: self.gender,
            tx_data: tx,
            rx_data: rx,
            slot_idx_range: self.slot_idx_range,
        }
    }
}

impl KBusTerm {
    /// The terminal has the buffers its gender calls for.
    pub open spec fn wf(&self) -> bool {
        &&& self.gender != KBusTerminalGender::Output ==> self.tx_data.is_some()
        &&& self.gender != KBusTerminalGender::Input ==> self.rx_data.is_some()
    }

    /// Whether `other` describes the same terminal: name, kind, size and gender.
    pub open spec fn same_record(&self, other: &KBusTerm) -> bool {
        &&& self.name == other.name
        &&& self.intelligent == other.intelligent
        &&& self.size_in_bits == other.size_in_bits
        &&& self.gender == other.gender
    }

    /// The number of bits in the terminal's slot.
    pub open spec fn slot_len(&self) -> int {
        self.slot_idx_range.1 + 1 - self.slot_idx_range.0
    }

    /// Whether the slot is a range of bits of an image of `len` bits.
    pub open spec fn slot_within(&self, len: nat) -> bool {
        self.slot_idx_range.0 <= self.slot_idx_range.1 + 1 <= len
    }

    /// The part of an image that lies in the terminal's slot.
    pub open spec fn slot_of(&self, image: Seq<bool>) -> Seq<bool> {
        image.subrange(self.slot_idx_range.0 as int, self.slot_idx_range.1 + 1)
    }

    /// A terminal with zeroed buffers of `size_in_bits` bits each: `tx_data`
    /// unless it is output-only, `rx_data` unless it is input-only.
    pub fn new(
        name: u16,
        intelligent: bool,
        size_in_bits: u8,
        gender: KBusTerminalGender,
        slot_idx_range: (u8, u8),
    ) -> (t: KBusTerm)
        ensures
            t.wf(),
            t.name == name,
            t.intelligent == intelligent,
            t.size_in_bits == size_in_bits,
            t.gender == gender,
            t.slot_idx_range == slot_idx_range,
            opt_view(t.tx_data) == (if gender != KBusTerminalGender::Output {
                Some(Seq::new(size_in_bits as nat, |i: int| false))
            } else {
                None
            }),
            opt_view(t.rx_data) == (if gender != KBusTerminalGender::Input {
                Some(Seq::new(size_in_bits as nat, |i: int| false))
            } else {
                None
            }),
    {
        let tx_data = if gender == KBusTerminalGender::Input || gender
            == KBusTerminalGender::Enby {
            Some(raw_repeat(false, size_in_bits as usize))
        } else {
            None
        };
        let rx_data = if gender == KBusTerminalGender::Output || gender
            == KBusTerminalGender::Enby {
            Some(raw_repeat(false, size_in_bits as usize))
        } else {
            None
        };
        KBusTerm { name, intelligent, size_in_bits, gender, tx_data, rx_data, slot_idx_range }
    }

    /// What `refresh_term` leaves in the coupler's output image.
    pub open spec fn pushed(&self, image: Seq<bool>) -> Seq<bool> {
        let begin = self.slot_idx_range.0 as int;
        match self.gender {
            KBusTerminalGender::Input => image,
            KBusTerminalGender::Output => overlay(image, begin, self.rx_data.unwrap()@),
            KBusTerminalGender::Enby => overlay(
                overlay(image, begin, self.tx_data.unwrap()@),
                begin,
                self.rx_data.unwrap()@,
            ),
        }
    }

    /// Whether every buffer that `refresh_term` pushes fits into the slot.
    pub open spec fn fits_slot(&self) -> bool {
        &&& self.gender != KBusTerminalGender::Input ==> self.rx_data.unwrap()@.len()
            <= self.slot_len()
        &&& self.gender == KBusTerminalGender::Enby ==> self.tx_data.unwrap()@.len()
            <= self.slot_len()
    }

    /// Pushes the terminal's buffers into its slot of the coupler's output
    /// image `dst`. An output terminal writes `rx_data`; a bidirectional one
    /// writes `tx_data` and then `rx_data` over it; an input terminal writes
    /// nothing. Bits outside the slot stay as they are.
    pub fn refresh_term(&self, dst: &mut Bits)
        requires
            self.wf(),
            self.slot_within(old(dst)@.len()),
            self.fits_slot(),
        ensures
            final(dst)@ == self.pushed(old(dst)@),
    {
        let begin = self.slot_idx_range.0 as usize;
        match self.gender {
            KBusTerminalGender::Input => {},
            KBusTerminalGender::Output => {
                match &self.rx_data {
                    Some(rx) => {
                        let n = raw_len(rx);
                        overlay_bits(dst, begin, rx, 0, n);
                        assert(rx@.subrange(0, n as int) =~= rx@);
                    },
                    None => {},
                }
            },
            KBusTerminalGender::Enby => {
                match &self.tx_data {
                    Some(tx) => {
                        let n = raw_len(tx);
                        overlay_bits(dst, begin, tx, 0, n);
                        assert(tx@.subrange(0, n as int) =~= tx@);
                    },
                    None => {},
                }
                match &self.rx_data {
                    Some(rx) => {
                        let n = raw_len(rx);
                        overlay_bits(dst, begin, rx, 0, n);
                        assert(rx@.subrange(0, n as int) =~= rx@);
                    },
                    None => {},
                }
            },
        }
    }

    /// Whether the terminal can take its slot out of an input image of `len`
    /// bits: unless it is output-only, it has `tx_data`, the slot lies in the
    /// image, and `tx_data` is at least as long as the slot.
    pub open spec fn takes_from(&self, len: nat) -> bool {
        self.gender != KBusTerminalGender::Output ==> {
            &&& self.tx_data.is_some()
            &&& self.slot_within(len)
            &&& self.slot_len() <= self.tx_data.unwrap()@.len()
        }
    }

    /// How taking the input image relates the terminal before (`self`) to the
    /// one after: unless the terminal is output-only, the front of `tx_data`
    /// is the terminal's slot of the image. Nothing else differs.
    pub open spec fn input_taken(&self, after: &KBusTerm, image: Seq<bool>) -> bool {
        &&& after.same_record(self)
        &&& after.slot_idx_range == self.slot_idx_range
        &&& opt_view(after.rx_data) == opt_view(self.rx_data)
        &&& opt_view(after.tx_data) == (if self.gender != KBusTerminalGender::Output {
            Some(overlay(self.tx_data.unwrap()@, 0, self.slot_of(image)))
        } else {
            opt_view(self.tx_data)
        })
    }

    /// Tests whether the terminal can take its slot out of an input image of
    /// `len` bits.
    pub fn can_take_input(&self, len: usize) -> (ok: bool)
        ensures
            ok == self.takes_from(len as nat),
    {
        if self.gender == KBusTerminalGender::Output {
            return true;
        }
        let begin = self.slot_idx_range.0 as usize;
        let end = self.slot_idx_range.1 as usize + 1;
        match &self.tx_data {
            Some(tx) => begin <= end && end <= len && end - begin <= raw_len(tx),
            None => false,
        }
    }

    /// Takes the terminal's slot out of the coupler's input image: unless the
    /// terminal is output-only, the slot goes to the front of `tx_data`.
    pub fn take_input(&mut self, image: &Bits)
        requires
            old(self).takes_from(image@.len()),
        ensures
            old(self).input_taken(final(self), image@),
    {
        let begin = self.slot_idx_range.0 as usize;
        let end = self.slot_idx_range.1 as usize + 1;
        if self.gender != KBusTerminalGender::Output {
            match &mut self.tx_data {
                Some(tx) => {
                    overlay_bits(tx, 0, image, begin, end);
                },
                None => {},
            }
        }
    }

    /// Whether the terminal can send into an output image of `len` bits:
    /// unless it is input-only, it has `rx_data` and the slot lies in the
    /// image.
    pub open spec fn sends_into(&self, len: nat) -> bool {
        self.gender != KBusTerminalGender::Input ==> self.rx_data.is_some() && self.slot_within(
            len,
        )
    }

    /// The bits that the terminal sends: `rx_data`, cut to the length of the
    /// slot where it is longer.
    pub open spec fn sent_bits(&self) -> Seq<bool> {
        let rx = self.rx_data.unwrap()@;
        if rx.len() <= self.slot_len() {
            rx
        } else {
            rx.subrange(0, self.slot_len())
        }
    }

    /// Whether the terminal writes bit `p` of an output image.
    pub open spec fn covers(&self, p: int) -> bool {
        &&& self.gender != KBusTerminalGender::Input
        &&& self.slot_idx_range.0 <= p < self.slot_idx_range.0 + self.sent_bits().len()
    }

    /// The output image after the terminal has sent into it: unless the
    /// terminal is input-only, the bits it sends lie in the image from the
    /// beginning of the slot on. Every other bit stays.
    pub open spec fn sent(&self, image: Seq<bool>) -> Seq<bool> {
        if self.gender == KBusTerminalGender::Input {
            image
        } else {
            overlay(image, self.slot_idx_range.0 as int, self.sent_bits())
        }
    }

    /// Tests whether the terminal can send into an output image of `len` bits.
    pub fn can_send(&self, len: usize) -> (ok: bool)
        ensures
            ok == self.sends_into(len as nat),
    {
        if self.gender == KBusTerminalGender::Input {
            return true;
        }
        let begin = self.slot_idx_range.0 as usize;
        let end = self.slot_idx_range.1 as usize + 1;
        self.rx_data.is_some() && begin <= end && end <= len
    }

    /// Sends the terminal's commanded bits into its slot of the coupler's
    /// output image.
    pub fn send_output(&self, image: &mut Bits)
        requires
            self.sends_into(old(image)@.len()),
        ensures
            final(image)@ == self.sent(old(image)@),
    {
        let begin = self.slot_idx_range.0 as usize;
        let end = self.slot_idx_range.1 as usize + 1;
        if self.gender != KBusTerminalGender::Input {
            match &self.rx_data {
                Some(rx) => {
                    let have = raw_len(rx);
                    let n = if have <= end - begin {
                        have
                    } else {
                        end - begin
                    };
                    overlay_bits(image, begin, rx, 0, n);
                    assert(rx@.subrange(0, n as int) =~= self.sent_bits());
                },
                None => {},
            }
        }
    }

    /// Whether `refresh_ctrlr` can run on images of these lengths: every image
    /// given contains the slot, a buffer that is filled is at least as long as
    /// the slot, and a bidirectional terminal is given both images.
    pub open spec fn accepts_lengths(
        &self,
        input_len: Option<nat>,
        output_len: Option<nat>,
    ) -> bool {
        &&& self.wf()
        &&& input_len matches Some(n) ==> self.slot_within(n)
        &&& output_len matches Some(n) ==> self.slot_within(n)
        &&& self.gender == KBusTerminalGender::Enby ==> input_len.is_some()
            && output_len.is_some()
        &&& input_len.is_some() && self.gender != KBusTerminalGender::Output ==> self.slot_len()
            <= self.tx_data.unwrap()@.len()
        &&& output_len.is_some() && self.gender != KBusTerminalGender::Input ==> self.slot_len()
            <= self.rx_data.unwrap()@.len()
    }

    /// Whether `refresh_ctrlr` can run on these images.
    pub open spec fn accepts_images(
        &self,
        input_bits: Option<Seq<bool>>,
        output_bits: Option<Seq<bool>>,
    ) -> bool {
        self.accepts_lengths(
            match input_bits {
                Some(image) => Some(image.len()),
                None => None,
            },
            match output_bits {
                Some(image) => Some(image.len()),
                None => None,
            },
        )
    }

    /// How `refresh_ctrlr` relates the terminal before (`self`) to the one
    /// after: a buffer that is filled has the image's slot laid over its
    /// front, and nothing else differs.
    pub open spec fn taken(
        &self,
        after: &KBusTerm,
        input_bits: Option<Seq<bool>>,
        output_bits: Option<Seq<bool>>,
    ) -> bool {
        &&& after.same_record(self)
        &&& after.slot_idx_range == self.slot_idx_range
        &&& after.wf()
        &&& opt_view(after.tx_data) == (match input_bits {
            Some(image) if self.gender != KBusTerminalGender::Output => Some(
                overlay(self.tx_data.unwrap()@, 0, self.slot_of(image)),
            ),
            _ => opt_view(self.tx_data),
        })
        &&& opt_view(after.rx_data) == (match output_bits {
            Some(image) if self.gender != KBusTerminalGender::Input => Some(
                overlay(self.rx_data.unwrap()@, 0, self.slot_of(image)),
            ),
            _ => opt_view(self.rx_data),
        })
    }

    /// Tests whether `refresh_ctrlr` can run on images of these lengths.
    pub fn can_take(&self, input_len: Option<usize>, output_len: Option<usize>) -> (ok: bool)
        ensures
            ok == self.accepts_lengths(
                match input_len {
                    Some(n) => Some(n as nat),
                    None => None,
                },
                match output_len {
                    Some(n) => Some(n as nat),
                    None => None,
                },
            ),
    {
        let begin = self.slot_idx_range.0 as usize;
        let end = self.slot_idx_range.1 as usize + 1;
        let within_input = match input_len {
            Some(n) => begin <= end && end <= n,
            None => true,
        };
        let within_output = match output_len {
            Some(n) => begin <= end && end <= n,
            None => true,
        };
        if !within_input || !within_output {
            return false;
        }
        let tx_ok = match &self.tx_data {
            Some(tx) => input_len.is_none() || end - begin <= raw_len(tx),
            None => false,
        };
        let rx_ok = match &self.rx_data {
            Some(rx) => output_len.is_none() || end - begin <= raw_len(rx),
            None => false,
        };
        match self.gender {
            KBusTerminalGender::Input => tx_ok,
            KBusTerminalGender::Output => rx_ok,
            KBusTerminalGender::Enby => input_len.is_some() && output_len.is_some() && tx_ok
                && rx_ok,
        }
    }

    /// Whether `refresh_term` can push the terminal's buffers into an output
    /// image of `image_len` bits.
    pub fn can_push(&self, image_len: usize) -> (ok: bool)
        ensures
            ok == (self.wf() && self.slot_within(image_len as nat) && self.fits_slot()),
    {
        let begin = self.slot_idx_range.0 as usize;
        let end = self.slot_idx_range.1 as usize + 1;
        if !(begin <= end && end <= image_len) {
            return false;
        }
        let room = end - begin;
        match self.gender {
            KBusTerminalGender::Input => self.tx_data.is_some(),
            KBusTerminalGender::Output => match &self.rx_data {
                Some(rx) => raw_len(rx) <= room,
                None => false,
            },
            KBusTerminalGender::Enby => match (&self.rx_data, &self.tx_data) {
                (Some(rx), Some(tx)) => raw_len(rx) <= room && raw_len(tx) <= room,
                _ => false,
            },
        }
    }

    /// Takes the terminal's slot out of the coupler's images. The slot of the
    /// input image goes to the front of `tx_data` unless the terminal is
    /// output-only; the slot of the output image goes to the front of
    /// `rx_data` unless it is input-only. An image that is not given moves
    /// nothing.
    pub fn refresh_ctrlr(&mut self, input_bits: Option<&Bits>, output_bits: Option<&Bits>)
        requires
            old(self).accepts_images(
                match input_bits {
                    Some(b) => Some(b@),
                    None => None,
                },
                match output_bits {
                    Some(b) => Some(b@),
                    None => None,
                },
            ),
        ensures
            old(self).taken(
                final(self),
                match input_bits {
                    Some(b) => Some(b@),
                    None => None,
                },
                match output_bits {
                    Some(b) => Some(b@),
                    None => None,
                },
            ),
    {
        let begin = self.slot_idx_range.0 as usize;
        let end = self.slot_idx_range.1 as usize + 1;
        let fill_tx = self.gender != KBusTerminalGender::Output;
        let fill_rx = self.gender != KBusTerminalGender::Input;
        match input_bits {
            Some(image) => {
                if fill_tx {
                    match &mut self.tx_data {
                        Some(tx) => {
                            overlay_bits(tx, 0, image, begin, end);
                        },
                        None => {},
                    }
                }
            },
            None => {},
        }
        match output_bits {
            Some(image) => {
                if fill_rx {
                    match &mut self.rx_data {
                        Some(rx) => {
                            overlay_bits(rx, 0, image, begin, end);
                        },
                        None => {},
                    }
                }
            },
            None => {},
        }
    }
}

/// What a read of a sub-bus terminal reports. A bidirectional terminal is read
/// whole: without a channel it reports `controller_side` followed by
/// `terminal_side`, and with a channel it refuses. Any other terminal reports
/// the level of one bit of `single`, the first bit when no channel is given.
pub open spec fn nested_reading(
    gender: KBusTerminalGender,
    single: Seq<bool>,
    first: Seq<bool>,
    second: Seq<bool>,
    channel: Option<ChannelInput>,
) -> Result<Reading, TermError> {
    if gender == KBusTerminalGender::Enby {
        match channel {
            None => Ok(Reading::Smart(first + second)),
            Some(_) => Err(TermError::WholeReadOnly),
        }
    } else {
        let offset = match channel {
            Some(ch) => ch.spec_offset(),
            None => 0,
        };
        if offset < single.len() {
            Ok(Reading::Simple(bit_level(single[offset as int])))
        } else {
            Err(TermError::OutOfBounds(offset as usize))
        }
    }
}

/// Reads two buffers end to end as one payload.
pub(crate) fn read_whole(first: &Bits, second: &Bits) -> (r: ElectricalObservable)
    requires
        first@.len() + second@.len() <= crate::bits::max_bits(),
    ensures
        r@ == Reading::Smart(first@ + second@),
{
    let mut buf = first.clone();
    raw_extend(&mut buf, second);
    ElectricalObservable::Smart(buf)
}

/// What a write does to an output buffer and what it reports: inside the
/// buffer the addressed bit takes the value, outside nothing changes and the
/// offset is reported as out of bounds.
pub open spec fn buffer_written(
    before: Seq<bool>,
    data: bool,
    channel: ChannelInput,
    after: Seq<bool>,
    r: Result<(), TermError>,
) -> bool {
    if channel.spec_offset() < before.len() {
        &&& r == Ok::<(), TermError>(())
        &&& after == before.update(channel.spec_offset() as int, data)
    } else {
        &&& r == Err::<(), TermError>(TermError::OutOfBounds(channel.spec_offset() as usize))
        &&& after == before
    }
}

/// Writes one bit of an output buffer.
pub(crate) fn write_buffer(buf: &mut Bits, data: bool, channel: ChannelInput) -> (r: Result<
    (),
    TermError,
>)
    ensures
        buffer_written(old(buf)@, data, channel, final(buf)@, r),
{
    let offset = channel.offset();
    if offset >= raw_len(buf) {
        return Err(TermError::OutOfBounds(offset));
    }
    raw_set(buf, offset, data);
    Ok(())
}

impl Getter for KBusTerm {
    /// The terminal has the buffers its gender calls for, and those of a
    /// bidirectional terminal fit into one payload.
    open spec fn readable(&self) -> bool {
        &&& self.wf()
        &&& self.gender == KBusTerminalGender::Enby ==> self.rx_data.unwrap()@.len()
            + self.tx_data.unwrap()@.len() <= crate::bits::max_bits()
    }

    /// An input terminal reports a bit of `tx_data`, an output terminal a bit
    /// of `rx_data`, a bidirectional one `rx_data` followed by `tx_data`.
    open spec fn reading(&self, channel: Option<ChannelInput>) -> Result<Reading, TermError> {
        nested_reading(
            self.gender,
            if self.gender == KBusTerminalGender::Input {
                self.tx_data.unwrap()@
            } else {
                self.rx_data.unwrap()@
            },
            self.rx_data.unwrap()@,
            self.tx_data.unwrap()@,
            channel,
        )
    }

    fn read(&self, channel: Option<ChannelInput>) -> (r: Result<ElectricalObservable, TermError>) {
        let offset: usize = match channel {
            Some(ch) => ch.offset(),
            None => 0,
        };
        match self.gender {
            KBusTerminalGender::Enby => {
                if channel.is_some() {
                    return Err(TermError::WholeReadOnly);
                }
                match (&self.rx_data, &self.tx_data) {
                    (Some(rx), Some(tx)) => Ok(read_whole(rx, tx)),
                    _ => Err(TermError::WholeReadOnly),
                }
            },
            KBusTerminalGender::Input => {
                match &self.tx_data {
                    Some(tx) => read_level(tx, offset),
                    None => Err(TermError::OutOfBounds(offset)),
                }
            },
            KBusTerminalGender::Output => {
                match &self.rx_data {
                    Some(rx) => read_level(rx, offset),
                    None => Err(TermError::OutOfBounds(offset)),
                }
            },
        }
    }
}

impl Setter for KBusTerm {
    open spec fn writable(&self) -> bool {
        true
    }

    /// The write goes to `rx_data`; nothing else changes. A terminal
    /// without that buffer refuses every write.
    open spec fn written(
        &self,
        data: bool,
        channel: ChannelInput,
        after: &Self,
        r: Result<(), TermError>,
    ) -> bool {
        &&& after.same_record(self)
        &&& after.slot_idx_range == self.slot_idx_range
        &&& opt_view(after.tx_data) == opt_view(self.tx_data)
        &&& match self.rx_data {
            Some(buf) => after.rx_data.is_some() && buffer_written(
                buf@,
                data,
                channel,
                after.rx_data.unwrap()@,
                r,
            ),
            None => after.rx_data.is_none() && r == Err::<(), TermError>(
                TermError::NotWritable,
            ),
        }
    }

    fn write(&mut self, data_to_write: bool, channel: ChannelInput) -> (r: Result<(), TermError>) {
        match &mut self.rx_data {
            Some(rx) => write_buffer(rx, data_to_write, channel),
            None => Err(TermError::NotWritable),
        }
    }
}

/// A sub-bus terminal with a fixed place in the coupler's images, held apart
/// from the discovered ones.
///
/// Here `rx_data` mirrors the terminal's part of the coupler's input image and
/// `tx_data` is what the controller sends to the terminal. `hr_name` is the
/// four-digit number in the terminal's product name.
pub struct KBusSubDevice {
    pub hr_name: u32,
    pub intelligent: bool,
    pub size_in_bits: u8,
    pub is_kl1212: bool,
    pub gender: KBusTerminalGender,
    pub tx_data: Option<Bits>,
    pub rx_data: Option<Bits>,
}

impl KBusSubDevice {
    /// The terminal has the buffers its gender calls for.
    pub open spec fn wf(&self) -> bool {
        &&& self.gender != KBusTerminalGender::Input ==> self.tx_data.is_some()
        &&& self.gender != KBusTerminalGender::Output ==> self.rx_data.is_some()
    }

    /// Whether `other` describes the same terminal.
    pub open spec fn same_record(&self, other: &KBusSubDevice) -> bool {
        &&& self.hr_name == other.hr_name
        &&& self.intelligent == other.intelligent
        &&& self.size_in_bits == other.size_in_bits
        &&& self.is_kl1212 == other.is_kl1212
        &&& self.gender == other.gender
    }

    /// Whether this is the intelligent gateway terminal KL6581.
    pub open spec fn is_gateway(&self) -> bool {
        self.intelligent && self.hr_name == 6581
    }
}

impl Getter for KBusSubDevice {
    /// The terminal has the buffers its gender calls for, and those of a
    /// bidirectional terminal fit into one payload.
    open spec fn readable(&self) -> bool {
        &&& self.wf()
        &&& self.gender == KBusTerminalGender::Enby ==> self.rx_data.unwrap()@.len()
            + self.tx_data.unwrap()@.len() <= crate::bits::max_bits()
    }

    /// An input terminal reports a bit of `rx_data`, an output terminal a bit
    /// of `tx_data`, a bidirectional one `rx_data` followed by `tx_data`.
    open spec fn reading(&self, channel: Option<ChannelInput>) -> Result<Reading, TermError> {
        nested_reading(
            self.gender,
            if self.gender == KBusTerminalGender::Input {
                self.rx_data.unwrap()@
            } else {
                self.tx_data.unwrap()@
            },
            self.rx_data.unwrap()@,
            self.tx_data.unwrap()@,
            channel,
        )
    }

    fn read(&self, channel: Option<ChannelInput>) -> (r: Result<ElectricalObservable, TermError>) {
        let offset: usize = match channel {
            Some(ch) => ch.offset(),
            None => 0,
        };
        match self.gender {
            KBusTerminalGender::Enby => {
                if channel.is_some() {
                    return Err(TermError::WholeReadOnly);
                }
                match (&self.rx_data, &self.tx_data) {
                    (Some(rx), Some(tx)) => Ok(read_whole(rx, tx)),
                    _ => Err(TermError::WholeReadOnly),
                }
            },
            KBusTerminalGender::Input => {
                match &self.rx_data {
                    Some(rx) => read_level(rx, offset),
                    None => Err(TermError::OutOfBounds(offset)),
                }
            },
            KBusTerminalGender::Output => {
                match &self.tx_data {
                    Some(tx) => read_level(tx, offset),
                    None => Err(TermError::OutOfBounds(offset)),
                }
            },
        }
    }
}

impl Setter for KBusSubDevice {
    open spec fn writable(&self) -> bool {
        true
    }

    /// The write goes to `tx_data`; nothing else changes. A terminal
    /// without that buffer refuses every write.
    open spec fn written(
        &self,
        data: bool,
        channel: ChannelInput,
        after: &Self,
        r: Result<(), TermError>,
    ) -> bool {
        &&& after.same_record(self)
        &&& opt_view(after.rx_data) == opt_view(self.rx_data)
        &&& match self.tx_data {
            Some(buf) => after.tx_data.is_some() && buffer_written(
                buf@,
                data,
                channel,
                after.tx_data.unwrap()@,
                r,
            ),
            None => after.tx_data.is_none() && r == Err::<(), TermError>(
                TermError::NotWritable,
            ),
        }
    }

    fn write(&mut self, data_to_write: bool, channel: ChannelInput) -> (r: Result<(), TermError>) {
        match &mut self.tx_data {
            Some(tx) => write_buffer(tx, data_to_write, channel),
            None => Err(TermError::NotWritable),
        }
    }
}

impl Checker for KBusSubDevice {
    /// The gateway terminal has at least one byte in `tx_data`; any other
    /// terminal is not bidirectional.
    open spec fn checkable(&self) -> bool {
        if self.is_gateway() {
            self.tx_data.is_some() && self.tx_data.unwrap()@.len() >= 8
        } else {
            self.gender != KBusTerminalGender::Enby
        }
    }

    /// The gateway terminal reports the first byte of `tx_data`; a simple
    /// terminal has no status bits.
    open spec fn status(&self, channel: Option<ChannelInput>) -> Option<
        Result<Seq<bool>, TermError>,
    > {
        if self.is_gateway() {
            Some(Ok(self.tx_data.unwrap()@.subrange(0, 8)))
        } else {
            None
        }
    }

    fn check(&self, _channel: Option<ChannelInput>) -> (r: Option<Result<Bits, TermError>>) {
        if self.intelligent && self.hr_name == 6581 {
            match &self.tx_data {
                Some(tx) => Some(Ok(raw_range(tx, 0, 8))),
                None => None,
            }
        } else {
            None
        }
    }
}

/// The bridging coupler with the sub-bus terminals behind it.
#[allow(non_camel_case_types)]
pub struct BK1120_Coupler {
    pub k_bus_subdevices: Vec<KBusSubDevice>,
    pub len: u8,
}

/// A channel outside the output buffer of a sub-bus terminal is refused: the
/// write reports the offset as out of bounds and changes no bit, and a read of
/// an output terminal at that offset reports the same error.
pub proof fn lemma_nested_beyond_size(
    before: KBusTerm,
    after: KBusTerm,
    v: bool,
    channel: ChannelInput,
    r: Result<(), TermError>,
)
    requires
        before.wf(),
        before.gender == KBusTerminalGender::Output,
        channel.spec_offset() >= before.rx_data.unwrap()@.len(),
        before.written(v, channel, &after, r),
    ensures
        r == Err::<(), TermError>(TermError::OutOfBounds(channel.spec_offset() as usize)),
        after.rx_data.unwrap()@ == before.rx_data.unwrap()@,
        before.reading(Some(channel)) == Err::<Reading, TermError>(
            TermError::OutOfBounds(channel.spec_offset() as usize),
        ),
{
}

/// For an output terminal whose buffer fits its slot, sending into an output
/// image is what `refresh_term` does.
pub proof fn lemma_sent_is_pushed(t: KBusTerm, image: Seq<bool>)
    requires
        t.gender == KBusTerminalGender::Output,
        t.wf(),
        t.fits_slot(),
    ensures
        t.sent(image) == t.pushed(image),
{
}

} // verus!
