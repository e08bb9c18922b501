//! The terminals of the fixed hardware set, and the handlers that move their
//! bits between the process images and the terminal objects.

use vstd::prelude::*;
use crate::analog::{bit_at, AITerm4Ch, El30xxStatuses};
use crate::bits::{raw_range, raw_repeat, Bits};
use crate::channel::{ChannelInput, TermChannel};
use crate::digital::{copy_bits, DITerm, DOTerm};
use crate::kbus::{opt_view, KBusSubDevice, KBusTerminalGender};
use crate::observable::{Checker, Getter};

verus! {

/// Bits in the image of the 16-channel digital input terminal EL1889.
pub const EL1889_IMG_LEN_BITS: u8 = 16;

/// Bits in the image of the 16-channel digital input terminal KL1889.
pub const KL1889_IMG_LEN_BITS: u8 = 16;

/// Bits in the image of the 16-channel digital output terminal EL2889.
pub const EL2889_IMG_LEN_BITS: u8 = 16;

/// Bits in the image of the 16-channel digital output terminal KL2889.
pub const KL2889_IMG_LEN_BITS: u8 = 16;

/// Bits in the images of the gateway KL6581: 12 bytes in, 12 bytes out.
pub const KL6581_IMG_LEN_BITS: u8 = 192;

/// Bits in the input image of the analog terminal EL3024: 4 bytes per channel.
pub const EL3024_IMG_LEN_BITS: u8 = 128;

/// Channels of the analog terminal EL3024.
pub const EL3024_NUM_CHANNELS: u8 = 4;

/// The 16-channel digital input terminal KL1889 behind the coupler.
pub fn term_kl1889() -> (t: KBusSubDevice)
    ensures
        t.wf(),
        !t.intelligent,
        t.hr_name == 1889,
        t.size_in_bits == 16,
        t.gender == KBusTerminalGender::Input,
        t.tx_data.is_none(),
        opt_view(t.rx_data) == Some(Seq::new(16, |i: int| false)),
{
    KBusSubDevice {
        hr_name: 1889,
        intelligent: false,
        size_in_bits: 16,
        is_kl1212: false,
        gender: KBusTerminalGender::Input,
        tx_data: None,
        rx_data: Some(raw_repeat(false, 16)),
    }
}

/// The 16-channel digital output terminal KL2889 behind the coupler.
pub fn term_kl2889() -> (t: KBusSubDevice)
    ensures
        t.wf(),
        !t.intelligent,
        t.hr_name == 2889,
        t.size_in_bits == 16,
        t.gender == KBusTerminalGender::Output,
        t.rx_data.is_none(),
        opt_view(t.tx_data) == Some(Seq::new(16, |i: int| false)),
{
    KBusSubDevice {
        hr_name: 2889,
        intelligent: false,
        size_in_bits: 16,
        is_kl1212: false,
        gender: KBusTerminalGender::Output,
        tx_data: Some(raw_repeat(false, 16)),
        rx_data: None,
    }
}

/// The gateway KL6581 behind the coupler, with 96 zero bits in each direction.
pub fn term_kl6581() -> (t: KBusSubDevice)
    ensures
        t.wf(),
        t.is_gateway(),
        t.size_in_bits == 192,
        t.gender == KBusTerminalGender::Enby,
        opt_view(t.tx_data) == Some(Seq::new(96, |i: int| false)),
        opt_view(t.rx_data) == Some(Seq::new(96, |i: int| false)),
{
    KBusSubDevice {
        hr_name: 6581,
        intelligent: true,
        size_in_bits: 192,
        is_kl1212: false,
        gender: KBusTerminalGender::Enby,
        tx_data: Some(raw_repeat(false, 96)),
        rx_data: Some(raw_repeat(false, 96)),
    }
}

/// The block of channel `c` (counted from one) in an analog input image.
pub open spec fn channel_block(bits: Seq<bool>, c: nat) -> Seq<bool> {
    bits.subrange(32 * (c - 1), 32 * c as int)
}

/// How handling the block of channel `c` (counted from one) of the image
/// `bits` relates the terminal before to the one after. If the block's toggle
/// bit is set and was not set in the block handled before, the channel has the
/// block's raw value and status flags; otherwise it has what it had. The
/// block's toggle bit is noted. Nothing else differs.
pub open spec fn channel_handled(
    before: &AITerm4Ch,
    after: &AITerm4Ch,
    bits: Seq<bool>,
    c: nat,
) -> bool {
    let block = channel_block(bits, c);
    &&& before.same_besides(after, c)
    &&& after.ch_toggles.channel(c) == block[15]
    &&& if block[15] && !before.ch_toggles.channel(c) {
        &&& after.ch_values.channel(c) == block.subrange(16, 32)
        &&& after.ch_statuses.channel(c) == El30xxStatuses::decoded(block)
    } else {
        &&& after.ch_values.channel(c) == before.ch_values.channel(c)
        &&& after.ch_statuses.channel(c) == before.ch_statuses.channel(c)
    }
}

/// Decodes the block of one channel of the analog terminal's input image into
/// `dst`. If the block's toggle bit is set and was not set in the block handled
/// before, the channel takes the block's raw value and status flags; otherwise
/// it keeps what it has, so a block with an unset toggle bit changes neither.
/// No other channel changes.
pub fn el3024_handler(dst: &mut AITerm4Ch, bits: &Bits, channel: TermChannel)
    requires
        channel.spec_number() <= 4,
        bits@.len() >= 32 * channel.spec_number(),
    ensures
        channel_handled(old(dst), final(dst), bits@, channel.spec_number()),
        old(dst).readable() ==> final(dst).readable(),
{
    let c = channel.number() as usize;
    let block = raw_range(bits, 32 * (c - 1), 32 * c);
    let toggle = bit_at(&block, 15);
    let seen = dst.toggle_at(c);
    dst.note_toggle(c, toggle);
    let ghost noted = *dst;
    if toggle && !seen {
        let value = raw_range(&block, 16, 32);
        let status = El30xxStatuses::decode(&block);
        dst.store(c, value, status);
    }
    proof {
        let done = *dst;
        lemma_same_besides_chain(*old(dst), noted, done, c as nat);
        assert(block@ == channel_block(bits@, c as nat));
        if old(dst).readable() {
            assert(done.ch_values.channel(1).len() == 16);
            assert(done.ch_values.channel(2).len() == 16);
            assert(done.ch_values.channel(3).len() == 16);
            assert(done.ch_values.channel(4).len() == 16);
        }
    }
}

/// What holds on every channel but one across two steps holds across both.
proof fn lemma_same_besides_chain(a: AITerm4Ch, b: AITerm4Ch, d: AITerm4Ch, c: nat)
    requires
        a.same_besides(&b, c),
        b.same_besides(&d, c),
    ensures
        a.same_besides(&d, c),
{
    assert forall|k: nat| 1 <= k <= 4 && k != c implies {
        &&& (#[trigger] d.ch_values.channel(k)) == a.ch_values.channel(k)
        &&& d.ch_statuses.channel(k) == a.ch_statuses.channel(k)
        &&& d.ch_toggles.channel(k) == a.ch_toggles.channel(k)
    } by {
        assert(d.ch_values.channel(k) == b.ch_values.channel(k));
        assert(b.ch_values.channel(k) == a.ch_values.channel(k));
    }
}

/// Takes the input image of the digital input terminal into `dst`.
pub fn el1889_handler(dst: &mut DITerm, bits: &Bits)
    requires
        bits@.len() == old(dst).values@.len(),
    ensures
        final(dst).values@ == bits@,
        final(dst).num_of_channels == old(dst).num_of_channels,
{
    copy_bits(&mut dst.values, bits);
}

/// Pushes the commanded states of the digital output terminal `bits` into its
/// output image `dst`.
pub fn el2889_handler(dst: &mut Bits, bits: &DOTerm)
    requires
        old(dst)@.len() == bits.values@.len(),
    ensures
        final(dst)@ == bits.values@,
{
    copy_bits(dst, &bits.values);
}

/// Pushes what the controller sends to the gateway into the gateway's part
/// `dst` of the coupler's output image.
pub fn kl6581_output_handler(dst: &mut Bits, bits: &KBusSubDevice)
    requires
        bits.tx_data.is_some(),
        old(dst)@.len() == bits.tx_data.unwrap()@.len(),
    ensures
        final(dst)@ == bits.tx_data.unwrap()@,
{
    match &bits.tx_data {
        Some(tx) => copy_bits(dst, tx),
        None => {},
    }
}

/// Takes the gateway's part `bits` of the coupler's input image into the
/// gateway object `dst`. Nothing but `rx_data` changes.
pub fn kl6581_input_handler(dst: &mut KBusSubDevice, bits: &Bits)
    requires
        old(dst).rx_data.is_some(),
        bits@.len() == old(dst).rx_data.unwrap()@.len(),
    ensures
        final(dst).same_record(old(dst)),
        opt_view(final(dst).tx_data) == opt_view(old(dst).tx_data),
        opt_view(final(dst).rx_data) == Some(bits@),
{
    match &mut dst.rx_data {
        Some(rx) => copy_bits(rx, bits),
        None => {},
    }
}

/// A block whose toggle bit is unset carries no new sample: whatever the
/// terminal holds and whatever else the block holds, the raw value and all
/// status flags of every channel stay as they were, and a read and a status
/// check of the channel report what they reported before.
pub proof fn lemma_unset_toggle_retains(
    before: AITerm4Ch,
    after: AITerm4Ch,
    bits: Seq<bool>,
    c: nat,
)
    requires
        1 <= c <= 4,
        bits.len() >= 32 * c,
        !channel_block(bits, c)[15],
        channel_handled(&before, &after, bits, c),
    ensures
        forall|k: nat|
            1 <= k <= 4 ==> {
                &&& (#[trigger] after.ch_values.channel(k)) == before.ch_values.channel(k)
                &&& after.ch_statuses.channel(k) == before.ch_statuses.channel(k)
            },
        after.reading(Some(ChannelInput::Index((c - 1) as u8))) == before.reading(
            Some(ChannelInput::Index((c - 1) as u8)),
        ),
        after.status(Some(ChannelInput::Index((c - 1) as u8))) == before.status(
            Some(ChannelInput::Index((c - 1) as u8)),
        ),
{
}

} // verus!
