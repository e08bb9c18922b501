//! The business logic that runs once per scan cycle: the gateway handshake
//! and the lighting rules it drives.

use vstd::prelude::*;
use crate::analog::bit_at;
use crate::bits::{le_value, raw_len, raw_load_u8, raw_new, raw_range, Bits};
use crate::channel::{ChannelInput, TermChannel};
use crate::gateway::{decided, gateway_step, GatewayStep, RockerEvent};
use crate::kbus::{opt_view, KBusSubDevice, KBusTerm, KBusTerminalGender};
use crate::observable::{bit_level, Checker, Getter, Setter};
use crate::registry::TermStates;

verus! {

/// The position of the gateway among the terminals behind the coupler.
pub const GATEWAY_POSITION: usize = 2;

/// The position of the output terminal that switches the lights of area 1.
pub const AREA_1_POSITION: usize = 1;

/// The command of the operator panel that switches the lights of area 1 on.
pub const HMI_CMD_ON: u32 = 2;

/// The command of the operator panel that switches the lights of area 1 off.
pub const HMI_CMD_OFF: u32 = 1;

/// The payload of the gateway: `rx_data` followed by `tx_data`.
pub open spec fn payload(gateway: &KBusSubDevice) -> Seq<bool> {
    gateway.rx_data.unwrap()@ + gateway.tx_data.unwrap()@
}

/// Whether `gateway` is a bidirectional terminal that can be read whole.
pub open spec fn whole(gateway: &KBusSubDevice) -> bool {
    gateway.gender == KBusTerminalGender::Enby && gateway.readable()
}

/// Whether `gateway` is a KL6581 with buffers long enough for the handshake:
/// the payload reaches byte 6, the payload byte DB3, and `tx_data` holds the
/// status byte.
pub open spec fn handshake_ready(gateway: &KBusSubDevice) -> bool {
    &&& whole(gateway)
    &&& gateway.is_gateway()
    &&& gateway.tx_data.unwrap()@.len() >= 8
    &&& payload(gateway).len() >= 56
}

/// Reads the gateway whole.
fn payload_of(gateway: &KBusSubDevice) -> (bits: Bits)
    requires
        whole(gateway),
    ensures
        bits@ == payload(gateway),
{
    match gateway.read(None) {
        Ok(reading) => match reading.pick_smart() {
            Some(bits) => bits,
            None => raw_new(),
        },
        Err(_) => raw_new(),
    }
}

/// The payload of the bidirectional sub-bus terminal `t`: `rx_data` followed
/// by `tx_data`.
pub open spec fn term_payload(t: &KBusTerm) -> Seq<bool> {
    t.rx_data.unwrap()@ + t.tx_data.unwrap()@
}

/// Reads a bidirectional sub-bus terminal whole.
fn term_payload_of(t: &KBusTerm) -> (bits: Bits)
    requires
        t.gender == KBusTerminalGender::Enby,
        t.readable(),
    ensures
        bits@ == term_payload(t),
{
    match t.read(None) {
        Ok(reading) => match reading.pick_smart() {
            Some(bits) => bits,
            None => raw_new(),
        },
        Err(_) => raw_new(),
    }
}

/// The gateway's CNODE byte: bits 8 to 15 of the payload.
pub fn read_cnode(gateway: &KBusSubDevice) -> (cnode: Bits)
    requires
        whole(gateway),
        payload(gateway).len() >= 16,
    ensures
        cnode@ == payload(gateway).subrange(8, 16),
{
    let bits = payload_of(gateway);
    raw_range(&bits, 8, 16)
}

/// The handshake bit at offset 1 of the payload.
pub fn read_cb1(gateway: &KBusSubDevice) -> (bit: bool)
    requires
        whole(gateway),
        payload(gateway).len() > 1,
    ensures
        bit == payload(gateway)[1],
{
    let bits = payload_of(gateway);
    bit_at(&bits, 1)
}

/// The handshake bit at offset 1 of the payload of the discovered gateway.
pub fn read_cb1_dyn(term_states: &TermStates) -> (bit: bool)
    requires
        term_states.kbus_terms@.len() > GATEWAY_POSITION,
        term_states.kbus_terms@[GATEWAY_POSITION as int].gender == KBusTerminalGender::Enby,
        term_states.kbus_terms@[GATEWAY_POSITION as int].readable(),
        term_payload(&term_states.kbus_terms@[GATEWAY_POSITION as int]).len() > 1,
    ensures
        bit == term_payload(&term_states.kbus_terms@[GATEWAY_POSITION as int])[1],
{
    let bits = term_payload_of(&term_states.kbus_terms[GATEWAY_POSITION]);
    bit_at(&bits, 1)
}

/// Payload byte DB3 of the telegram: bits 48 to 55 of the payload, least
/// significant first.
pub fn read_db3(gateway: &KBusSubDevice) -> (db3: u8)
    requires
        whole(gateway),
        payload(gateway).len() >= 56,
    ensures
        db3 == le_value(payload(gateway).subrange(48, 56)),
{
    let bits = payload_of(gateway);
    let byte = raw_range(&bits, 48, 56);
    raw_load_u8(&byte)
}

/// Payload byte DB3 of the telegram held by the discovered gateway.
pub fn read_db3_dyn(term_states: &TermStates) -> (db3: u8)
    requires
        term_states.kbus_terms@.len() > GATEWAY_POSITION,
        term_states.kbus_terms@[GATEWAY_POSITION as int].gender == KBusTerminalGender::Enby,
        term_states.kbus_terms@[GATEWAY_POSITION as int].readable(),
        term_payload(&term_states.kbus_terms@[GATEWAY_POSITION as int]).len() >= 56,
    ensures
        db3 == le_value(
            term_payload(&term_states.kbus_terms@[GATEWAY_POSITION as int]).subrange(48, 56),
        ),
{
    let bits = term_payload_of(&term_states.kbus_terms[GATEWAY_POSITION]);
    let byte = raw_range(&bits, 48, 56);
    raw_load_u8(&byte)
}

/// Bit 98 of the payload. With 96 bits of `rx_data` this is bit 2 of the status
/// byte, the buffer-full bit.
pub fn buffer_full(gateway: &KBusSubDevice) -> (full: bool)
    requires
        whole(gateway),
        payload(gateway).len() > 98,
    ensures
        full == payload(gateway)[98],
{
    let bits = payload_of(gateway);
    bit_at(&bits, 98)
}

/// Bit 98 of the payload of the discovered gateway.
pub fn buffer_full_dyn(term_states: &TermStates) -> (full: bool)
    requires
        term_states.kbus_terms@.len() > GATEWAY_POSITION,
        term_states.kbus_terms@[GATEWAY_POSITION as int].gender == KBusTerminalGender::Enby,
        term_states.kbus_terms@[GATEWAY_POSITION as int].readable(),
        term_payload(&term_states.kbus_terms@[GATEWAY_POSITION as int]).len() > 98,
    ensures
        full == term_payload(&term_states.kbus_terms@[GATEWAY_POSITION as int])[98],
{
    let bits = term_payload_of(&term_states.kbus_terms[GATEWAY_POSITION]);
    bit_at(&bits, 98)
}

/// Bit `bit` of the gateway's status byte.
pub fn check_sb_bit(gateway: &KBusSubDevice, bit: usize) -> (set: bool)
    requires
        gateway.is_gateway(),
        gateway.checkable(),
        bit < 8,
    ensures
        set == gateway.tx_data.unwrap()@[bit as int],
{
    match gateway.check(None) {
        Some(Ok(status)) => bit_at(&status, bit),
        _ => false,
    }
}

/// Writes the control bit CB.1: bit 1 of the buffer that goes to the gateway.
/// Nothing else changes.
pub fn write_cb1(gateway: &mut KBusSubDevice, val: bool)
    requires
        old(gateway).tx_data.is_some(),
        old(gateway).tx_data.unwrap()@.len() > 1,
    ensures
        final(gateway).same_record(old(gateway)),
        opt_view(final(gateway).rx_data) == opt_view(old(gateway).rx_data),
        final(gateway).tx_data.is_some(),
        final(gateway).tx_data.unwrap()@ == old(gateway).tx_data.unwrap()@.update(1, val),
{
    let _ = gateway.write(val, ChannelInput::Index(1));
}

/// Writes the control bit CB.1 of the discovered gateway: bit 1 of its
/// `rx_data`. No other terminal and nothing else of the gateway changes.
pub fn write_cb1_dyn(term_states: &mut TermStates, val: bool)
    requires
        old(term_states).kbus_terms@.len() > GATEWAY_POSITION,
        old(term_states).kbus_terms@[GATEWAY_POSITION as int].rx_data.is_some(),
        old(term_states).kbus_terms@[GATEWAY_POSITION as int].rx_data.unwrap()@.len() > 1,
    ensures
        final(term_states).same_ebus(old(term_states)),
        final(term_states).kbus_terms@.len() == old(term_states).kbus_terms@.len(),
        forall|i: int|
            0 <= i < old(term_states).kbus_terms@.len() && i != GATEWAY_POSITION ==> (
            #[trigger] final(term_states).kbus_terms@[i]) == old(term_states).kbus_terms@[i],
        old(term_states).kbus_terms@[GATEWAY_POSITION as int].written(
            val,
            ChannelInput::Index(1),
            &final(term_states).kbus_terms@[GATEWAY_POSITION as int],
            Ok(()),
        ),
{
    let _ = term_states.kbus_terms[GATEWAY_POSITION].write(val, ChannelInput::Index(1));
}

/// `buf` with its first `n` bits set to `val`.
pub open spec fn filled(buf: Seq<bool>, n: nat, val: bool) -> Seq<bool> {
    Seq::new(buf.len(), |i: int| if i < n { val } else { buf[i] })
}

/// Whether the lights of area 1 are commanded on: channel 1 of the output
/// terminal at position 1 behind the coupler, as 0 or 1.
pub fn read_area_1_lights(term_states: &TermStates) -> (level: u8)
    requires
        term_states.kbus_terms@.len() > AREA_1_POSITION,
        term_states.kbus_terms@[AREA_1_POSITION as int].gender == KBusTerminalGender::Output,
        term_states.kbus_terms@[AREA_1_POSITION as int].rx_data.is_some(),
        term_states.kbus_terms@[AREA_1_POSITION as int].rx_data.unwrap()@.len() > 0,
    ensures
        level == bit_level(term_states.kbus_terms@[AREA_1_POSITION as int].rx_data.unwrap()@[0]),
{
    match term_states.kbus_terms[AREA_1_POSITION].read(
        Some(ChannelInput::Channel(TermChannel::Ch1)),
    ) {
        Ok(reading) => match reading.pick_simple() {
            Some(level) => level,
            None => 0,
        },
        Err(_) => 0,
    }
}

/// Whether the lights of area 2 are commanded on: channel 1 of the first
/// digital output terminal, as 0 or 1.
pub fn read_area_2_lights(term_states: &TermStates) -> (level: u8)
    requires
        term_states.ebus_do_terms@.len() > 0,
        term_states.ebus_do_terms@[0].values@.len() > 0,
    ensures
        level == bit_level(term_states.ebus_do_terms@[0].values@[0]),
{
    match term_states.ebus_do_terms[0].read(Some(ChannelInput::Channel(TermChannel::Ch1))) {
        Ok(reading) => match reading.pick_simple() {
            Some(level) => level,
            None => 0,
        },
        Err(_) => 0,
    }
}

/// Whether the lights of area 1 can be switched: the output terminal at
/// position 1 behind the coupler has a buffer of at least its declared size.
pub open spec fn area_1_ready(ts: &TermStates) -> bool {
    &&& ts.kbus_terms@.len() > AREA_1_POSITION
    &&& ts.kbus_terms@[AREA_1_POSITION as int].rx_data.is_some()
    &&& ts.kbus_terms@[AREA_1_POSITION as int].rx_data.unwrap()@.len()
        >= ts.kbus_terms@[AREA_1_POSITION as int].size_in_bits
}

/// Whether the lights of area 2 can be switched: the first digital output
/// terminal has one bit per declared channel.
pub open spec fn area_2_ready(ts: &TermStates) -> bool {
    &&& ts.ebus_do_terms@.len() > 0
    &&& ts.ebus_do_terms@[0].wf()
}

/// How switching area 1 to `val` relates the registry before to the one after:
/// the output terminal at position 1 behind the coupler has the first
/// `size_in_bits` bits of `rx_data` at `val`, and nothing else differs.
pub open spec fn area_1_switched(before: &TermStates, after: &TermStates, val: bool) -> bool {
    let old_term = before.kbus_terms@[AREA_1_POSITION as int];
    let new_term = after.kbus_terms@[AREA_1_POSITION as int];
    &&& after.same_ebus(before)
    &&& after.kbus_terms@.len() == before.kbus_terms@.len()
    &&& forall|i: int|
        0 <= i < before.kbus_terms@.len() && i != AREA_1_POSITION ==> (
        #[trigger] after.kbus_terms@[i]) == before.kbus_terms@[i]
    &&& new_term.same_record(&old_term)
    &&& new_term.slot_idx_range == old_term.slot_idx_range
    &&& opt_view(new_term.tx_data) == opt_view(old_term.tx_data)
    &&& new_term.rx_data.is_some()
    &&& new_term.rx_data.unwrap()@ == filled(
        old_term.rx_data.unwrap()@,
        old_term.size_in_bits as nat,
        val,
    )
}

/// How switching area 2 to `val` relates the registry before to the one after:
/// every channel of the first digital output terminal is at `val`, and nothing
/// else differs.
pub open spec fn area_2_switched(before: &TermStates, after: &TermStates, val: bool) -> bool {
    &&& after.kbus_terms@ == before.kbus_terms@
    &&& after.ebus_di_terms@ == before.ebus_di_terms@
    &&& after.ebus_ai_terms@ == before.ebus_ai_terms@
    &&& after.ebus_do_terms@.len() == before.ebus_do_terms@.len()
    &&& forall|i: int|
        1 <= i < before.ebus_do_terms@.len() ==> (#[trigger] after.ebus_do_terms@[i])
            == before.ebus_do_terms@[i]
    &&& after.ebus_do_terms@[0].num_of_channels == before.ebus_do_terms@[0].num_of_channels
    &&& after.ebus_do_terms@[0].values@ == Seq::new(
        before.ebus_do_terms@[0].values@.len(),
        |i: int| val,
    )
}

/// Switches the lights of area 1: writes `val` to every declared bit of the
/// output terminal at position 1 behind the coupler.
pub fn write_all_channel_kl2889(term_states: &mut TermStates, val: bool)
    requires
        area_1_ready(old(term_states)),
    ensures
        area_1_switched(old(term_states), final(term_states), val),
{
    let size = term_states.kbus_terms[AREA_1_POSITION].size_in_bits;
    let ghost before = term_states.kbus_terms@[AREA_1_POSITION as int];
    let ghost buf = before.rx_data.unwrap()@;
    let mut idx: u8 = 0;
    while idx < size
        invariant
            idx <= size,
            size == before.size_in_bits,
            before == old(term_states).kbus_terms@[AREA_1_POSITION as int],
            buf == before.rx_data.unwrap()@,
            buf.len() >= size,
            term_states.same_ebus(old(term_states)),
            term_states.kbus_terms@.len() == old(term_states).kbus_terms@.len(),
            term_states.kbus_terms@.len() > AREA_1_POSITION,
            forall|i: int|
                0 <= i < old(term_states).kbus_terms@.len() && i != AREA_1_POSITION ==> (
                #[trigger] term_states.kbus_terms@[i]) == old(term_states).kbus_terms@[i],
            term_states.kbus_terms@[AREA_1_POSITION as int].same_record(&before),
            term_states.kbus_terms@[AREA_1_POSITION as int].slot_idx_range
                == before.slot_idx_range,
            opt_view(term_states.kbus_terms@[AREA_1_POSITION as int].tx_data) == opt_view(
                before.tx_data,
            ),
            term_states.kbus_terms@[AREA_1_POSITION as int].rx_data.is_some(),
            term_states.kbus_terms@[AREA_1_POSITION as int].rx_data.unwrap()@ == filled(
                buf,
                idx as nat,
                val,
            ),
        decreases size - idx,
    {
        let _ = term_states.kbus_terms[AREA_1_POSITION].write(val, ChannelInput::Index(idx));
        idx = idx + 1;
        assert(term_states.kbus_terms@[AREA_1_POSITION as int].rx_data.unwrap()@ =~= filled(
            buf,
            idx as nat,
            val,
        ));
    }
}

/// Switches the lights of area 2: writes `val` to every channel of the first
/// digital output terminal.
pub fn write_all_channel_el2889(val: bool, term_states: &mut TermStates)
    requires
        area_2_ready(old(term_states)),
    ensures
        area_2_switched(old(term_states), final(term_states), val),
{
    let count = term_states.ebus_do_terms[0].num_of_channels;
    let ghost buf = term_states.ebus_do_terms@[0].values@;
    let mut idx: u8 = 0;
    while idx < count
        invariant
            idx <= count,
            buf == old(term_states).ebus_do_terms@[0].values@,
            buf.len() == count,
            term_states.kbus_terms@ == old(term_states).kbus_terms@,
            term_states.ebus_di_terms@ == old(term_states).ebus_di_terms@,
            term_states.ebus_ai_terms@ == old(term_states).ebus_ai_terms@,
            term_states.ebus_do_terms@.len() == old(term_states).ebus_do_terms@.len(),
            term_states.ebus_do_terms@.len() > 0,
            forall|i: int|
                1 <= i < old(term_states).ebus_do_terms@.len() ==> (
                #[trigger] term_states.ebus_do_terms@[i]) == old(term_states).ebus_do_terms@[i],
            term_states.ebus_do_terms@[0].num_of_channels == count,
            term_states.ebus_do_terms@[0].values@ == filled(buf, idx as nat, val),
        decreases count - idx,
    {
        let _ = term_states.ebus_do_terms[0].write(val, ChannelInput::Index(idx));
        idx = idx + 1;
        assert(term_states.ebus_do_terms@[0].values@ =~= filled(buf, idx as nat, val));
    }
    assert(term_states.ebus_do_terms@[0].values@ =~= Seq::new(buf.len(), |i: int| val));
}

/// The round of the handshake that the gateway's buffers call for: the status
/// byte is the first byte of `tx_data`, the control bit is bit 1 of the
/// payload, CNODE is byte 1 and DB3 byte 6 of the payload, and the buffer-full
/// bit is bit 2 of the status byte.
pub open spec fn handshake_of(gateway: &KBusSubDevice) -> GatewayStep {
    decided(
        gateway.tx_data.unwrap()@.subrange(0, 8),
        payload(gateway)[1],
        le_value(payload(gateway).subrange(48, 56)) as u8,
        gateway.tx_data.unwrap()@[2],
        le_value(payload(gateway).subrange(8, 16)) as u8,
    )
}

/// How acting on a rocker event relates the registry before to the one after:
/// rocker B switches the lights of area 1, rocker A those of area 2, position
/// I on and position O off. Without an event nothing changes.
pub open spec fn event_applied(
    before: &TermStates,
    after: &TermStates,
    event: Option<RockerEvent>,
) -> bool {
    match event {
        Some(RockerEvent::RockerBI) => area_1_switched(before, after, true),
        Some(RockerEvent::RockerBO) => area_1_switched(before, after, false),
        Some(RockerEvent::RockerAI) => area_2_switched(before, after, true),
        Some(RockerEvent::RockerAO) => area_2_switched(before, after, false),
        None => *after == *before,
    }
}

/// How an acknowledgment relates the gateway before to the one after: the
/// value goes to bit 1 of `tx_data`. Without one nothing changes.
pub open spec fn ack_applied(
    before: &KBusSubDevice,
    after: &KBusSubDevice,
    ack: Option<bool>,
) -> bool {
    match ack {
        Some(val) => {
            &&& after.same_record(before)
            &&& opt_view(after.rx_data) == opt_view(before.rx_data)
            &&& after.tx_data.is_some()
            &&& after.tx_data.unwrap()@ == before.tx_data.unwrap()@.update(1, val)
        },
        None => *after == *before,
    }
}

/// Acts on a rocker event.
fn apply_event(term_states: &mut TermStates, event: Option<RockerEvent>)
    requires
        area_1_ready(old(term_states)),
        area_2_ready(old(term_states)),
    ensures
        event_applied(old(term_states), final(term_states), event),
{
    match event {
        Some(RockerEvent::RockerBI) => write_all_channel_kl2889(term_states, true),
        Some(RockerEvent::RockerBO) => write_all_channel_kl2889(term_states, false),
        Some(RockerEvent::RockerAI) => write_all_channel_el2889(true, term_states),
        Some(RockerEvent::RockerAO) => write_all_channel_el2889(false, term_states),
        None => {},
    }
}

/// Runs one round of the gateway handshake: reads the gateway, decides the
/// round, acts on the rocker event if there is one, and acknowledges if the
/// round calls for it. The round is returned so that the caller can report it.
pub fn enocean_sm(term_states: &mut TermStates, gateway: &mut KBusSubDevice) -> (step:
    GatewayStep)
    requires
        handshake_ready(old(gateway)),
        area_1_ready(old(term_states)),
        area_2_ready(old(term_states)),
    ensures
        step == handshake_of(old(gateway)),
        event_applied(old(term_states), final(term_states), step.event()),
        ack_applied(old(gateway), final(gateway), step.ack()),
{
    let status = match gateway.check(None) {
        Some(Ok(status)) => status,
        _ => raw_new(),
    };
    let cnode_bits = read_cnode(gateway);
    let cnode = raw_load_u8(&cnode_bits);
    let cb1 = read_cb1(gateway);
    let db3 = read_db3(gateway);
    let full = check_sb_bit(gateway, 2);
    let step = gateway_step(&status, cb1, db3, full, cnode);
    match step {
        GatewayStep::Telegram { event, ack } => {
            apply_event(term_states, event);
            write_cb1(gateway, ack);
        },
        GatewayStep::Drain { ack } => {
            write_cb1(gateway, ack);
        },
        _ => {},
    }
    step
}

/// How a command of the operator panel relates the registry before to the one
/// after: command 2 switches the lights of area 1 on, command 1 switches them
/// off, any other command changes nothing.
pub open spec fn command_applied(before: &TermStates, after: &TermStates, hmi_cmd: u32) -> bool {
    if hmi_cmd == HMI_CMD_ON {
        area_1_switched(before, after, true)
    } else if hmi_cmd == HMI_CMD_OFF {
        area_1_switched(before, after, false)
    } else {
        *after == *before
    }
}

/// What one run of the business logic reports back.
pub struct LogicOutcome {
    /// The round of the gateway handshake that was run.
    pub step: GatewayStep,
    /// Whether the operator panel's command was carried out and has to be
    /// cleared, so that it does not override a later rocker event.
    pub reset_hmi_cmd: bool,
}

/// Runs the business logic of one scan cycle: first a round of the gateway
/// handshake, then the pending command of the operator panel.
pub fn plc_execute_logic(
    term_states: &mut TermStates,
    gateway: &mut KBusSubDevice,
    hmi_cmd: u32,
) -> (out: LogicOutcome)
    requires
        handshake_ready(old(gateway)),
        area_1_ready(old(term_states)),
        area_2_ready(old(term_states)),
    ensures
        out.step == handshake_of(old(gateway)),
        out.reset_hmi_cmd == (hmi_cmd == HMI_CMD_ON || hmi_cmd == HMI_CMD_OFF),
        ack_applied(old(gateway), final(gateway), out.step.ack()),
        exists|mid: TermStates|
            #![auto]
            event_applied(old(term_states), &mid, out.step.event()) && command_applied(
                &mid,
                final(term_states),
                hmi_cmd,
            ),
{
    let step = enocean_sm(term_states, gateway);
    let ghost mid = *term_states;
    let mut reset = false;
    if hmi_cmd == HMI_CMD_ON {
        write_all_channel_kl2889(term_states, true);
        reset = true;
    } else if hmi_cmd == HMI_CMD_OFF {
        write_all_channel_kl2889(term_states, false);
        reset = true;
    }
    assert(event_applied(old(term_states), &mid, step.event()) && command_applied(
        &mid,
        term_states,
        hmi_cmd,
    ));
    LogicOutcome { step, reset_hmi_cmd: reset }
}

/// Tests whether the business logic can run on this registry and gateway.
pub fn logic_ready(term_states: &TermStates, gateway: &KBusSubDevice) -> (ok: bool)
    ensures
        ok == (handshake_ready(gateway) && area_1_ready(term_states) && area_2_ready(
            term_states,
        )),
{
    let gateway_ok = match (&gateway.rx_data, &gateway.tx_data) {
        (Some(rx), Some(tx)) => {
            let rx_len = raw_len(rx);
            let tx_len = raw_len(tx);
            gateway.gender == KBusTerminalGender::Enby && gateway.intelligent && gateway.hr_name
                == 6581 && tx_len >= 8 && rx_len <= usize::MAX / 8 && tx_len <= usize::MAX / 8
                - rx_len && rx_len + tx_len >= 56
        },
        _ => false,
    };
    if !gateway_ok {
        return false;
    }
    if term_states.kbus_terms.len() <= AREA_1_POSITION || term_states.ebus_do_terms.len() == 0 {
        return false;
    }
    let area_1 = &term_states.kbus_terms[AREA_1_POSITION];
    let area_1_ok = match &area_1.rx_data {
        Some(rx) => raw_len(rx) >= area_1.size_in_bits as usize,
        None => false,
    };
    let area_2 = &term_states.ebus_do_terms[0];
    area_1_ok && raw_len(&area_2.values) == area_2.num_of_channels as usize
}

} // verus!
