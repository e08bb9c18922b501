//! The toggle handshake with the intelligent gateway terminal KL6581.
//!
//! The gateway hands over one radio telegram at a time. It flips status bit
//! SB.1 when a telegram is ready; the controller answers by writing control
//! bit CB.1. Payload byte DB3 of a telegram says which rocker switch was
//! pressed.

use vstd::prelude::*;
use crate::analog::bit_at;
use crate::bits::{le_value, raw_load_u8, Bits};

verus! {

/// A fault that the gateway reports in its CNODE byte.
#[allow(non_camel_case_types)]
#[derive(Debug, Clone, Copy, PartialEq, Eq, Structural)]
pub enum CnodeErrors {
    WatchdogError,
    NoComWithKL6581,
    idx_number_not_OK,
    Switch_to_Stopp,
    not_ready,
    No_KL6583_Found,
    TransmissionError,
}

/// A CNODE byte that names no fault.
#[derive(Debug, Clone, Copy, PartialEq, Eq, Structural)]
pub struct InvalidCnode(pub u8);

impl CnodeErrors {
    /// The fault that a CNODE byte names: codes `0x10` to `0x16`.
    pub open spec fn of_code(value: u8) -> Option<CnodeErrors> {
        if value == 0x10 {
            Some(CnodeErrors::WatchdogError)
        } else if value == 0x11 {
            Some(CnodeErrors::NoComWithKL6581)
        } else if value == 0x12 {
            Some(CnodeErrors::idx_number_not_OK)
        } else if value == 0x13 {
            Some(CnodeErrors::Switch_to_Stopp)
        } else if value == 0x14 {
            Some(CnodeErrors::not_ready)
        } else if value == 0x15 {
            Some(CnodeErrors::No_KL6583_Found)
        } else if value == 0x16 {
            Some(CnodeErrors::TransmissionError)
        } else {
            None
        }
    }

    /// The code that names a fault.
    pub open spec fn spec_code(self) -> u8 {
        match self {
            CnodeErrors::WatchdogError => 0x10,
            CnodeErrors::NoComWithKL6581 => 0x11,
            CnodeErrors::idx_number_not_OK => 0x12,
            CnodeErrors::Switch_to_Stopp => 0x13,
            CnodeErrors::not_ready => 0x14,
            CnodeErrors::No_KL6583_Found => 0x15,
            CnodeErrors::TransmissionError => 0x16,
        }
    }

    /// The code that names a fault.
    pub fn code(self) -> (c: u8)
        ensures
            c == self.spec_code(),
            CnodeErrors::of_code(c) == Some(self),
    {
        match self {
            CnodeErrors::WatchdogError => 0x10,
            CnodeErrors::NoComWithKL6581 => 0x11,
            CnodeErrors::idx_number_not_OK => 0x12,
            CnodeErrors::Switch_to_Stopp => 0x13,
            CnodeErrors::not_ready => 0x14,
            CnodeErrors::No_KL6583_Found => 0x15,
            CnodeErrors::TransmissionError => 0x16,
        }
    }

    /// The fault that a CNODE byte names, or the byte itself if it names none.
    pub fn cnode_err_from_u8(value: u8) -> (r: Result<CnodeErrors, InvalidCnode>)
        ensures
            r == (match CnodeErrors::of_code(value) {
                Some(e) => Ok::<CnodeErrors, InvalidCnode>(e),
                None => Err::<CnodeErrors, InvalidCnode>(InvalidCnode(value)),
            }),
    {
        match value {
            0x10 => Ok(CnodeErrors::WatchdogError),
            0x11 => Ok(CnodeErrors::NoComWithKL6581),
            0x12 => Ok(CnodeErrors::idx_number_not_OK),
            0x13 => Ok(CnodeErrors::Switch_to_Stopp),
            0x14 => Ok(CnodeErrors::not_ready),
            0x15 => Ok(CnodeErrors::No_KL6583_Found),
            0x16 => Ok(CnodeErrors::TransmissionError),
            _ => Err(InvalidCnode(value)),
        }
    }

    /// The operator's text for a CNODE byte.
    pub open spec fn message(value: u8) -> Seq<char> {
        match CnodeErrors::of_code(value) {
            Some(CnodeErrors::WatchdogError) =>
                "The KL6581 does not answer anymore. Check the mapping and communication."@,
            Some(CnodeErrors::NoComWithKL6581) =>
                "The KL6581 does not answer. Check the mapping and communication."@,
            Some(CnodeErrors::idx_number_not_OK) =>
                "nIdx is not correct. nIdx may have a value from 0 to 64."@,
            Some(CnodeErrors::Switch_to_Stopp) => "bInit is FALSE. Set bInit back to TRUE."@,
            Some(CnodeErrors::not_ready) =>
                "The terminal is not in data exchange. Check the mapping and communication."@,
            Some(CnodeErrors::No_KL6583_Found) =>
                "There is no KL6583 connected. Check the wiring to the KL6583."@,
            Some(CnodeErrors::TransmissionError) =>
                "The KL6581 does not answer anymore. Check the mapping and communication."@,
            None => "Invalid CNODE byte value"@,
        }
    }

    /// The operator's text for the CNODE byte held in `cnode`.
    pub fn cnode_err_to_string(cnode: &Bits) -> (text: String)
        requires
            1 <= cnode@.len() <= 8,
        ensures
            text@ == CnodeErrors::message(le_value(cnode@) as u8),
    {
        let value: u8 = raw_load_u8(cnode);
        let text: &str = match CnodeErrors::cnode_err_from_u8(value) {
            Ok(CnodeErrors::WatchdogError) =>
                "The KL6581 does not answer anymore. Check the mapping and communication.",
            Ok(CnodeErrors::NoComWithKL6581) =>
                "The KL6581 does not answer. Check the mapping and communication.",
            Ok(CnodeErrors::idx_number_not_OK) =>
                "nIdx is not correct. nIdx may have a value from 0 to 64.",
            Ok(CnodeErrors::Switch_to_Stopp) => "bInit is FALSE. Set bInit back to TRUE.",
            Ok(CnodeErrors::not_ready) =>
                "The terminal is not in data exchange. Check the mapping and communication.",
            Ok(CnodeErrors::No_KL6583_Found) =>
                "There is no KL6583 connected. Check the wiring to the KL6583.",
            Ok(CnodeErrors::TransmissionError) =>
                "The KL6581 does not answer anymore. Check the mapping and communication.",
            Err(_) => "Invalid CNODE byte value",
        };
        text.to_owned()
    }
}

/// A rocker switch of a radio transmitter, pressed in one of its two positions.
#[derive(Debug, Clone, Copy, PartialEq, Eq, Structural)]
pub enum RockerEvent {
    /// Rocker B, position I.
    RockerBI,
    /// Rocker B, position O.
    RockerBO,
    /// Rocker A, position I.
    RockerAI,
    /// Rocker A, position O.
    RockerAO,
}

/// A fault flagged in the gateway's status byte.
#[derive(Debug, Clone, Copy, PartialEq, Eq, Structural)]
pub enum GatewayFault {
    /// SB.6: an error is reported; the CNODE byte says which.
    Reported(u8),
    /// SB.5: configuration mismatch.
    ConfigMismatch,
    /// SB.4: the address of a KL6583 is assigned twice.
    AddrConflict,
    /// SB.3: no KL6583 ready for operation was found.
    CommError,
}

/// What the controller does in one round of the handshake.
#[derive(Debug, Clone, Copy, PartialEq, Eq, Structural)]
pub enum GatewayStep {
    /// The gateway flags a fault. Nothing is acted on or acknowledged.
    Fault(GatewayFault),
    /// A new telegram is there. The event, if DB3 names one, is acted on, and
    /// then `ack` is written to CB.1.
    Telegram { event: Option<RockerEvent>, ack: bool },
    /// No new telegram, but the gateway's buffer is full: `ack` is written to
    /// CB.1 to make it advance.
    Drain { ack: bool },
    /// No new telegram and room in the buffer: nothing is written.
    Idle,
}

impl GatewayStep {
    /// The value written to CB.1 in this round, if any.
    pub open spec fn ack(self) -> Option<bool> {
        match self {
            GatewayStep::Telegram { event, ack } => Some(ack),
            GatewayStep::Drain { ack } => Some(ack),
            _ => None,
        }
    }

    /// The rocker event acted on in this round, if any.
    pub open spec fn event(self) -> Option<RockerEvent> {
        match self {
            GatewayStep::Telegram { event, ack } => event,
            _ => None,
        }
    }
}

/// The rocker event that payload byte DB3 names in its high nibble.
pub open spec fn rocker_of(db3: u8) -> Option<RockerEvent> {
    if db3 & 0xf0 == 0x50 {
        Some(RockerEvent::RockerBI)
    } else if db3 & 0xf0 == 0x70 {
        Some(RockerEvent::RockerBO)
    } else if db3 & 0xf0 == 0x10 {
        Some(RockerEvent::RockerAI)
    } else if db3 & 0xf0 == 0x30 {
        Some(RockerEvent::RockerAO)
    } else {
        None
    }
}

/// The fault that a status byte flags, highest bit first.
pub open spec fn fault_of(sb: Seq<bool>, cnode: u8) -> Option<GatewayFault> {
    if sb[6] {
        Some(GatewayFault::Reported(cnode))
    } else if sb[5] {
        Some(GatewayFault::ConfigMismatch)
    } else if sb[4] {
        Some(GatewayFault::AddrConflict)
    } else if sb[3] {
        Some(GatewayFault::CommError)
    } else {
        None
    }
}

/// One round of the handshake, decided from the status byte `sb`, the control
/// bit `cb1` last written, the payload byte `db3`, the buffer-full bit and the
/// CNODE byte.
pub open spec fn decided(sb: Seq<bool>, cb1: bool, db3: u8, full: bool, cnode: u8) -> GatewayStep {
    match fault_of(sb, cnode) {
        Some(fault) => GatewayStep::Fault(fault),
        None => {
            if cb1 != sb[1] {
                GatewayStep::Telegram { event: rocker_of(db3), ack: !sb[1] }
            } else if full {
                GatewayStep::Drain { ack: !sb[1] }
            } else {
                GatewayStep::Idle
            }
        },
    }
}

/// Decodes the high nibble of payload byte DB3.
pub fn rocker_event(db3: u8) -> (r: Option<RockerEvent>)
    ensures
        r == rocker_of(db3),
{
    let nibble = db3 & 0xf0;
    if nibble == 0x50 {
        Some(RockerEvent::RockerBI)
    } else if nibble == 0x70 {
        Some(RockerEvent::RockerBO)
    } else if nibble == 0x10 {
        Some(RockerEvent::RockerAI)
    } else if nibble == 0x30 {
        Some(RockerEvent::RockerAO)
    } else {
        None
    }
}

/// Decides one round of the handshake.
pub fn gateway_step(status: &Bits, cb1: bool, db3: u8, full: bool, cnode: u8) -> (step:
    GatewayStep)
    requires
        status@.len() >= 7,
    ensures
        step == decided(status@, cb1, db3, full, cnode),
{
    if bit_at(status, 6) {
        return GatewayStep::Fault(GatewayFault::Reported(cnode));
    }
    if bit_at(status, 5) {
        return GatewayStep::Fault(GatewayFault::ConfigMismatch);
    }
    if bit_at(status, 4) {
        return GatewayStep::Fault(GatewayFault::AddrConflict);
    }
    if bit_at(status, 3) {
        return GatewayStep::Fault(GatewayFault::CommError);
    }
    let sb1 = bit_at(status, 1);
    if cb1 != sb1 {
        GatewayStep::Telegram { event: rocker_event(db3), ack: !sb1 }
    } else if full {
        GatewayStep::Drain { ack: !sb1 }
    } else {
        GatewayStep::Idle
    }
}

/// Without a new telegram and without a full buffer, nothing is acknowledged
/// and no rocker event is acted on.
pub proof fn lemma_idle_is_silent(sb: Seq<bool>, cb1: bool, db3: u8, full: bool, cnode: u8)
    requires
        sb[1] == cb1,
        !full,
    ensures
        decided(sb, cb1, db3, full, cnode).ack().is_none(),
        decided(sb, cb1, db3, full, cnode).event().is_none(),
{
}

/// With a new telegram whose DB3 has the high nibble 5, and no fault flagged,
/// the one event acted on is rocker B in position I, and CB.1 is then written
/// to the opposite of SB.1.
pub proof fn lemma_rocker_b_i(sb: Seq<bool>, cb1: bool, db3: u8, full: bool, cnode: u8)
    requires
        fault_of(sb, cnode).is_none(),
        sb[1] != cb1,
        db3 & 0xf0 == 0x50,
    ensures
        decided(sb, cb1, db3, full, cnode) == (GatewayStep::Telegram {
            event: Some(RockerEvent::RockerBI),
            ack: !sb[1],
        }),
{
}

/// A flagged fault stops the round: nothing is acknowledged or acted on.
pub proof fn lemma_fault_is_silent(sb: Seq<bool>, cb1: bool, db3: u8, full: bool, cnode: u8)
    requires
        fault_of(sb, cnode).is_some(),
    ensures
        decided(sb, cb1, db3, full, cnode).ack().is_none(),
        decided(sb, cb1, db3, full, cnode).event().is_none(),
{
}

} // verus!
