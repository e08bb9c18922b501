//! Values that a read of a terminal can produce.

use vstd::prelude::*;
use crate::bits::Bits;
use crate::channel::{ChannelInput, TermError};

verus! {

/// The result of reading a terminal. Analog quantities are fixed-point.
#[derive(Debug)]
pub enum ElectricalObservable {
    /// A voltage, in microvolts.
    Voltage(u32),
    /// A current, in nanoamperes.
    Current(u32),
    /// A boolean signal, as 0 or 1.
    Simple(u8),
    /// The whole payload of an intelligent terminal.
    Smart(Bits),
}

/// What an [`ElectricalObservable`] stands for in contracts.
pub ghost enum Reading {
    Voltage(u32),
    Current(u32),
    Simple(u8),
    Smart(Seq<bool>),
}

impl View for ElectricalObservable {
    type V = Reading;

    open spec fn view(&self) -> Reading {
        match self {
            ElectricalObservable::Voltage(v) => Reading::Voltage(*v),
            ElectricalObservable::Current(i) => Reading::Current(*i),
            ElectricalObservable::Simple(b) => Reading::Simple(*b),
            ElectricalObservable::Smart(bits) => Reading::Smart(bits@),
        }
    }
}

impl Clone for ElectricalObservable {
    fn clone(&self) -> (r: Self)
        ensures
            r@ == self@,
    {
        match self {
            ElectricalObservable::Voltage(v) => ElectricalObservable::Voltage(*v),
            ElectricalObservable::Current(i) => ElectricalObservable::Current(*i),
            ElectricalObservable::Simple(b) => ElectricalObservable::Simple(*b),
            ElectricalObservable::Smart(bits) => ElectricalObservable::Smart(bits.clone()),
        }
    }
}

impl PartialEq for ElectricalObservable {
    fn eq(&self, other: &Self) -> (r: bool) {
        match (self, other) {
            (ElectricalObservable::Voltage(a), ElectricalObservable::Voltage(b)) => *a == *b,
            (ElectricalObservable::Current(a), ElectricalObservable::Current(b)) => *a == *b,
            (ElectricalObservable::Simple(a), ElectricalObservable::Simple(b)) => *a == *b,
            (ElectricalObservable::Smart(a), ElectricalObservable::Smart(b)) => *a == *b,
            _ => false,
        }
    }
}

impl vstd::std_specs::cmp::PartialEqSpecImpl for ElectricalObservable {
    open spec fn obeys_eq_spec() -> bool {
        true
    }

    open spec fn eq_spec(&self, other: &Self) -> bool {
        self@ == other@
    }
}

/// The outcome of a read with the observable replaced by what it stands for.
pub open spec fn reading_of(r: Result<ElectricalObservable, TermError>) -> Result<
    Reading,
    TermError,
> {
    match r {
        Ok(o) => Ok(o@),
        Err(e) => Err(e),
    }
}

/// The outcome of a status check with the bits replaced by their sequence.
pub open spec fn status_of(r: Option<Result<Bits, TermError>>) -> Option<
    Result<Seq<bool>, TermError>,
> {
    match r {
        Some(Ok(bits)) => Some(Ok(bits@)),
        Some(Err(e)) => Some(Err(e)),
        None => None,
    }
}

/// A boolean signal as the integer a read reports.
pub open spec fn bit_level(bit: bool) -> u8 {
    if bit {
        1
    } else {
        0
    }
}

impl ElectricalObservable {
    /// The voltage in microvolts, absent for any other kind of reading.
    pub fn pick_voltage(&self) -> (r: Option<u32>)
        ensures
            r == (match self@ {
                Reading::Voltage(v) => Some(v),
                _ => None,
            }),
    {
        match self {
            ElectricalObservable::Voltage(v) => Some(*v),
            _ => None,
        }
    }

    /// The current in nanoamperes, absent for any other kind of reading.
    pub fn pick_current(&self) -> (r: Option<u32>)
        ensures
            r == (match self@ {
                Reading::Current(i) => Some(i),
                _ => None,
            }),
    {
        match self {
            ElectricalObservable::Current(i) => Some(*i),
            _ => None,
        }
    }

    /// The signal level, absent for any other kind of reading.
    pub fn pick_simple(&self) -> (r: Option<u8>)
        ensures
            r == (match self@ {
                Reading::Simple(b) => Some(b),
                _ => None,
            }),
    {
        match self {
            ElectricalObservable::Simple(val) => Some(*val),
            _ => None,
        }
    }

    /// A copy of the payload, absent for any other kind of reading.
    pub fn pick_smart(&self) -> (r: Option<Bits>)
        ensures
            (match self@ {
                Reading::Smart(s) => r matches Some(bits) && bits@ == s,
                _ => r.is_none(),
            }),
    {
        match self {
            ElectricalObservable::Smart(val) => Some(val.clone()),
            _ => None,
        }
    }
}

/// Read access to a terminal: one channel, or the whole device.
pub trait Getter {
    /// The states in which the terminal can be read.
    spec fn readable(&self) -> bool;

    /// What a read of `channel` reports in the current state.
    spec fn reading(&self, channel: Option<ChannelInput>) -> Result<Reading, TermError>;

    fn read(&self, channel: Option<ChannelInput>) -> (r: Result<ElectricalObservable, TermError>)
        requires
            self.readable(),
        ensures
            reading_of(r) == self.reading(channel),
    ;
}

/// Write access to the controller-owned output buffer of a terminal.
pub trait Setter {
    /// The states in which the terminal can be written.
    spec fn writable(&self) -> bool;

    /// How a write of `data` to `channel` relates the state before (`self`) to
    /// the state after and to the reported outcome.
    spec fn written(
        &self,
        data: bool,
        channel: ChannelInput,
        after: &Self,
        r: Result<(), TermError>,
    ) -> bool;

    fn write(&mut self, data_to_write: bool, channel: ChannelInput) -> (r: Result<(), TermError>)
        requires
            old(self).writable(),
        ensures
            old(self).written(data_to_write, channel, final(self), r),
    ;
}

/// Access to the bits of a terminal that are not process values.
pub trait Checker {
    /// The states in which the terminal's status can be checked.
    spec fn checkable(&self) -> bool;

    /// The status bits reported for `channel`; `None` for a terminal without any.
    spec fn status(&self, channel: Option<ChannelInput>) -> Option<Result<Seq<bool>, TermError>>;

    fn check(&self, channel: Option<ChannelInput>) -> (r: Option<Result<Bits, TermError>>)
        requires
            self.checkable(),
        ensures
            status_of(r) == self.status(channel),
    ;
}

} // verus!
