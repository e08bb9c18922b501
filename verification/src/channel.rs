//! Channel addressing shared by every terminal family.

use vstd::prelude::*;

verus! {

/// A channel as printed on a terminal's housing. Numbering starts at one.
#[derive(Debug, Clone, Copy, PartialEq, Eq, Structural)]
pub enum TermChannel {
    Ch1,
    Ch2,
    Ch3,
    Ch4,
    Ch5,
    Ch6,
    Ch7,
    Ch8,
    Ch9,
    Ch10,
    Ch11,
    Ch12,
    Ch13,
    Ch14,
    Ch15,
    Ch16,
}

impl TermChannel {
    /// The printed number of the channel.
    pub open spec fn spec_number(self) -> nat {
        match self {
            TermChannel::Ch1 => 1,
            TermChannel::Ch2 => 2,
            TermChannel::Ch3 => 3,
            TermChannel::Ch4 => 4,
            TermChannel::Ch5 => 5,
            TermChannel::Ch6 => 6,
            TermChannel::Ch7 => 7,
            TermChannel::Ch8 => 8,
            TermChannel::Ch9 => 9,
            TermChannel::Ch10 => 10,
            TermChannel::Ch11 => 11,
            TermChannel::Ch12 => 12,
            TermChannel::Ch13 => 13,
            TermChannel::Ch14 => 14,
            TermChannel::Ch15 => 15,
            TermChannel::Ch16 => 16,
        }
    }

    /// The printed number of the channel, between 1 and 16.
    pub fn number(self) -> (n: u8)
        ensures
            n == self.spec_number(),
            1 <= n <= 16,
    {
        match self {
            TermChannel::Ch1 => 1,
            TermChannel::Ch2 => 2,
            TermChannel::Ch3 => 3,
            TermChannel::Ch4 => 4,
            TermChannel::Ch5 => 5,
            TermChannel::Ch6 => 6,
            TermChannel::Ch7 => 7,
            TermChannel::Ch8 => 8,
            TermChannel::Ch9 => 9,
            TermChannel::Ch10 => 10,
            TermChannel::Ch11 => 11,
            TermChannel::Ch12 => 12,
            TermChannel::Ch13 => 13,
            TermChannel::Ch14 => 14,
            TermChannel::Ch15 => 15,
            TermChannel::Ch16 => 16,
        }
    }

    /// The channel with the printed number `n`, if there is one.
    pub fn from_number(n: u8) -> (r: Option<TermChannel>)
        ensures
            1 <= n <= 16 <==> r.is_some(),
            r matches Some(c) ==> c.spec_number() == n,
    {
        match n {
            1 => Some(TermChannel::Ch1),
            2 => Some(TermChannel::Ch2),
            3 => Some(TermChannel::Ch3),
            4 => Some(TermChannel::Ch4),
            5 => Some(TermChannel::Ch5),
            6 => Some(TermChannel::Ch6),
            7 => Some(TermChannel::Ch7),
            8 => Some(TermChannel::Ch8),
            9 => Some(TermChannel::Ch9),
            10 => Some(TermChannel::Ch10),
            11 => Some(TermChannel::Ch11),
            12 => Some(TermChannel::Ch12),
            13 => Some(TermChannel::Ch13),
            14 => Some(TermChannel::Ch14),
            15 => Some(TermChannel::Ch15),
            16 => Some(TermChannel::Ch16),
            _ => None,
        }
    }
}

/// How a caller names one signal of a terminal.
#[derive(Debug, Clone, Copy, PartialEq, Eq, Structural)]
pub enum ChannelInput {
    /// By printed channel number, for simple digital and analog terminals.
    Channel(TermChannel),
    /// By zero-based bit offset, for terminals without printed channels.
    Index(u8),
}

impl ChannelInput {
    /// The zero-based bit offset addressed: channel `c` is offset `c - 1`, and
    /// an index is its own offset.
    pub open spec fn spec_offset(self) -> nat {
        match self {
            ChannelInput::Channel(tc) => (tc.spec_number() - 1) as nat,
            ChannelInput::Index(idx) => idx as nat,
        }
    }

    /// The zero-based bit offset addressed.
    pub fn offset(&self) -> (off: usize)
        ensures
            off == self.spec_offset(),
            off <= 255,
    {
        match self {
            ChannelInput::Channel(tc) => {
                let n: u8 = tc.number();
                (n - 1) as usize
            },
            ChannelInput::Index(idx) => *idx as usize,
        }
    }

    /// The one-based position addressed: channel `c` is position `c`, and
    /// index `i` is position `i + 1`.
    pub open spec fn spec_position(self) -> nat {
        self.spec_offset() + 1
    }

    /// The one-based position addressed.
    pub fn position(&self) -> (pos: usize)
        ensures
            pos == self.spec_position(),
            1 <= pos <= 256,
    {
        self.offset() + 1
    }
}

/// Two ways of naming a signal address the same bit exactly when the index is
/// one less than the printed channel number.
pub proof fn lemma_channel_index_agree(tc: TermChannel, idx: u8)
    ensures
        ChannelInput::Channel(tc).spec_offset() == ChannelInput::Index(idx).spec_offset()
            <==> idx + 1 == tc.spec_number(),
        ChannelInput::Channel(tc).spec_offset() == tc.spec_number() - 1,
{
}

/// Why a terminal refused a read, a write or a status check.
#[derive(Debug, Clone, Copy, PartialEq, Eq, Structural)]
pub enum TermError {
    /// No channel was given to a terminal that is read one channel at a time.
    ChannelRequired,
    /// A channel was given to a terminal that is only read whole.
    WholeReadOnly,
    /// The addressed bit offset is not part of the terminal.
    OutOfBounds(usize),
    /// The addressed analog channel does not exist.
    InvalidChannel,
    /// The terminal has no buffer that the controller may write.
    NotWritable,
}

/// The text for an offset that is out of bounds: the words "Error reading
/// channel ", the offset in decimal, and ": Index out of bounds".
pub uninterp spec fn out_of_bounds_message(offset: usize) -> Seq<char>;

/// `format!` with one integer argument: the result is the text that the
/// format string and the offset determine.
#[verifier::external_body]
fn out_of_bounds_text(offset: usize) -> (text: String)
    ensures
        text@ == out_of_bounds_message(offset),
{
    format!("Error reading channel {}: Index out of bounds", offset)
}

impl TermError {
    /// The text of an error.
    pub open spec fn text(self) -> Seq<char> {
        match self {
            TermError::ChannelRequired => "Can only pass None for Enby terms"@,
            TermError::WholeReadOnly => "Must pass channel input param as None for Enby terms"@,
            TermError::OutOfBounds(offset) => out_of_bounds_message(offset),
            TermError::InvalidChannel => "Invalid channel. Can only specify Channels 1-4."@,
            TermError::NotWritable => "Terminal has no output buffer"@,
        }
    }

    /// The error as text for a log.
    pub fn message(&self) -> (text: String)
        ensures
            text@ == self.text(),
    {
        let fixed: &str = match self {
            TermError::ChannelRequired => "Can only pass None for Enby terms",
            TermError::WholeReadOnly => "Must pass channel input param as None for Enby terms",
            TermError::OutOfBounds(offset) => {
                return out_of_bounds_text(*offset);
            },
            TermError::InvalidChannel => "Invalid channel. Can only specify Channels 1-4.",
            TermError::NotWritable => "Terminal has no output buffer",
        };
        fixed.to_owned()
    }
}

} // verus!
