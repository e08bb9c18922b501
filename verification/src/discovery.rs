//! Discovery of the terminals behind the coupler and the layout of their slots
//! in the coupler's process images.

use vstd::prelude::*;
use crate::kbus::{opt_view, KBusTerm, KBusTerminalGender};
use crate::registry::TermStates;

verus! {

/// The type code and name of the intelligent gateway terminal.
pub const KL6581_NAME: u16 = 6581;

/// The gateway's footprint in bits: 96 of input and 96 of output.
pub const KL6581_SIZE_BITS: u8 = 192;

/// The slot of the gateway terminal in the coupler's images.
pub const KL6581_SLOT: (u8, u8) = (16, 111);

/// The first bit after the gateway's slot, where the simple terminals begin.
pub const SIMPLE_BASE: usize = 112;

/// The number of bits the coupler's images offer to the simple terminals of
/// one direction.
pub const SIMPLE_ROOM: usize = 144;

/// What a type code says about a terminal.
pub struct TermDescriptor {
    pub intelligent: bool,
    pub size_in_bits: u8,
    pub gender: KBusTerminalGender,
}

/// Whether a type code denotes a simple terminal: bit 15 is set.
pub open spec fn code_is_simple(code: u16) -> bool {
    code & 0x8000 != 0
}

/// The size in bits that a simple terminal's type code carries in bits 7 to 14.
pub open spec fn code_size(code: u16) -> u8 {
    ((code >> 7) & 0xff) as u8
}

/// The direction that a simple terminal's type code carries in bits 0 and 1:
/// bit 0 alone is an input terminal, bit 1 alone an output terminal.
pub open spec fn code_gender(code: u16) -> Option<KBusTerminalGender> {
    if code & 1 != 0 && code & 2 == 0 {
        Some(KBusTerminalGender::Input)
    } else if code & 1 == 0 && code & 2 != 0 {
        Some(KBusTerminalGender::Output)
    } else {
        None
    }
}

/// The terminal that a type code denotes, if any. The gateway's code always
/// denotes the gateway. A simple input or output terminal has the coded size
/// and direction. Any other code denotes no terminal that the registry keeps.
pub open spec fn decoded(code: u16) -> Option<TermDescriptor> {
    if code == KL6581_NAME {
        Some(
            TermDescriptor {
                intelligent: true,
                size_in_bits: KL6581_SIZE_BITS,
                gender: KBusTerminalGender::Enby,
            },
        )
    } else if code_is_simple(code) {
        match code_gender(code) {
            Some(gender) => Some(
                TermDescriptor { intelligent: false, size_in_bits: code_size(code), gender },
            ),
            None => None,
        }
    } else {
        None
    }
}

/// Decodes a 16-bit terminal type code.
pub fn decode_term(code: u16) -> (r: Option<TermDescriptor>)
    ensures
        r == decoded(code),
{
    if code == KL6581_NAME {
        return Some(
            TermDescriptor {
                intelligent: true,
                size_in_bits: KL6581_SIZE_BITS,
                gender: KBusTerminalGender::Enby,
            },
        );
    }
    if code & 0x8000 == 0 {
        return None;
    }
    let size: u8 = ((code >> 7) & 0xff) as u8;
    let bit0 = code & 1 != 0;
    let bit1 = code & 2 != 0;
    if bit0 && !bit1 {
        Some(
            TermDescriptor {
                intelligent: false,
                size_in_bits: size,
                gender: KBusTerminalGender::Input,
            },
        )
    } else if !bit0 && bit1 {
        Some(
            TermDescriptor {
                intelligent: false,
                size_in_bits: size,
                gender: KBusTerminalGender::Output,
            },
        )
    } else {
        None
    }
}

/// Whether `t` is the registry entry that discovery makes for the type code
/// `code` with descriptor `d`: no slot yet, and zeroed buffers of the declared
/// size, `tx_data` unless the terminal is output-only and `rx_data` unless it
/// is input-only.
pub open spec fn entry_for(t: &KBusTerm, code: u16, d: TermDescriptor) -> bool {
    &&& t.wf()
    &&& t.name == code
    &&& t.intelligent == d.intelligent
    &&& t.size_in_bits == d.size_in_bits
    &&& t.gender == d.gender
    &&& t.slot_idx_range == (0u8, 0u8)
    &&& opt_view(t.tx_data) == (if d.gender != KBusTerminalGender::Output {
        Some(Seq::new(d.size_in_bits as nat, |i: int| false))
    } else {
        None
    })
    &&& opt_view(t.rx_data) == (if d.gender != KBusTerminalGender::Input {
        Some(Seq::new(d.size_in_bits as nat, |i: int| false))
    } else {
        None
    })
}

/// Decodes the type code of one terminal behind the coupler and, if it denotes
/// a terminal, appends its entry to the registry. The entry's slot is `(0, 0)`
/// until the layout is resolved.
pub fn parse_term(term_name: u16, term_states: &mut TermStates)
    ensures
        final(term_states).same_ebus(old(term_states)),
        match decoded(term_name) {
            Some(d) => {
                &&& final(term_states).kbus_terms@.len() == old(term_states).kbus_terms@.len() + 1
                &&& final(term_states).kbus_terms@.drop_last() == old(term_states).kbus_terms@
                &&& entry_for(&final(term_states).kbus_terms@.last(), term_name, d)
            },
            None => final(term_states).kbus_terms@ == old(term_states).kbus_terms@,
        },
{
    match decode_term(term_name) {
        Some(d) => {
            let term = KBusTerm::new(term_name, d.intelligent, d.size_in_bits, d.gender, (0, 0));
            term_states.kbus_terms.push(term);
            assert(term_states.kbus_terms@.drop_last() =~= old(term_states).kbus_terms@);
        },
        None => {},
    }
}

/// Why the slots of the discovered terminals could not be laid out.
#[derive(Debug, Clone, Copy, PartialEq, Eq, Structural)]
pub enum LayoutError {
    /// A simple terminal declares a size of zero bits, so it has no slot.
    EmptyTerminal,
    /// The simple terminals of one direction need more bits than the
    /// coupler's image has behind the gateway's slot.
    ImageFull,
}

/// The bits that the terminals of gender `g` among the first `i` take up.
pub open spec fn bits_before(terms: Seq<KBusTerm>, i: int, g: KBusTerminalGender) -> nat
    decreases i,
{
    if i <= 0 {
        0
    } else {
        bits_before(terms, i - 1, g) + (if terms[i - 1].gender == g {
            terms[i - 1].size_in_bits as nat
        } else {
            0
        })
    }
}

/// Whether some input or output terminal declares zero bits.
pub open spec fn has_empty(terms: Seq<KBusTerm>) -> bool {
    exists|i: int| 0 <= i < terms.len() && #[trigger] is_empty_simple(terms[i])
}

/// Whether `t` is an input or output terminal of zero bits.
pub open spec fn is_empty_simple(t: KBusTerm) -> bool {
    t.gender != KBusTerminalGender::Enby && t.size_in_bits == 0
}

/// Whether a layout exists, and if not, why.
pub open spec fn layout_outcome(terms: Seq<KBusTerm>) -> Result<(), LayoutError> {
    if has_empty(terms) {
        Err(LayoutError::EmptyTerminal)
    } else if bits_before(terms, terms.len() as int, KBusTerminalGender::Input) > SIMPLE_ROOM
        || bits_before(terms, terms.len() as int, KBusTerminalGender::Output) > SIMPLE_ROOM {
        Err(LayoutError::ImageFull)
    } else {
        Ok(())
    }
}

/// The slot of terminal `i`. Input terminals lie end to end in the input
/// image from bit 112 on, in discovery order, and output terminals likewise in
/// the output image. The gateway has its fixed slot. Any other bidirectional
/// terminal keeps the slot it has.
pub open spec fn placed(terms: Seq<KBusTerm>, i: int) -> (u8, u8) {
    let t = terms[i];
    if t.gender != KBusTerminalGender::Enby {
        let begin = SIMPLE_BASE + bits_before(terms, i, t.gender);
        (begin as u8, (begin + t.size_in_bits - 1) as u8)
    } else if t.name == KL6581_NAME {
        KL6581_SLOT
    } else {
        t.slot_idx_range
    }
}

/// Terminal `i` of `terms` with its slot set.
pub open spec fn with_slot(terms: Seq<KBusTerm>, i: int) -> KBusTerm {
    KBusTerm { slot_idx_range: placed(terms, i), ..terms[i] }
}

/// The bits taken up never shrink as more terminals are counted.
pub proof fn lemma_bits_before_grows(terms: Seq<KBusTerm>, i: int, j: int, g: KBusTerminalGender)
    requires
        i <= j,
    ensures
        bits_before(terms, i, g) <= bits_before(terms, j, g),
    decreases j - i,
{
    if i < j {
        lemma_bits_before_grows(terms, i, j - 1, g);
    }
}

/// Adds `size` to a running total that is only tracked up to the room there is.
fn add_capped(total: usize, size: u8) -> (r: usize)
    requires
        total <= SIMPLE_ROOM + 1,
    ensures
        r == (if total + size > SIMPLE_ROOM {
            SIMPLE_ROOM + 1
        } else {
            total + size
        }),
{
    if total + size as usize > SIMPLE_ROOM {
        SIMPLE_ROOM + 1
    } else {
        total + size as usize
    }
}

/// Resolves the layout: gives every discovered terminal its slot in the
/// coupler's images, as [`placed`] says. Where no layout exists the registry
/// stays as it is and the reason is returned.
pub fn set_slot_idx_range(term_states: &mut TermStates) -> (r: Result<(), LayoutError>)
    ensures
        r == layout_outcome(old(term_states).kbus_terms@),
        final(term_states).same_ebus(old(term_states)),
        r.is_err() ==> final(term_states).kbus_terms@ == old(term_states).kbus_terms@,
        r.is_ok() ==> final(term_states).kbus_terms@.len() == old(term_states).kbus_terms@.len(),
        r.is_ok() ==> forall|i: int|
            0 <= i < old(term_states).kbus_terms@.len() ==> (
            #[trigger] final(term_states).kbus_terms@[i]) == with_slot(
                old(term_states).kbus_terms@,
                i,
            ),
{
    let ghost terms = term_states.kbus_terms@;
    let n = term_states.kbus_terms.len();
    let mut in_sum: usize = 0;
    let mut out_sum: usize = 0;
    let mut empty = false;
    let mut k: usize = 0;
    while k < n
        invariant
            k <= n,
            n == terms.len(),
            term_states.kbus_terms@ == terms,
            *term_states == *old(term_states),
            in_sum == (if bits_before(terms, k as int, KBusTerminalGender::Input) > SIMPLE_ROOM {
                SIMPLE_ROOM + 1
            } else {
                bits_before(terms, k as int, KBusTerminalGender::Input) as int
            }),
            out_sum == (if bits_before(terms, k as int, KBusTerminalGender::Output)
                > SIMPLE_ROOM {
                SIMPLE_ROOM + 1
            } else {
                bits_before(terms, k as int, KBusTerminalGender::Output) as int
            }),
            empty ==> has_empty(terms),
            !empty ==> forall|i: int| 0 <= i < k ==> !#[trigger] is_empty_simple(terms[i]),
        decreases n - k,
    {
        let size = term_states.kbus_terms[k].size_in_bits;
        match term_states.kbus_terms[k].gender {
            KBusTerminalGender::Input => {
                in_sum = add_capped(in_sum, size);
                if size == 0 {
                    empty = true;
                    assert(is_empty_simple(terms[k as int]));
                }
            },
            KBusTerminalGender::Output => {
                out_sum = add_capped(out_sum, size);
                if size == 0 {
                    empty = true;
                    assert(is_empty_simple(terms[k as int]));
                }
            },
            KBusTerminalGender::Enby => {},
        }
        k = k + 1;
    }
    if empty {
        return Err(LayoutError::EmptyTerminal);
    }
    if in_sum > SIMPLE_ROOM || out_sum > SIMPLE_ROOM {
        return Err(LayoutError::ImageFull);
    }
    let mut in_next: usize = SIMPLE_BASE;
    let mut out_next: usize = SIMPLE_BASE;
    let mut k: usize = 0;
    while k < n
        invariant
            k <= n,
            n == terms.len(),
            terms == old(term_states).kbus_terms@,
            term_states.same_ebus(old(term_states)),
            term_states.kbus_terms@.len() == n,
            !has_empty(terms),
            bits_before(terms, n as int, KBusTerminalGender::Input) <= SIMPLE_ROOM,
            bits_before(terms, n as int, KBusTerminalGender::Output) <= SIMPLE_ROOM,
            in_next == SIMPLE_BASE + bits_before(terms, k as int, KBusTerminalGender::Input),
            out_next == SIMPLE_BASE + bits_before(terms, k as int, KBusTerminalGender::Output),
            forall|i: int|
                0 <= i < k ==> (#[trigger] term_states.kbus_terms@[i]) == with_slot(terms, i),
            forall|i: int| k <= i < n ==> (#[trigger] term_states.kbus_terms@[i]) == terms[i],
        decreases n - k,
    {
        proof {
            lemma_bits_before_grows(terms, k as int + 1, n as int, KBusTerminalGender::Input);
            lemma_bits_before_grows(terms, k as int + 1, n as int, KBusTerminalGender::Output);
            assert(!is_empty_simple(terms[k as int]));
        }
        let size = term_states.kbus_terms[k].size_in_bits as usize;
        let name = term_states.kbus_terms[k].name;
        match term_states.kbus_terms[k].gender {
            KBusTerminalGender::Input => {
                let slot = (in_next as u8, (in_next + size - 1) as u8);
                term_states.kbus_terms[k].slot_idx_range = slot;
                in_next = in_next + size;
            },
            KBusTerminalGender::Output => {
                let slot = (out_next as u8, (out_next + size - 1) as u8);
                term_states.kbus_terms[k].slot_idx_range = slot;
                out_next = out_next + size;
            },
            KBusTerminalGender::Enby => {
                if name == KL6581_NAME {
                    term_states.kbus_terms[k].slot_idx_range = KL6581_SLOT;
                }
            },
        }
        k = k + 1;
    }
    Ok(())
}

/// In a resolved layout the slot of every input or output terminal has exactly
/// the terminal's declared size, and the slots of two terminals of the same
/// direction do not overlap: the later terminal begins after the earlier one
/// ends. With `n` input and `m` output terminals that gives `n + m` slots whose
/// lengths add up to the declared sizes.
pub proof fn lemma_layout_disjoint(terms: Seq<KBusTerm>, i: int, j: int)
    requires
        layout_outcome(terms).is_ok(),
        0 <= i < j < terms.len(),
        terms[i].gender != KBusTerminalGender::Enby,
        terms[i].gender == terms[j].gender,
    ensures
        placed(terms, i).1 - placed(terms, i).0 + 1 == terms[i].size_in_bits,
        placed(terms, j).1 - placed(terms, j).0 + 1 == terms[j].size_in_bits,
        placed(terms, i).1 < placed(terms, j).0,
        SIMPLE_BASE <= placed(terms, i).0,
{
    let g = terms[i].gender;
    assert(!is_empty_simple(terms[i]));
    assert(!is_empty_simple(terms[j]));
    lemma_bits_before_grows(terms, i + 1, j, g);
    lemma_bits_before_grows(terms, j + 1, terms.len() as int, g);
}

/// In a resolved layout the slots of one direction lie end to end: each begins
/// where the bits of the earlier terminals of that direction end, so together
/// they cover as many bits as those terminals declare.
pub proof fn lemma_layout_contiguous(terms: Seq<KBusTerm>, i: int)
    requires
        layout_outcome(terms).is_ok(),
        0 <= i < terms.len(),
        terms[i].gender != KBusTerminalGender::Enby,
    ensures
        placed(terms, i).0 == SIMPLE_BASE + bits_before(terms, i, terms[i].gender),
        placed(terms, i).1 + 1 == SIMPLE_BASE + bits_before(terms, i + 1, terms[i].gender),
        placed(terms, i).1 + 1 <= 256,
{
    assert(!is_empty_simple(terms[i]));
    lemma_bits_before_grows(terms, i + 1, terms.len() as int, terms[i].gender);
}

} // verus!
