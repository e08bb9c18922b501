//! The decisions of the cyclic scan engine: the lifecycle of the fieldbus, the
//! setup done before operation, and the copying between process images and
//! the registry in every cycle. The exchange with the bus itself is the
//! caller's part.

use vstd::prelude::*;
use crate::analog::AITerm;
use crate::bits::{raw_len, raw_range, Bits};
use crate::digital::{DITerm, DOTerm};
use crate::discovery::{
    decoded, entry_for, layout_outcome, parse_term, set_slot_idx_range, with_slot, LayoutError,
};
use crate::io_defs::kl6581_input_handler;
use crate::kbus::{opt_view, overlay, overlay_bits, KBusSubDevice, KBusTerm};
use crate::registry::TermStates;

verus! {

/// The lifecycle states of the fieldbus.
#[derive(Debug, Clone, Copy, PartialEq, Eq, Structural)]
pub enum BusState {
    Init,
    PreOp,
    SafeOp,
    Op,
}

/// What the engine asks its driver to do next.
#[derive(Debug, Clone, Copy, PartialEq, Eq, Structural)]
pub enum ScanAction {
    /// Bring the bus into the given state. A failure ends the process.
    Transition(BusState),
    /// Configure the devices and discover the terminals behind the coupler.
    Configure,
    /// Run one scan cycle.
    Cycle,
    /// The bus is back in its initial state: stop.
    Finished,
}

/// The scan engine's view of the bus.
#[derive(Debug, Clone, Copy, PartialEq, Eq, Structural)]
pub struct ScanEngine {
    /// The state the bus is in.
    pub state: BusState,
    /// Whether the setup that belongs to the pre-operational state is done.
    pub configured: bool,
    /// Whether a shutdown signal has been seen.
    pub shutting_down: bool,
}

impl ScanEngine {
    /// The action asked for in this state, where `shutdown` is the shutdown
    /// signal as polled now. The signal counts only while the bus is
    /// operational; once seen, it stays seen.
    pub open spec fn action(self, shutdown: bool) -> ScanAction {
        if self.shutting_down {
            match self.state {
                BusState::Op => ScanAction::Transition(BusState::SafeOp),
                BusState::SafeOp => ScanAction::Transition(BusState::PreOp),
                BusState::PreOp => ScanAction::Transition(BusState::Init),
                BusState::Init => ScanAction::Finished,
            }
        } else {
            match self.state {
                BusState::Init => ScanAction::Transition(BusState::PreOp),
                BusState::PreOp => if self.configured {
                    ScanAction::Transition(BusState::SafeOp)
                } else {
                    ScanAction::Configure
                },
                BusState::SafeOp => ScanAction::Transition(BusState::Op),
                BusState::Op => if shutdown {
                    ScanAction::Transition(BusState::SafeOp)
                } else {
                    ScanAction::Cycle
                },
            }
        }
    }

    /// The engine after the action asked for has been carried out.
    pub open spec fn after(self, shutdown: bool) -> ScanEngine {
        let down = self.shutting_down || (self.state == BusState::Op && shutdown);
        match self.action(shutdown) {
            ScanAction::Transition(to) => ScanEngine {
                state: to,
                configured: self.configured,
                shutting_down: down,
            },
            ScanAction::Configure => ScanEngine {
                state: self.state,
                configured: true,
                shutting_down: down,
            },
            _ => ScanEngine { state: self.state, configured: self.configured, shutting_down: down },
        }
    }

    /// Whether `to` is the state next to `from` on the way up or down.
    pub open spec fn adjacent(from: BusState, to: BusState) -> bool {
        match (from, to) {
            (BusState::Init, BusState::PreOp) => true,
            (BusState::PreOp, BusState::SafeOp) => true,
            (BusState::SafeOp, BusState::Op) => true,
            (BusState::Op, BusState::SafeOp) => true,
            (BusState::SafeOp, BusState::PreOp) => true,
            (BusState::PreOp, BusState::Init) => true,
            _ => false,
        }
    }

    /// An engine for a bus in its initial state.
    pub fn new() -> (e: ScanEngine)
        ensures
            e == (ScanEngine { state: BusState::Init, configured: false, shutting_down: false }),
    {
        ScanEngine { state: BusState::Init, configured: false, shutting_down: false }
    }

    /// Returns the next action and moves on as if it had been carried out.
    pub fn step(&mut self, shutdown: bool) -> (a: ScanAction)
        ensures
            a == old(self).action(shutdown),
            *final(self) == old(self).after(shutdown),
    {
        if !self.shutting_down && self.state == BusState::Op && shutdown {
            self.shutting_down = true;
            self.state = BusState::SafeOp;
            return ScanAction::Transition(BusState::SafeOp);
        }
        if self.shutting_down {
            match self.state {
                BusState::Op => {
                    self.state = BusState::SafeOp;
                    ScanAction::Transition(BusState::SafeOp)
                },
                BusState::SafeOp => {
                    self.state = BusState::PreOp;
                    ScanAction::Transition(BusState::PreOp)
                },
                BusState::PreOp => {
                    self.state = BusState::Init;
                    ScanAction::Transition(BusState::Init)
                },
                BusState::Init => ScanAction::Finished,
            }
        } else {
            match self.state {
                BusState::Init => {
                    self.state = BusState::PreOp;
                    ScanAction::Transition(BusState::PreOp)
                },
                BusState::PreOp => {
                    if self.configured {
                        self.state = BusState::SafeOp;
                        ScanAction::Transition(BusState::SafeOp)
                    } else {
                        self.configured = true;
                        ScanAction::Configure
                    }
                },
                BusState::SafeOp => {
                    self.state = BusState::Op;
                    ScanAction::Transition(BusState::Op)
                },
                BusState::Op => ScanAction::Cycle,
            }
        }
    }
}

/// Every transition leads to the state next to the current one, a cycle runs
/// only while the bus is operational, setup happens only in the
/// pre-operational state, and a shutdown once seen is never forgotten.
pub proof fn lemma_lifecycle(e: ScanEngine, shutdown: bool)
    ensures
        e.action(shutdown) matches ScanAction::Transition(to) ==> ScanEngine::adjacent(
            e.state,
            to,
        ) && e.after(shutdown).state == to,
        e.action(shutdown) == ScanAction::Cycle ==> e.state == BusState::Op && !e.shutting_down
            && !shutdown,
        e.action(shutdown) == ScanAction::Configure ==> e.state == BusState::PreOp,
        e.shutting_down ==> e.after(shutdown).shutting_down,
        e.shutting_down ==> e.action(shutdown) != ScanAction::Cycle && e.action(shutdown)
            != ScanAction::Configure,
{
}

/// The steps of one scan cycle.
#[derive(Debug, Clone, Copy, PartialEq, Eq, Structural)]
pub enum CycleStep {
    /// Exchange one frame with the bus.
    Exchange,
    /// Run the business logic on the registry as the last cycle left it.
    Logic,
    /// Copy every device's input image into the registry.
    Inputs,
    /// Copy the registry's commanded outputs into every device's output image.
    Outputs,
}

impl CycleStep {
    /// The step that follows `prev` in a cycle; `None` stands for the start of
    /// the cycle on the way in and for its end on the way out.
    pub open spec fn following(prev: Option<CycleStep>) -> Option<CycleStep> {
        match prev {
            None => Some(CycleStep::Exchange),
            Some(CycleStep::Exchange) => Some(CycleStep::Logic),
            Some(CycleStep::Logic) => Some(CycleStep::Inputs),
            Some(CycleStep::Inputs) => Some(CycleStep::Outputs),
            Some(CycleStep::Outputs) => None,
        }
    }

    /// The step that follows `prev` in a cycle.
    pub fn next(prev: Option<CycleStep>) -> (r: Option<CycleStep>)
        ensures
            r == CycleStep::following(prev),
    {
        match prev {
            None => Some(CycleStep::Exchange),
            Some(CycleStep::Exchange) => Some(CycleStep::Logic),
            Some(CycleStep::Logic) => Some(CycleStep::Inputs),
            Some(CycleStep::Inputs) => Some(CycleStep::Outputs),
            Some(CycleStep::Outputs) => None,
        }
    }
}

/// The device families the engine knows by name.
#[derive(Debug, Clone, Copy, PartialEq, Eq, Structural)]
pub enum DeviceKind {
    El3004,
    El3024,
    Bk1120,
    El2889,
    El1889,
    Other,
}

/// The device family that a device name, as ASCII bytes, stands for.
pub open spec fn kind_of(name: Seq<u8>) -> DeviceKind {
    if name == seq![69u8, 76u8, 51u8, 48u8, 48u8, 52u8] {
        DeviceKind::El3004
    } else if name == seq![69u8, 76u8, 51u8, 48u8, 50u8, 52u8] {
        DeviceKind::El3024
    } else if name == seq![66u8, 75u8, 49u8, 49u8, 50u8, 48u8] {
        DeviceKind::Bk1120
    } else if name == seq![69u8, 76u8, 50u8, 56u8, 56u8, 57u8] {
        DeviceKind::El2889
    } else if name == seq![69u8, 76u8, 49u8, 56u8, 56u8, 57u8] {
        DeviceKind::El1889
    } else {
        DeviceKind::Other
    }
}

/// Whether `name` consists of exactly the six given bytes.
fn is_name(name: &[u8], c0: u8, c1: u8, c2: u8, c3: u8, c4: u8, c5: u8) -> (r: bool)
    ensures
        r == (name@ == seq![c0, c1, c2, c3, c4, c5]),
{
    let ghost want = seq![c0, c1, c2, c3, c4, c5];
    if name.len() != 6 {
        assert(want.len() == 6);
        return false;
    }
    let same = name[0] == c0 && name[1] == c1 && name[2] == c2 && name[3] == c3 && name[4] == c4
        && name[5] == c5;
    proof {
        if same {
            assert(name@ =~= want);
        } else {
            assert(want[0] == c0 && want[1] == c1 && want[2] == c2 && want[3] == c3 && want[4]
                == c4 && want[5] == c5);
        }
    }
    same
}

/// Tells a device's family from its name, given as ASCII bytes.
pub fn classify(name: &[u8]) -> (kind: DeviceKind)
    ensures
        kind == kind_of(name@),
{
    if is_name(name, 69, 76, 51, 48, 48, 52) {
        DeviceKind::El3004
    } else if is_name(name, 69, 76, 51, 48, 50, 52) {
        DeviceKind::El3024
    } else if is_name(name, 66, 75, 49, 49, 50, 48) {
        DeviceKind::Bk1120
    } else if is_name(name, 69, 76, 50, 56, 56, 57) {
        DeviceKind::El2889
    } else if is_name(name, 69, 76, 49, 56, 56, 57) {
        DeviceKind::El1889
    } else {
        DeviceKind::Other
    }
}

/// The object that assigns the PDOs a device receives.
pub const RX_PDO_ASSIGN: u16 = 0x1c12;

/// The object that assigns the PDOs a device sends.
pub const TX_PDO_ASSIGN: u16 = 0x1c13;

/// The object that lists the terminals behind the coupler: sub-index 0 holds
/// their number, sub-index `i` the type code of terminal `i`.
pub const KBUS_TABLE: u16 = 0x4012;

/// Whether devices of this family get their PDO mapping configured.
pub fn needs_pdo_setup(kind: DeviceKind) -> (r: bool)
    ensures
        r == (kind == DeviceKind::El3004 || kind == DeviceKind::El3024),
{
    match kind {
        DeviceKind::El3004 => true,
        DeviceKind::El3024 => true,
        _ => false,
    }
}

/// The PDOs that an analog input terminal is told to send: one per channel,
/// each with the channel's status word and raw value.
pub fn analog_pdo_mapping() -> (r: Vec<u16>)
    ensures
        r@ == seq![0x1a00u16, 0x1a02u16, 0x1a04u16, 0x1a06u16],
{
    let mut r: Vec<u16> = Vec::new();
    r.push(0x1a00);
    r.push(0x1a02);
    r.push(0x1a04);
    r.push(0x1a06);
    assert(r@ =~= seq![0x1a00u16, 0x1a02u16, 0x1a04u16, 0x1a06u16]);
    r
}

/// Whether `parsed` is the list of sub-bus terminals that results from
/// `before` when the type codes `codes` are parsed in order: every code that
/// denotes a terminal adds that terminal's entry at the end.
pub open spec fn parsing_of(before: Seq<KBusTerm>, parsed: Seq<KBusTerm>, codes: Seq<u16>) -> bool
    decreases codes.len(),
{
    if codes.len() == 0 {
        parsed == before
    } else {
        match decoded(codes.last()) {
            None => parsing_of(before, parsed, codes.drop_last()),
            Some(d) => {
                &&& parsed.len() > 0
                &&& entry_for(&parsed.last(), codes.last(), d)
                &&& parsing_of(before, parsed.drop_last(), codes.drop_last())
            },
        }
    }
}

/// Discovers the terminals behind the coupler from their type codes, given in
/// the order of their positions, and resolves the layout of their slots. Each
/// code that denotes a terminal adds an entry; then every entry gets its slot.
/// If no layout exists the entries stay without slots and the reason is
/// returned.
pub fn discover(term_states: &mut TermStates, codes: &[u16]) -> (r: Result<(), LayoutError>)
    ensures
        final(term_states).same_ebus(old(term_states)),
        exists|parsed: Seq<KBusTerm>|
            #![auto]
            {
                &&& parsing_of(old(term_states).kbus_terms@, parsed, codes@)
                &&& r == layout_outcome(parsed)
                &&& final(term_states).kbus_terms@.len() == parsed.len()
                &&& r.is_err() ==> final(term_states).kbus_terms@ == parsed
                &&& r.is_ok() ==> forall|i: int|
                    0 <= i < parsed.len() ==> final(term_states).kbus_terms@[i] == with_slot(
                        parsed,
                        i,
                    )
            },
{
    let mut k: usize = 0;
    assert(codes@.subrange(0, 0) =~= Seq::<u16>::empty());
    while k < codes.len()
        invariant
            k <= codes@.len(),
            term_states.same_ebus(old(term_states)),
            parsing_of(
                old(term_states).kbus_terms@,
                term_states.kbus_terms@,
                codes@.subrange(0, k as int),
            ),
        decreases codes@.len() - k,
    {
        parse_term(codes[k], term_states);
        proof {
            let upto = codes@.subrange(0, k as int + 1);
            assert(upto.drop_last() =~= codes@.subrange(0, k as int));
            assert(upto.last() == codes@[k as int]);
        }
        k = k + 1;
    }
    assert(codes@.subrange(0, k as int) =~= codes@);
    let ghost parsed = term_states.kbus_terms@;
    let r = set_slot_idx_range(term_states);
    assert({
        &&& parsing_of(old(term_states).kbus_terms@, parsed, codes@)
        &&& r == layout_outcome(parsed)
        &&& term_states.kbus_terms@.len() == parsed.len()
        &&& r.is_err() ==> term_states.kbus_terms@ == parsed
        &&& r.is_ok() ==> forall|i: int|
            0 <= i < parsed.len() ==> term_states.kbus_terms@[i] == with_slot(parsed, i)
    });
    r
}

/// Why no terminal object could be made for a device.
#[derive(Debug, Clone, Copy, PartialEq, Eq, Structural)]
pub enum AllocError {
    /// The device's images hold more than a terminal object can: more than
    /// 255 bits for a digital terminal, more than 15 analog channels.
    TooLarge,
}

/// The number of channels a digital terminal has whose input and output
/// images hold the given numbers of bytes: one per bit.
pub open spec fn digital_channels(input_bytes: nat, output_bytes: nat) -> nat {
    8 * (input_bytes + output_bytes)
}

/// The number of channels an analog terminal has whose input and output
/// images hold the given numbers of bytes: one per four bytes.
pub open spec fn analog_channels(input_bytes: nat, output_bytes: nat) -> nat {
    (input_bytes + output_bytes) / 4
}

/// How allocating a terminal object for a device relates the registry before
/// to the one after. A digital output, digital input or analog input device
/// adds a zeroed terminal of its size to the end of its list, unless it is too
/// large. Any other device adds nothing.
pub open spec fn allocated(
    before: &TermStates,
    after: &TermStates,
    kind: DeviceKind,
    input_bytes: nat,
    output_bytes: nat,
    r: Result<(), AllocError>,
) -> bool {
    let bits = digital_channels(input_bytes, output_bytes);
    let channels = analog_channels(input_bytes, output_bytes);
    &&& after.kbus_terms@ == before.kbus_terms@
    &&& match kind {
        DeviceKind::El2889 => {
            &&& after.ebus_di_terms@ == before.ebus_di_terms@
            &&& after.ebus_ai_terms@ == before.ebus_ai_terms@
            &&& if bits <= 255 {
                &&& r.is_ok()
                &&& after.ebus_do_terms@.len() == before.ebus_do_terms@.len() + 1
                &&& after.ebus_do_terms@.drop_last() == before.ebus_do_terms@
                &&& after.ebus_do_terms@.last().num_of_channels == bits
                &&& after.ebus_do_terms@.last().values@ == Seq::new(bits, |i: int| false)
            } else {
                r == Err::<(), AllocError>(AllocError::TooLarge) && after.ebus_do_terms@
                    == before.ebus_do_terms@
            }
        },
        DeviceKind::El1889 => {
            &&& after.ebus_do_terms@ == before.ebus_do_terms@
            &&& after.ebus_ai_terms@ == before.ebus_ai_terms@
            &&& if bits <= 255 {
                &&& r.is_ok()
                &&& after.ebus_di_terms@.len() == before.ebus_di_terms@.len() + 1
                &&& after.ebus_di_terms@.drop_last() == before.ebus_di_terms@
                &&& after.ebus_di_terms@.last().num_of_channels == bits
                &&& after.ebus_di_terms@.last().values@ == Seq::new(bits, |i: int| false)
            } else {
                r == Err::<(), AllocError>(AllocError::TooLarge) && after.ebus_di_terms@
                    == before.ebus_di_terms@
            }
        },
        DeviceKind::El3024 => {
            &&& after.ebus_do_terms@ == before.ebus_do_terms@
            &&& after.ebus_di_terms@ == before.ebus_di_terms@
            &&& if channels <= 15 {
                &&& r.is_ok()
                &&& after.ebus_ai_terms@.len() == before.ebus_ai_terms@.len() + 1
                &&& after.ebus_ai_terms@.drop_last() == before.ebus_ai_terms@
                &&& after.ebus_ai_terms@.last().wf()
                &&& after.ebus_ai_terms@.last().num_of_channels == channels
                &&& after.ebus_ai_terms@.last().ch_values@ == Seq::new(
                    16 * channels,
                    |i: int| false,
                )
                &&& after.ebus_ai_terms@.last().ch_statuses@ == Seq::new(
                    16 * channels,
                    |i: int| false,
                )
                &&& after.ebus_ai_terms@.last().ch_toggles@ == Seq::new(channels, |i: int| false)
            } else {
                r == Err::<(), AllocError>(AllocError::TooLarge) && after.ebus_ai_terms@
                    == before.ebus_ai_terms@
            }
        },
        _ => r.is_ok() && after.same_ebus(before),
    }
}

/// Makes the terminal object for a device that has reached the operational
/// state, from the device's family and the sizes of its images in bytes.
pub fn allocate_terminal(
    term_states: &mut TermStates,
    kind: DeviceKind,
    input_bytes: usize,
    output_bytes: usize,
) -> (r: Result<(), AllocError>)
    ensures
        allocated(
            old(term_states),
            final(term_states),
            kind,
            input_bytes as nat,
            output_bytes as nat,
            r,
        ),
{
    match kind {
        DeviceKind::El2889 => {
            if input_bytes > 31 || output_bytes > 31 || 8 * (input_bytes + output_bytes) > 255 {
                return Err(AllocError::TooLarge);
            }
            let size = (8 * (input_bytes + output_bytes)) as u8;
            term_states.ebus_do_terms.push(DOTerm::new(size));
            assert(term_states.ebus_do_terms@.drop_last() =~= old(term_states).ebus_do_terms@);
            Ok(())
        },
        DeviceKind::El1889 => {
            if input_bytes > 31 || output_bytes > 31 || 8 * (input_bytes + output_bytes) > 255 {
                return Err(AllocError::TooLarge);
            }
            let size = (8 * (input_bytes + output_bytes)) as u8;
            term_states.ebus_di_terms.push(DITerm::new(size));
            assert(term_states.ebus_di_terms@.drop_last() =~= old(term_states).ebus_di_terms@);
            Ok(())
        },
        DeviceKind::El3024 => {
            if input_bytes > 63 || output_bytes > 63 || (input_bytes + output_bytes) / 4 > 15 {
                return Err(AllocError::TooLarge);
            }
            let size = ((input_bytes + output_bytes) / 4) as u8;
            term_states.ebus_ai_terms.push(AITerm::new(size));
            assert(term_states.ebus_ai_terms@.drop_last() =~= old(term_states).ebus_ai_terms@);
            Ok(())
        },
        _ => Ok(()),
    }
}

/// The first bit of the gateway's part of the coupler's images.
pub const GATEWAY_BEGIN: usize = 16;

/// The first bit after the gateway's part of the coupler's images.
pub const GATEWAY_END: usize = 112;

/// Whether every terminal of `terms` can take its slot out of an input image
/// of `len` bits.
pub open spec fn all_take_from(terms: Seq<KBusTerm>, len: nat) -> bool {
    forall|i: int| 0 <= i < terms.len() ==> (#[trigger] terms[i]).takes_from(len)
}

/// Whether every terminal of `terms` can send into an output image of `len`
/// bits.
pub open spec fn all_send_into(terms: Seq<KBusTerm>, len: nat) -> bool {
    forall|i: int| 0 <= i < terms.len() ==> (#[trigger] terms[i]).sends_into(len)
}

/// The output image after the first `k` terminals of `terms` have sent into
/// it, one after the other.
pub open spec fn sent_all(terms: Seq<KBusTerm>, k: int, image: Seq<bool>) -> Seq<bool>
    decreases k,
{
    if k <= 0 {
        image
    } else {
        terms[k - 1].sent(sent_all(terms, k - 1, image))
    }
}

/// Tests whether every terminal can take its slot out of an input image of
/// `len` bits.
fn check_all_take(terms: &Vec<KBusTerm>, len: usize) -> (ok: bool)
    ensures
        ok == all_take_from(terms@, len as nat),
{
    let mut i: usize = 0;
    while i < terms.len()
        invariant
            i <= terms@.len(),
            forall|j: int| 0 <= j < i ==> (#[trigger] terms@[j]).takes_from(len as nat),
        decreases terms@.len() - i,
    {
        if !terms[i].can_take_input(len) {
            assert(!terms@[i as int].takes_from(len as nat));
            return false;
        }
        i = i + 1;
    }
    true
}

/// Tests whether every terminal can send into an output image of `len` bits.
fn check_all_send(terms: &Vec<KBusTerm>, len: usize) -> (ok: bool)
    ensures
        ok == all_send_into(terms@, len as nat),
{
    let mut i: usize = 0;
    while i < terms.len()
        invariant
            i <= terms@.len(),
            forall|j: int| 0 <= j < i ==> (#[trigger] terms@[j]).sends_into(len as nat),
        decreases terms@.len() - i,
    {
        if !terms[i].can_send(len) {
            assert(!terms@[i as int].sends_into(len as nat));
            return false;
        }
        i = i + 1;
    }
    true
}

/// Whether the input image `image` of a device of family `kind` has the shape
/// that the registry and the gateway object expect. A digital or analog input
/// device needs its terminal in the registry, with as many bits as the image.
/// The coupler needs an image that reaches past the gateway's part, a gateway
/// object with 96 bits of `rx_data`, and behind the coupler only terminals
/// that can take their slots out of the image.
pub open spec fn inputs_fit(
    ts: &TermStates,
    gateway: &KBusSubDevice,
    kind: DeviceKind,
    image: Seq<bool>,
) -> bool {
    match kind {
        DeviceKind::El1889 => ts.ebus_di_terms@.len() > 0 && image.len()
            == ts.ebus_di_terms@[0].values@.len(),
        DeviceKind::El3024 => ts.ebus_ai_terms@.len() > 0 && ts.ebus_ai_terms@[0].wf()
            && image.len() == 32 * ts.ebus_ai_terms@[0].num_of_channels,
        DeviceKind::Bk1120 => {
            &&& image.len() >= GATEWAY_END
            &&& gateway.rx_data.is_some()
            &&& gateway.rx_data.unwrap()@.len() == GATEWAY_END - GATEWAY_BEGIN
            &&& all_take_from(ts.kbus_terms@, image.len())
        },
        _ => true,
    }
}

/// Tests whether an input image has the shape that `copy_inputs` expects.
pub fn check_inputs(
    term_states: &TermStates,
    gateway: &KBusSubDevice,
    kind: DeviceKind,
    image: &Bits,
) -> (ok: bool)
    ensures
        ok == inputs_fit(term_states, gateway, kind, image@),
{
    let len = raw_len(image);
    match kind {
        DeviceKind::El1889 => term_states.ebus_di_terms.len() > 0 && len == raw_len(
            &term_states.ebus_di_terms[0].values,
        ),
        DeviceKind::El3024 => {
            if term_states.ebus_ai_terms.len() == 0 {
                return false;
            }
            let term = &term_states.ebus_ai_terms[0];
            let want = 16 * (term.num_of_channels as usize);
            raw_len(&term.ch_values) == want && raw_len(&term.ch_statuses) == want && raw_len(
                &term.ch_toggles,
            ) == term.num_of_channels as usize && len == 2 * want
        },
        DeviceKind::Bk1120 => {
            if len < GATEWAY_END {
                return false;
            }
            let gateway_ok = match &gateway.rx_data {
                Some(rx) => raw_len(rx) == GATEWAY_END - GATEWAY_BEGIN,
                None => false,
            };
            gateway_ok && check_all_take(&term_states.kbus_terms, len)
        },
        _ => true,
    }
}

/// How copying the input image of one device relates the registry and the
/// gateway object before to those after. A digital input device's image
/// becomes the bits of the first digital input terminal. An analog input
/// device's image refreshes the first analog input terminal, channel by
/// channel as the toggle bits say. The coupler's image gives the gateway
/// object its part and every terminal behind the coupler that takes input its
/// slot. Nothing else changes.
pub open spec fn inputs_copied(
    before: &TermStates,
    after: &TermStates,
    gateway_before: &KBusSubDevice,
    gateway_after: &KBusSubDevice,
    kind: DeviceKind,
    image: Seq<bool>,
) -> bool {
    match kind {
        DeviceKind::El1889 => {
            &&& *gateway_after == *gateway_before
            &&& after.kbus_terms@ == before.kbus_terms@
            &&& after.ebus_do_terms@ == before.ebus_do_terms@
            &&& after.ebus_ai_terms@ == before.ebus_ai_terms@
            &&& after.ebus_di_terms@.len() == before.ebus_di_terms@.len()
            &&& forall|i: int|
                1 <= i < before.ebus_di_terms@.len() ==> (#[trigger] after.ebus_di_terms@[i])
                    == before.ebus_di_terms@[i]
            &&& after.ebus_di_terms@[0].values@ == image
            &&& after.ebus_di_terms@[0].num_of_channels == before.ebus_di_terms@[0].num_of_channels
        },
        DeviceKind::El3024 => {
            &&& *gateway_after == *gateway_before
            &&& after.kbus_terms@ == before.kbus_terms@
            &&& after.ebus_do_terms@ == before.ebus_do_terms@
            &&& after.ebus_di_terms@ == before.ebus_di_terms@
            &&& after.ebus_ai_terms@.len() == before.ebus_ai_terms@.len()
            &&& forall|i: int|
                1 <= i < before.ebus_ai_terms@.len() ==> (#[trigger] after.ebus_ai_terms@[i])
                    == before.ebus_ai_terms@[i]
            &&& crate::analog::refreshed(
                &before.ebus_ai_terms@[0],
                &after.ebus_ai_terms@[0],
                image,
            )
        },
        DeviceKind::Bk1120 => {
            &&& after.same_ebus(before)
            &&& gateway_after.same_record(gateway_before)
            &&& opt_view(gateway_after.tx_data) == opt_view(gateway_before.tx_data)
            &&& opt_view(gateway_after.rx_data) == Some(
                image.subrange(GATEWAY_BEGIN as int, GATEWAY_END as int),
            )
            &&& after.kbus_terms@.len() == before.kbus_terms@.len()
            &&& forall|i: int|
                0 <= i < before.kbus_terms@.len() ==> (
                #[trigger] before.kbus_terms@[i]).input_taken(&after.kbus_terms@[i], image)
        },
        _ => *after == *before && *gateway_after == *gateway_before,
    }
}

/// Copies the input image of one device into the registry and the gateway
/// object.
pub fn copy_inputs(
    term_states: &mut TermStates,
    gateway: &mut KBusSubDevice,
    kind: DeviceKind,
    image: &Bits,
)
    requires
        inputs_fit(old(term_states), old(gateway), kind, image@),
    ensures
        inputs_copied(
            old(term_states),
            final(term_states),
            old(gateway),
            final(gateway),
            kind,
            image@,
        ),
{
    match kind {
        DeviceKind::El1889 => {
            term_states.ebus_di_terms[0].refresh(image);
        },
        DeviceKind::El3024 => {
            term_states.ebus_ai_terms[0].refresh(image);
        },
        DeviceKind::Bk1120 => {
            let part = raw_range(image, GATEWAY_BEGIN, GATEWAY_END);
            kl6581_input_handler(gateway, &part);
            let n = term_states.kbus_terms.len();
            let mut i: usize = 0;
            while i < n
                invariant
                    i <= n,
                    n == old(term_states).kbus_terms@.len(),
                    term_states.kbus_terms@.len() == n,
                    term_states.same_ebus(old(term_states)),
                    all_take_from(old(term_states).kbus_terms@, image@.len()),
                    forall|j: int|
                        0 <= j < i ==> (#[trigger] old(term_states).kbus_terms@[j]).input_taken(
                            &term_states.kbus_terms@[j],
                            image@,
                        ),
                    forall|j: int|
                        i <= j < n ==> (#[trigger] term_states.kbus_terms@[j]) == old(
                            term_states,
                        ).kbus_terms@[j],
                decreases n - i,
            {
                assert(old(term_states).kbus_terms@[i as int].takes_from(image@.len()));
                term_states.kbus_terms[i].take_input(image);
                i = i + 1;
            }
        },
        _ => {},
    }
}

/// Whether the output image `image` of a device of family `kind` has the
/// shape that the registry and the gateway object expect. A digital output
/// device needs its terminal in the registry, with as many bits as the image.
/// The coupler needs an image that reaches past the gateway's part, a gateway
/// object with 96 bits of `tx_data`, and behind the coupler only terminals
/// that can send into the image.
pub open spec fn outputs_fit(
    ts: &TermStates,
    gateway: &KBusSubDevice,
    kind: DeviceKind,
    image: Seq<bool>,
) -> bool {
    match kind {
        DeviceKind::El2889 => ts.ebus_do_terms@.len() > 0 && image.len()
            == ts.ebus_do_terms@[0].values@.len(),
        DeviceKind::Bk1120 => {
            &&& image.len() >= GATEWAY_END
            &&& gateway.tx_data.is_some()
            &&& gateway.tx_data.unwrap()@.len() == GATEWAY_END - GATEWAY_BEGIN
            &&& all_send_into(ts.kbus_terms@, image.len())
        },
        _ => true,
    }
}

/// Tests whether an output image has the shape that `copy_outputs` expects.
pub fn check_outputs(
    term_states: &TermStates,
    gateway: &KBusSubDevice,
    kind: DeviceKind,
    image: &Bits,
) -> (ok: bool)
    ensures
        ok == outputs_fit(term_states, gateway, kind, image@),
{
    let len = raw_len(image);
    match kind {
        DeviceKind::El2889 => term_states.ebus_do_terms.len() > 0 && len == raw_len(
            &term_states.ebus_do_terms[0].values,
        ),
        DeviceKind::Bk1120 => {
            if len < GATEWAY_END {
                return false;
            }
            let gateway_ok = match &gateway.tx_data {
                Some(tx) => raw_len(tx) == GATEWAY_END - GATEWAY_BEGIN,
                None => false,
            };
            gateway_ok && check_all_send(&term_states.kbus_terms, len)
        },
        _ => true,
    }
}

/// The output image of a device after the registry's commanded states have
/// been copied into it. A digital output device's image becomes the bits of
/// the first digital output terminal. The coupler's image takes, in the order
/// of their positions, the bits of every terminal behind the coupler that
/// sends, each in its slot, and then what the controller sends to the gateway
/// in the gateway's part. Any other image stays as it is.
pub open spec fn outputs_image(
    ts: &TermStates,
    gateway: &KBusSubDevice,
    kind: DeviceKind,
    image: Seq<bool>,
) -> Seq<bool> {
    match kind {
        DeviceKind::El2889 => ts.ebus_do_terms@[0].values@,
        DeviceKind::Bk1120 => overlay(
            sent_all(ts.kbus_terms@, ts.kbus_terms@.len() as int, image),
            GATEWAY_BEGIN as int,
            gateway.tx_data.unwrap()@,
        ),
        _ => image,
    }
}

/// Copies the registry's commanded states into the output image of one device.
pub fn copy_outputs(
    term_states: &TermStates,
    gateway: &KBusSubDevice,
    kind: DeviceKind,
    image: &mut Bits,
)
    requires
        outputs_fit(term_states, gateway, kind, old(image)@),
    ensures
        final(image)@ == outputs_image(term_states, gateway, kind, old(image)@),
{
    match kind {
        DeviceKind::El2889 => {
            term_states.ebus_do_terms[0].refresh(image);
        },
        DeviceKind::Bk1120 => {
            let n = term_states.kbus_terms.len();
            let mut i: usize = 0;
            while i < n
                invariant
                    i <= n,
                    n == term_states.kbus_terms@.len(),
                    image@.len() == old(image)@.len(),
                    image@.len() >= GATEWAY_END,
                    all_send_into(term_states.kbus_terms@, old(image)@.len()),
                    image@ == sent_all(term_states.kbus_terms@, i as int, old(image)@),
                decreases n - i,
            {
                assert(term_states.kbus_terms@[i as int].sends_into(image@.len()));
                term_states.kbus_terms[i].send_output(image);
                i = i + 1;
            }
            match &gateway.tx_data {
                Some(tx) => {
                    overlay_bits(image, GATEWAY_BEGIN, tx, 0, GATEWAY_END - GATEWAY_BEGIN);
                    assert(tx@.subrange(0, (GATEWAY_END - GATEWAY_BEGIN) as int) =~= tx@);
                },
                None => {},
            }
        },
        _ => {},
    }
}

/// Sending leaves the length of the output image as it is.
pub proof fn lemma_sent_all_len(terms: Seq<KBusTerm>, k: int, image: Seq<bool>)
    requires
        0 <= k <= terms.len(),
    ensures
        sent_all(terms, k, image).len() == image.len(),
    decreases k,
{
    if k > 0 {
        lemma_sent_all_len(terms, k - 1, image);
    }
}

/// A bit of the output image that none of the first `k` terminals writes is
/// as it was.
pub proof fn lemma_sent_all_untouched(terms: Seq<KBusTerm>, k: int, image: Seq<bool>, p: int)
    requires
        0 <= k <= terms.len(),
        0 <= p < image.len(),
        forall|i: int| 0 <= i < k ==> !(#[trigger] terms[i]).covers(p),
    ensures
        sent_all(terms, k, image)[p] == image[p],
    decreases k,
{
    if k > 0 {
        lemma_sent_all_len(terms, k - 1, image);
        lemma_sent_all_untouched(terms, k - 1, image, p);
        assert(!terms[k - 1].covers(p));
    }
}

/// A bit of the output image that terminal `j` writes, and no later one of the
/// first `k` terminals, is the bit that terminal `j` sends there.
pub proof fn lemma_sent_all_last_writer(
    terms: Seq<KBusTerm>,
    k: int,
    image: Seq<bool>,
    j: int,
    p: int,
)
    requires
        0 <= j < k <= terms.len(),
        0 <= p < image.len(),
        terms[j].covers(p),
        forall|i: int| j < i < k ==> !(#[trigger] terms[i]).covers(p),
    ensures
        sent_all(terms, k, image)[p] == terms[j].sent_bits()[p - terms[j].slot_idx_range.0],
    decreases k,
{
    lemma_sent_all_len(terms, k - 1, image);
    if k - 1 > j {
        lemma_sent_all_last_writer(terms, k - 1, image, j, p);
        assert(!terms[k - 1].covers(p));
    }
}

/// After the output step of the coupler, the slot of a sending terminal holds
/// the bits the terminal sends, provided that the slot lies behind the
/// gateway's part and that no later terminal writes into it; and a bit outside
/// the gateway's part that no terminal writes is as it was.
pub proof fn lemma_coupler_outputs(
    ts: TermStates,
    gateway: KBusSubDevice,
    image: Seq<bool>,
    j: int,
    p: int,
)
    requires
        outputs_fit(&ts, &gateway, DeviceKind::Bk1120, image),
        0 <= p < image.len(),
        !(GATEWAY_BEGIN <= p < GATEWAY_END),
        0 <= j < ts.kbus_terms@.len(),
        forall|i: int| j < i < ts.kbus_terms@.len() ==> !(#[trigger] ts.kbus_terms@[i]).covers(p),
    ensures
        ts.kbus_terms@[j].covers(p) ==> outputs_image(&ts, &gateway, DeviceKind::Bk1120, image)[p]
            == ts.kbus_terms@[j].sent_bits()[p - ts.kbus_terms@[j].slot_idx_range.0],
        (forall|i: int| 0 <= i <= j ==> !(#[trigger] ts.kbus_terms@[i]).covers(p))
            ==> outputs_image(&ts, &gateway, DeviceKind::Bk1120, image)[p] == image[p],
{
    let terms = ts.kbus_terms@;
    let n = terms.len() as int;
    lemma_sent_all_len(terms, n, image);
    if terms[j].covers(p) {
        lemma_sent_all_last_writer(terms, n, image, j, p);
    }
    if forall|i: int| 0 <= i <= j ==> !(#[trigger] terms[i]).covers(p) {
        lemma_sent_all_untouched(terms, n, image, p);
    }
}

} // verus!
