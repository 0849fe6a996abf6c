//! DCF77 time-signal decoder: classifies edge-timing events, assembles the
//! 59-bit minute frame, validates its parity, and extracts calendar time.

use crate::bits::{
    bit_get,
    bit_set,
    bit_range,
    low_mask,
    parity_fold,
    get_bits64,
    set_bit64,
    parity64,
    lemma_set_extends_prefix,
    lemma_low_mask_noop,
    lemma_parity_xor_bit,
};
use crate::calendar::{DecodedTime, valid_date, valid_time, ymd_is_valid, hms_is_valid};
use vstd::prelude::*;

verus! {

/// Decode failures: framing and protocol errors are recovered locally,
/// parity and semantic errors reject one minute's candidate time.
#[derive(Clone, Copy, Debug, PartialEq, Eq, Structural)]
pub enum Error {
    StartNotFound,
    StateChangeError,
    ProtocolError,
    InvalidTime,
    InvalidDate,
    ParityErrorMinute,
    ParityErrorHour,
    ParityErrorDate,
}

/// Result of a time query: either no frame has been acquired yet, or a
/// decode error was found.
#[derive(Clone, Copy, Debug, PartialEq, Eq, Structural)]
pub enum NowError {
    WouldBlock,
    Other(Error),
}

/// A level transition classified purely from its timing.
#[derive(Clone, Copy, Debug, PartialEq, Eq, Structural)]
pub enum ClassifiedEvent {
    Bit { value: bool },
    SecondBoundary,
    MinuteBoundary,
    FramingError,
}

/// Classification of an edge from the new level and the elapsed time since
/// the previous transition. A falling edge starts a second's pulse: a gap
/// near two seconds is the missing 59th pulse that marks the minute
/// boundary. A rising edge ends the pulse, whose width carries the bit.
pub open spec fn spec_classify(rising_edge: bool, elapsed_ms: u32) -> ClassifiedEvent {
    if rising_edge {
        if elapsed_ms < 150 {
            ClassifiedEvent::Bit { value: false }
        } else if elapsed_ms < 250 {
            ClassifiedEvent::Bit { value: true }
        } else {
            ClassifiedEvent::FramingError
        }
    } else {
        if 1800 < elapsed_ms && elapsed_ms < 2200 {
            ClassifiedEvent::MinuteBoundary
        } else {
            ClassifiedEvent::SecondBoundary
        }
    }
}

/// Classify one edge. Pure and stateless: only the immediate timing counts.
pub fn classify_edge(rising_edge: bool, elapsed_ms: u32) -> (r: ClassifiedEvent)
    ensures
        r == spec_classify(rising_edge, elapsed_ms),
{
    if rising_edge {
        if elapsed_ms < 150 {
            ClassifiedEvent::Bit { value: false }
        } else if elapsed_ms < 250 {
            ClassifiedEvent::Bit { value: true }
        } else {
            ClassifiedEvent::FramingError
        }
    } else {
        if 1800 < elapsed_ms && elapsed_ms < 2200 {
            ClassifiedEvent::MinuteBoundary
        } else {
            ClassifiedEvent::SecondBoundary
        }
    }
}

/// Where the decoder stands inside a minute frame. `second` is the index of
/// the bit being received; the frame holds bits 0 ..= 58.
#[derive(Clone, Copy, Debug, PartialEq, Eq, Structural)]
pub enum DecodeState {
    /// No framing acquired yet.
    InitialSearch,
    /// Framing lost after an error; behaves like `InitialSearch`.
    ReceiveErrorSearch,
    /// Awaiting the rising edge that carries data bit `second`.
    ExpectingHigh { second: u8 },
    /// Bit `second` stored; awaiting the falling edge of the next second.
    ExpectingLow { second: u8 },
    /// Awaiting data bit 58 and then the minute gap.
    ExpectingStart,
}

/// The decoder's abstract state: the last committed frame, the frame being
/// assembled, and the position inside the minute.
pub struct DecoderModel {
    pub current_bits: u64,
    pub next_bits: u64,
    pub state: DecodeState,
}

impl DecoderModel {
    /// The second counter never passes the index of the last frame bit.
    pub open spec fn wf(self) -> bool {
        match self.state {
            DecodeState::ExpectingHigh { second } => second <= 57,
            DecodeState::ExpectingLow { second } => second <= 57,
            _ => true,
        }
    }

    /// True while no frame has been acquired.
    pub open spec fn searching(self) -> bool {
        self.state is InitialSearch || self.state is ReceiveErrorSearch
    }

    /// The live second counter, meaningful outside the search states.
    pub open spec fn second(self) -> int {
        match self.state {
            DecodeState::ExpectingHigh { second } => second as int,
            DecodeState::ExpectingLow { second } => second as int,
            DecodeState::ExpectingStart => 58,
            _ => 0,
        }
    }
}

/// The decoder's transition function: one classified event moves the model
/// to its next state. Total: every `(state, event)` pair lands in a defined
/// state. A minute boundary always restarts the frame at second 0; received
/// from `ExpectingLow` or `ExpectingStart` it also commits the assembled
/// frame, which is the normal end-of-minute path. Unexpected events drop
/// the frame in progress and fall back to searching, keeping the last
/// committed frame.
pub open spec fn step(m: DecoderModel, event: ClassifiedEvent) -> DecoderModel {
    match m.state {
        DecodeState::InitialSearch | DecodeState::ReceiveErrorSearch => match event {
            ClassifiedEvent::MinuteBoundary => DecoderModel {
                current_bits: m.current_bits,
                next_bits: 0,
                state: DecodeState::ExpectingHigh { second: 0 },
            },
            _ => m,
        },
        DecodeState::ExpectingHigh { second } => match event {
            ClassifiedEvent::Bit { value } => DecoderModel {
                current_bits: m.current_bits,
                next_bits: bit_set(m.next_bits, second as u64, value),
                state: DecodeState::ExpectingLow { second },
            },
            ClassifiedEvent::MinuteBoundary => DecoderModel {
                current_bits: m.current_bits,
                next_bits: 0,
                state: DecodeState::ExpectingHigh { second: 0 },
            },
            _ => DecoderModel {
                current_bits: m.current_bits,
                next_bits: 0,
                state: DecodeState::ReceiveErrorSearch,
            },
        },
        DecodeState::ExpectingLow { second } => match event {
            ClassifiedEvent::SecondBoundary => DecoderModel {
                current_bits: m.current_bits,
                next_bits: m.next_bits,
                state: if second < 57 {
                    DecodeState::ExpectingHigh { second: (second + 1) as u8 }
                } else {
                    DecodeState::ExpectingStart
                },
            },
            ClassifiedEvent::MinuteBoundary => DecoderModel {
                current_bits: m.next_bits,
                next_bits: 0,
                state: DecodeState::ExpectingHigh { second: 0 },
            },
            _ => DecoderModel {
                current_bits: m.current_bits,
                next_bits: 0,
                state: DecodeState::ReceiveErrorSearch,
            },
        },
        DecodeState::ExpectingStart => match event {
            ClassifiedEvent::Bit { value } => DecoderModel {
                current_bits: m.current_bits,
                next_bits: bit_set(m.next_bits, 58, value),
                state: DecodeState::ExpectingStart,
            },
            ClassifiedEvent::MinuteBoundary => DecoderModel {
                current_bits: m.next_bits,
                next_bits: 0,
                state: DecodeState::ExpectingHigh { second: 0 },
            },
            _ => DecoderModel {
                current_bits: m.current_bits,
                next_bits: 0,
                state: DecodeState::ReceiveErrorSearch,
            },
        },
    }
}

/// The diagnostic a transition emits: a framing error while a bit was
/// expected is a protocol error, any other unexpected event is a state
/// change error. Neither stops the decoder; both drop it back to searching.
pub open spec fn step_diagnostic(m: DecoderModel, event: ClassifiedEvent) -> Option<Error> {
    match m.state {
        DecodeState::InitialSearch | DecodeState::ReceiveErrorSearch => None,
        DecodeState::ExpectingHigh { .. } | DecodeState::ExpectingStart => match event {
            ClassifiedEvent::FramingError => Some(Error::ProtocolError),
            ClassifiedEvent::SecondBoundary => Some(Error::StateChangeError),
            _ => None,
        },
        DecodeState::ExpectingLow { .. } => match event {
            ClassifiedEvent::Bit { .. } => Some(Error::StateChangeError),
            ClassifiedEvent::FramingError => Some(Error::StateChangeError),
            _ => None,
        },
    }
}

/// The decoder over one minute frame: a shift buffer for the minute being
/// received, the last committed frame, and the position in the minute.
/// Transitions consume the whole value and install the next one in a single
/// assignment.
#[derive(Clone, Copy)]
pub struct DCF77StateWrapper {
    current_bits: u64,
    next_bits: u64,
    state: DecodeState,
}

impl View for DCF77StateWrapper {
    type V = DecoderModel;

    closed spec fn view(&self) -> DecoderModel {
        DecoderModel {
            current_bits: self.current_bits,
            next_bits: self.next_bits,
            state: self.state,
        }
    }
}

impl DCF77StateWrapper {
    /// A fresh decoder: nothing committed, nothing assembled, searching.
    pub fn new() -> (r: Self)
        ensures
            r@ == (DecoderModel {
                current_bits: 0,
                next_bits: 0,
                state: DecodeState::InitialSearch,
            }),
    {
        DCF77StateWrapper { current_bits: 0, next_bits: 0, state: DecodeState::InitialSearch }
    }

    /// The last fully assembled frame, replaced only at a minute boundary.
    pub fn current_bits(&self) -> (r: u64)
        ensures
            r == self@.current_bits,
    {
        self.current_bits
    }

    /// Advance the decoder by one classified event.
    pub fn update(self, event: ClassifiedEvent) -> (r: Self)
        requires
            self@.wf(),
        ensures
            r@ == step(self@, event),
            r@.wf(),
    {
        match self.state {
            DecodeState::InitialSearch | DecodeState::ReceiveErrorSearch => match event {
                ClassifiedEvent::MinuteBoundary => DCF77StateWrapper {
                    current_bits: self.current_bits,
                    next_bits: 0,
                    state: DecodeState::ExpectingHigh { second: 0 },
                },
                _ => self,
            },
            DecodeState::ExpectingHigh { second } => match event {
                ClassifiedEvent::Bit { value } => DCF77StateWrapper {
                    current_bits: self.current_bits,
                    next_bits: set_bit64(self.next_bits, second as u64, value),
                    state: DecodeState::ExpectingLow { second },
                },
                ClassifiedEvent::MinuteBoundary => DCF77StateWrapper {
                    current_bits: self.current_bits,
                    next_bits: 0,
                    state: DecodeState::ExpectingHigh { second: 0 },
                },
                _ => DCF77StateWrapper {
                    current_bits: self.current_bits,
                    next_bits: 0,
                    state: DecodeState::ReceiveErrorSearch,
                },
            },
            DecodeState::ExpectingLow { second } => match event {
                ClassifiedEvent::SecondBoundary => DCF77StateWrapper {
                    current_bits: self.current_bits,
                    next_bits: self.next_bits,
                    state: if second < 57 {
                        DecodeState::ExpectingHigh { second: second + 1 }
                    } else {
                        DecodeState::ExpectingStart
                    },
                },
                ClassifiedEvent::MinuteBoundary => DCF77StateWrapper {
                    current_bits: self.next_bits,
                    next_bits: 0,
                    state: DecodeState::ExpectingHigh { second: 0 },
                },
                _ => DCF77StateWrapper {
                    current_bits: self.current_bits,
                    next_bits: 0,
                    state: DecodeState::ReceiveErrorSearch,
                },
            },
            DecodeState::ExpectingStart => match event {
                ClassifiedEvent::Bit { value } => DCF77StateWrapper {
                    current_bits: self.current_bits,
                    next_bits: set_bit64(self.next_bits, 58, value),
                    state: DecodeState::ExpectingStart,
                },
                ClassifiedEvent::MinuteBoundary => DCF77StateWrapper {
                    current_bits: self.next_bits,
                    next_bits: 0,
                    state: DecodeState::ExpectingHigh { second: 0 },
                },
                _ => DCF77StateWrapper {
                    current_bits: self.current_bits,
                    next_bits: 0,
                    state: DecodeState::ReceiveErrorSearch,
                },
            },
        }
    }
}

/// The value of one BCD field of the frame: four units bits at `fst`, and
/// `tens` tens bits starting one bit past the units field.
pub open spec fn spec_extract(f: u64, fst: u64, tens: u64) -> int {
    bit_range(f, fst, (fst + 4) as u64) + 10 * bit_range(
        f,
        (fst + 5) as u64,
        (fst + 5 + tens) as u64,
    )
}

pub open spec fn frame_minute(f: u64) -> int {
    spec_extract(f, 21, 3)
}

pub open spec fn frame_hour(f: u64) -> int {
    spec_extract(f, 29, 2)
}

pub open spec fn frame_day(f: u64) -> int {
    spec_extract(f, 36, 2)
}

pub open spec fn frame_month(f: u64) -> int {
    spec_extract(f, 45, 1)
}

pub open spec fn frame_year(f: u64) -> int {
    spec_extract(f, 50, 4)
}

/// Even-parity validation of the three protected ranges of a frame, checked
/// in this order: minute `[21, 28]`, hour `[29, 35]`, date `[36, 58]`. A
/// non-zero fold names the corrupted field.
pub open spec fn spec_valid_frame(f: u64) -> Result<(), Error> {
    if parity_fold(f, 21, 28) {
        Err(Error::ParityErrorMinute)
    } else if parity_fold(f, 29, 35) {
        Err(Error::ParityErrorHour)
    } else if parity_fold(f, 36, 58) {
        Err(Error::ParityErrorDate)
    } else {
        Ok(())
    }
}

/// What a time query returns for a given decoder state: nothing while
/// searching; the named parity error of the first failing range; a semantic
/// error when the extracted fields form no calendar date or time of day;
/// otherwise the extracted timestamp with the live second counter.
pub open spec fn spec_now(m: DecoderModel) -> Result<DecodedTime, NowError> {
    if m.searching() {
        Err(NowError::WouldBlock)
    } else {
        let f = m.current_bits;
        match spec_valid_frame(f) {
            Err(e) => Err(NowError::Other(e)),
            Ok(_) => if !valid_date(frame_year(f), frame_month(f), frame_day(f)) {
                Err(NowError::Other(Error::InvalidDate))
            } else if !valid_time(frame_hour(f), frame_minute(f), m.second()) {
                Err(NowError::Other(Error::InvalidTime))
            } else {
                Ok(
                    DecodedTime {
                        year: frame_year(f) as u16,
                        month: frame_month(f) as u8,
                        day: frame_day(f) as u8,
                        hour: frame_hour(f) as u8,
                        minute: frame_minute(f) as u8,
                        second: m.second() as u8,
                    },
                )
            },
        }
    }
}

/// Read one BCD field of the frame. The result is at most `15 + 15 * 10`.
fn extract_number(f: u64, fst: u64, tens: u64) -> (r: u64)
    requires
        1 <= tens <= 4,
        fst + 5 + tens <= 63,
    ensures
        r == spec_extract(f, fst, tens),
        r <= 165,
{
    let units = get_bits64(f, fst, fst + 4);
    let tens_value = get_bits64(f, fst + 5, fst + 5 + tens);
    proof {
        crate::bits::lemma_bit_range_bound(f, fst, (fst + 4) as u64);
        crate::bits::lemma_bit_range_bound(f, (fst + 5) as u64, (fst + 5 + tens) as u64);
        assert((1u64 << 4u64) == 16) by (bit_vector);
        let w = tens as u64;
        assert((1u64 << w) <= 16) by (bit_vector)
            requires
                w <= 4,
        ;
    }
    units + tens_value * 10
}

/// The DCF77 receiver: decoder state plus the input polarity configuration.
pub struct DCF77 {
    state: DCF77StateWrapper,
    inverted: bool,
}

impl DCF77 {
    /// The decoder's abstract state.
    pub closed spec fn decoder(self) -> DecoderModel {
        self.state@
    }

    /// Whether the radio input delivers an inverted level.
    pub closed spec fn spec_inverted(self) -> bool {
        self.inverted
    }

    /// A receiver with a fresh decoder.
    pub fn init(inverted: bool) -> (r: Self)
        ensures
            r.decoder() == (DecoderModel {
                current_bits: 0,
                next_bits: 0,
                state: DecodeState::InitialSearch,
            }),
            r.spec_inverted() == inverted,
    {
        DCF77 { state: DCF77StateWrapper::new(), inverted }
    }

    /// Feed one edge: the raw input level after the transition and the time
    /// since the previous transition. The decoder advances by the
    /// classified event; the returned diagnostic names a framing or
    /// protocol mismatch, both recovered locally.
    pub fn update_state(&mut self, level_high: bool, elapsed_ms: u32) -> (r: Result<(), Error>)
        requires
            old(self).decoder().wf(),
        ensures
            final(self).decoder() == step(
                old(self).decoder(),
                spec_classify(level_high ^ old(self).spec_inverted(), elapsed_ms),
            ),
            final(self).decoder().wf(),
            final(self).spec_inverted() == old(self).spec_inverted(),
            r == (match step_diagnostic(
                old(self).decoder(),
                spec_classify(level_high ^ old(self).spec_inverted(), elapsed_ms),
            ) {
                Some(e) => Err::<(), Error>(e),
                None => Ok::<(), Error>(()),
            }),
    {
        let rising_edge = level_high ^ self.inverted;
        let event = classify_edge(rising_edge, elapsed_ms);
        let diag = match self.state.state {
            DecodeState::InitialSearch | DecodeState::ReceiveErrorSearch => None,
            DecodeState::ExpectingHigh { .. } | DecodeState::ExpectingStart => match event {
                ClassifiedEvent::FramingError => Some(Error::ProtocolError),
                ClassifiedEvent::SecondBoundary => Some(Error::StateChangeError),
                _ => None,
            },
            DecodeState::ExpectingLow { .. } => match event {
                ClassifiedEvent::Bit { .. } | ClassifiedEvent::FramingError => Some(
                    Error::StateChangeError,
                ),
                _ => None,
            },
        };
        self.state = self.state.update(event);
        match diag {
            Some(e) => Err(e),
            None => Ok(()),
        }
    }

    /// Parity validation of the committed frame.
    fn valid(&self) -> (r: Result<(), Error>)
        ensures
            r == spec_valid_frame(self.decoder().current_bits),
    {
        let f = self.state.current_bits;
        if parity64(f, 21, 28) {
            Err(Error::ParityErrorMinute)
        } else if parity64(f, 29, 35) {
            Err(Error::ParityErrorHour)
        } else if parity64(f, 36, 58) {
            Err(Error::ParityErrorDate)
        } else {
            Ok(())
        }
    }

    /// The current calendar time: the committed frame's fields with the
    /// live second counter, available once framing is acquired, the parity
    /// checks pass, and the fields name a real date and time of day.
    pub fn now(&self) -> (r: Result<DecodedTime, NowError>)
        ensures
            r == spec_now(self.decoder()),
    {
        let second: u8 = match self.state.state {
            DecodeState::InitialSearch | DecodeState::ReceiveErrorSearch => {
                return Err(NowError::WouldBlock);
            },
            DecodeState::ExpectingHigh { second } => second,
            DecodeState::ExpectingLow { second } => second,
            DecodeState::ExpectingStart => 58,
        };
        match self.valid() {
            Err(e) => {
                return Err(NowError::Other(e));
            },
            Ok(_) => {},
        }
        let f = self.state.current_bits;
        let minute = extract_number(f, 21, 3);
        let hour = extract_number(f, 29, 2);
        let day = extract_number(f, 36, 2);
        let month = extract_number(f, 45, 1);
        let year = extract_number(f, 50, 4);
        if !ymd_is_valid(year as i32, month as u32, day as u32) {
            return Err(NowError::Other(Error::InvalidDate));
        }
        if !hms_is_valid(hour as u32, minute as u32, second as u32) {
            return Err(NowError::Other(Error::InvalidTime));
        }
        Ok(
            DecodedTime {
                year: year as u16,
                month: month as u8,
                day: day as u8,
                hour: hour as u8,
                minute: minute as u8,
                second,
            },
        )
    }
}

/// Fold the transition function over a sequence of classified events.
pub open spec fn run(m: DecoderModel, events: Seq<ClassifiedEvent>) -> DecoderModel
    decreases events.len(),
{
    if events.len() == 0 {
        m
    } else {
        run(step(m, events[0]), events.drop_first())
    }
}

/// Running a concatenation runs the pieces one after the other.
pub proof fn lemma_run_append(m: DecoderModel, s1: Seq<ClassifiedEvent>, s2: Seq<ClassifiedEvent>)
    ensures
        run(m, s1 + s2) == run(run(m, s1), s2),
    decreases s1.len(),
{
    if s1.len() == 0 {
        assert(s1 + s2 =~= s2);
    } else {
        assert((s1 + s2)[0] == s1[0]);
        assert((s1 + s2).drop_first() =~= s1.drop_first() + s2);
        lemma_run_append(step(m, s1[0]), s1.drop_first(), s2);
    }
}

/// Running a two-event sequence is two transitions.
pub proof fn lemma_run_two(m: DecoderModel, e1: ClassifiedEvent, e2: ClassifiedEvent)
    ensures
        run(m, seq![e1, e2]) == step(step(m, e1), e2),
{
    reveal_with_fuel(run, 4);
    assert(seq![e1, e2].drop_first() =~= seq![e2]);
    assert(seq![e2].drop_first() =~= Seq::<ClassifiedEvent>::empty());
}

/// The event stream of one complete minute frame: each second's data bit
/// followed by its second boundary, with the minute gap closing the frame
/// after bit 58.
pub open spec fn frame_events(f: u64) -> Seq<ClassifiedEvent> {
    Seq::new(
        118,
        |i: int|
            if i % 2 == 0 {
                ClassifiedEvent::Bit { value: bit_get(f, (i / 2) as u64) }
            } else if i == 117 {
                ClassifiedEvent::MinuteBoundary
            } else {
                ClassifiedEvent::SecondBoundary
            },
    )
}

/// After the first `k` bit/boundary pairs of a frame, the decoder holds
/// exactly the low `k` bits of the frame and awaits bit `k`.
proof fn lemma_feed_prefix(f: u64, m: DecoderModel, k: int)
    requires
        m.state == (DecodeState::ExpectingHigh { second: 0u8 }),
        m.next_bits == 0,
        0 <= k <= 58,
    ensures
        run(m, frame_events(f).take(2 * k)) == (DecoderModel {
            current_bits: m.current_bits,
            next_bits: f & low_mask(k as u64),
            state: if k <= 57 {
                DecodeState::ExpectingHigh { second: k as u8 }
            } else {
                DecodeState::ExpectingStart
            },
        }),
    decreases k,
{
    let s = frame_events(f);
    if k == 0 {
        assert(s.take(0) =~= Seq::<ClassifiedEvent>::empty());
        assert(f & low_mask(0) == 0) by (bit_vector);
    } else {
        lemma_feed_prefix(f, m, k - 1);
        let prev = run(m, s.take(2 * (k - 1)));
        let pair = seq![s[2 * k - 2], s[2 * k - 1]];
        assert(s.take(2 * k) =~= s.take(2 * (k - 1)) + pair);
        lemma_run_append(m, s.take(2 * (k - 1)), pair);
        assert(s[2 * k - 2] == ClassifiedEvent::Bit { value: bit_get(f, (k - 1) as u64) });
        assert(s[2 * k - 1] == ClassifiedEvent::SecondBoundary);
        lemma_set_extends_prefix(f, (k - 1) as u64);
        lemma_run_two(prev, pair[0], pair[1]);
        assert(pair =~= seq![pair[0], pair[1]]);
    }
}

/// Feeding one complete frame, bit by bit, from the start of a minute
/// commits exactly that frame and leaves the decoder at second 0 of the
/// next minute.
pub proof fn lemma_frame_decode(f: u64, m: DecoderModel)
    requires
        m.state == (DecodeState::ExpectingHigh { second: 0u8 }),
        m.next_bits == 0,
        f < (1u64 << 59),
    ensures
        run(m, frame_events(f)) == (DecoderModel {
            current_bits: f,
            next_bits: 0,
            state: DecodeState::ExpectingHigh { second: 0u8 },
        }),
{
    lemma_feed_prefix(f, m, 58);
    let s = frame_events(f);
    let prev = run(m, s.take(116));
    let pair = seq![s[116], s[117]];
    assert(s =~= s.take(116) + pair);
    lemma_run_append(m, s.take(116), pair);
    assert(s[116] == ClassifiedEvent::Bit { value: bit_get(f, 58) });
    assert(s[117] == ClassifiedEvent::MinuteBoundary);
    lemma_set_extends_prefix(f, 58);
    lemma_low_mask_noop(f);
    lemma_run_two(prev, pair[0], pair[1]);
    assert(pair =~= seq![pair[0], pair[1]]);
}

/// Round trip of a whole valid frame: received from the start of a minute,
/// a frame whose three parity checks pass and whose fields name a real
/// date and time of day is recovered exactly, field for field, with the
/// live second counter back at 0.
pub proof fn lemma_frame_round_trip(f: u64, m: DecoderModel)
    requires
        m.state == (DecodeState::ExpectingHigh { second: 0u8 }),
        m.next_bits == 0,
        f < (1u64 << 59),
        spec_valid_frame(f) == Ok::<(), Error>(()),
        valid_date(frame_year(f), frame_month(f), frame_day(f)),
        valid_time(frame_hour(f), frame_minute(f), 0),
    ensures
        spec_now(run(m, frame_events(f))) == Ok::<DecodedTime, NowError>(
            DecodedTime {
                year: frame_year(f) as u16,
                month: frame_month(f) as u8,
                day: frame_day(f) as u8,
                hour: frame_hour(f) as u8,
                minute: frame_minute(f) as u8,
                second: 0,
            },
        ),
{
    lemma_frame_decode(f, m);
}

/// Assemble a frame from its BCD subfields. The layout packs the year's
/// units field directly after the month's units field, so bit 50 is at
/// once the month's tens bit and the year's lowest units bit. `pm`, `ph`
/// and `pd` are the free bits inside the three parity ranges (bits 25, 33
/// and 43) that even out each range's parity.
pub open spec fn encode_frame(
    mu: u64,
    mt: u64,
    hu: u64,
    ht: u64,
    du: u64,
    dt: u64,
    mou: u64,
    yu: u64,
    yt: u64,
    pm: bool,
    ph: bool,
    pd: bool,
) -> u64 {
    (mu << 21) | (mt << 26) | (hu << 29) | (ht << 34) | (du << 36) | (dt << 41) | (mou << 45) | (
    yu << 50) | (yt << 55) | (if pm {
        1u64 << 25
    } else {
        0
    }) | (if ph {
        1u64 << 33
    } else {
        0
    }) | (if pd {
        1u64 << 43
    } else {
        0
    })
}

/// Extraction inverts the encoding, whatever the three parity bits hold:
/// each field reads back as units plus ten times tens, except that the
/// month's tens digit is the year's lowest units bit.
pub proof fn lemma_encode_extract(
    mu: u64,
    mt: u64,
    hu: u64,
    ht: u64,
    du: u64,
    dt: u64,
    mou: u64,
    yu: u64,
    yt: u64,
    pm: bool,
    ph: bool,
    pd: bool,
)
    requires
        mu < 16,
        mt < 8,
        hu < 16,
        ht < 4,
        du < 16,
        dt < 4,
        mou < 16,
        yu < 16,
        yt < 16,
    ensures
        frame_minute(encode_frame(mu, mt, hu, ht, du, dt, mou, yu, yt, pm, ph, pd)) == mu + 10
            * mt,
        frame_hour(encode_frame(mu, mt, hu, ht, du, dt, mou, yu, yt, pm, ph, pd)) == hu + 10 * ht,
        frame_day(encode_frame(mu, mt, hu, ht, du, dt, mou, yu, yt, pm, ph, pd)) == du + 10 * dt,
        frame_month(encode_frame(mu, mt, hu, ht, du, dt, mou, yu, yt, pm, ph, pd)) == mou + 10 * (
        yu % 2),
        frame_year(encode_frame(mu, mt, hu, ht, du, dt, mou, yu, yt, pm, ph, pd)) == yu + 10 * yt,
        encode_frame(mu, mt, hu, ht, du, dt, mou, yu, yt, pm, ph, pd) < (1u64 << 59),
{
    let f = encode_frame(mu, mt, hu, ht, du, dt, mou, yu, yt, pm, ph, pd);
    assert(bit_range(f, 21, 25) == mu && bit_range(f, 26, 29) == mt) by (bit_vector)
        requires
            f == encode_frame(mu, mt, hu, ht, du, dt, mou, yu, yt, pm, ph, pd),
            mu < 16,
            mt < 8,
            hu < 16,
            ht < 4,
            du < 16,
            dt < 4,
            mou < 16,
            yu < 16,
            yt < 16,
    ;
    assert(bit_range(f, 29, 33) == hu && bit_range(f, 34, 36) == ht) by (bit_vector)
        requires
            f == encode_frame(mu, mt, hu, ht, du, dt, mou, yu, yt, pm, ph, pd),
            mu < 16,
            mt < 8,
            hu < 16,
            ht < 4,
            du < 16,
            dt < 4,
            mou < 16,
            yu < 16,
            yt < 16,
    ;
    assert(bit_range(f, 36, 40) == du && bit_range(f, 41, 43) == dt) by (bit_vector)
        requires
            f == encode_frame(mu, mt, hu, ht, du, dt, mou, yu, yt, pm, ph, pd),
            mu < 16,
            mt < 8,
            hu < 16,
            ht < 4,
            du < 16,
            dt < 4,
            mou < 16,
            yu < 16,
            yt < 16,
    ;
    assert(bit_range(f, 45, 49) == mou && bit_range(f, 50, 51) == yu % 2) by (bit_vector)
        requires
            f == encode_frame(mu, mt, hu, ht, du, dt, mou, yu, yt, pm, ph, pd),
            mu < 16,
            mt < 8,
            hu < 16,
            ht < 4,
            du < 16,
            dt < 4,
            mou < 16,
            yu < 16,
            yt < 16,
    ;
    assert(bit_range(f, 50, 54) == yu && bit_range(f, 55, 59) == yt && f < (1u64 << 59))
        by (bit_vector)
        requires
            f == encode_frame(mu, mt, hu, ht, du, dt, mou, yu, yt, pm, ph, pd),
            mu < 16,
            mt < 8,
            hu < 16,
            ht < 4,
            du < 16,
            dt < 4,
            mou < 16,
            yu < 16,
            yt < 16,
    ;
}

/// Flipping any single bit inside a parity-protected range of a frame that
/// validates makes exactly that range's check fail, naming the field the
/// bit belongs to.
pub proof fn lemma_single_bit_flip_detected(f: u64, i: u64)
    requires
        spec_valid_frame(f) == Ok::<(), Error>(()),
        21 <= i <= 58,
    ensures
        spec_valid_frame(f ^ (1u64 << i)) == Err::<(), Error>(
            if i <= 28 {
                Error::ParityErrorMinute
            } else if i <= 35 {
                Error::ParityErrorHour
            } else {
                Error::ParityErrorDate
            },
        ),
{
    lemma_parity_xor_bit(f, i, 21, 28);
    lemma_parity_xor_bit(f, i, 29, 35);
    lemma_parity_xor_bit(f, i, 36, 58);
}

/// A failed validation is reported by the time query, which reads the
/// decoder without touching it: the committed frame stays as it was.
pub proof fn lemma_parity_error_reported(m: DecoderModel, e: Error)
    requires
        !m.searching(),
        spec_valid_frame(m.current_bits) == Err::<(), Error>(e),
    ensures
        spec_now(m) == Err::<DecodedTime, NowError>(NowError::Other(e)),
{
}

/// A minute boundary received mid-frame resynchronizes the decoder: from
/// `ExpectingHigh` nothing is committed and the frame restarts; from
/// `ExpectingLow` or `ExpectingStart` the assembled frame is committed.
/// In every case the decoder lands at second 0 of a fresh frame.
pub proof fn lemma_minute_boundary_resync(m: DecoderModel)
    requires
        !m.searching(),
    ensures
        step(m, ClassifiedEvent::MinuteBoundary).state == (DecodeState::ExpectingHigh {
            second: 0u8,
        }),
        step(m, ClassifiedEvent::MinuteBoundary).next_bits == 0,
        m.state is ExpectingHigh ==> step(m, ClassifiedEvent::MinuteBoundary).current_bits
            == m.current_bits,
        m.state is ExpectingLow || m.state is ExpectingStart ==> step(
            m,
            ClassifiedEvent::MinuteBoundary,
        ).current_bits == m.next_bits,
{
}

/// The transition function is total: every `(state, event)` pair of a
/// well-formed decoder lands in a defined, well-formed state.
pub proof fn lemma_step_total(m: DecoderModel, event: ClassifiedEvent)
    requires
        m.wf(),
    ensures
        step(m, event).wf(),
{
}

} // verus!
