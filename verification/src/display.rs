//! Word-clock rendering: maps a time of day to the set of illuminated
//! phrase segments, selects the hour word, computes the multiplexed
//! line-driver activation mask, and lays out the strictly ordered sequence
//! of pin writes, closed by the fault-latch clear pulse.

use crate::calendar::TimeOfDay;
use vstd::prelude::*;

verus! {

/// Phrase segment flags, one bit per word of the clock face.
pub const ES_IST: u32 = 0x001;

pub const FUENF: u32 = 0x002;

pub const ZEHN: u32 = 0x004;

pub const ZWANZIG: u32 = 0x008;

pub const DREI: u32 = 0x010;

pub const VIERTEL: u32 = 0x020;

pub const VOR: u32 = 0x040;

pub const NACH: u32 = 0x080;

pub const HALB: u32 = 0x100;

pub const UHR: u32 = 0x200;

/// Physical multiplexed driver lines, one bit per line.
pub const LINE1A: u8 = 0x01;

pub const LINE1B: u8 = 0x02;

pub const LINE2A: u8 = 0x04;

pub const LINE2B: u8 = 0x08;

pub const LINE3: u8 = 0x10;

pub const LINE4: u8 = 0x20;

pub const LINE5A: u8 = 0x40;

pub const LINE5B: u8 = 0x80;

/// The phrase segments lit for one five-minute bucket, and whether the
/// phrase speaks of the coming hour ("fuenf vor halb elf").
#[derive(Clone, Copy, Debug, PartialEq, Eq, Structural)]
pub struct PhraseSet {
    pub main: u32,
    pub advance_hour: bool,
}

/// One hardware call of the rendering protocol. Word and hour enables are
/// active-low; the shared lines are driven inverted; the master enable is
/// pulsed low to clear the driver's fault latch.
#[derive(Clone, Copy, Debug, PartialEq, Eq, Structural)]
pub enum PinCommand {
    SetWordEnable { word: u8, high: bool },
    SetHourEnable { index: u8, high: bool },
    SetLine { line: u8, high: bool },
    SetMasterEnable { high: bool },
    DelayCycles { cycles: u32 },
    SetMinuteLine { index: u8, high: bool },
}

/// True iff phrase segment `w` (by bit index) is in the set `p`.
pub open spec fn word_in(p: u32, w: int) -> bool {
    (p >> (w as u32)) & 1 == 1
}

/// True iff driver line `i` is in the mask.
pub open spec fn line_in(mask: u8, i: int) -> bool {
    (mask >> (i as u8)) & 1 == 1
}

/// The shared driver lines each phrase word is wired to, by segment index
/// in bit order.
pub open spec fn word_lines(w: int) -> u8 {
    if w == 0 {
        LINE1A | LINE1B  // es ist
    } else if w == 1 {
        LINE2A  // fuenf
    } else if w == 2 {
        LINE2A  // zehn
    } else if w == 3 {
        LINE2A | LINE2B  // zwanzig
    } else if w == 4 {
        LINE3  // drei
    } else if w == 5 {
        LINE2A | LINE2B  // viertel
    } else if w == 6 {
        LINE4  // vor
    } else if w == 7 {
        LINE4  // nach
    } else if w == 8 {
        LINE3  // halb
    } else {
        LINE4  // uhr
    }
}

/// The shared driver lines each hour word is wired to; index 0 is twelve.
pub open spec fn hour_lines(h: int) -> u8 {
    if h == 0 || h == 6 || h == 7 {
        LINE5A | LINE5B
    } else {
        LINE5A
    }
}

/// The twelve phrase entries, indexed by five-minute bucket.
pub open spec fn spec_phrase(b: int) -> PhraseSet {
    if b == 0 {
        PhraseSet { main: ES_IST | UHR, advance_hour: false }
    } else if b == 1 {
        PhraseSet { main: FUENF | NACH, advance_hour: false }
    } else if b == 2 {
        PhraseSet { main: ZEHN | NACH, advance_hour: false }
    } else if b == 3 {
        PhraseSet { main: VIERTEL | NACH, advance_hour: false }
    } else if b == 4 {
        PhraseSet { main: ZWANZIG | NACH, advance_hour: false }
    } else if b == 5 {
        PhraseSet { main: FUENF | VOR | HALB, advance_hour: true }
    } else if b == 6 {
        PhraseSet { main: ES_IST | HALB, advance_hour: true }
    } else if b == 7 {
        PhraseSet { main: FUENF | NACH | HALB, advance_hour: true }
    } else if b == 8 {
        PhraseSet { main: ZEHN | NACH | HALB, advance_hour: true }
    } else if b == 9 {
        PhraseSet { main: ES_IST | DREI | VIERTEL, advance_hour: true }
    } else if b == 10 {
        PhraseSet { main: ZEHN | VOR, advance_hour: true }
    } else {
        PhraseSet { main: FUENF | VOR, advance_hour: true }
    }
}

/// The five-minute bucket a timestamp falls in. Kept as observed: the
/// bucket derives from the second field, not the minute.
pub open spec fn bucket_of(t: TimeOfDay) -> int {
    ((t.second as int) / 5) % 12
}

/// The hour word a timestamp selects: the hour in twelve-hour form,
/// advanced by one where the bucket's phrase speaks of the coming hour.
pub open spec fn hour_index(t: TimeOfDay) -> int {
    ((t.hour as int) % 12 + (if spec_phrase(bucket_of(t)).advance_hour {
        1int
    } else {
        0int
    })) % 12
}

/// The union of the driver lines of the phrase segments below `n` that are
/// in the set `p`.
pub open spec fn phrase_lines_upto(p: u32, n: int) -> u8
    decreases n,
{
    if n <= 0 {
        0
    } else if word_in(p, n - 1) {
        phrase_lines_upto(p, n - 1) | word_lines(n - 1)
    } else {
        phrase_lines_upto(p, n - 1)
    }
}

/// The union of the driver lines of all phrase segments in `p`.
pub open spec fn phrase_lines(p: u32) -> u8 {
    phrase_lines_upto(p, 10)
}

/// The multiplexed line mask a render drives: the union of the active
/// phrase's lines and the selected hour word's lines.
pub open spec fn render_mask(t: TimeOfDay) -> u8 {
    phrase_lines(spec_phrase(bucket_of(t)).main) | hour_lines(hour_index(t))
}

/// The word-enable writes of a render: each segment's enable is driven
/// active (low) iff the segment is in the phrase set.
pub open spec fn word_commands(p: u32) -> Seq<PinCommand> {
    Seq::new(10, |i: int| PinCommand::SetWordEnable { word: i as u8, high: !word_in(p, i) })
}

/// The hour-enable writes of a render: exactly the selected index is
/// driven active (low).
pub open spec fn hour_commands(h: int) -> Seq<PinCommand> {
    Seq::new(12, |i: int| PinCommand::SetHourEnable { index: i as u8, high: i != h })
}

/// The shared-line writes of a render: lines in the mask are driven low.
pub open spec fn line_commands(mask: u8) -> Seq<PinCommand> {
    Seq::new(8, |i: int| PinCommand::SetLine { line: i as u8, high: !line_in(mask, i) })
}

/// The fault-latch clear: master enable low, a short delay, high again.
/// It must follow all enable and line writes of the render.
pub open spec fn fault_clear_pulse() -> Seq<PinCommand> {
    seq![
        PinCommand::SetMasterEnable { high: false },
        PinCommand::DelayCycles { cycles: 200 },
        PinCommand::SetMasterEnable { high: true },
    ]
}

/// The full, strictly ordered call sequence of one render: word enables,
/// hour enables, shared lines, then the fault-clear pulse.
pub open spec fn spec_render(t: TimeOfDay) -> Seq<PinCommand> {
    word_commands(spec_phrase(bucket_of(t)).main) + hour_commands(hour_index(t)) + line_commands(
        render_mask(t),
    ) + fault_clear_pulse()
}

/// The call sequence that blanks the display at start-up: all words off,
/// the twelve-o'clock word selected, all lines driven low, under a master
/// enable held low until the writes are done.
pub open spec fn spec_init_commands() -> Seq<PinCommand> {
    seq![PinCommand::SetMasterEnable { high: false }] + word_commands(0) + hour_commands(0)
        + line_commands(0xff) + seq![PinCommand::SetMasterEnable { high: true }]
}

/// The lamp-test call sequence: all words off, the twelve- and the
/// two-o'clock words lit together on their shared lines, then the
/// fault-clear pulse.
pub open spec fn spec_test_commands() -> Seq<PinCommand> {
    word_commands(0) + hour_commands(13) + seq![
        PinCommand::SetHourEnable { index: 0, high: false },
        PinCommand::SetHourEnable { index: 2, high: false },
    ] + line_commands(hour_lines(0) | hour_lines(2)) + fault_clear_pulse()
}

/// A refresh is due iff the hour or the five-minute bucket changed since
/// the last render.
pub open spec fn spec_needs_update(cur: TimeOfDay, t: TimeOfDay) -> bool {
    cur.hour != t.hour || bucket_of(cur) != bucket_of(t)
}

/// One render at the specification level: the state left behind and the
/// commands issued. The commands depend on the timestamp alone.
pub open spec fn spec_set_time(d: WordDisplay, t: TimeOfDay) -> (WordDisplay, Seq<PinCommand>) {
    (WordDisplay { current: t }, spec_render(t))
}

/// The driver lines of one phrase word.
fn word_lines_at(w: u8) -> (r: u8)
    requires
        w < 10,
    ensures
        r == word_lines(w as int),
{
    if w == 0 {
        LINE1A | LINE1B
    } else if w == 1 {
        LINE2A
    } else if w == 2 {
        LINE2A
    } else if w == 3 {
        LINE2A | LINE2B
    } else if w == 4 {
        LINE3
    } else if w == 5 {
        LINE2A | LINE2B
    } else if w == 6 {
        LINE4
    } else if w == 7 {
        LINE4
    } else if w == 8 {
        LINE3
    } else {
        LINE4
    }
}

/// The driver lines of one hour word.
fn hour_lines_at(h: u8) -> (r: u8)
    requires
        h < 12,
    ensures
        r == hour_lines(h as int),
{
    if h == 0 || h == 6 || h == 7 {
        LINE5A | LINE5B
    } else {
        LINE5A
    }
}

/// The phrase entry of one five-minute bucket. Exactly one entry exists
/// for each bucket.
pub fn phrase_at(bucket: u8) -> (r: PhraseSet)
    requires
        bucket < 12,
    ensures
        r == spec_phrase(bucket as int),
{
    if bucket == 0 {
        PhraseSet { main: ES_IST | UHR, advance_hour: false }
    } else if bucket == 1 {
        PhraseSet { main: FUENF | NACH, advance_hour: false }
    } else if bucket == 2 {
        PhraseSet { main: ZEHN | NACH, advance_hour: false }
    } else if bucket == 3 {
        PhraseSet { main: VIERTEL | NACH, advance_hour: false }
    } else if bucket == 4 {
        PhraseSet { main: ZWANZIG | NACH, advance_hour: false }
    } else if bucket == 5 {
        PhraseSet { main: FUENF | VOR | HALB, advance_hour: true }
    } else if bucket == 6 {
        PhraseSet { main: ES_IST | HALB, advance_hour: true }
    } else if bucket == 7 {
        PhraseSet { main: FUENF | NACH | HALB, advance_hour: true }
    } else if bucket == 8 {
        PhraseSet { main: ZEHN | NACH | HALB, advance_hour: true }
    } else if bucket == 9 {
        PhraseSet { main: ES_IST | DREI | VIERTEL, advance_hour: true }
    } else if bucket == 10 {
        PhraseSet { main: ZEHN | VOR, advance_hour: true }
    } else {
        PhraseSet { main: FUENF | VOR, advance_hour: true }
    }
}

/// Write the ten word enables and collect the lines of the active words.
fn push_word_commands(cmds: &mut Vec<PinCommand>, phrase: u32) -> (lines: u8)
    ensures
        final(cmds)@ == old(cmds)@ + word_commands(phrase),
        lines == phrase_lines(phrase),
{
    let mut lines: u8 = 0;
    let mut w: u8 = 0;
    while w < 10
        invariant
            w <= 10,
            cmds@ == old(cmds)@ + word_commands(phrase).take(w as int),
            lines == phrase_lines_upto(phrase, w as int),
        decreases 10 - w,
    {
        let on = (phrase >> (w as u32)) & 1 == 1;
        if on {
            lines = lines | word_lines_at(w);
        }
        cmds.push(PinCommand::SetWordEnable { word: w, high: !on });
        proof {
            assert(word_commands(phrase).take((w + 1) as int) =~= word_commands(phrase).take(
                w as int,
            ).push(PinCommand::SetWordEnable { word: w, high: !word_in(phrase, w as int) }));
        }
        w = w + 1;
    }
    proof {
        assert(word_commands(phrase).take(10) =~= word_commands(phrase));
    }
    lines
}

/// Write the twelve hour enables, activating exactly the given index.
fn push_hour_commands(cmds: &mut Vec<PinCommand>, hour: u8)
    ensures
        final(cmds)@ == old(cmds)@ + hour_commands(hour as int),
{
    let mut i: u8 = 0;
    while i < 12
        invariant
            i <= 12,
            cmds@ == old(cmds)@ + hour_commands(hour as int).take(i as int),
        decreases 12 - i,
    {
        cmds.push(PinCommand::SetHourEnable { index: i, high: i != hour });
        proof {
            assert(hour_commands(hour as int).take((i + 1) as int) =~= hour_commands(
                hour as int,
            ).take(i as int).push(
                PinCommand::SetHourEnable { index: i, high: i as int != hour as int },
            ));
        }
        i = i + 1;
    }
    proof {
        assert(hour_commands(hour as int).take(12) =~= hour_commands(hour as int));
    }
}

/// Drive the eight shared lines to the inverted mask.
fn push_line_commands(cmds: &mut Vec<PinCommand>, mask: u8)
    ensures
        final(cmds)@ == old(cmds)@ + line_commands(mask),
{
    let mut i: u8 = 0;
    while i < 8
        invariant
            i <= 8,
            cmds@ == old(cmds)@ + line_commands(mask).take(i as int),
        decreases 8 - i,
    {
        let active = (mask >> i) & 1 == 1;
        cmds.push(PinCommand::SetLine { line: i, high: !active });
        proof {
            assert(line_commands(mask).take((i + 1) as int) =~= line_commands(mask).take(
                i as int,
            ).push(PinCommand::SetLine { line: i, high: !line_in(mask, i as int) }));
        }
        i = i + 1;
    }
    proof {
        assert(line_commands(mask).take(8) =~= line_commands(mask));
    }
}

/// Pulse the master enable low to clear the driver's fault latch.
fn push_fault_clear(cmds: &mut Vec<PinCommand>)
    ensures
        final(cmds)@ == old(cmds)@ + fault_clear_pulse(),
{
    cmds.push(PinCommand::SetMasterEnable { high: false });
    cmds.push(PinCommand::DelayCycles { cycles: 200 });
    cmds.push(PinCommand::SetMasterEnable { high: true });
    proof {
        assert(cmds@ =~= old(cmds)@ + fault_clear_pulse());
    }
}

/// The word display: remembers the last rendered time to decide when a
/// refresh is due. The pins themselves live with the caller, which
/// executes the returned command sequences in order.
pub struct WordDisplay {
    pub current: TimeOfDay,
}

impl WordDisplay {
    /// A blanked display showing midnight, with its start-up commands.
    pub fn init() -> (r: (WordDisplay, Vec<PinCommand>))
        ensures
            r.0.current == (TimeOfDay { hour: 0, minute: 0, second: 0 }),
            r.1@ == spec_init_commands(),
    {
        let mut cmds: Vec<PinCommand> = Vec::new();
        cmds.push(PinCommand::SetMasterEnable { high: false });
        proof {
            assert(cmds@ =~= seq![PinCommand::SetMasterEnable { high: false }]);
        }
        push_word_commands(&mut cmds, 0);
        push_hour_commands(&mut cmds, 0);
        push_line_commands(&mut cmds, 0xff);
        cmds.push(PinCommand::SetMasterEnable { high: true });
        proof {
            assert(cmds@ =~= spec_init_commands());
        }
        (WordDisplay { current: TimeOfDay { hour: 0, minute: 0, second: 0 } }, cmds)
    }

    /// True iff the hour or the five-minute bucket changed since the last
    /// render; the caller wraps the refresh in a brightness ramp.
    pub fn needs_update(&self, time: TimeOfDay) -> (r: bool)
        ensures
            r == spec_needs_update(self.current, time),
    {
        self.current.hour != time.hour || (self.current.second / 5) % 12 != (time.second / 5) % 12
    }

    /// Render a timestamp: look up the bucket's phrase, select the hour
    /// word, and issue the ordered call sequence, ending with the
    /// fault-clear pulse. The commands depend on the timestamp alone.
    pub fn set_time(&mut self, time: TimeOfDay) -> (cmds: Vec<PinCommand>)
        ensures
            *final(self) == spec_set_time(*old(self), time).0,
            cmds@ == spec_set_time(*old(self), time).1,
    {
        let bucket = (time.second / 5) % 12;
        let phrase = phrase_at(bucket);
        let hour_idx = ((time.hour % 12) + (if phrase.advance_hour {
            1
        } else {
            0
        })) % 12;
        let mut cmds: Vec<PinCommand> = Vec::new();
        let lines = push_word_commands(&mut cmds, phrase.main);
        push_hour_commands(&mut cmds, hour_idx);
        push_line_commands(&mut cmds, lines | hour_lines_at(hour_idx));
        push_fault_clear(&mut cmds);
        self.current = time;
        proof {
            assert(cmds@ =~= spec_render(time));
        }
        cmds
    }

    /// Lamp test: light the twelve- and two-o'clock words together. Leaves
    /// the remembered time untouched.
    pub fn test(&self) -> (cmds: Vec<PinCommand>)
        ensures
            cmds@ == spec_test_commands(),
    {
        let mut cmds: Vec<PinCommand> = Vec::new();
        push_word_commands(&mut cmds, 0);
        push_hour_commands(&mut cmds, 13);
        cmds.push(PinCommand::SetHourEnable { index: 0, high: false });
        cmds.push(PinCommand::SetHourEnable { index: 2, high: false });
        push_line_commands(&mut cmds, hour_lines_at(0) | hour_lines_at(2));
        push_fault_clear(&mut cmds);
        proof {
            assert(cmds@ =~= spec_test_commands());
        }
        cmds
    }
}

/// The four thermometer-coded minute indicator lines.
pub open spec fn minute_commands(t: TimeOfDay) -> Seq<PinCommand> {
    Seq::new(
        4,
        |i: int| PinCommand::SetMinuteLine { index: i as u8, high: (t.minute as int) % 5 + 1 < i },
    )
}

/// The minute sub-display: four independently driven indicator lines, no
/// multiplexing and no fault-latch protocol.
pub struct MinuteDisplay {
}

impl MinuteDisplay {
    /// A minute display with all four lines driven low.
    pub fn init() -> (r: (MinuteDisplay, Vec<PinCommand>))
        ensures
            r.1@ == Seq::new(4, |i: int| PinCommand::SetMinuteLine { index: i as u8, high: false }),
    {
        let mut cmds: Vec<PinCommand> = Vec::new();
        let mut i: u8 = 0;
        while i < 4
            invariant
                i <= 4,
                cmds@ == Seq::new(
                    4,
                    |j: int| PinCommand::SetMinuteLine { index: j as u8, high: false },
                ).take(i as int),
            decreases 4 - i,
        {
            cmds.push(PinCommand::SetMinuteLine { index: i, high: false });
            proof {
                let all = Seq::new(
                    4,
                    |j: int| PinCommand::SetMinuteLine { index: j as u8, high: false },
                );
                assert(all.take((i + 1) as int) =~= all.take(i as int).push(
                    PinCommand::SetMinuteLine { index: i, high: false },
                ));
            }
            i = i + 1;
        }
        proof {
            let all = Seq::new(
                4,
                |j: int| PinCommand::SetMinuteLine { index: j as u8, high: false },
            );
            assert(all.take(4) =~= all);
        }
        (MinuteDisplay {  }, cmds)
    }

    /// Drive the four indicator lines for the minute's remainder within
    /// its five-minute bucket.
    pub fn set_time(&self, time: TimeOfDay) -> (cmds: Vec<PinCommand>)
        ensures
            cmds@ == minute_commands(time),
    {
        let m = time.minute % 5;
        let mut cmds: Vec<PinCommand> = Vec::new();
        let mut i: u8 = 0;
        while i < 4
            invariant
                i <= 4,
                m == time.minute % 5,
                cmds@ == minute_commands(time).take(i as int),
            decreases 4 - i,
        {
            cmds.push(PinCommand::SetMinuteLine { index: i, high: m + 1 < i });
            proof {
                assert(minute_commands(time).take((i + 1) as int) =~= minute_commands(time).take(
                    i as int,
                ).push(
                    PinCommand::SetMinuteLine {
                        index: i,
                        high: (time.minute as int) % 5 + 1 < i as int,
                    },
                ));
            }
            i = i + 1;
        }
        proof {
            assert(minute_commands(time).take(4) =~= minute_commands(time));
        }
        cmds
    }
}

/// Rendering is idempotent: rendering a timestamp and rendering it again
/// from the state that left behind yields the identical command sequence,
/// the identical line mask, and the identical state.
pub proof fn lemma_render_idempotent(d: WordDisplay, t: TimeOfDay)
    ensures
        spec_set_time(spec_set_time(d, t).0, t).1 == spec_set_time(d, t).1,
        spec_set_time(spec_set_time(d, t).0, t).0 == spec_set_time(d, t).0,
{
}

/// Mutual exclusion of the hour words: a render drives the hour enable of
/// exactly the selected index active (low) and the other eleven inactive
/// (high); each five-minute bucket selects exactly its one phrase entry.
pub proof fn lemma_hour_word_exclusive(t: TimeOfDay)
    ensures
        0 <= hour_index(t) < 12,
        forall|i: int|
            0 <= i < 12 ==> #[trigger] spec_render(t)[10 + i] == (PinCommand::SetHourEnable {
                index: i as u8,
                high: i != hour_index(t),
            }),
{
    assert forall|i: int| 0 <= i < 12 implies #[trigger] spec_render(t)[10 + i]
        == (PinCommand::SetHourEnable { index: i as u8, high: i != hour_index(t) }) by {
        assert(spec_render(t)[10 + i] == hour_commands(hour_index(t))[i]);
    }
}

/// A refresh is due exactly across a bucket or hour boundary: two
/// timestamps in the same five-minute bucket and the same hour never
/// trigger one, two that differ in bucket or hour always do.
pub proof fn lemma_needs_update_boundary(cur: TimeOfDay, t: TimeOfDay)
    ensures
        spec_needs_update(cur, t) <==> !(cur.hour == t.hour && bucket_of(cur) == bucket_of(t)),
{
}

} // verus!
