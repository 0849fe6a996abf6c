use wordclock::calendar::TimeOfDay;
use wordclock::display::{
    MinuteDisplay, PinCommand, WordDisplay, phrase_at, DREI, ES_IST, FUENF, HALB, NACH, UHR,
    VIERTEL, VOR, ZEHN, ZWANZIG,
};

fn time(hour: u8, minute: u8, second: u8) -> TimeOfDay {
    TimeOfDay { hour, minute, second }
}

/// The word-enable writes are the first ten commands; active is low.
fn active_words(cmds: &[PinCommand]) -> Vec<u8> {
    let mut out = Vec::new();
    for c in &cmds[0..10] {
        match c {
            PinCommand::SetWordEnable { word, high } => {
                if !high {
                    out.push(*word);
                }
            }
            _ => panic!("expected a word enable"),
        }
    }
    out
}

/// The hour-enable writes are the next twelve commands; active is low.
fn active_hours(cmds: &[PinCommand]) -> Vec<u8> {
    let mut out = Vec::new();
    for c in &cmds[10..22] {
        match c {
            PinCommand::SetHourEnable { index, high } => {
                if !high {
                    out.push(*index);
                }
            }
            _ => panic!("expected an hour enable"),
        }
    }
    out
}

/// The shared-line writes follow; the mask is driven inverted.
fn driven_mask(cmds: &[PinCommand]) -> u8 {
    let mut mask: u8 = 0;
    for c in &cmds[22..30] {
        match c {
            PinCommand::SetLine { line, high } => {
                if !high {
                    mask |= 1 << line;
                }
            }
            _ => panic!("expected a line write"),
        }
    }
    mask
}

#[test]
fn render_is_idempotent() {
    let (mut d, _) = WordDisplay::init();
    let t = time(9, 42, 13);
    let first = d.set_time(t);
    let second = d.set_time(t);
    assert_eq!(first, second);
}

#[test]
fn render_sequence_shape_and_order() {
    let (mut d, _) = WordDisplay::init();
    let cmds = d.set_time(time(0, 0, 0));
    assert_eq!(cmds.len(), 33);
    // enables and lines first, the fault-clear pulse strictly last
    assert_eq!(cmds[30], PinCommand::SetMasterEnable { high: false });
    assert_eq!(cmds[31], PinCommand::DelayCycles { cycles: 200 });
    assert_eq!(cmds[32], PinCommand::SetMasterEnable { high: true });
}

#[test]
fn exactly_one_hour_word_active() {
    let (mut d, _) = WordDisplay::init();
    for hour in 0..24u8 {
        for second in 0..60u8 {
            let cmds = d.set_time(time(hour, 0, second));
            assert_eq!(active_hours(&cmds).len(), 1);
        }
    }
}

#[test]
fn bucket_five_selects_fuenf_vor_halb_and_advances_hour() {
    let p = phrase_at(5);
    assert_eq!(p.main, FUENF | VOR | HALB);
    assert!(p.advance_hour);
    // at ten o'clock the phrase speaks of eleven, not ten
    let (mut d, _) = WordDisplay::init();
    let cmds = d.set_time(time(10, 27, 27));
    assert_eq!(active_words(&cmds), vec![1, 6, 8]);
    assert_eq!(active_hours(&cmds), vec![11]);
    // fuenf and vor/halb lines, plus the eleven-o'clock word's line
    assert_eq!(driven_mask(&cmds), 0x04 | 0x20 | 0x10 | 0x40);
}

#[test]
fn full_hour_shows_es_ist_uhr() {
    let (mut d, _) = WordDisplay::init();
    let cmds = d.set_time(time(15, 0, 0));
    assert_eq!(active_words(&cmds), vec![0, 9]);
    assert_eq!(active_hours(&cmds), vec![3]);
    // es-ist on both line-one halves, uhr on line four, three o'clock word
    assert_eq!(driven_mask(&cmds), 0x01 | 0x02 | 0x20 | 0x40);
}

#[test]
fn twelve_oclock_word_wraps() {
    let (mut d, _) = WordDisplay::init();
    // hour 23 with an advancing bucket wraps to the twelve-o'clock word
    let cmds = d.set_time(time(23, 56, 56));
    assert_eq!(active_hours(&cmds), vec![0]);
}

#[test]
fn phrase_table_complete() {
    let expected = [
        (ES_IST | UHR, false),
        (FUENF | NACH, false),
        (ZEHN | NACH, false),
        (VIERTEL | NACH, false),
        (ZWANZIG | NACH, false),
        (FUENF | VOR | HALB, true),
        (ES_IST | HALB, true),
        (FUENF | NACH | HALB, true),
        (ZEHN | NACH | HALB, true),
        (ES_IST | DREI | VIERTEL, true),
        (ZEHN | VOR, true),
        (FUENF | VOR, true),
    ];
    for b in 0..12u8 {
        let p = phrase_at(b);
        assert_eq!((p.main, p.advance_hour), expected[b as usize]);
    }
}

#[test]
fn needs_update_within_and_across_buckets() {
    let (mut d, _) = WordDisplay::init();
    d.set_time(time(10, 27, 27));
    // same hour, same bucket: seconds 25 ..= 29
    assert!(!d.needs_update(time(10, 28, 25)));
    assert!(!d.needs_update(time(10, 29, 29)));
    // across the bucket boundary
    assert!(d.needs_update(time(10, 30, 30)));
    assert!(d.needs_update(time(10, 24, 24)));
    // across the hour boundary, same bucket
    assert!(d.needs_update(time(11, 27, 27)));
}

#[test]
fn init_blanks_the_display() {
    let (d, cmds) = WordDisplay::init();
    assert_eq!(d.current, time(0, 0, 0));
    assert_eq!(cmds.len(), 32);
    assert_eq!(cmds[0], PinCommand::SetMasterEnable { high: false });
    // all ten words inactive
    for c in &cmds[1..11] {
        match c {
            PinCommand::SetWordEnable { high, .. } => assert!(high),
            _ => panic!("expected a word enable"),
        }
    }
    // all eight lines driven low
    for c in &cmds[23..31] {
        match c {
            PinCommand::SetLine { high, .. } => assert!(!high),
            _ => panic!("expected a line write"),
        }
    }
    assert_eq!(cmds[31], PinCommand::SetMasterEnable { high: true });
}

#[test]
fn lamp_test_lights_two_hour_words() {
    let (d, _) = WordDisplay::init();
    let cmds = d.test();
    assert_eq!(cmds.len(), 35);
    // within the twelve hour writes none is active; two follow explicitly
    for c in &cmds[10..22] {
        match c {
            PinCommand::SetHourEnable { high, .. } => assert!(high),
            _ => panic!("expected an hour enable"),
        }
    }
    assert_eq!(cmds[22], PinCommand::SetHourEnable { index: 0, high: false });
    assert_eq!(cmds[23], PinCommand::SetHourEnable { index: 2, high: false });
    // their shared lines are driven low
    let mut mask: u8 = 0;
    for c in &cmds[24..32] {
        match c {
            PinCommand::SetLine { line, high } => {
                if !high {
                    mask |= 1 << line;
                }
            }
            _ => panic!("expected a line write"),
        }
    }
    assert_eq!(mask, 0xc0);
}

#[test]
fn minute_display_thermometer_code() {
    let (md, init_cmds) = MinuteDisplay::init();
    assert_eq!(init_cmds.len(), 4);
    for c in &init_cmds {
        match c {
            PinCommand::SetMinuteLine { high, .. } => assert!(!high),
            _ => panic!("expected a minute line"),
        }
    }
    // remainder 0: lines 2 and 3 are high
    let cmds = md.set_time(time(10, 25, 0));
    let highs: Vec<bool> = cmds
        .iter()
        .map(|c| match c {
            PinCommand::SetMinuteLine { high, .. } => *high,
            _ => panic!("expected a minute line"),
        })
        .collect();
    assert_eq!(highs, vec![false, false, true, true]);
    // remainder 4: no line is high
    let cmds = md.set_time(time(10, 29, 0));
    let highs: Vec<bool> = cmds
        .iter()
        .map(|c| match c {
            PinCommand::SetMinuteLine { high, .. } => *high,
            _ => panic!("expected a minute line"),
        })
        .collect();
    assert_eq!(highs, vec![false, false, false, false]);
}
