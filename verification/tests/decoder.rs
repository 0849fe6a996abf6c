use wordclock::dcf77::{
    classify_edge, ClassifiedEvent, DCF77StateWrapper, Error, NowError, DCF77,
};
use wordclock::calendar::DecodedTime;

/// Even-parity fold of bits `lo ..= hi`.
fn parity(f: u64, lo: u32, hi: u32) -> bool {
    let mut p = false;
    for i in lo..=hi {
        p ^= (f >> i) & 1 == 1;
    }
    p
}

/// Build a frame whose BCD fields encode the given values, with even
/// parity on all three protected ranges. Bit 50 is shared between the
/// month's tens digit and the year's lowest units bit, so only dates where
/// `month / 10 == (year % 10) % 2` are encodable.
fn encode_frame(minute: u32, hour: u32, day: u32, month: u32, year: u32) -> u64 {
    let mu = (minute % 10) as u64;
    let mt = (minute / 10) as u64;
    let hu = (hour % 10) as u64;
    let ht = (hour / 10) as u64;
    let du = (day % 10) as u64;
    let dt = (day / 10) as u64;
    let mou = (month % 10) as u64;
    let yu = (year % 10) as u64;
    let yt = (year / 10) as u64;
    assert_eq!(month / 10, ((year % 10) % 2) as u32, "bit 50 is shared");
    let mut f: u64 = 0;
    f |= mu << 21;
    f |= mt << 26;
    f |= hu << 29;
    f |= ht << 34;
    f |= du << 36;
    f |= dt << 41;
    f |= mou << 45;
    f |= yu << 50;
    f |= yt << 55;
    if parity(f, 21, 28) {
        f |= 1 << 25;
    }
    if parity(f, 29, 35) {
        f |= 1 << 33;
    }
    if parity(f, 36, 58) {
        f |= 1 << 43;
    }
    f
}

/// Feed one complete frame to a receiver whose input is not inverted:
/// the minute gap, then each bit's pulse and second boundary.
fn feed_frame(d: &mut DCF77, f: u64) {
    d.update_state(false, 1900).unwrap();
    for i in 0..59 {
        let bit = (f >> i) & 1 == 1;
        d.update_state(true, if bit { 200 } else { 100 }).unwrap();
        if i < 58 {
            d.update_state(false, 900).unwrap();
        }
    }
    d.update_state(false, 1900).unwrap();
}

/// The same stream fed to the bare decoder through the classifier.
fn feed_frame_wrapper(mut w: DCF77StateWrapper, f: u64) -> DCF77StateWrapper {
    w = w.update(classify_edge(false, 1900));
    for i in 0..59 {
        let bit = (f >> i) & 1 == 1;
        w = w.update(classify_edge(true, if bit { 200 } else { 100 }));
        if i < 58 {
            w = w.update(classify_edge(false, 900));
        }
    }
    w.update(classify_edge(false, 1900))
}

#[test]
fn classifier_windows() {
    assert_eq!(classify_edge(true, 0), ClassifiedEvent::Bit { value: false });
    assert_eq!(classify_edge(true, 149), ClassifiedEvent::Bit { value: false });
    assert_eq!(classify_edge(true, 150), ClassifiedEvent::Bit { value: true });
    assert_eq!(classify_edge(true, 249), ClassifiedEvent::Bit { value: true });
    assert_eq!(classify_edge(true, 250), ClassifiedEvent::FramingError);
    assert_eq!(classify_edge(false, 900), ClassifiedEvent::SecondBoundary);
    assert_eq!(classify_edge(false, 1800), ClassifiedEvent::SecondBoundary);
    assert_eq!(classify_edge(false, 1801), ClassifiedEvent::MinuteBoundary);
    assert_eq!(classify_edge(false, 2199), ClassifiedEvent::MinuteBoundary);
    assert_eq!(classify_edge(false, 2200), ClassifiedEvent::SecondBoundary);
}

#[test]
fn now_blocks_before_sync() {
    let d = DCF77::init(false);
    assert_eq!(d.now(), Err(NowError::WouldBlock));
}

#[test]
fn full_frame_round_trip() {
    let f = encode_frame(19, 11, 5, 3, 20);
    let mut d = DCF77::init(false);
    feed_frame(&mut d, f);
    assert_eq!(
        d.now(),
        Ok(DecodedTime { year: 20, month: 3, day: 5, hour: 11, minute: 19, second: 0 })
    );
}

#[test]
fn second_counter_advances_after_commit() {
    let f = encode_frame(19, 11, 5, 3, 20);
    let mut d = DCF77::init(false);
    feed_frame(&mut d, f);
    // one more second: bit pulse then second boundary
    d.update_state(true, 100).unwrap();
    d.update_state(false, 900).unwrap();
    assert_eq!(
        d.now(),
        Ok(DecodedTime { year: 20, month: 3, day: 5, hour: 11, minute: 19, second: 1 })
    );
}

#[test]
fn inverted_input_decodes_too() {
    let f = encode_frame(34, 7, 28, 12, 21);
    let mut d = DCF77::init(true);
    // with an inverted input the levels are swapped
    d.update_state(true, 1900).unwrap();
    for i in 0..59 {
        let bit = (f >> i) & 1 == 1;
        d.update_state(false, if bit { 200 } else { 100 }).unwrap();
        if i < 58 {
            d.update_state(true, 900).unwrap();
        }
    }
    d.update_state(true, 1900).unwrap();
    assert_eq!(
        d.now(),
        Ok(DecodedTime { year: 21, month: 12, day: 28, hour: 7, minute: 34, second: 0 })
    );
}

#[test]
fn hour_parity_flip_rejected_and_frame_kept() {
    let f = encode_frame(19, 11, 5, 3, 20) ^ (1 << 33);
    let mut d = DCF77::init(false);
    feed_frame(&mut d, f);
    assert_eq!(d.now(), Err(NowError::Other(Error::ParityErrorHour)));
    // the query reads the decoder without touching it
    assert_eq!(d.now(), Err(NowError::Other(Error::ParityErrorHour)));
    let w = feed_frame_wrapper(DCF77StateWrapper::new(), f);
    assert_eq!(w.current_bits(), f);
}

#[test]
fn minute_parity_flip_rejected() {
    let f = encode_frame(19, 11, 5, 3, 20) ^ (1 << 25);
    let mut d = DCF77::init(false);
    feed_frame(&mut d, f);
    assert_eq!(d.now(), Err(NowError::Other(Error::ParityErrorMinute)));
}

#[test]
fn date_parity_flip_rejected() {
    let f = encode_frame(19, 11, 5, 3, 20) ^ (1 << 43);
    let mut d = DCF77::init(false);
    feed_frame(&mut d, f);
    assert_eq!(d.now(), Err(NowError::Other(Error::ParityErrorDate)));
}

#[test]
fn data_bit_flip_names_its_field() {
    // a flipped data bit fails its own range's parity: bit 29 is the
    // hour's lowest units bit
    let f = encode_frame(19, 11, 5, 3, 20) ^ (1 << 29);
    let mut d = DCF77::init(false);
    feed_frame(&mut d, f);
    assert_eq!(d.now(), Err(NowError::Other(Error::ParityErrorHour)));
}

#[test]
fn all_zero_frame_is_invalid_date() {
    let mut d = DCF77::init(false);
    feed_frame(&mut d, 0);
    assert_eq!(d.now(), Err(NowError::Other(Error::InvalidDate)));
}

#[test]
fn out_of_range_hour_is_invalid_time() {
    let f = encode_frame(19, 25, 5, 3, 20);
    let mut d = DCF77::init(false);
    feed_frame(&mut d, f);
    assert_eq!(d.now(), Err(NowError::Other(Error::InvalidTime)));
}

#[test]
fn midframe_minute_boundary_resynchronizes() {
    let mut d = DCF77::init(false);
    d.update_state(false, 1900).unwrap();
    // a few bits into the frame
    for _ in 0..5 {
        d.update_state(true, 100).unwrap();
        d.update_state(false, 900).unwrap();
    }
    // the boundary arrives early, while a bit is expected: restart without
    // committing, no panic, still no valid time
    d.update_state(false, 1900).unwrap();
    // a complete frame afterwards decodes normally
    let f = encode_frame(19, 11, 5, 3, 20);
    for i in 0..59 {
        let bit = (f >> i) & 1 == 1;
        d.update_state(true, if bit { 200 } else { 100 }).unwrap();
        if i < 58 {
            d.update_state(false, 900).unwrap();
        }
    }
    d.update_state(false, 1900).unwrap();
    assert_eq!(
        d.now(),
        Ok(DecodedTime { year: 20, month: 3, day: 5, hour: 11, minute: 19, second: 0 })
    );
}

#[test]
fn overlong_pulse_is_a_protocol_error() {
    let mut d = DCF77::init(false);
    d.update_state(false, 1900).unwrap();
    assert_eq!(d.update_state(true, 300), Err(Error::ProtocolError));
    // framing is lost again
    assert_eq!(d.now(), Err(NowError::WouldBlock));
}

#[test]
fn unexpected_pulse_end_is_a_state_change_error() {
    let mut d = DCF77::init(false);
    d.update_state(false, 1900).unwrap();
    d.update_state(true, 100).unwrap();
    // a rising edge while a falling one was expected
    assert_eq!(d.update_state(true, 100), Err(Error::StateChangeError));
    assert_eq!(d.now(), Err(NowError::WouldBlock));
}

#[test]
fn events_before_sync_are_discarded() {
    let mut d = DCF77::init(false);
    d.update_state(true, 100).unwrap();
    d.update_state(false, 900).unwrap();
    d.update_state(true, 300).unwrap();
    assert_eq!(d.now(), Err(NowError::WouldBlock));
}
