use softplc::analog::{
    current_from_raw, AITerm, AITerm4Ch, Analog4ChStatuses, Analog4ChValues, El30xxStatuses,
    InputRange, VoltageOrCurrent,
};
use softplc::bits::Bits;
use softplc::channel::{ChannelInput, TermChannel, TermError};
use softplc::io_defs::el3024_handler;
use softplc::observable::{Checker, ElectricalObservable, Getter};

fn analog_image(blocks: [[u8; 4]; 4]) -> Bits {
    let mut bytes: Vec<u8> = Vec::new();
    for b in blocks.iter() {
        bytes.extend_from_slice(b);
    }
    Bits::from_bytes(&bytes)
}

fn current_of(t: &AITerm, c: TermChannel) -> u32 {
    t.read(Some(ChannelInput::Channel(c))).ok().expect("read").pick_current().expect("current")
}

#[test]
fn current_scaling_exact_values() {
    assert_eq!(current_from_raw(0), 4_000_000);
    assert_eq!(current_from_raw(30518), 20_000_000);
    assert_eq!(current_from_raw(15259), 12_000_000);
    assert_eq!(current_from_raw(1), 4_000_524);
    assert_eq!(current_from_raw(4660), 6_443_148);
    assert_eq!(current_from_raw(65535), 38_358_739);
}

#[test]
fn analog_zero_reads_four_milliamps() {
    let mut t = AITerm::new(4);
    t.refresh(&analog_image([[0x00, 0x80, 0x00, 0x00], [0; 4], [0; 4], [0; 4]]));
    let na = current_of(&t, TermChannel::Ch1);
    assert_eq!(na, 4_000_000);
    assert_eq!(na as f32 / 1.0e6, 4.0);
}

#[test]
fn analog_full_scale_reads_twenty_milliamps() {
    let mut t = AITerm::new(4);
    t.refresh(&analog_image([[0x00, 0x80, 0x36, 0x77], [0; 4], [0; 4], [0; 4]]));
    let na = current_of(&t, TermChannel::Ch1);
    assert_eq!(na, 20_000_000);
    assert_eq!(na as f32 / 1.0e6, 20.0);
    assert_eq!(current_of(&t, TermChannel::Ch2), 4_000_000);
}

#[test]
fn analog_unset_toggle_keeps_value_and_status() {
    let mut t = AITerm::new(4);
    t.refresh(&analog_image([[0x5b, 0x40, 0x34, 0x12], [0; 4], [0x01, 0x00, 0xff, 0xff], [0; 4]]));
    assert_eq!(t.ch_values.to_bools(), vec![false; 64]);
    assert_eq!(t.ch_statuses.to_bools(), vec![false; 64]);
    assert_eq!(current_of(&t, TermChannel::Ch1), 4_000_000);
    assert_eq!(current_of(&t, TermChannel::Ch3), 4_000_000);
}

#[test]
fn analog_same_toggle_keeps_previous_sample() {
    let mut t = AITerm::new(4);
    t.refresh(&analog_image([[0x00, 0x80, 0x36, 0x77], [0; 4], [0; 4], [0; 4]]));
    t.refresh(&analog_image([[0x41, 0x80, 0xff, 0xff], [0; 4], [0; 4], [0; 4]]));
    assert_eq!(current_of(&t, TermChannel::Ch1), 20_000_000);
    let status = t.check(Some(ChannelInput::Channel(TermChannel::Ch1))).expect("status");
    assert_eq!(status.ok().expect("bits").to_bytes(), vec![0x00, 0x80]);
}

#[test]
fn analog_flipped_toggle_takes_new_sample() {
    let mut t = AITerm::new(4);
    t.refresh(&analog_image([[0; 4], [0x00, 0x80, 0x36, 0x77], [0; 4], [0; 4]]));
    assert_eq!(current_of(&t, TermChannel::Ch2), 20_000_000);
    assert_eq!(t.ch_toggles.to_bools(), vec![false, true, false, false]);
    t.refresh(&analog_image([[0; 4], [0x7f, 0x00, 0xff, 0xff], [0; 4], [0; 4]]));
    assert_eq!(current_of(&t, TermChannel::Ch2), 20_000_000);
    assert_eq!(t.ch_toggles.to_bools(), vec![false; 4]);
    t.refresh(&analog_image([[0; 4], [0x02, 0x80, 0x9b, 0x3b], [0; 4], [0; 4]]));
    assert_eq!(current_of(&t, TermChannel::Ch2), 12_000_000);
    let status = t.check(Some(ChannelInput::Index(1))).expect("status");
    assert_eq!(status.ok().expect("bits").to_bytes(), vec![0x02, 0x80]);
    assert_eq!(current_of(&t, TermChannel::Ch1), 4_000_000);
}

#[test]
fn analog_unset_toggle_after_a_sample_keeps_the_sample() {
    let mut t = AITerm::new(4);
    t.refresh(&analog_image([[0x00, 0x80, 0x36, 0x77], [0; 4], [0; 4], [0; 4]]));
    t.refresh(&analog_image([[0x00, 0x00, 0x10, 0x00], [0; 4], [0; 4], [0; 4]]));
    assert_eq!(current_of(&t, TermChannel::Ch1), 20_000_000);
    let status = t.check(Some(ChannelInput::Channel(TermChannel::Ch1))).expect("status");
    let bits = status.ok().expect("bits");
    assert_eq!(bits.get(15), Some(true));
    assert_eq!(bits.to_bytes(), vec![0x00, 0x80]);
    assert_eq!(t.ch_values.to_bytes()[0..2].to_vec(), vec![0x36, 0x77]);
    t.refresh(&analog_image([[0x5b, 0x40, 0xff, 0xff], [0; 4], [0; 4], [0; 4]]));
    assert_eq!(current_of(&t, TermChannel::Ch1), 20_000_000);
    let status = t.check(Some(ChannelInput::Channel(TermChannel::Ch1))).expect("status");
    assert_eq!(status.ok().expect("bits").to_bytes(), vec![0x00, 0x80]);
}

#[test]
fn el3024_unset_toggle_after_a_sample_keeps_the_sample() {
    let mut t = AITerm4Ch::new();
    let first = analog_image([[0; 4], [0x5b, 0xc0, 0x36, 0x77], [0; 4], [0; 4]]);
    el3024_handler(&mut t, &first, TermChannel::Ch2);
    let taken = t.ch_statuses.ch2;
    assert!(taken.txpdo_toggle);
    assert!(t.ch_toggles.ch2);
    let second = analog_image([[0; 4], [0x24, 0x00, 0x10, 0x00], [0; 4], [0; 4]]);
    el3024_handler(&mut t, &second, TermChannel::Ch2);
    assert_eq!(t.ch_statuses.ch2, taken);
    assert_eq!(t.ch_values.ch2.to_bytes(), vec![0x36, 0x77]);
    assert!(!t.ch_toggles.ch2);
    let r = t.read(Some(ChannelInput::Channel(TermChannel::Ch2))).ok().expect("read");
    assert_eq!(r.pick_current(), Some(20_000_000));
    let third = analog_image([[0; 4], [0x00, 0x80, 0x9b, 0x3b], [0; 4], [0; 4]]);
    el3024_handler(&mut t, &third, TermChannel::Ch2);
    let r = t.read(Some(ChannelInput::Channel(TermChannel::Ch2))).ok().expect("read");
    assert_eq!(r.pick_current(), Some(12_000_000));
    assert!(!t.ch_statuses.ch2.err);
    let fourth = analog_image([[0; 4], [0x00, 0x80, 0x00, 0x00], [0; 4], [0; 4]]);
    el3024_handler(&mut t, &fourth, TermChannel::Ch2);
    let r = t.read(Some(ChannelInput::Channel(TermChannel::Ch2))).ok().expect("read");
    assert_eq!(r.pick_current(), Some(12_000_000));
    assert_eq!(t.ch_statuses.ch1, El30xxStatuses::new());
    assert!(!t.ch_toggles.ch1);
}

#[test]
fn analog_channels_beyond_four_are_invalid() {
    let t = AITerm::new(4);
    let r = t.read(Some(ChannelInput::Channel(TermChannel::Ch5)));
    assert_eq!(r.err(), Some(TermError::InvalidChannel));
    let r = t.read(Some(ChannelInput::Index(4)));
    assert_eq!(r.err(), Some(TermError::InvalidChannel));
    assert_eq!(t.read(None).err(), Some(TermError::ChannelRequired));
    let c = t.check(Some(ChannelInput::Channel(TermChannel::Ch16))).expect("some");
    assert_eq!(c.err(), Some(TermError::InvalidChannel));
    let c = t.check(None).expect("some");
    assert_eq!(c.err(), Some(TermError::ChannelRequired));
}

#[test]
fn analog_channels_beyond_declared_count_are_invalid() {
    let t = AITerm::new(2);
    assert_eq!(t.ch_values.len(), 32);
    assert_eq!(t.ch_statuses.len(), 32);
    assert_eq!(t.ch_toggles.to_bools(), vec![false; 2]);
    let r = t.read(Some(ChannelInput::Channel(TermChannel::Ch3)));
    assert_eq!(r.err(), Some(TermError::InvalidChannel));
    let r = t.read(Some(ChannelInput::Channel(TermChannel::Ch2)));
    assert_eq!(r.ok().and_then(|o| o.pick_current()), Some(4_000_000));
}

#[test]
fn analog_new_is_current_four_to_twenty() {
    let t = AITerm::new(4);
    assert_eq!(t.v_or_i, VoltageOrCurrent::Current);
    assert_eq!(t.input_range, InputRange::Current_4_20mA);
    assert_eq!(t.num_of_channels, 4);
    let t4 = AITerm4Ch::new();
    assert_eq!(t4.v_or_i, VoltageOrCurrent::Current);
    assert_eq!(t4.input_range, InputRange::Current_4_20mA);
    assert_eq!(t4.num_of_channels, 4);
    assert_eq!(t4.ch_values.ch3.to_bools(), vec![false; 16]);
    assert_eq!(t4.ch_statuses.ch2, El30xxStatuses::new());
    assert_eq!(Analog4ChStatuses::new().ch4, El30xxStatuses::new());
    assert_eq!(Analog4ChValues::new().ch1.len(), 16);
    assert!(!El30xxStatuses::new().txpdo_toggle);
    assert_eq!(El30xxStatuses::new().limit1, 0);
}

#[test]
fn el3024_handler_decodes_a_fresh_block() {
    let mut t = AITerm4Ch::new();
    let image = analog_image([[0x5b, 0xc0, 0x34, 0x12], [0; 4], [0; 4], [0; 4]]);
    el3024_handler(&mut t, &image, TermChannel::Ch1);
    let s = t.ch_statuses.ch1;
    assert!(s.txpdo_toggle);
    assert!(s.txpdo_state);
    assert!(s.err);
    assert_eq!(s.limit1, 2);
    assert_eq!(s.limit2, 1);
    assert!(s.underrange);
    assert!(s.overrange);
    assert_eq!(t.ch_values.ch1.to_bytes(), vec![0x34, 0x12]);
    let r = t.read(Some(ChannelInput::Channel(TermChannel::Ch1))).ok().expect("read");
    assert_eq!(r.pick_current(), Some(6_443_148));
    assert!(matches!(r, ElectricalObservable::Current(6_443_148)));
    assert_eq!(t.ch_statuses.ch2, El30xxStatuses::new());
    assert_eq!(t.ch_values.ch2.to_bools(), vec![false; 16]);
}

#[test]
fn el3024_handler_keeps_channel_without_new_sample() {
    let mut t = AITerm4Ch::new();
    let image = analog_image([[0; 4], [0; 4], [0x7f, 0x40, 0xff, 0xff], [0; 4]]);
    el3024_handler(&mut t, &image, TermChannel::Ch3);
    assert_eq!(t.ch_statuses.ch3, El30xxStatuses::new());
    assert_eq!(t.ch_values.ch3.to_bools(), vec![false; 16]);
    let r = t.read(Some(ChannelInput::Channel(TermChannel::Ch3))).ok().expect("read");
    assert_eq!(r.pick_current(), Some(4_000_000));
}

#[test]
fn el3024_check_reports_nine_flags() {
    let mut t = AITerm4Ch::new();
    let image = analog_image([[0; 4], [0; 4], [0; 4], [0x5b, 0xc0, 0x00, 0x00]]);
    el3024_handler(&mut t, &image, TermChannel::Ch4);
    let flags = t.check(Some(ChannelInput::Channel(TermChannel::Ch4))).expect("some");
    assert_eq!(
        flags.ok().expect("bits").to_bools(),
        vec![true, true, true, true, false, false, true, true, true]
    );
    let cleared = t.check(Some(ChannelInput::Index(0))).expect("some");
    assert_eq!(cleared.ok().expect("bits").to_bools(), vec![false; 9]);
    let bad = t.check(Some(ChannelInput::Index(4))).expect("some");
    assert_eq!(bad.err(), Some(TermError::InvalidChannel));
    assert_eq!(t.read(Some(ChannelInput::Index(4))).err(), Some(TermError::InvalidChannel));
    assert_eq!(t.read(None).err(), Some(TermError::ChannelRequired));
}

#[test]
fn status_decode_and_flags() {
    let block = Bits::from_bytes(&[0x24, 0x80, 0, 0]);
    let s = El30xxStatuses::decode(&block);
    assert!(s.txpdo_toggle);
    assert!(!s.txpdo_state);
    assert!(!s.err);
    assert_eq!(s.limit1, 1);
    assert_eq!(s.limit2, 2);
    assert!(!s.underrange);
    assert!(!s.overrange);
    assert_eq!(
        s.to_bits().to_bools(),
        vec![true, false, false, false, true, true, false, false, false]
    );
}
