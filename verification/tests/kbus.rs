use softplc::bits::Bits;
use softplc::channel::{ChannelInput, TermChannel, TermError};
use softplc::io_defs::{
    kl6581_input_handler, kl6581_output_handler, el1889_handler, el2889_handler, term_kl1889,
    term_kl2889, term_kl6581,
};
use softplc::digital::{DITerm, DOTerm};
use softplc::kbus::{KBusTerm, KBusTerminalGender};
use softplc::observable::{Checker, Getter, Setter};

#[test]
fn kbus_new_makes_buffers_by_gender() {
    let input = KBusTerm::new(0x9001, false, 16, KBusTerminalGender::Input, (0, 0));
    assert_eq!(input.tx_data.as_ref().map(|b| b.to_bools()), Some(vec![false; 16]));
    assert!(input.rx_data.is_none());
    let output = KBusTerm::new(0x9002, false, 8, KBusTerminalGender::Output, (112, 119));
    assert!(output.tx_data.is_none());
    assert_eq!(output.rx_data.as_ref().map(|b| b.len()), Some(8));
    assert_eq!(output.slot_idx_range, (112, 119));
    let both = KBusTerm::new(6581, true, 192, KBusTerminalGender::Enby, (16, 111));
    assert_eq!(both.tx_data.as_ref().map(|b| b.len()), Some(192));
    assert_eq!(both.rx_data.as_ref().map(|b| b.len()), Some(192));
    assert_eq!(both.name, 6581);
    assert!(both.intelligent);
    assert_eq!(both.size_in_bits, 192);
    assert_eq!(both.gender, KBusTerminalGender::Enby);
}

#[test]
fn kbus_clone_copies_everything() {
    let mut t = KBusTerm::new(0x9002, false, 4, KBusTerminalGender::Output, (112, 115));
    assert_eq!(t.write(true, ChannelInput::Index(2)), Ok(()));
    let c = t.clone();
    assert_eq!(c.name, 0x9002);
    assert_eq!(c.slot_idx_range, (112, 115));
    assert_eq!(c.rx_data.map(|b| b.to_bools()), Some(vec![false, false, true, false]));
    assert!(c.tx_data.is_none());
}

#[test]
fn kbus_bidirectional_is_read_whole_rx_then_tx() {
    let mut t = KBusTerm::new(1, false, 4, KBusTerminalGender::Enby, (0, 3));
    t.rx_data = Some(Bits::from_bools(&[true, false, false, false]));
    t.tx_data = Some(Bits::from_bools(&[false, true, true, false]));
    let whole = t.read(None).ok().expect("read").pick_smart().expect("smart");
    assert_eq!(
        whole.to_bools(),
        vec![true, false, false, false, false, true, true, false]
    );
    let r = t.read(Some(ChannelInput::Index(0)));
    assert_eq!(r.err(), Some(TermError::WholeReadOnly));
    let r = t.read(Some(ChannelInput::Channel(TermChannel::Ch3)));
    assert_eq!(r.err(), Some(TermError::WholeReadOnly));
}

#[test]
fn kbus_simple_terminals_read_one_bit() {
    let mut input = KBusTerm::new(0x9001, false, 16, KBusTerminalGender::Input, (112, 127));
    input.tx_data = Some(Bits::from_bytes(&[0x21, 0x00]));
    let r = input.read(Some(ChannelInput::Channel(TermChannel::Ch6))).ok().expect("read");
    assert_eq!(r.pick_simple(), Some(1));
    let r = input.read(Some(ChannelInput::Channel(TermChannel::Ch5))).ok().expect("read");
    assert_eq!(r.pick_simple(), Some(0));
    let r = input.read(None).ok().expect("read");
    assert_eq!(r.pick_simple(), Some(1));
    let r = input.read(Some(ChannelInput::Index(16)));
    assert_eq!(r.err(), Some(TermError::OutOfBounds(16)));
    let mut output = KBusTerm::new(0x9002, false, 16, KBusTerminalGender::Output, (112, 127));
    assert_eq!(output.write(true, ChannelInput::Channel(TermChannel::Ch12)), Ok(()));
    let r = output.read(Some(ChannelInput::Channel(TermChannel::Ch12))).ok().expect("read");
    assert_eq!(r.pick_simple(), Some(1));
    let r = output.read(Some(ChannelInput::Index(200)));
    assert_eq!(r.err(), Some(TermError::OutOfBounds(200)));
}

#[test]
fn kbus_write_targets_rx_data_only() {
    let mut t = KBusTerm::new(1, false, 4, KBusTerminalGender::Enby, (0, 3));
    assert_eq!(t.write(true, ChannelInput::Index(1)), Ok(()));
    assert_eq!(t.rx_data.as_ref().map(|b| b.to_bools()), Some(vec![false, true, false, false]));
    assert_eq!(t.tx_data.as_ref().map(|b| b.to_bools()), Some(vec![false; 4]));
    assert_eq!(t.write(true, ChannelInput::Index(4)), Err(TermError::OutOfBounds(4)));
    assert_eq!(t.rx_data.as_ref().map(|b| b.to_bools()), Some(vec![false, true, false, false]));
    let mut input = KBusTerm::new(0x9001, false, 16, KBusTerminalGender::Input, (0, 15));
    assert_eq!(input.write(true, ChannelInput::Index(0)), Err(TermError::NotWritable));
    assert_eq!(input.tx_data.as_ref().map(|b| b.to_bools()), Some(vec![false; 16]));
}

#[test]
fn kbus_refresh_ctrlr_takes_the_slot_of_the_input_image() {
    let mut t = KBusTerm::new(0x9001, false, 16, KBusTerminalGender::Input, (112, 127));
    let mut bytes = vec![0xffu8; 16];
    bytes[14] = 0x20;
    bytes[15] = 0x01;
    let image = Bits::from_bytes(&bytes);
    assert!(t.can_take(Some(image.len()), None));
    t.refresh_ctrlr(Some(&image), None);
    assert_eq!(t.tx_data.as_ref().map(|b| b.to_bytes()), Some(vec![0x20, 0x01]));
    assert!(t.rx_data.is_none());
    assert_eq!(t.slot_idx_range, (112, 127));
    assert!(!t.can_take(Some(127), None));
    let out = KBusTerm::new(0x9002, false, 16, KBusTerminalGender::Output, (112, 127));
    assert!(out.can_take(Some(128), None));
    assert!(out.can_take(None, Some(128)));
    assert!(!out.can_take(None, Some(120)));
    let narrow = KBusTerm::new(0x9001, false, 8, KBusTerminalGender::Input, (112, 127));
    assert!(!narrow.can_take(Some(128), None));
    assert!(narrow.can_take(None, None));
    let both = KBusTerm::new(6581, true, 192, KBusTerminalGender::Enby, (16, 111));
    assert!(!both.can_take(Some(128), None));
    assert!(both.can_take(Some(128), Some(128)));
}

#[test]
fn kbus_refresh_ctrlr_output_and_both() {
    let mut out = KBusTerm::new(0x9002, false, 8, KBusTerminalGender::Output, (8, 15));
    let image = Bits::from_bytes(&[0x00, 0xa5]);
    out.refresh_ctrlr(None, Some(&image));
    assert_eq!(out.rx_data.as_ref().map(|b| b.to_bytes()), Some(vec![0xa5]));
    out.refresh_ctrlr(None, None);
    assert_eq!(out.rx_data.as_ref().map(|b| b.to_bytes()), Some(vec![0xa5]));
    let mut both = KBusTerm::new(1, false, 16, KBusTerminalGender::Enby, (0, 7));
    let input = Bits::from_bytes(&[0x0f, 0xff]);
    let output = Bits::from_bytes(&[0xf0, 0xff]);
    both.refresh_ctrlr(Some(&input), Some(&output));
    assert_eq!(both.tx_data.as_ref().map(|b| b.to_bytes()), Some(vec![0x0f, 0x00]));
    assert_eq!(both.rx_data.as_ref().map(|b| b.to_bytes()), Some(vec![0xf0, 0x00]));
}

#[test]
fn kbus_refresh_term_writes_only_the_slot() {
    let mut out = KBusTerm::new(0x9002, false, 8, KBusTerminalGender::Output, (8, 15));
    assert_eq!(out.write(true, ChannelInput::Index(0)), Ok(()));
    assert_eq!(out.write(true, ChannelInput::Index(7)), Ok(()));
    let mut image = Bits::from_bytes(&[0x55, 0x00, 0xaa]);
    assert!(out.can_push(image.len()));
    out.refresh_term(&mut image);
    assert_eq!(image.to_bytes(), vec![0x55, 0x81, 0xaa]);
    let input = KBusTerm::new(0x9001, false, 8, KBusTerminalGender::Input, (8, 15));
    let mut image = Bits::from_bytes(&[0x55, 0x33, 0xaa]);
    input.refresh_term(&mut image);
    assert_eq!(image.to_bytes(), vec![0x55, 0x33, 0xaa]);
    assert!(!out.can_push(15));
    let wide = KBusTerm::new(0x9002, false, 16, KBusTerminalGender::Output, (8, 15));
    assert!(!wide.can_push(24));
}

#[test]
fn kbus_refresh_term_bidirectional_rx_wins() {
    let mut both = KBusTerm::new(1, false, 8, KBusTerminalGender::Enby, (0, 7));
    both.tx_data = Some(Bits::from_bytes(&[0xff]));
    both.rx_data = Some(Bits::from_bools(&[false, false, false, false]));
    let mut image = Bits::from_bytes(&[0x00, 0x11]);
    both.refresh_term(&mut image);
    assert_eq!(image.to_bytes(), vec![0xf0, 0x11]);
}

#[test]
fn fixed_terminals_have_their_shape() {
    let kl1889 = term_kl1889();
    assert_eq!(kl1889.gender, KBusTerminalGender::Input);
    assert_eq!(kl1889.hr_name, 1889);
    assert!(kl1889.tx_data.is_none());
    assert_eq!(kl1889.rx_data.as_ref().map(|b| b.len()), Some(16));
    let kl2889 = term_kl2889();
    assert_eq!(kl2889.gender, KBusTerminalGender::Output);
    assert_eq!(kl2889.tx_data.as_ref().map(|b| b.len()), Some(16));
    assert!(kl2889.rx_data.is_none());
    let kl6581 = term_kl6581();
    assert!(kl6581.intelligent);
    assert_eq!(kl6581.hr_name, 6581);
    assert_eq!(kl6581.size_in_bits, 192);
    assert_eq!(kl6581.tx_data.as_ref().map(|b| b.len()), Some(96));
    assert_eq!(kl6581.rx_data.as_ref().map(|b| b.len()), Some(96));
}

#[test]
fn subdevice_reads_and_writes() {
    let mut kl1889 = term_kl1889();
    kl1889.rx_data = Some(Bits::from_bytes(&[0x20, 0x00]));
    let r = kl1889.read(Some(ChannelInput::Channel(TermChannel::Ch6))).ok().expect("read");
    assert_eq!(r.pick_simple(), Some(1));
    assert_eq!(kl1889.write(true, ChannelInput::Index(0)), Err(TermError::NotWritable));
    assert!(kl1889.check(None).is_none());
    let mut kl2889 = term_kl2889();
    for idx in 0..16 {
        assert_eq!(kl2889.write(true, ChannelInput::Index(idx)), Ok(()));
    }
    assert_eq!(kl2889.write(true, ChannelInput::Index(16)), Err(TermError::OutOfBounds(16)));
    assert_eq!(kl2889.tx_data.as_ref().map(|b| b.to_bytes()), Some(vec![0xff, 0xff]));
    let r = kl2889.read(Some(ChannelInput::Index(3))).ok().expect("read");
    assert_eq!(r.pick_simple(), Some(1));
    assert!(kl2889.check(Some(ChannelInput::Index(0))).is_none());
}

#[test]
fn gateway_is_read_whole_and_checked_by_status_byte() {
    let mut gw = term_kl6581();
    let mut rx = vec![0u8; 12];
    rx[0] = 0x02;
    rx[6] = 0x5a;
    let mut tx = vec![0u8; 12];
    tx[0] = 0x4c;
    tx[1] = 0x77;
    gw.rx_data = Some(Bits::from_bytes(&rx));
    gw.tx_data = Some(Bits::from_bytes(&tx));
    let whole = gw.read(None).ok().expect("read").pick_smart().expect("smart");
    let mut want = rx.clone();
    want.extend_from_slice(&tx);
    assert_eq!(whole.to_bytes(), want);
    assert_eq!(gw.read(Some(ChannelInput::Index(0))).err(), Some(TermError::WholeReadOnly));
    let status = gw.check(None).expect("status").ok().expect("bits");
    assert_eq!(status.to_bytes(), vec![0x4c]);
    assert_eq!(gw.write(true, ChannelInput::Index(1)), Ok(()));
    assert_eq!(gw.tx_data.as_ref().map(|b| b.to_bytes()[0]), Some(0x4e));
}

#[test]
fn handlers_copy_whole_buffers() {
    let mut di = DITerm::new(16);
    el1889_handler(&mut di, &Bits::from_bytes(&[0x00, 0x04]));
    assert_eq!(di.values.to_bytes(), vec![0x00, 0x04]);
    let mut dout = DOTerm::new(16);
    assert_eq!(dout.write(true, ChannelInput::Channel(TermChannel::Ch16)), Ok(()));
    let mut image = Bits::repeat(false, 16);
    el2889_handler(&mut image, &dout);
    assert_eq!(image.to_bytes(), vec![0x00, 0x80]);
    let mut gw = term_kl6581();
    let part = Bits::from_bytes(&[1, 2, 3, 4, 5, 6, 7, 8, 9, 10, 11, 12]);
    kl6581_input_handler(&mut gw, &part);
    assert_eq!(
        gw.rx_data.as_ref().map(|b| b.to_bytes()),
        Some(vec![1, 2, 3, 4, 5, 6, 7, 8, 9, 10, 11, 12])
    );
    assert_eq!(gw.tx_data.as_ref().map(|b| b.to_bools()), Some(vec![false; 96]));
    assert_eq!(gw.write(true, ChannelInput::Index(1)), Ok(()));
    let mut out = Bits::repeat(true, 96);
    kl6581_output_handler(&mut out, &gw);
    let mut want = vec![0u8; 12];
    want[0] = 0x02;
    assert_eq!(out.to_bytes(), want);
}

#[test]
fn kbus_take_input_fills_the_front_of_tx_data() {
    let mut input = KBusTerm::new(0x8801, false, 16, KBusTerminalGender::Input, (128, 143));
    let mut bytes = vec![0u8; 18];
    bytes[16] = 0x34;
    bytes[17] = 0x12;
    let image = Bits::from_bytes(&bytes);
    assert!(input.can_take_input(image.len()));
    assert!(!input.can_take_input(143));
    input.take_input(&image);
    assert_eq!(input.tx_data.as_ref().map(|b| b.to_bytes()), Some(vec![0x34, 0x12]));
    let mut both = KBusTerm::new(6581, true, 192, KBusTerminalGender::Enby, (16, 111));
    let mut bytes = vec![0u8; 16];
    bytes[2] = 0x02;
    bytes[13] = 0xff;
    bytes[14] = 0xee;
    let image = Bits::from_bytes(&bytes);
    assert!(both.can_take_input(image.len()));
    both.take_input(&image);
    let tx = both.tx_data.as_ref().map(|b| b.to_bytes()).expect("tx");
    assert_eq!(tx[0], 0x02);
    assert_eq!(tx[11], 0xff);
    assert_eq!(tx[12..].to_vec(), vec![0u8; 12]);
    assert_eq!(both.rx_data.as_ref().map(|b| b.to_bools()), Some(vec![false; 192]));
    let mut out = KBusTerm::new(0x8802, false, 16, KBusTerminalGender::Output, (200, 215));
    assert!(out.can_take_input(8));
    out.take_input(&Bits::from_bytes(&[0xff]));
    assert_eq!(out.rx_data.as_ref().map(|b| b.to_bools()), Some(vec![false; 16]));
    let short = KBusTerm::new(0x8801, false, 8, KBusTerminalGender::Input, (0, 15));
    assert!(!short.can_take_input(16));
}

#[test]
fn kbus_send_output_fills_the_slot() {
    let mut out = KBusTerm::new(0x8802, false, 8, KBusTerminalGender::Output, (8, 15));
    assert_eq!(out.write(true, ChannelInput::Index(1)), Ok(()));
    let mut image = Bits::from_bytes(&[0x55, 0xff, 0xaa]);
    assert!(out.can_send(image.len()));
    assert!(!out.can_send(15));
    out.send_output(&mut image);
    assert_eq!(image.to_bytes(), vec![0x55, 0x02, 0xaa]);
    let mut long = KBusTerm::new(6581, true, 192, KBusTerminalGender::Enby, (8, 15));
    assert_eq!(long.write(true, ChannelInput::Index(0)), Ok(()));
    assert_eq!(long.write(true, ChannelInput::Index(8)), Ok(()));
    let mut image = Bits::from_bytes(&[0x55, 0xff, 0xaa]);
    long.send_output(&mut image);
    assert_eq!(image.to_bytes(), vec![0x55, 0x01, 0xaa]);
    let short = KBusTerm::new(0x8802, false, 4, KBusTerminalGender::Output, (8, 15));
    let mut image = Bits::from_bytes(&[0x55, 0xff, 0xaa]);
    short.send_output(&mut image);
    assert_eq!(image.to_bytes(), vec![0x55, 0xf0, 0xaa]);
    let input = KBusTerm::new(0x8801, false, 8, KBusTerminalGender::Input, (200, 207));
    let mut image = Bits::from_bytes(&[0x12]);
    assert!(input.can_send(image.len()));
    input.send_output(&mut image);
    assert_eq!(image.to_bytes(), vec![0x12]);
}
