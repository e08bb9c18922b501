use softplc::bits::Bits;
use softplc::channel::{ChannelInput, TermChannel};
use softplc::io_defs::term_kl6581;
use softplc::kbus::KBusSubDevice;
use softplc::logic::{
    buffer_full, buffer_full_dyn, check_sb_bit, enocean_sm, plc_execute_logic, read_area_1_lights,
    read_area_2_lights, read_cb1, read_cb1_dyn, read_cnode, read_db3, read_db3_dyn,
    write_all_channel_el2889, write_all_channel_kl2889, write_cb1, write_cb1_dyn,
};
use softplc::gateway::{GatewayFault, GatewayStep, RockerEvent};
use softplc::observable::{Getter, Setter};
use softplc::registry::{init_term_states, TermStates};
use softplc::scan::{
    allocate_terminal, analog_pdo_mapping, check_inputs, check_outputs, classify, copy_inputs,
    copy_outputs, discover, needs_pdo_setup, AllocError, BusState, CycleStep, DeviceKind,
    ScanAction, ScanEngine, KBUS_TABLE, RX_PDO_ASSIGN, TX_PDO_ASSIGN,
};
use softplc::telemetry::{
    accept_hmi_command, add_plc_variables, plc_folder_id, plc_folder_name, telemetry_sample,
    PlcTag, PlcValueKind,
};

fn plant() -> (TermStates, KBusSubDevice) {
    let mut ts = init_term_states();
    assert_eq!(discover(&mut ts, &[0x8801, 0x8802, 6581]), Ok(()));
    assert_eq!(allocate_terminal(&mut ts, DeviceKind::El1889, 2, 0), Ok(()));
    assert_eq!(allocate_terminal(&mut ts, DeviceKind::El2889, 0, 2), Ok(()));
    assert_eq!(allocate_terminal(&mut ts, DeviceKind::El3024, 16, 0), Ok(()));
    (ts, term_kl6581())
}

fn gateway_with(rx: [u8; 12], tx: [u8; 12]) -> KBusSubDevice {
    let mut gw = term_kl6581();
    gw.rx_data = Some(Bits::from_bytes(&rx));
    gw.tx_data = Some(Bits::from_bytes(&tx));
    gw
}

#[test]
fn lifecycle_goes_up_cycles_and_comes_down() {
    let mut e = ScanEngine::new();
    assert_eq!(e.state, BusState::Init);
    assert_eq!(e.step(false), ScanAction::Transition(BusState::PreOp));
    assert_eq!(e.step(true), ScanAction::Configure);
    assert_eq!(e.state, BusState::PreOp);
    assert_eq!(e.step(true), ScanAction::Transition(BusState::SafeOp));
    assert_eq!(e.step(true), ScanAction::Transition(BusState::Op));
    assert!(!e.shutting_down);
    assert_eq!(e.step(false), ScanAction::Cycle);
    assert_eq!(e.step(false), ScanAction::Cycle);
    assert_eq!(e.state, BusState::Op);
    assert_eq!(e.step(true), ScanAction::Transition(BusState::SafeOp));
    assert!(e.shutting_down);
    assert_eq!(e.step(false), ScanAction::Transition(BusState::PreOp));
    assert_eq!(e.step(false), ScanAction::Transition(BusState::Init));
    assert_eq!(e.step(false), ScanAction::Finished);
    assert_eq!(e.step(false), ScanAction::Finished);
    assert_eq!(e.state, BusState::Init);
}

#[test]
fn cycle_steps_in_fixed_order() {
    assert_eq!(CycleStep::next(None), Some(CycleStep::Exchange));
    assert_eq!(CycleStep::next(Some(CycleStep::Exchange)), Some(CycleStep::Logic));
    assert_eq!(CycleStep::next(Some(CycleStep::Logic)), Some(CycleStep::Inputs));
    assert_eq!(CycleStep::next(Some(CycleStep::Inputs)), Some(CycleStep::Outputs));
    assert_eq!(CycleStep::next(Some(CycleStep::Outputs)), None);
}

#[test]
fn devices_are_told_apart_by_name() {
    assert_eq!(classify("EL3004".as_bytes()), DeviceKind::El3004);
    assert_eq!(classify("EL3024".as_bytes()), DeviceKind::El3024);
    assert_eq!(classify("BK1120".as_bytes()), DeviceKind::Bk1120);
    assert_eq!(classify("EL2889".as_bytes()), DeviceKind::El2889);
    assert_eq!(classify("EL1889".as_bytes()), DeviceKind::El1889);
    assert_eq!(classify("EK1100".as_bytes()), DeviceKind::Other);
    assert_eq!(classify("EL188".as_bytes()), DeviceKind::Other);
    assert_eq!(classify("EL18890".as_bytes()), DeviceKind::Other);
    assert_eq!(classify("".as_bytes()), DeviceKind::Other);
    assert_eq!(classify("el1889".as_bytes()), DeviceKind::Other);
}

#[test]
fn pdo_setup_of_analog_terminals() {
    assert!(needs_pdo_setup(DeviceKind::El3004));
    assert!(needs_pdo_setup(DeviceKind::El3024));
    assert!(!needs_pdo_setup(DeviceKind::Bk1120));
    assert!(!needs_pdo_setup(DeviceKind::El1889));
    assert!(!needs_pdo_setup(DeviceKind::El2889));
    assert!(!needs_pdo_setup(DeviceKind::Other));
    assert_eq!(analog_pdo_mapping(), vec![0x1a00, 0x1a02, 0x1a04, 0x1a06]);
    assert_eq!(RX_PDO_ASSIGN, 0x1c12);
    assert_eq!(TX_PDO_ASSIGN, 0x1c13);
    assert_eq!(KBUS_TABLE, 0x4012);
}

#[test]
fn allocation_by_image_size() {
    let (ts, _) = plant();
    assert_eq!(ts.ebus_di_terms.len(), 1);
    assert_eq!(ts.ebus_di_terms[0].num_of_channels, 16);
    assert_eq!(ts.ebus_di_terms[0].values.len(), 16);
    assert_eq!(ts.ebus_do_terms.len(), 1);
    assert_eq!(ts.ebus_do_terms[0].num_of_channels, 16);
    assert_eq!(ts.ebus_ai_terms.len(), 1);
    assert_eq!(ts.ebus_ai_terms[0].num_of_channels, 4);
    assert_eq!(ts.ebus_ai_terms[0].ch_values.len(), 64);
    assert_eq!(ts.kbus_terms.len(), 3);
}

#[test]
fn allocation_refuses_what_is_too_large() {
    let mut ts = init_term_states();
    assert_eq!(allocate_terminal(&mut ts, DeviceKind::El1889, 32, 0), Err(AllocError::TooLarge));
    assert_eq!(allocate_terminal(&mut ts, DeviceKind::El2889, 16, 16), Err(AllocError::TooLarge));
    assert_eq!(allocate_terminal(&mut ts, DeviceKind::El3024, 64, 0), Err(AllocError::TooLarge));
    assert_eq!(
        allocate_terminal(&mut ts, DeviceKind::El3024, usize::MAX, 1),
        Err(AllocError::TooLarge)
    );
    assert_eq!(ts.ebus_di_terms.len(), 0);
    assert_eq!(ts.ebus_do_terms.len(), 0);
    assert_eq!(ts.ebus_ai_terms.len(), 0);
    assert_eq!(allocate_terminal(&mut ts, DeviceKind::El1889, 31, 0), Ok(()));
    assert_eq!(ts.ebus_di_terms[0].num_of_channels, 248);
    assert_eq!(allocate_terminal(&mut ts, DeviceKind::El3024, 60, 3), Ok(()));
    assert_eq!(ts.ebus_ai_terms[0].num_of_channels, 15);
    assert_eq!(allocate_terminal(&mut ts, DeviceKind::Bk1120, 16, 16), Ok(()));
    assert_eq!(allocate_terminal(&mut ts, DeviceKind::Other, 1000, 1000), Ok(()));
    assert_eq!(ts.kbus_terms.len(), 0);
    assert_eq!(ts.ebus_di_terms.len(), 1);
}

#[test]
fn one_scan_cycle_reproduces_the_input_image() {
    let (mut ts, mut gw) = plant();
    let di_image = Bits::from_bytes(&[0x01, 0x04]);
    assert!(check_inputs(&ts, &gw, DeviceKind::El1889, &di_image));
    copy_inputs(&mut ts, &mut gw, DeviceKind::El1889, &di_image);
    let mut ai_bytes = vec![0u8; 16];
    ai_bytes[0..4].copy_from_slice(&[0x00, 0x80, 0x00, 0x00]);
    ai_bytes[4..8].copy_from_slice(&[0x00, 0x80, 0x36, 0x77]);
    ai_bytes[8..12].copy_from_slice(&[0x00, 0x00, 0xff, 0xff]);
    ai_bytes[12..16].copy_from_slice(&[0x02, 0x80, 0x9b, 0x3b]);
    let ai_image = Bits::from_bytes(&ai_bytes);
    assert!(check_inputs(&ts, &gw, DeviceKind::El3024, &ai_image));
    copy_inputs(&mut ts, &mut gw, DeviceKind::El3024, &ai_image);
    let mut bk_bytes = vec![0u8; 16];
    bk_bytes[2] = 0x02;
    bk_bytes[8] = 0x50;
    bk_bytes[14] = 0x20;
    bk_bytes[15] = 0x80;
    let bk_image = Bits::from_bytes(&bk_bytes);
    assert!(check_inputs(&ts, &gw, DeviceKind::Bk1120, &bk_image));
    copy_inputs(&mut ts, &mut gw, DeviceKind::Bk1120, &bk_image);
    let other = Bits::from_bytes(&[0xff]);
    assert!(check_inputs(&ts, &gw, DeviceKind::Other, &other));
    copy_inputs(&mut ts, &mut gw, DeviceKind::Other, &other);

    for n in 1u8..=16 {
        let c = TermChannel::from_number(n).expect("channel");
        let r = ts.ebus_di_terms[0].read(Some(ChannelInput::Channel(c))).ok().expect("read");
        let want = if n == 1 || n == 11 { 1 } else { 0 };
        assert_eq!(r.pick_simple(), Some(want));
    }
    let currents: Vec<u32> = (0u8..4)
        .map(|i| {
            ts.ebus_ai_terms[0]
                .read(Some(ChannelInput::Index(i)))
                .ok()
                .expect("read")
                .pick_current()
                .expect("current")
        })
        .collect();
    assert_eq!(currents, vec![4_000_000, 20_000_000, 4_000_000, 12_000_000]);
    for n in 1u8..=16 {
        let c = TermChannel::from_number(n).expect("channel");
        let r = ts.kbus_terms[0].read(Some(ChannelInput::Channel(c))).ok().expect("read");
        let want = if n == 6 || n == 16 { 1 } else { 0 };
        assert_eq!(r.pick_simple(), Some(want));
    }
    let mut want_rx = vec![0u8; 12];
    want_rx[0] = 0x02;
    want_rx[6] = 0x50;
    assert_eq!(gw.rx_data.as_ref().map(|b| b.to_bytes()), Some(want_rx.clone()));
    let mut want_tx = want_rx;
    want_tx.extend_from_slice(&[0u8; 12]);
    assert_eq!(ts.kbus_terms[2].tx_data.as_ref().map(|b| b.to_bytes()), Some(want_tx));
    assert_eq!(ts.kbus_terms[1].rx_data.as_ref().map(|b| b.to_bools()), Some(vec![false; 16]));
    assert_eq!(read_db3(&gw), 0x50);
    assert!(read_cb1(&gw));
}

#[test]
fn one_scan_cycle_fills_the_output_images() {
    let (mut ts, mut gw) = plant();
    assert_eq!(ts.ebus_do_terms[0].write(true, ChannelInput::Channel(TermChannel::Ch16)), Ok(()));
    assert_eq!(ts.kbus_terms[1].write(true, ChannelInput::Channel(TermChannel::Ch12)), Ok(()));
    write_cb1(&mut gw, true);
    let mut do_image = Bits::from_bytes(&[0xff, 0x00]);
    assert!(check_outputs(&ts, &gw, DeviceKind::El2889, &do_image));
    copy_outputs(&ts, &gw, DeviceKind::El2889, &mut do_image);
    assert_eq!(do_image.to_bytes(), vec![0x00, 0x80]);
    let mut bk_image = Bits::from_bytes(&[0xaa; 16]);
    assert!(check_outputs(&ts, &gw, DeviceKind::Bk1120, &bk_image));
    copy_outputs(&ts, &gw, DeviceKind::Bk1120, &mut bk_image);
    let mut want = vec![0u8; 16];
    want[0] = 0xaa;
    want[1] = 0xaa;
    want[2] = 0x02;
    want[14] = 0x00;
    want[15] = 0x08;
    assert_eq!(bk_image.to_bytes(), want);
    let mut other = Bits::from_bytes(&[0x12]);
    copy_outputs(&ts, &gw, DeviceKind::El1889, &mut other);
    assert_eq!(other.to_bytes(), vec![0x12]);
}

#[test]
fn images_of_the_wrong_shape_are_found_out() {
    let (ts, gw) = plant();
    assert!(!check_inputs(&ts, &gw, DeviceKind::El1889, &Bits::repeat(false, 8)));
    assert!(!check_inputs(&ts, &gw, DeviceKind::El3024, &Bits::repeat(false, 64)));
    assert!(!check_inputs(&ts, &gw, DeviceKind::Bk1120, &Bits::repeat(false, 120)));
    assert!(!check_inputs(&ts, &gw, DeviceKind::Bk1120, &Bits::repeat(false, 104)));
    assert!(!check_outputs(&ts, &gw, DeviceKind::El2889, &Bits::repeat(false, 17)));
    assert!(!check_outputs(&ts, &gw, DeviceKind::Bk1120, &Bits::repeat(false, 127)));
    let empty = init_term_states();
    assert!(!check_inputs(&empty, &gw, DeviceKind::El1889, &Bits::repeat(false, 16)));
    assert!(!check_inputs(&empty, &gw, DeviceKind::El3024, &Bits::repeat(false, 128)));
    assert!(check_inputs(&empty, &gw, DeviceKind::Bk1120, &Bits::repeat(false, 128)));
    assert!(!check_inputs(&empty, &gw, DeviceKind::Bk1120, &Bits::repeat(false, 111)));
    assert!(!check_outputs(&empty, &gw, DeviceKind::El2889, &Bits::repeat(false, 16)));
    assert!(check_outputs(&empty, &gw, DeviceKind::Bk1120, &Bits::repeat(false, 128)));
    assert!(!check_outputs(&empty, &gw, DeviceKind::Bk1120, &Bits::repeat(false, 111)));
    assert!(check_outputs(&empty, &gw, DeviceKind::El3024, &Bits::repeat(false, 1)));
}

#[test]
fn gateway_accessors_read_the_payload() {
    let mut rx = [0u8; 12];
    rx[0] = 0x02;
    rx[1] = 0x15;
    rx[6] = 0x7e;
    let mut tx = [0u8; 12];
    tx[0] = 0x44;
    let mut gw = gateway_with(rx, tx);
    assert!(read_cb1(&gw));
    assert_eq!(read_db3(&gw), 0x7e);
    assert!(buffer_full(&gw));
    assert_eq!(read_cnode(&gw).to_bytes(), vec![0x15]);
    assert!(!check_sb_bit(&gw, 0));
    assert!(!check_sb_bit(&gw, 1));
    assert!(check_sb_bit(&gw, 2));
    assert!(check_sb_bit(&gw, 6));
    assert!(!check_sb_bit(&gw, 7));
    write_cb1(&mut gw, true);
    assert!(check_sb_bit(&gw, 1));
    assert_eq!(gw.tx_data.as_ref().map(|b| b.to_bytes()[0]), Some(0x46));
    write_cb1(&mut gw, false);
    assert_eq!(gw.tx_data.as_ref().map(|b| b.to_bytes()[0]), Some(0x44));
    assert_eq!(gw.rx_data.as_ref().map(|b| b.to_bytes()[0]), Some(0x02));
}

#[test]
fn discovered_gateway_accessors() {
    let (mut ts, _) = plant();
    let mut rx = vec![0u8; 24];
    rx[0] = 0x02;
    rx[6] = 0x31;
    rx[12] = 0x04;
    ts.kbus_terms[2].rx_data = Some(Bits::from_bytes(&rx));
    assert!(read_cb1_dyn(&ts));
    assert_eq!(read_db3_dyn(&ts), 0x31);
    assert!(buffer_full_dyn(&ts));
    write_cb1_dyn(&mut ts, false);
    assert!(!read_cb1_dyn(&ts));
    assert_eq!(ts.kbus_terms[2].rx_data.as_ref().map(|b| b.to_bytes()[0]), Some(0x00));
    assert_eq!(ts.kbus_terms[2].rx_data.as_ref().map(|b| b.to_bytes()[6]), Some(0x31));
    write_cb1_dyn(&mut ts, true);
    assert!(read_cb1_dyn(&ts));
}

#[test]
fn lights_are_switched_and_read_back() {
    let (mut ts, _) = plant();
    assert_eq!(read_area_1_lights(&ts), 0);
    assert_eq!(read_area_2_lights(&ts), 0);
    write_all_channel_kl2889(&mut ts, true);
    assert_eq!(ts.kbus_terms[1].rx_data.as_ref().map(|b| b.to_bools()), Some(vec![true; 16]));
    assert_eq!(read_area_1_lights(&ts), 1);
    assert_eq!(read_area_2_lights(&ts), 0);
    write_all_channel_el2889(true, &mut ts);
    assert_eq!(ts.ebus_do_terms[0].values.to_bools(), vec![true; 16]);
    assert_eq!(read_area_2_lights(&ts), 1);
    write_all_channel_kl2889(&mut ts, false);
    assert_eq!(ts.kbus_terms[1].rx_data.as_ref().map(|b| b.to_bools()), Some(vec![false; 16]));
    assert_eq!(read_area_1_lights(&ts), 0);
    write_all_channel_el2889(false, &mut ts);
    assert_eq!(ts.ebus_do_terms[0].values.to_bools(), vec![false; 16]);
    assert_eq!(ts.kbus_terms[0].tx_data.as_ref().map(|b| b.to_bools()), Some(vec![false; 16]));
}

#[test]
fn handshake_round_with_rocker_b_i() {
    let (mut ts, _) = plant();
    let mut rx = [0u8; 12];
    rx[0] = 0x02;
    rx[6] = 0x50;
    let mut gw = gateway_with(rx, [0u8; 12]);
    let step = enocean_sm(&mut ts, &mut gw);
    assert_eq!(step, GatewayStep::Telegram { event: Some(RockerEvent::RockerBI), ack: true });
    assert_eq!(ts.kbus_terms[1].rx_data.as_ref().map(|b| b.to_bools()), Some(vec![true; 16]));
    assert_eq!(ts.ebus_do_terms[0].values.to_bools(), vec![false; 16]);
    assert_eq!(gw.tx_data.as_ref().map(|b| b.to_bytes()[0]), Some(0x02));
    let step = enocean_sm(&mut ts, &mut gw);
    assert_eq!(step, GatewayStep::Idle);
    assert_eq!(gw.tx_data.as_ref().map(|b| b.to_bytes()[0]), Some(0x02));
    assert_eq!(ts.kbus_terms[1].rx_data.as_ref().map(|b| b.to_bools()), Some(vec![true; 16]));
}

#[test]
fn handshake_round_with_rocker_a() {
    let (mut ts, _) = plant();
    let mut rx = [0u8; 12];
    rx[0] = 0x02;
    rx[6] = 0x10;
    let mut gw = gateway_with(rx, [0u8; 12]);
    let step = enocean_sm(&mut ts, &mut gw);
    assert_eq!(step, GatewayStep::Telegram { event: Some(RockerEvent::RockerAI), ack: true });
    assert_eq!(ts.ebus_do_terms[0].values.to_bools(), vec![true; 16]);
    assert_eq!(ts.kbus_terms[1].rx_data.as_ref().map(|b| b.to_bools()), Some(vec![false; 16]));
    let mut rx = [0u8; 12];
    rx[6] = 0x30;
    gw.rx_data = Some(Bits::from_bytes(&rx));
    let step = enocean_sm(&mut ts, &mut gw);
    assert_eq!(step, GatewayStep::Telegram { event: Some(RockerEvent::RockerAO), ack: false });
    assert_eq!(ts.ebus_do_terms[0].values.to_bools(), vec![false; 16]);
    assert_eq!(gw.tx_data.as_ref().map(|b| b.to_bytes()[0]), Some(0x00));
}

#[test]
fn handshake_round_with_fault_or_full_buffer() {
    let (mut ts, _) = plant();
    let mut rx = [0u8; 12];
    rx[0] = 0x02;
    rx[1] = 0x16;
    rx[6] = 0x50;
    let mut tx = [0u8; 12];
    tx[0] = 0x40;
    let mut gw = gateway_with(rx, tx);
    let step = enocean_sm(&mut ts, &mut gw);
    assert_eq!(step, GatewayStep::Fault(GatewayFault::Reported(0x16)));
    assert_eq!(gw.tx_data.as_ref().map(|b| b.to_bytes()[0]), Some(0x40));
    assert_eq!(ts.kbus_terms[1].rx_data.as_ref().map(|b| b.to_bools()), Some(vec![false; 16]));
    let mut tx = [0u8; 12];
    tx[0] = 0x06;
    let mut gw = gateway_with(rx, tx);
    let step = enocean_sm(&mut ts, &mut gw);
    assert_eq!(step, GatewayStep::Drain { ack: false });
    assert_eq!(gw.tx_data.as_ref().map(|b| b.to_bytes()[0]), Some(0x04));
    assert_eq!(ts.kbus_terms[1].rx_data.as_ref().map(|b| b.to_bools()), Some(vec![false; 16]));
}

#[test]
fn business_logic_carries_out_panel_commands() {
    let (mut ts, mut gw) = plant();
    let out = plc_execute_logic(&mut ts, &mut gw, 2);
    assert_eq!(out.step, GatewayStep::Idle);
    assert!(out.reset_hmi_cmd);
    assert_eq!(read_area_1_lights(&ts), 1);
    let out = plc_execute_logic(&mut ts, &mut gw, 0);
    assert!(!out.reset_hmi_cmd);
    assert_eq!(read_area_1_lights(&ts), 1);
    let out = plc_execute_logic(&mut ts, &mut gw, 1);
    assert!(out.reset_hmi_cmd);
    assert_eq!(ts.kbus_terms[1].rx_data.as_ref().map(|b| b.to_bools()), Some(vec![false; 16]));
    let out = plc_execute_logic(&mut ts, &mut gw, 3);
    assert!(!out.reset_hmi_cmd);
    let mut rx = [0u8; 12];
    rx[0] = 0x02;
    rx[6] = 0x50;
    gw.rx_data = Some(Bits::from_bytes(&rx));
    let out = plc_execute_logic(&mut ts, &mut gw, 1);
    assert_eq!(out.step, GatewayStep::Telegram { event: Some(RockerEvent::RockerBI), ack: true });
    assert!(out.reset_hmi_cmd);
    assert_eq!(read_area_1_lights(&ts), 0);
}

#[test]
fn bridge_variables() {
    let vars = add_plc_variables(2);
    assert_eq!(vars.len(), 6);
    let names: Vec<&str> = vars.iter().map(|v| v.tag.name()).collect();
    assert_eq!(
        names,
        vec![
            "temperature",
            "humidity",
            "status",
            "area 1 lights",
            "area 2 lights",
            "area 1 lights hmi cmd"
        ]
    );
    assert!(vars.iter().all(|v| v.namespace == 2));
    let kinds: Vec<PlcValueKind> = vars.iter().map(|v| v.kind).collect();
    assert_eq!(
        kinds,
        vec![
            PlcValueKind::Float32,
            PlcValueKind::Float32,
            PlcValueKind::UInt32,
            PlcValueKind::UInt32,
            PlcValueKind::UInt32,
            PlcValueKind::UInt32
        ]
    );
    let writable: Vec<bool> = vars.iter().map(|v| v.writable).collect();
    assert_eq!(writable, vec![false, false, false, false, false, true]);
    assert_eq!(vars[5].tag, PlcTag::Area1LightsHmiCmd);
    assert_eq!(plc_folder_id(), "plc_tags");
    assert_eq!(plc_folder_name(), "PlcTags");
    assert_eq!(accept_hmi_command(7, Some(2)), (true, 2));
    assert_eq!(accept_hmi_command(7, None), (false, 7));
}

#[test]
fn telemetry_sample_from_registry() {
    let (mut ts, mut gw) = plant();
    let mut ai_bytes = vec![0u8; 16];
    ai_bytes[0..4].copy_from_slice(&[0x00, 0x80, 0x9b, 0x3b]);
    ai_bytes[4..8].copy_from_slice(&[0x00, 0x80, 0x36, 0x77]);
    copy_inputs(&mut ts, &mut gw, DeviceKind::El3024, &Bits::from_bytes(&ai_bytes));
    let mut bk_bytes = vec![0u8; 16];
    bk_bytes[14] = 0x20;
    copy_inputs(&mut ts, &mut gw, DeviceKind::Bk1120, &Bits::from_bytes(&bk_bytes));
    write_all_channel_el2889(true, &mut ts);
    let s = telemetry_sample(&ts);
    assert_eq!(s.temperature_raw, 30518);
    assert_eq!(s.temperature_na, 20_000_000);
    assert_eq!(s.humidity_raw, 15259);
    assert_eq!(s.humidity_na, 12_000_000);
    assert_eq!(s.status, 1);
    assert_eq!(s.area_1_lights, 0);
    assert_eq!(s.area_2_lights, 1);
}

#[test]
fn every_nested_terminal_takes_its_slot_of_the_input_image() {
    let mut ts = init_term_states();
    assert_eq!(discover(&mut ts, &[0x8801, 0x8802, 6581, 0x8401, 0x8402, 0x8801]), Ok(()));
    let slots: Vec<(u8, u8)> = ts.kbus_terms.iter().map(|t| t.slot_idx_range).collect();
    assert_eq!(
        slots,
        vec![(112, 127), (112, 127), (16, 111), (128, 135), (128, 135), (136, 151)]
    );
    let mut gw = term_kl6581();
    let mut bytes = vec![0u8; 19];
    bytes[2] = 0x02;
    bytes[14] = 0x01;
    bytes[15] = 0x80;
    bytes[16] = 0x5a;
    bytes[17] = 0xff;
    bytes[18] = 0x0f;
    let image = Bits::from_bytes(&bytes);
    assert!(check_inputs(&ts, &gw, DeviceKind::Bk1120, &image));
    copy_inputs(&mut ts, &mut gw, DeviceKind::Bk1120, &image);
    assert_eq!(ts.kbus_terms[0].tx_data.as_ref().map(|b| b.to_bytes()), Some(vec![0x01, 0x80]));
    assert_eq!(ts.kbus_terms[3].tx_data.as_ref().map(|b| b.to_bytes()), Some(vec![0x5a]));
    assert_eq!(ts.kbus_terms[5].tx_data.as_ref().map(|b| b.to_bytes()), Some(vec![0xff, 0x0f]));
    assert_eq!(ts.kbus_terms[2].tx_data.as_ref().map(|b| b.to_bytes()[0]), Some(0x02));
    assert_eq!(ts.kbus_terms[1].rx_data.as_ref().map(|b| b.to_bools()), Some(vec![false; 16]));
    assert_eq!(ts.kbus_terms[4].rx_data.as_ref().map(|b| b.to_bools()), Some(vec![false; 8]));
    let r = ts.kbus_terms[3].read(Some(ChannelInput::Index(1))).ok().expect("read");
    assert_eq!(r.pick_simple(), Some(1));
    let r = ts.kbus_terms[5].read(Some(ChannelInput::Index(12))).ok().expect("read");
    assert_eq!(r.pick_simple(), Some(0));
    assert!(!check_inputs(&ts, &gw, DeviceKind::Bk1120, &Bits::repeat(false, 151)));
}

#[test]
fn every_nested_output_terminal_is_pushed_into_its_slot() {
    let mut ts = init_term_states();
    assert_eq!(discover(&mut ts, &[0x8801, 0x8802, 6581, 0x8402, 0x8401, 0x8802]), Ok(()));
    let slots: Vec<(u8, u8)> = ts.kbus_terms.iter().map(|t| t.slot_idx_range).collect();
    assert_eq!(
        slots,
        vec![(112, 127), (112, 127), (16, 111), (128, 135), (128, 135), (136, 151)]
    );
    let mut gw = term_kl6581();
    write_cb1(&mut gw, true);
    assert_eq!(ts.kbus_terms[1].write(true, ChannelInput::Index(0)), Ok(()));
    assert_eq!(ts.kbus_terms[3].write(true, ChannelInput::Index(7)), Ok(()));
    assert_eq!(ts.kbus_terms[5].write(true, ChannelInput::Index(8)), Ok(()));
    assert_eq!(ts.kbus_terms[2].write(true, ChannelInput::Index(5)), Ok(()));
    let mut image = Bits::from_bytes(&[0xff; 20]);
    assert!(check_outputs(&ts, &gw, DeviceKind::Bk1120, &image));
    copy_outputs(&ts, &gw, DeviceKind::Bk1120, &mut image);
    let mut want = vec![0u8; 20];
    want[0] = 0xff;
    want[1] = 0xff;
    want[2] = 0x02;
    want[14] = 0x01;
    want[16] = 0x80;
    want[18] = 0x01;
    want[19] = 0xff;
    assert_eq!(image.to_bytes(), want);
    assert!(!check_outputs(&ts, &gw, DeviceKind::Bk1120, &Bits::repeat(false, 151)));
}
