use canet_rs::canet::{convert_to_canet, CanetMsg};
use canet_rs::frame::Message;
use canet_rs::gvret::{
    build_can_frame, convert_to_gvret, get_canbus_params, get_dev_info, get_keepalive,
    get_num_busses, get_timesync, read_le_u32, timesync_at, GVRETProtocol, Gvret, GvretDecoder,
    Mode, Stage,
};

fn feed_all(d: &mut GvretDecoder, bytes: &[u8], busses: u8, micros: u128) -> Vec<Gvret> {
    let mut out = Vec::new();
    for b in bytes {
        if let Some(g) = d.feed_at(*b, busses, micros) {
            out.push(g);
        }
    }
    out
}

fn reply(g: &Gvret) -> Vec<u8> {
    match g {
        Gvret::Init(v) => v.clone(),
        Gvret::Frame(_) => panic!("expected a reply"),
    }
}

fn frame(g: Gvret) -> Message {
    match g {
        Gvret::Frame(m) => m,
        Gvret::Init(_) => panic!("expected a frame"),
    }
}

#[test]
fn handshake_once() {
    let mut d = GvretDecoder::new();
    assert_eq!(d.mode(), Mode::Init);
    assert!(d.feed_at(0xE7, 1, 0).is_none());
    assert_eq!(d.mode(), Mode::Binary);
    assert!(d.feed_at(0xE7, 1, 0).is_none());
    assert_eq!(d.mode(), Mode::Binary);
    assert_eq!(d.stage(), Stage::Idle);
}

#[test]
fn handshake_after_command_keeps_binary() {
    let mut d = GvretDecoder::new();
    let out = feed_all(&mut d, &[0xE7, 0xF1, 0x09, 0xE7], 1, 0);
    assert_eq!(out.len(), 1);
    assert_eq!(d.mode(), Mode::Binary);
}

#[test]
fn command_without_handshake_is_served() {
    let mut d = GvretDecoder::new();
    let out = feed_all(&mut d, &[0xF1, 0x09], 1, 0);
    assert_eq!(reply(&out[0]), vec![0xF1, 0x09, 0xDE, 0xAD]);
    assert_eq!(d.mode(), Mode::Init);
}

#[test]
fn device_info_reply() {
    let mut d = GvretDecoder::new();
    let out = feed_all(&mut d, &[0xF1, 0x07], 1, 0);
    assert_eq!(out.len(), 1);
    assert_eq!(reply(&out[0]), vec![0xF1, 0x07, 0x6A, 0x02, 0x20, 0x00, 0x00, 0x00]);
}

#[test]
fn keepalive_reply() {
    let mut d = GvretDecoder::new();
    let out = feed_all(&mut d, &[0xF1, 0x09], 1, 0);
    assert_eq!(out.len(), 1);
    assert_eq!(reply(&out[0]), vec![0xF1, 0x09, 0xDE, 0xAD]);
}

#[test]
fn build_frame_command_to_adapter() {
    let mut d = GvretDecoder::new();
    let bytes = [0xF1, 0x00, 0x01, 0x00, 0x00, 0x00, 0x00, 0x02, 0xAA, 0xBB];
    let mut out = feed_all(&mut d, &bytes, 1, 0);
    assert_eq!(out.len(), 1);
    let m = frame(out.remove(0));
    assert!(!m.ext_id());
    assert_eq!(m.id(), 1);
    assert_eq!(m.bus(), 0);
    assert_eq!(m.dlc(), 2);
    assert_eq!(m.data(), Some(&[0xAAu8, 0xBB][..]));
    let buf = match convert_to_canet(m) {
        CanetMsg::Can1(b) => b,
        CanetMsg::Can2(b) => b,
    };
    assert_eq!(buf[0], 0x02);
    assert_eq!(&buf[1..5], &[0, 0, 0, 1]);
    assert_eq!(&buf[5..7], &[0xAA, 0xBB]);
    assert_eq!(&buf[7..13], &[0u8; 6]);
    assert_eq!(d.stage(), Stage::Idle);
}

#[test]
fn build_frame_with_empty_payload() {
    let mut d = GvretDecoder::new();
    let mut out = feed_all(&mut d, &[0xF1, 0x00, 0x05, 0x00, 0x00, 0x00, 0x01, 0x00], 1, 0);
    let m = frame(out.remove(0));
    assert_eq!(m.id(), 5);
    assert_eq!(m.bus(), 1);
    assert_eq!(m.dlc(), 0);
}

#[test]
fn build_frame_extended_id() {
    let h = [0x23, 0x01, 0x00, 0x80, 0x07, 0x0F];
    let m = build_can_frame(h, [1, 2, 3, 4, 5, 6, 7, 8]).unwrap();
    assert!(m.ext_id());
    assert_eq!(m.id(), 0x123);
    assert_eq!(m.bus(), 3);
    assert_eq!(m.dlc(), 8);
    let h = [0x00, 0x10, 0x00, 0x00, 0x00, 0x01];
    let m = build_can_frame(h, [9, 0, 0, 0, 0, 0, 0, 0]).unwrap();
    assert!(m.ext_id());
    assert_eq!(m.id(), 0x1000);
    assert_eq!(m.data(), Some(&[9u8][..]));
}

#[test]
fn build_frame_standard_mask_boundary() {
    let m = build_can_frame([0xFF, 0x07, 0, 0, 0, 0], [0; 8]).unwrap();
    assert!(!m.ext_id());
    assert_eq!(m.id(), 0x7FF);
    let m = build_can_frame([0x00, 0x08, 0, 0, 0, 0], [0; 8]).unwrap();
    assert!(m.ext_id());
    assert_eq!(m.id(), 0x800);
}

#[test]
fn build_frame_rejects_oversized_extended_id() {
    assert!(build_can_frame([0xFF, 0xFF, 0xFF, 0x7F, 0, 0], [0; 8]).is_none());
    let mut d = GvretDecoder::new();
    let out = feed_all(&mut d, &[0xF1, 0x00, 0xFF, 0xFF, 0xFF, 0x7F, 0x00, 0x01, 0x55], 1, 0);
    assert!(out.is_empty());
    assert_eq!(d.stage(), Stage::Idle);
}

#[test]
fn stray_bytes_are_ignored() {
    let mut d = GvretDecoder::new();
    let out = feed_all(&mut d, &[0x00, 0x42, 0xFF, 0xF1, 0x09], 1, 0);
    assert_eq!(out.len(), 1);
    assert_eq!(reply(&out[0]), vec![0xF1, 0x09, 0xDE, 0xAD]);
}

#[test]
fn abort_resynchronizes() {
    let mut d = GvretDecoder::new();
    assert!(feed_all(&mut d, &[0xE7, 0xF1, 0x00, 0x01, 0x02], 1, 0).is_empty());
    assert_eq!(d.stage(), Stage::Header);
    d.abort();
    assert_eq!(d.stage(), Stage::Idle);
    assert_eq!(d.mode(), Mode::Binary);
    let out = feed_all(&mut d, &[0xF1, 0x07], 1, 0);
    assert_eq!(out.len(), 1);
}

#[test]
fn bus_count_replies() {
    let mut d = GvretDecoder::new();
    let out = feed_all(&mut d, &[0xF1, 0x0C, 0xF1, 0x06], 2, 0);
    assert_eq!(reply(&out[0]), vec![0xF1, 0x0C, 0x02]);
    assert_eq!(reply(&out[1]), get_canbus_params(true));
    let out = feed_all(&mut d, &[0xF1, 0x06], 1, 0);
    assert_eq!(reply(&out[0]), get_canbus_params(false));
}

#[test]
fn time_sync_reply() {
    let mut d = GvretDecoder::new();
    let out = feed_all(&mut d, &[0xF1, 0x01], 1, 1000);
    assert_eq!(reply(&out[0]), vec![0xF1, 0x01, 0xE8, 0x03, 0x00, 0x00]);
}

#[test]
fn ext_buses_reply() {
    let mut d = GvretDecoder::new();
    let out = feed_all(&mut d, &[0xF1, 0x0D], 1, 0);
    let mut expected = vec![0xF1, 0x0D];
    expected.extend([0u8; 15]);
    assert_eq!(reply(&out[0]), expected);
}

#[test]
fn unserved_command_gives_nothing() {
    let mut d = GvretDecoder::new();
    assert!(feed_all(&mut d, &[0xF1, 0x02, 0xF1, 0x0E], 1, 0).is_empty());
    assert_eq!(d.stage(), Stage::Idle);
}

#[test]
fn unknown_command_is_frame_command() {
    let mut d = GvretDecoder::new();
    assert!(feed_all(&mut d, &[0xF1, 0x30], 1, 0).is_empty());
    assert_eq!(d.stage(), Stage::Header);
}

#[test]
fn protocol_from_byte() {
    assert_eq!(GVRETProtocol::from(0), GVRETProtocol::BuildCanFrame);
    assert_eq!(GVRETProtocol::from(1), GVRETProtocol::TimeSync);
    assert_eq!(GVRETProtocol::from(6), GVRETProtocol::GetCanBusParams);
    assert_eq!(GVRETProtocol::from(7), GVRETProtocol::GetDevInfo);
    assert_eq!(GVRETProtocol::from(9), GVRETProtocol::KeepAlive);
    assert_eq!(GVRETProtocol::from(12), GVRETProtocol::GetNumBuses);
    assert_eq!(GVRETProtocol::from(13), GVRETProtocol::GetExtBuses);
    assert_eq!(GVRETProtocol::from(22), GVRETProtocol::GetFd);
    assert_eq!(GVRETProtocol::from(15), GVRETProtocol::BuildCanFrame);
    assert_eq!(GVRETProtocol::from(255), GVRETProtocol::BuildCanFrame);
}

#[test]
fn mode_from_byte() {
    assert_eq!(Mode::from(0xE7), Mode::Binary);
    assert_eq!(Mode::from(0xF1), Mode::Command);
    assert_eq!(Mode::from(0x00), Mode::Init);
}

#[test]
fn process_fixed_replies() {
    assert_eq!(GVRETProtocol::GetDevInfo.process(), Some(get_dev_info()));
    assert_eq!(GVRETProtocol::KeepAlive.process(), Some(get_keepalive()));
    assert_eq!(GVRETProtocol::GetExtBuses.process().unwrap().len(), 17);
    assert!(GVRETProtocol::DigInputs.process().is_none());
    assert!(GVRETProtocol::TimeSync.process().is_none());
}

#[test]
fn canbus_params_one_and_two_buses() {
    assert_eq!(get_canbus_params(false), vec![0xF1, 0x06, 0x01, 0x20, 0xA1, 0x07, 0x00]);
    assert_eq!(
        get_canbus_params(true),
        vec![0xF1, 0x06, 0x01, 0x20, 0xA1, 0x07, 0x00, 0x01, 0x20, 0xA1, 0x07, 0x00]
    );
}

#[test]
fn num_busses_reply() {
    assert_eq!(get_num_busses(1), vec![0xF1, 0x0C, 0x01]);
    assert_eq!(get_num_busses(2), vec![0xF1, 0x0C, 0x02]);
}

#[test]
fn little_endian_read() {
    assert_eq!(read_le_u32(0x78, 0x56, 0x34, 0x12), 0x1234_5678);
}

#[test]
fn timesync_truncates_to_32_bits() {
    assert_eq!(timesync_at(0x1_0000_0005), vec![0xF1, 0x01, 0x05, 0x00, 0x00, 0x00]);
}

#[test]
fn timesync_from_clock() {
    let r = get_timesync(tokio::time::Instant::now());
    assert_eq!(r.len(), 6);
    assert_eq!(&r[0..2], &[0xF1, 0x01]);
}

#[test]
fn telemetry_from_clock() {
    let m = Message::new_data(0, 0x10, false, &[1, 2]).unwrap();
    let out = convert_to_gvret(m, tokio::time::Instant::now()).unwrap();
    assert_eq!(out.len(), 14);
    assert_eq!(&out[6..14], &[0x10, 0, 0, 0, 0x02, 1, 2, 0]);
    let r = Message::new_remote(0, 0x10, false, 1).unwrap();
    assert!(convert_to_gvret(r, tokio::time::Instant::now()).is_none());
}

#[test]
fn feed_with_clock() {
    let mut d = GvretDecoder::new();
    let now = tokio::time::Instant::now();
    assert!(d.feed(0xF1, 1, &now).is_none());
    let r = d.feed(0x01, 1, &now).unwrap();
    assert_eq!(reply(&r).len(), 6);
}
