use canet_rs::canet::{convert_to_canet, decode_canet_frame, encode_canet_frame, read_be_u32, CanetMsg};
use canet_rs::frame::Message;
use canet_rs::gvret::convert_to_gvret_at;

fn routed(m: CanetMsg) -> (u8, [u8; 13]) {
    match m {
        CanetMsg::Can1(b) => (1, b),
        CanetMsg::Can2(b) => (2, b),
    }
}

#[test]
fn big_endian_read() {
    assert_eq!(read_be_u32(0x12, 0x34, 0x56, 0x78), 0x1234_5678);
    assert_eq!(read_be_u32(0xFF, 0xFF, 0xFF, 0xFF), u32::MAX);
}

#[test]
fn round_trip_data_frame() {
    let m = Message::new_data(1, 0x1ABC_DEF0, true, &[1, 2, 3, 4, 5, 6, 7, 8]).unwrap();
    let buf = encode_canet_frame(&m);
    let d = decode_canet_frame(&buf, 0).unwrap();
    assert_eq!(d.id(), 0x1ABC_DEF0);
    assert!(d.ext_id());
    assert_eq!(d.dlc(), 8);
    assert_eq!(d.data(), Some(&[1u8, 2, 3, 4, 5, 6, 7, 8][..]));
    assert_eq!(d.bus(), 0);
}

#[test]
fn round_trip_remote_frame() {
    let m = Message::new_remote(0, 0x7FF, false, 3).unwrap();
    let buf = encode_canet_frame(&m);
    assert_eq!(buf, [0x43, 0, 0, 0x07, 0xFF, 0, 0, 0, 0, 0, 0, 0, 0]);
    let d = decode_canet_frame(&buf, 1).unwrap();
    assert_eq!(d.id(), 0x7FF);
    assert!(!d.ext_id());
    assert_eq!(d.dlc(), 3);
    assert!(d.data().is_none());
    assert_eq!(d.bus(), 1);
}

#[test]
fn round_trip_empty_payload() {
    let m = Message::new_data(0, 0, false, &[]).unwrap();
    let buf = encode_canet_frame(&m);
    assert_eq!(buf, [0u8; 13]);
    let d = decode_canet_frame(&buf, 0).unwrap();
    assert_eq!(d.dlc(), 0);
    assert_eq!(d.data(), Some(&[][..]));
}

#[test]
fn adapter_frame_to_telemetry() {
    let buf = [0x82, 0x00, 0x00, 0x07, 0xFF, 0x11, 0x22, 0, 0, 0, 0, 0, 0];
    let m = decode_canet_frame(&buf, 0).unwrap();
    assert!(m.ext_id());
    assert_eq!(m.id(), 0x7FF);
    assert_eq!(m.dlc(), 2);
    assert_eq!(m.data(), Some(&[0x11u8, 0x22][..]));
    let out = convert_to_gvret_at(&m, 0).unwrap();
    assert_eq!(&out[6..10], &[0xFF, 0x07, 0x00, 0x80]);
    assert_eq!(out[9] & 0x80, 0x80);
    assert_eq!(out, vec![0xF1, 0x00, 0, 0, 0, 0, 0xFF, 0x07, 0x00, 0x80, 0x02, 0x11, 0x22, 0x00]);
}

#[test]
fn decode_rejects_long_dlc() {
    let buf = [0x09, 0, 0, 0, 1, 0, 0, 0, 0, 0, 0, 0, 0];
    assert!(decode_canet_frame(&buf, 0).is_none());
    let buf = [0x4F, 0, 0, 0, 1, 0, 0, 0, 0, 0, 0, 0, 0];
    assert!(decode_canet_frame(&buf, 0).is_none());
}

#[test]
fn decode_rejects_id_out_of_range() {
    let buf = [0x00, 0, 0, 0x08, 0x00, 0, 0, 0, 0, 0, 0, 0, 0];
    assert!(decode_canet_frame(&buf, 0).is_none());
    let buf = [0x80, 0x20, 0, 0, 0, 0, 0, 0, 0, 0, 0, 0, 0];
    assert!(decode_canet_frame(&buf, 0).is_none());
    let buf = [0x80, 0x1F, 0xFF, 0xFF, 0xFF, 0, 0, 0, 0, 0, 0, 0, 0];
    assert_eq!(decode_canet_frame(&buf, 0).unwrap().id(), 0x1FFF_FFFF);
}

#[test]
fn routing_raises_bus_to_secondary() {
    let m0 = Message::new_data(0, 1, false, &[0xAA]).unwrap();
    let (conn, buf) = routed(convert_to_canet(m0));
    assert_eq!(conn, 2);
    assert_eq!(buf, [0x01, 0, 0, 0, 1, 0xAA, 0, 0, 0, 0, 0, 0, 0]);
    let m1 = Message::new_remote(1, 0x100, true, 8).unwrap();
    let (conn, buf) = routed(convert_to_canet(m1));
    assert_eq!(conn, 2);
    assert_eq!(buf, [0xC8, 0, 0, 0x01, 0x00, 0, 0, 0, 0, 0, 0, 0, 0]);
}

#[test]
fn telemetry_skips_remote_frames() {
    let r = Message::new_remote(0, 5, false, 1).unwrap();
    assert!(convert_to_gvret_at(&r, 123).is_none());
}

#[test]
fn telemetry_packs_bus_and_timestamp() {
    let m = Message::new_data(1, 0x123, false, &[7]).unwrap();
    let out = convert_to_gvret_at(&m, 0x1_0000_0102).unwrap();
    assert_eq!(out, vec![0xF1, 0x00, 0x02, 0x01, 0, 0, 0x23, 0x01, 0, 0, 0x11, 0x07, 0x00]);
}
