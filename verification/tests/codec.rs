use diglett::wire::encrypt::keypair;
use diglett::wire::frame::{
    decode_header, encode_header, read_handshake, relay_frame, relay_payloads, write_handshake,
    Frame, FrameReaderHalf, FrameWriterHalf, Kind, FRAME_HEADER_SIZE, HANDSHAKE_SIZE,
};
use diglett::wire::{
    decode_message, relay_control, Client, Connection, Control, Message, Registration, Server,
    Stream,
};
use diglett::Error;

fn test_key() -> Vec<u8> {
    // a fixed 64-byte shared secret; both halves must be built from the same
    (0u8..64).collect()
}

fn half_pair() -> (FrameWriterHalf, FrameReaderHalf) {
    let key = test_key();
    (
        FrameWriterHalf::new(&key).unwrap(),
        FrameReaderHalf::new(&key).unwrap(),
    )
}

// a connected pair: what the first writes, the second reads
fn connection_pair() -> (Connection, Connection) {
    let client = Client::new(keypair());
    let hello = client.hello();
    let (reply, server_con) = Server::new(keypair()).accept(&hello).unwrap();
    let client_con = client.negotiate(&reply).unwrap();
    (client_con, server_con)
}

#[test]
fn header_round_trip_all_kinds() {
    for v in 0u8..=7 {
        let kind = Kind::try_from(v).unwrap();
        let frm = Frame { kind, id: 0xA1B2C3D4 };
        let bytes = encode_header(&frm, 517);
        assert_eq!(bytes.len(), FRAME_HEADER_SIZE);
        let (back, size) = decode_header(&bytes).unwrap();
        assert_eq!(back, frm);
        assert_eq!(size, 517);
    }
}

#[test]
fn header_layout_is_big_endian() {
    let frm = Frame { kind: Kind::Payload, id: 0x11223344 };
    let bytes = encode_header(&frm, 0x0102);
    assert_eq!(bytes, vec![4, 0x11, 0x22, 0x33, 0x44, 0x01, 0x02]);
}

#[test]
fn handshake_layout_carries_magic_and_version() {
    let key: Vec<u8> = (100u8..133).collect();
    let hs = write_handshake(&key);
    assert_eq!(&hs[..5], &[0x64, 0x69, 0x67, 0x6c, 1]);
    assert_eq!(&hs[5..], &key[..]);
}

#[test]
fn header_rejects_unknown_kind() {
    let mut bytes = encode_header(&Frame { kind: Kind::Okay, id: 1 }, 0);
    bytes[0] = 9;
    assert!(matches!(decode_header(&bytes), Err(Error::InvalidHeader)));
}

#[test]
fn handshake_is_38_bytes_and_round_trips() {
    let key: Vec<u8> = (0u8..33).collect();
    let hs = write_handshake(&key);
    assert_eq!(hs.len(), HANDSHAKE_SIZE);
    let back = read_handshake(&hs).unwrap();
    assert_eq!(back, key);
}

#[test]
fn control_round_trip_every_kind() {
    let (mut tx, mut rx) = connection_pair();

    let msg = relay_control(&mut tx, &mut rx, &Control::Okay).unwrap();
    assert!(matches!(msg, Message::Control(Control::Okay)));

    let msg = relay_control(&mut tx, &mut rx, &Control::Error("boom".to_owned())).unwrap();
    match msg {
        Message::Control(Control::Error(s)) => assert_eq!(s, "boom"),
        other => panic!("expected the error back, got {:?}", other),
    }

    let ctl = Control::Register { id: Registration::from(7), name: "svc".to_owned() };
    let msg = relay_control(&mut tx, &mut rx, &ctl).unwrap();
    match msg {
        Message::Control(Control::Register { id, name }) => {
            assert_eq!(id, Registration::from(7));
            assert_eq!(name, "svc");
        },
        other => panic!("expected the registration back, got {:?}", other),
    }

    let msg = relay_control(&mut tx, &mut rx, &Control::FinishRegister).unwrap();
    assert!(matches!(msg, Message::Control(Control::FinishRegister)));

    let ctl = Control::Close { id: Stream::from(0x11223344) };
    let msg = relay_control(&mut tx, &mut rx, &ctl).unwrap();
    match msg {
        Message::Control(Control::Close { id }) => assert_eq!(id, Stream::from(0x11223344)),
        other => panic!("expected the close back, got {:?}", other),
    }

    let msg = relay_control(&mut tx, &mut rx, &Control::Login("secret token".to_owned())).unwrap();
    match msg {
        Message::Control(Control::Login(t)) => assert_eq!(t, "secret token"),
        other => panic!("expected the login back, got {:?}", other),
    }
}

#[test]
fn payload_round_trip_sizes() {
    let (mut w, mut r) = half_pair();
    let mut chunks: Vec<Vec<u8>> = Vec::new();
    let mut seed: u32 = 0x12345678;
    for len in [0usize, 1, 7, 256, 65535] {
        let mut chunk = Vec::with_capacity(len);
        for _ in 0..len {
            seed = seed.wrapping_mul(1664525).wrapping_add(1013904223);
            chunk.push((seed >> 24) as u8);
        }
        chunks.push(chunk);
    }
    let out = relay_payloads(&mut w, &mut r, 0x2000_0001, &chunks).unwrap();
    assert_eq!(out, chunks);
}

#[test]
fn encrypted_channel_round_trips_random_chunks() {
    let (mut w, mut r) = half_pair();
    let mut chunks: Vec<Vec<u8>> = Vec::new();
    let mut seed: u32 = 0xC0FFEE11;
    for i in 0..32 {
        let len = 1 + ((seed as usize) % 4096) + i;
        let mut chunk = Vec::with_capacity(len);
        for _ in 0..len {
            seed = seed.wrapping_mul(1664525).wrapping_add(1013904223);
            chunk.push((seed >> 16) as u8);
        }
        chunks.push(chunk);
    }
    let out = relay_payloads(&mut w, &mut r, 42, &chunks).unwrap();
    assert_eq!(out, chunks);
}

#[test]
fn payload_write_is_clamped() {
    let (mut tx, mut rx) = connection_pair();
    let data: Vec<u8> = vec![0xAB; 70_000];
    let (wire, n) = tx.write(Stream::from(9), &data).unwrap();
    assert_eq!(n, 65535);
    assert_eq!(wire.len(), FRAME_HEADER_SIZE + 65535);
    let (frm, size) = rx.read_header(wire[..FRAME_HEADER_SIZE].to_vec()).unwrap();
    assert_eq!(size as usize, 65535);
    let msg = rx
        .read_payload(&frm, wire[FRAME_HEADER_SIZE..].to_vec())
        .unwrap();
    match msg {
        Message::Payload { id, data: got } => {
            assert_eq!(id, Stream::from(9));
            assert_eq!(&got[..], &data[..65535]);
        },
        other => panic!("expected the payload back, got {:?}", other),
    }
}

#[test]
fn wire_bytes_are_actually_encrypted() {
    let (mut w, _) = half_pair();
    let frm = Frame { kind: Kind::Okay, id: 0 };
    let wire = w.write(&frm, None).unwrap();
    let plain = encode_header(&frm, 0);
    // the ChaCha20 keystream must have changed the bytes on the wire
    assert_ne!(wire, plain);
}

#[test]
fn terminate_frame_decodes() {
    let (mut w, mut r) = half_pair();
    let frm = Frame { kind: Kind::Terminate, id: 0 };
    let (back, data) = relay_frame(&mut w, &mut r, &frm, None).unwrap();
    let msg = decode_message(&back, data);
    assert!(matches!(msg, Message::Terminate));
}

#[test]
fn relay_control_handles_text_beyond_ascii() {
    let (mut tx, mut rx) = connection_pair();
    let msg = relay_control(&mut tx, &mut rx, &Control::Login("héllo wörld ✓".to_owned()))
        .unwrap();
    match msg {
        Message::Control(Control::Login(t)) => assert_eq!(t, "héllo wörld ✓"),
        other => panic!("expected the login back, got {:?}", other),
    }
}

#[test]
fn lossy_text_still_decodes() {
    // an invalid UTF-8 payload must not break the decoder
    let frm = Frame { kind: Kind::Error, id: 0 };
    let msg = decode_message(&frm, vec![0xFF, 0xFE, b'a']);
    match msg {
        Message::Control(Control::Error(text)) => assert!(text.contains('a')),
        other => panic!("expected an error message, got {:?}", other),
    }
}

#[test]
fn split_connection_keeps_the_channel_in_sync() {
    let (tx, rx) = connection_pair();
    let (_tx_read, mut tx_write) = tx.split();
    let (mut rx_read, _rx_write) = rx.split();

    let wire = tx_write.control(&Control::Okay).unwrap();
    let (frm, size) = rx_read.read_header(wire[..FRAME_HEADER_SIZE].to_vec()).unwrap();
    assert_eq!(size, 0);
    let msg = rx_read.read_payload(&frm, Vec::new()).unwrap();
    assert!(matches!(msg, Message::Control(Control::Okay)));

    let (wire, n) = tx_write.write(Stream::from(33), &b"abc".to_vec()).unwrap();
    assert_eq!(n, 3);
    let (frm, size) = rx_read.read_header(wire[..FRAME_HEADER_SIZE].to_vec()).unwrap();
    assert_eq!(size, 3);
    let msg = rx_read
        .read_payload(&frm, wire[FRAME_HEADER_SIZE..].to_vec())
        .unwrap();
    match msg {
        Message::Payload { id, data } => {
            assert_eq!(id, Stream::from(33));
            assert_eq!(&data[..], b"abc");
        },
        other => panic!("expected the payload back, got {:?}", other),
    }
}
