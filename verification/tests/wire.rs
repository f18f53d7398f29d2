use diglett::wire::encrypt::{keypair, shared, shared_symmetric};
use diglett::wire::frame::{encode_header, Frame, Kind, FRAME_HEADER_SIZE, HANDSHAKE_SIZE};
use diglett::wire::{Client, Control, Message, Registration, Server, Stream};
use diglett::Error;

#[test]
fn stream_id() {
    let id: u32 = 0x11223344;
    let id = Stream::from(id);
    assert_eq!(id.registration(), Registration::from(0x1122));
    assert_eq!(id.port(), 0x3344);
}

#[test]
fn test_constant() {
    // the frame header must serialize to exactly its advertised size
    let header = encode_header(&Frame { kind: Kind::Okay, id: 0 }, 0);
    assert_eq!(header.len(), FRAME_HEADER_SIZE);
}

#[test]
fn shared_keys() {
    let server_kp = keypair();
    let client_kp = keypair();

    let server_key = shared(&server_kp, &client_kp.public).unwrap();
    let client_key = shared(&client_kp, &server_kp.public).unwrap();

    assert_eq!(server_key, client_key);
}

#[test]
fn shared_keys_symmetric_pair() {
    let a = keypair();
    let b = keypair();
    let (x, y) = shared_symmetric(&a, &b);
    assert_eq!(x, y);
    assert_eq!(x.len(), 64);
}

#[test]
fn test_negotiate() {
    let server_key = keypair();
    let client_key = keypair();

    let client = Client::new(client_key);
    let hello = client.hello();
    assert_eq!(hello.len(), HANDSHAKE_SIZE);

    let server = Server::new(server_key);
    let (reply, mut server_con) = server.accept(&hello).unwrap();
    assert_eq!(reply.len(), HANDSHAKE_SIZE);

    let mut client_con = client.negotiate(&reply).unwrap();

    // the client sends a payload, a close and an acknowledgement
    let (wire1, n) = client_con
        .write(Stream::from(20), &"hello world".as_bytes().to_vec())
        .unwrap();
    assert_eq!(n, "hello world".len());
    let wire2 = client_con
        .control(&Control::Close { id: Stream::from(20) })
        .unwrap();
    let wire3 = client_con.control(&Control::Okay).unwrap();

    // the server reads exactly those three messages in that order
    let msg = read_one(&mut server_con, &wire1);
    if let Message::Payload { id, data } = msg {
        assert_eq!(id, Stream::from(20));
        assert_eq!(&data, "hello world".as_bytes());
    } else {
        panic!("expected payload message got: {:?}", msg);
    }

    let msg = read_one(&mut server_con, &wire2);
    if let Message::Control(Control::Close { id }) = msg {
        assert_eq!(id, Stream::from(20));
    } else {
        panic!("expected close message");
    }

    let msg = read_one(&mut server_con, &wire3);
    if let Message::Control(Control::Okay) = msg {
        assert!(true);
    } else {
        panic!("expected ok message");
    }
}

// reads one frame the way a transport would drive the codec: first the 7
// header bytes, then exactly `size` payload bytes.
fn read_one(con: &mut diglett::wire::Connection, wire: &[u8]) -> Message {
    let (frm, size) = con.read_header(wire[..FRAME_HEADER_SIZE].to_vec()).unwrap();
    let payload = wire[FRAME_HEADER_SIZE..FRAME_HEADER_SIZE + size as usize].to_vec();
    con.read_payload(&frm, payload).unwrap()
}

#[test]
fn handshake_bad_magic() {
    let server = Server::new(keypair());
    let mut request = Client::new(keypair()).hello();
    request[0] = 0xDE;
    request[1] = 0xAD;
    request[2] = 0xBE;
    request[3] = 0xEF;
    let err = match server.accept(&request) {
        Err(e) => e,
        Ok(_) => panic!("the handshake should have been rejected"),
    };
    assert!(matches!(err, Error::InvalidMagic));
}

#[test]
fn handshake_bad_version() {
    let server = Server::new(keypair());
    let mut request = Client::new(keypair()).hello();
    request[4] = 2;
    let err = match server.accept(&request) {
        Err(e) => e,
        Ok(_) => panic!("the handshake should have been rejected"),
    };
    assert!(matches!(err, Error::InvalidVersion(2)));
}

#[test]
fn handshake_bad_key() {
    let server = Server::new(keypair());
    let mut request = Client::new(keypair()).hello();
    for b in request[5..].iter_mut() {
        *b = 0;
    }
    let err = match server.accept(&request) {
        Err(e) => e,
        Ok(_) => panic!("the handshake should have been rejected"),
    };
    assert!(matches!(err, Error::Encryption));
}

#[test]
fn shared_rejects_invalid_public_key() {
    let kp = keypair();
    let err = shared(&kp, &vec![0u8; 33]).unwrap_err();
    assert!(matches!(err, Error::Encryption));
}

#[test]
fn kind_try_from_rejects_unknown() {
    for v in 0u8..=7 {
        assert!(Kind::try_from(v).is_ok());
    }
    for v in 8u8..=255 {
        assert!(matches!(Kind::try_from(v), Err(Error::InvalidHeader)));
    }
}

#[test]
fn ok_or_err_variants() {
    assert!(Message::Control(Control::Okay).ok_or_err().is_ok());

    let msg = Message::Control(Control::Error("boom".to_owned()));
    match msg.ok_or_err() {
        Err(Error::Remote(text)) => assert_eq!(text, "boom"),
        other => panic!("expected a remote error, got {:?}", other),
    }

    let msg = Message::Payload { id: Stream::from(1), data: vec![1, 2, 3] };
    assert!(matches!(msg.ok_or_err(), Err(Error::UnexpectedMessage)));
}
