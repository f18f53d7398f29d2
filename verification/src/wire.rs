//! Wire-level identifiers of the tunnel protocol.
//!
//! A [`Registration`] tags one logical domain registration within a session;
//! a [`Stream`] identifies one multiplexed byte-stream. The high 16 bits of a
//! stream identifier are the registration, the low 16 bits the source port of
//! the accepted public-client socket.
use vstd::prelude::*;

pub mod encrypt;
pub mod frame;

verus! {

/// A 16-bit identifier chosen by the agent tagging one logical domain
/// registration within a session.
#[derive(Debug, PartialEq, Eq, Clone, Copy, Hash, Structural)]
pub struct Registration(pub u16);

impl Registration {
    /// The identifier as it is carried in a frame's 32-bit id field.
    pub fn value(&self) -> (r: u32)
        ensures
            r == self.0 as u32,
    {
        self.0 as u32
    }
}

impl From<u16> for Registration {
    fn from(value: u16) -> (r: Self) {
        Registration(value)
    }
}

impl vstd::std_specs::convert::FromSpecImpl<u16> for Registration {
    open spec fn obeys_from_spec() -> bool {
        true
    }

    open spec fn from_spec(value: u16) -> Self {
        Registration(value)
    }
}

/// A 32-bit identifier for one multiplexed byte-stream: the registration in
/// the high 16 bits, the public client's source port in the low 16 bits.
#[derive(Debug, PartialEq, Eq, Clone, Copy, Hash, Structural)]
pub struct Stream(pub u32);

impl Stream {
    /// Packs a registration and a source port into one stream identifier.
    pub fn new(reg: Registration, port: u16) -> (r: Stream)
        ensures
            r.0 == ((reg.0 as u32) << 16u32) | (port as u32),
            r.registration_spec() == reg,
            r.port_spec() == port,
    {
        let v: u32 = (reg.0 as u32) << 16u32 | port as u32;
        proof {
            let g = reg.0;
            assert((((g as u32) << 16u32 | port as u32) >> 16u32) as u16 == g) by (bit_vector);
            assert((((g as u32) << 16u32 | port as u32)) as u16 == port) by (bit_vector);
        }
        Stream(v)
    }

    /// The registration half of the identifier.
    pub open spec fn registration_spec(&self) -> Registration {
        Registration((self.0 >> 16u32) as u16)
    }

    /// The source-port half of the identifier.
    pub open spec fn port_spec(&self) -> u16 {
        self.0 as u16
    }

    /// Recovers the registration from the high 16 bits.
    pub fn registration(&self) -> (r: Registration)
        ensures
            r == self.registration_spec(),
    {
        Registration((self.0 >> 16u32) as u16)
    }

    /// Recovers the public client's source port from the low 16 bits.
    pub fn port(&self) -> (r: u16)
        ensures
            r == self.port_spec(),
    {
        self.0 as u16
    }

    /// The raw 32-bit identifier as carried in a frame header.
    pub fn value(&self) -> (r: u32)
        ensures
            r == self.0,
    {
        self.0
    }
}

impl From<u32> for Stream {
    fn from(value: u32) -> (r: Self) {
        Stream(value)
    }
}

impl vstd::std_specs::convert::FromSpecImpl<u32> for Stream {
    open spec fn obeys_from_spec() -> bool {
        true
    }

    open spec fn from_spec(value: u32) -> Self {
        Stream(value)
    }
}

impl From<Stream> for u32 {
    fn from(value: Stream) -> (r: Self) {
        value.0
    }
}

impl vstd::std_specs::convert::FromSpecImpl<Stream> for u32 {
    open spec fn obeys_from_spec() -> bool {
        true
    }

    open spec fn from_spec(value: Stream) -> Self {
        value.0
    }
}

/// Packing then projecting is the identity: for every registration and port,
/// the stream built from them recovers both exactly.
pub proof fn lemma_stream_new_projections(reg: u16, port: u16)
    ensures
        Stream(((reg as u32) << 16u32) | (port as u32)).registration_spec() == Registration(reg),
        Stream(((reg as u32) << 16u32) | (port as u32)).port_spec() == port,
{
    assert(((((reg as u32) << 16u32) | (port as u32)) >> 16u32) as u16 == reg) by (bit_vector);
    assert(((((reg as u32) << 16u32) | (port as u32))) as u16 == port) by (bit_vector);
}

} // verus!

use crate::Error;
use crate::wire::encrypt::{xor_keystream, KeyPair, SHARED_KEY_LEN};
use crate::wire::frame::{
    frame_bytes, handshake_bytes, header_bytes, valid_kind_byte, Frame, FrameReaderHalf,
    FrameStream, FrameWriterHalf, Kind, FRAME_HEADER_SIZE, HANDSHAKE_SIZE, MAX_PAYLOAD_SIZE,
};
use vstd::string::StrSliceExecFns;
use vstd::utf8::{decode_utf8, encode_utf8, valid_utf8};

verus! {

/// A control message, as one endpoint hands it to the codec.
#[derive(Debug)]
pub enum Control {
    /// Acknowledges the previous request.
    Okay,
    /// Reports an error message to the peer.
    Error(String),
    /// Registers a domain name under a registration slot.
    Register { id: Registration, name: String },
    /// Tells the gateway that all registrations have been provided.
    FinishRegister,
    /// Closes the stream with this identifier.
    Close { id: Stream },
    /// Sends the agent's login token.
    Login(String),
}

/// The mathematical shape of a control message: strings as character
/// sequences.
pub enum ControlModel {
    Okay,
    Error(Seq<char>),
    Register { id: Registration, name: Seq<char> },
    FinishRegister,
    Close { id: Stream },
    Login(Seq<char>),
}

impl View for Control {
    type V = ControlModel;

    open spec fn view(&self) -> ControlModel {
        match self {
            Control::Okay => ControlModel::Okay,
            Control::Error(s) => ControlModel::Error(s@),
            Control::Register { id, name } => ControlModel::Register { id: *id, name: name@ },
            Control::FinishRegister => ControlModel::FinishRegister,
            Control::Close { id } => ControlModel::Close { id: *id },
            Control::Login(t) => ControlModel::Login(t@),
        }
    }
}

/// A typed wire message: a control message, stream payload bytes, or the
/// terminate marker.
#[derive(Debug)]
pub enum Message {
    Control(Control),
    Payload { id: Stream, data: Vec<u8> },
    Terminate,
}

/// The mathematical shape of a wire message.
pub enum MessageModel {
    Control(ControlModel),
    Payload { id: Stream, data: Seq<u8> },
    Terminate,
}

impl View for Message {
    type V = MessageModel;

    open spec fn view(&self) -> MessageModel {
        match self {
            Message::Control(c) => MessageModel::Control(c@),
            Message::Payload { id, data } => MessageModel::Payload { id: *id, data: data@ },
            Message::Terminate => MessageModel::Terminate,
        }
    }
}

/// The frame header a control message is carried under: its kind, and the
/// stream or registration id, 0 where unused.
pub open spec fn control_frame(c: ControlModel) -> Frame {
    match c {
        ControlModel::Okay => Frame { kind: Kind::Okay, id: 0 },
        ControlModel::Error(_) => Frame { kind: Kind::Error, id: 0 },
        ControlModel::Register { id, .. } => Frame { kind: Kind::Register, id: id.0 as u32 },
        ControlModel::FinishRegister => Frame { kind: Kind::FinishRegister, id: 0 },
        ControlModel::Close { id } => Frame { kind: Kind::Close, id: id.0 },
        ControlModel::Login(_) => Frame { kind: Kind::Login, id: 0 },
    }
}

/// The payload bytes a control message is carried with: the UTF-8 encoding
/// of its string, empty where it has none.
pub open spec fn control_payload(c: ControlModel) -> Seq<u8> {
    match c {
        ControlModel::Error(s) => encode_utf8(s),
        ControlModel::Register { name, .. } => encode_utf8(name),
        ControlModel::Login(t) => encode_utf8(t),
        _ => Seq::empty(),
    }
}

/// The typed message a received frame and its payload bytes decode to.
pub open spec fn message_model(frm: Frame, payload: Seq<u8>) -> MessageModel {
    match frm.kind {
        Kind::Okay => MessageModel::Control(ControlModel::Okay),
        Kind::Error => MessageModel::Control(ControlModel::Error(decode_utf8(payload))),
        Kind::Register => MessageModel::Control(
            ControlModel::Register {
                id: Registration(frm.id as u16),
                name: decode_utf8(payload),
            },
        ),
        Kind::FinishRegister => MessageModel::Control(ControlModel::FinishRegister),
        Kind::Payload => MessageModel::Payload { id: Stream(frm.id), data: payload },
        Kind::Close => MessageModel::Control(ControlModel::Close { id: Stream(frm.id) }),
        Kind::Terminate => MessageModel::Terminate,
        Kind::Login => MessageModel::Control(ControlModel::Login(decode_utf8(payload))),
    }
}

/// Every control message survives the round trip through its frame and
/// payload encoding, as long as its registration id fits the 16 bits the
/// header stores for it — which every `Registration` does.
pub proof fn lemma_control_round_trip(c: ControlModel)
    ensures
        message_model(control_frame(c), control_payload(c)) == MessageModel::Control(c),
{
    broadcast use vstd::utf8::encode_utf8_decode_utf8;

    match c {
        ControlModel::Register { id, name } => {
            let g = id.0;
            assert(((g as u32) as u16) == g) by (bit_vector);
        },
        _ => {},
    }
}

/// Every payload message survives the round trip through its frame.
pub proof fn lemma_payload_round_trip(id: Stream, data: Seq<u8>)
    ensures
        message_model(Frame { kind: Kind::Payload, id: id.0 }, data) == (MessageModel::Payload {
            id,
            data,
        }),
{
}

} // verus!

verus! {

/// Whether frames of this kind carry a UTF-8 string as their payload.
pub open spec fn kind_has_text(k: Kind) -> bool {
    k is Error || k is Register || k is Login
}

/// What a decoded message is for this frame whatever its payload holds: the
/// variant and every non-text field are fixed by the frame alone; only the
/// text of a string payload depends on the bytes.
pub open spec fn message_shape(frm: Frame, m: MessageModel) -> bool {
    match frm.kind {
        Kind::Okay => m == MessageModel::Control(ControlModel::Okay),
        Kind::Error => m matches MessageModel::Control(ControlModel::Error(_)),
        Kind::Register => m matches MessageModel::Control(
            ControlModel::Register { id, .. },
        ) && id == Registration(frm.id as u16),
        Kind::FinishRegister => m == MessageModel::Control(ControlModel::FinishRegister),
        Kind::Payload => m matches MessageModel::Payload { id, .. } && id == Stream(frm.id),
        Kind::Close => m == MessageModel::Control(ControlModel::Close { id: Stream(frm.id) }),
        Kind::Terminate => m == MessageModel::Terminate,
        Kind::Login => m matches MessageModel::Control(ControlModel::Login(_)),
    }
}

/// The payload bytes an owned optional payload stands for.
pub open spec fn opt_bytes(o: Option<Vec<u8>>) -> Seq<u8> {
    match o {
        Some(v) => v@,
        None => Seq::empty(),
    }
}

/// Relies on `String::from_utf8_lossy`: valid UTF-8 bytes decode to exactly
/// their character sequence; invalid sequences are replaced, still yielding
/// some string.
#[verifier::external_body]
fn bytes_to_string_lossy(b: &Vec<u8>) -> (r: String)
    ensures
        valid_utf8(b@) ==> r@ == decode_utf8(b@),
{
    String::from_utf8_lossy(b.as_slice()).into_owned()
}

/// Splits a control message into the frame header and the payload bytes it
/// is carried as.
fn control_parts(ctl: &Control) -> (r: (Frame, Option<Vec<u8>>))
    ensures
        r.0 == control_frame(ctl@),
        opt_bytes(r.1) == control_payload(ctl@),
{
    match ctl {
        Control::Okay => (Frame { kind: Kind::Okay, id: 0 }, None),
        Control::Error(msg) => (
            Frame { kind: Kind::Error, id: 0 },
            Some(msg.as_str().as_bytes_vec()),
        ),
        Control::Register { id, name } => (
            Frame { kind: Kind::Register, id: id.value() },
            Some(name.as_str().as_bytes_vec()),
        ),
        Control::FinishRegister => (Frame { kind: Kind::FinishRegister, id: 0 }, None),
        Control::Close { id } => (Frame { kind: Kind::Close, id: id.value() }, None),
        Control::Login(t) => (Frame { kind: Kind::Login, id: 0 }, Some(t.as_str().as_bytes_vec())),
    }
}

/// Turns a received frame and its decrypted payload bytes into the typed
/// message they encode. Exact wherever no text is involved; text decodes
/// exactly when it is valid UTF-8, and lossily otherwise.
pub fn decode_message(frm: &Frame, payload: Vec<u8>) -> (r: Message)
    ensures
        valid_utf8(payload@) ==> r@ == message_model(*frm, payload@),
        !kind_has_text(frm.kind) ==> r@ == message_model(*frm, payload@),
        message_shape(*frm, r@),
{
    match frm.kind {
        Kind::Okay => Message::Control(Control::Okay),
        Kind::Error => Message::Control(Control::Error(bytes_to_string_lossy(&payload))),
        Kind::Register => Message::Control(
            Control::Register {
                id: Registration(frm.id as u16),
                name: bytes_to_string_lossy(&payload),
            },
        ),
        Kind::FinishRegister => Message::Control(Control::FinishRegister),
        Kind::Payload => Message::Payload { id: Stream(frm.id), data: payload },
        Kind::Close => Message::Control(Control::Close { id: Stream(frm.id) }),
        Kind::Terminate => Message::Terminate,
        Kind::Login => Message::Control(Control::Login(bytes_to_string_lossy(&payload))),
    }
}

impl Message {
    /// Collapses a reply into plain success or failure: `Okay` succeeds, an
    /// `Error` frame surfaces as a remote error, anything else was
    /// unexpected.
    pub fn ok_or_err(&self) -> (r: Result<(), Error>)
        ensures
            r is Ok <==> self@ matches MessageModel::Control(ControlModel::Okay),
            self@ matches MessageModel::Control(ControlModel::Error(s)) ==> (r matches Err(
                Error::Remote(m),
            ) && m@ == s),
            (!(self@ matches MessageModel::Control(ControlModel::Okay)) && !(
            self@ matches MessageModel::Control(ControlModel::Error(_)))) ==> (r matches Err(e)
                && e is UnexpectedMessage),
    {
        match self {
            Message::Control(Control::Okay) => Ok(()),
            Message::Control(Control::Error(remote)) => Err(Error::Remote(remote.clone())),
            _ => Err(Error::UnexpectedMessage),
        }
    }
}

/// Writes one control message through a writer half: encodes it as a frame
/// and encrypts it, handing back the wire bytes.
fn control_with(w: &mut FrameWriterHalf, ctl: &Control) -> (r: Result<Vec<u8>, Error>)
    requires
        control_payload(ctl@).len() <= MAX_PAYLOAD_SIZE,
    ensures
        final(w).key() == old(w).key(),
        r matches Ok(bytes) ==> {
            &&& bytes@ == xor_keystream(
                old(w).key(),
                old(w).pos(),
                frame_bytes(control_frame(ctl@), control_payload(ctl@)),
            )
            &&& bytes@.len() == FRAME_HEADER_SIZE + control_payload(ctl@).len()
            &&& final(w).pos() == old(w).pos() + bytes@.len()
        },
        r matches Err(e) ==> e is Encryption,
{
    let (frm, payload) = control_parts(ctl);
    match payload {
        Some(p) => w.write(&frm, Some(&p)),
        None => w.write(&frm, None),
    }
}

/// Writes one payload frame for a stream through a writer half, clamping the
/// data to the largest frame payload; hands back the wire bytes and how many
/// data bytes they carry.
fn write_with(w: &mut FrameWriterHalf, id: Stream, data: &Vec<u8>) -> (r: Result<
    (Vec<u8>, usize),
    Error,
>)
    ensures
        final(w).key() == old(w).key(),
        r matches Ok((bytes, n)) ==> {
            &&& n == if data@.len() > MAX_PAYLOAD_SIZE {
                MAX_PAYLOAD_SIZE as int
            } else {
                data@.len() as int
            }
            &&& bytes@ == xor_keystream(
                old(w).key(),
                old(w).pos(),
                frame_bytes(
                    Frame { kind: Kind::Payload, id: id.0 },
                    data@.subrange(0, n as int),
                ),
            )
            &&& bytes@.len() == FRAME_HEADER_SIZE + n
            &&& final(w).pos() == old(w).pos() + bytes@.len()
        },
        r matches Err(e) ==> e is Encryption,
{
    let frm = Frame { kind: Kind::Payload, id: id.value() };
    if data.len() > MAX_PAYLOAD_SIZE {
        let chunk = crate::wire::frame::head_bytes(data, MAX_PAYLOAD_SIZE);
        let bytes = w.write(&frm, Some(&chunk))?;
        Ok((bytes, MAX_PAYLOAD_SIZE))
    } else {
        let n = data.len();
        proof {
            assert(data@.subrange(0, n as int) =~= data@);
        }
        let bytes = w.write(&frm, Some(data))?;
        Ok((bytes, n))
    }
}

/// Reads the payload of a frame through a reader half and decodes the typed
/// message.
fn read_payload_with(r: &mut FrameReaderHalf, frm: &Frame, data: Vec<u8>) -> (res: Result<
    Message,
    Error,
>)
    requires
        data@.len() <= MAX_PAYLOAD_SIZE,
    ensures
        final(r).key() == old(r).key(),
        ({
            let plain = xor_keystream(old(r).key(), old(r).pos(), data@);
            &&& (res matches Ok(m) ==> {
                &&& (valid_utf8(plain) ==> m@ == message_model(*frm, plain))
                &&& (!kind_has_text(frm.kind) ==> m@ == message_model(*frm, plain))
                &&& message_shape(*frm, m@)
                &&& final(r).pos() == old(r).pos() + data@.len()
            })
            &&& (res matches Err(e) ==> e is Encryption)
        }),
{
    let plain = r.read_payload(data)?;
    Ok(decode_message(frm, plain))
}

} // verus!

verus! {

/// A duplex encrypted connection: a framed channel that translates between
/// typed messages and encrypted wire bytes. Writing hands back the bytes to
/// put on the transport; reading takes exactly the bytes the transport
/// delivered — 7 header bytes, then as many payload bytes as the header
/// announced.
pub struct Connection {
    frame: FrameStream,
}

/// The reading endpoint of a split connection.
pub struct ReadConnection {
    half: FrameReaderHalf,
}

/// The writing endpoint of a split connection.
pub struct WriteConnection {
    half: FrameWriterHalf,
}

impl Connection {
    /// The shared secret the outgoing direction encrypts under.
    pub closed spec fn write_key(&self) -> Seq<u8> {
        self.frame.write_half.key()
    }

    /// Keystream bytes consumed by the outgoing direction.
    pub closed spec fn write_pos(&self) -> nat {
        self.frame.write_half.pos()
    }

    /// The shared secret the incoming direction decrypts under.
    pub closed spec fn read_key(&self) -> Seq<u8> {
        self.frame.read_half.key()
    }

    /// Keystream bytes consumed by the incoming direction.
    pub closed spec fn read_pos(&self) -> nat {
        self.frame.read_half.pos()
    }

    /// A fresh encrypted connection over a 64-byte shared secret; both
    /// directions start at keystream position 0.
    pub(crate) fn new(key: &Vec<u8>) -> (r: Result<Connection, Error>)
        requires
            key@.len() == SHARED_KEY_LEN,
        ensures
            r matches Ok(c) ==> {
                &&& c.write_key() == key@ && c.write_pos() == 0
                &&& c.read_key() == key@ && c.read_pos() == 0
            },
            r matches Err(e) ==> e is Encryption,
    {
        let frame = FrameStream::new(key)?;
        Ok(Connection { frame })
    }

    /// Encodes and encrypts one control message; the returned wire bytes are
    /// one whole frame, to be written to the transport as one unit.
    pub fn control(&mut self, ctl: &Control) -> (r: Result<Vec<u8>, Error>)
        requires
            control_payload(ctl@).len() <= MAX_PAYLOAD_SIZE,
        ensures
            final(self).write_key() == old(self).write_key(),
            final(self).read_key() == old(self).read_key(),
            final(self).read_pos() == old(self).read_pos(),
            r matches Ok(bytes) ==> {
                &&& bytes@ == xor_keystream(
                    old(self).write_key(),
                    old(self).write_pos(),
                    frame_bytes(control_frame(ctl@), control_payload(ctl@)),
                )
                &&& bytes@.len() == FRAME_HEADER_SIZE + control_payload(ctl@).len()
                &&& final(self).write_pos() == old(self).write_pos() + bytes@.len()
            },
            r matches Err(e) ==> e is Encryption,
    {
        control_with(&mut self.frame.write_half, ctl)
    }

    /// A shortcut to send an acknowledgement.
    pub fn ok(&mut self) -> (r: Result<Vec<u8>, Error>)
        ensures
            final(self).write_key() == old(self).write_key(),
            final(self).read_key() == old(self).read_key(),
            final(self).read_pos() == old(self).read_pos(),
            r matches Ok(bytes) ==> {
                &&& bytes@ == xor_keystream(
                    old(self).write_key(),
                    old(self).write_pos(),
                    frame_bytes(control_frame(ControlModel::Okay), Seq::empty()),
                )
                &&& final(self).write_pos() == old(self).write_pos() + bytes@.len()
            },
            r matches Err(e) ==> e is Encryption,
    {
        self.control(&Control::Okay)
    }

    /// A shortcut to report an error to the peer.
    pub fn error(&mut self, msg: &str) -> (r: Result<Vec<u8>, Error>)
        requires
            encode_utf8(msg@).len() <= MAX_PAYLOAD_SIZE,
        ensures
            final(self).write_key() == old(self).write_key(),
            final(self).read_key() == old(self).read_key(),
            final(self).read_pos() == old(self).read_pos(),
            r matches Ok(bytes) ==> {
                &&& bytes@ == xor_keystream(
                    old(self).write_key(),
                    old(self).write_pos(),
                    frame_bytes(control_frame(ControlModel::Error(msg@)), encode_utf8(msg@)),
                )
                &&& final(self).write_pos() == old(self).write_pos() + bytes@.len()
            },
            r matches Err(e) ==> e is Encryption,
    {
        self.control(&Control::Error(msg.to_owned()))
    }

    /// Frames up to a payload's worth of `data` for a stream; hands back the
    /// wire bytes and how many data bytes they carry. The caller loops for
    /// longer buffers.
    pub fn write(&mut self, id: Stream, data: &Vec<u8>) -> (r: Result<(Vec<u8>, usize), Error>)
        ensures
            final(self).write_key() == old(self).write_key(),
            final(self).read_key() == old(self).read_key(),
            final(self).read_pos() == old(self).read_pos(),
            r matches Ok((bytes, n)) ==> {
                &&& n == if data@.len() > MAX_PAYLOAD_SIZE {
                    MAX_PAYLOAD_SIZE as int
                } else {
                    data@.len() as int
                }
                &&& bytes@ == xor_keystream(
                    old(self).write_key(),
                    old(self).write_pos(),
                    frame_bytes(
                        Frame { kind: Kind::Payload, id: id.0 },
                        data@.subrange(0, n as int),
                    ),
                )
                &&& final(self).write_pos() == old(self).write_pos() + bytes@.len()
            },
            r matches Err(e) ==> e is Encryption,
    {
        write_with(&mut self.frame.write_half, id, data)
    }

    /// Decrypts and parses the 7 header bytes of the next incoming frame;
    /// the caller then delivers exactly the announced payload size to
    /// `read_payload`.
    pub fn read_header(&mut self, buf: Vec<u8>) -> (r: Result<(Frame, u16), Error>)
        requires
            buf@.len() == FRAME_HEADER_SIZE,
        ensures
            final(self).read_key() == old(self).read_key(),
            final(self).write_key() == old(self).write_key(),
            final(self).write_pos() == old(self).write_pos(),
            ({
                let plain = xor_keystream(old(self).read_key(), old(self).read_pos(), buf@);
                &&& (r matches Ok((frm, size)) ==> {
                    &&& valid_kind_byte(plain[0])
                    &&& frm.kind == crate::wire::frame::kind_of_byte(plain[0])
                    &&& frm.id == crate::wire::frame::u32_of_be(plain.subrange(1, 5))
                    &&& size == crate::wire::frame::u16_of_be(plain.subrange(5, 7))
                    &&& final(self).read_pos() == old(self).read_pos() + FRAME_HEADER_SIZE
                })
                &&& (r matches Err(e) ==> (e is InvalidHeader || e is Encryption))
                &&& (r matches Err(e) ==> (e is InvalidHeader ==> !valid_kind_byte(plain[0])))
            }),
    {
        self.frame.read_half.read_header(buf)
    }

    /// Decrypts the payload bytes of the frame whose header was just read and
    /// decodes the typed message.
    pub fn read_payload(&mut self, frm: &Frame, data: Vec<u8>) -> (r: Result<Message, Error>)
        requires
            data@.len() <= MAX_PAYLOAD_SIZE,
        ensures
            final(self).read_key() == old(self).read_key(),
            final(self).write_key() == old(self).write_key(),
            final(self).write_pos() == old(self).write_pos(),
            ({
                let plain = xor_keystream(old(self).read_key(), old(self).read_pos(), data@);
                &&& (r matches Ok(m) ==> {
                    &&& (valid_utf8(plain) ==> m@ == message_model(*frm, plain))
                    &&& (!kind_has_text(frm.kind) ==> m@ == message_model(*frm, plain))
                    &&& message_shape(*frm, m@)
                    &&& final(self).read_pos() == old(self).read_pos() + data@.len()
                })
                &&& (r matches Err(e) ==> e is Encryption)
            }),
    {
        read_payload_with(&mut self.frame.read_half, frm, data)
    }

    /// Takes the connection apart into independently owned read and write
    /// endpoints, each keeping its own cipher state.
    pub fn split(self) -> (r: (ReadConnection, WriteConnection))
        ensures
            r.0.key() == self.read_key() && r.0.pos() == self.read_pos(),
            r.1.key() == self.write_key() && r.1.pos() == self.write_pos(),
    {
        let (read_half, write_half) = self.frame.split();
        (ReadConnection { half: read_half }, WriteConnection { half: write_half })
    }
}

impl ReadConnection {
    /// The shared secret this endpoint decrypts under.
    pub closed spec fn key(&self) -> Seq<u8> {
        self.half.key()
    }

    /// Keystream bytes consumed so far.
    pub closed spec fn pos(&self) -> nat {
        self.half.pos()
    }

    /// As `Connection::read_header`, on the split read endpoint.
    pub fn read_header(&mut self, buf: Vec<u8>) -> (r: Result<(Frame, u16), Error>)
        requires
            buf@.len() == FRAME_HEADER_SIZE,
        ensures
            final(self).key() == old(self).key(),
            ({
                let plain = xor_keystream(old(self).key(), old(self).pos(), buf@);
                &&& (r matches Ok((frm, size)) ==> {
                    &&& valid_kind_byte(plain[0])
                    &&& frm.kind == crate::wire::frame::kind_of_byte(plain[0])
                    &&& frm.id == crate::wire::frame::u32_of_be(plain.subrange(1, 5))
                    &&& size == crate::wire::frame::u16_of_be(plain.subrange(5, 7))
                    &&& final(self).pos() == old(self).pos() + FRAME_HEADER_SIZE
                })
                &&& (r matches Err(e) ==> (e is InvalidHeader || e is Encryption))
                &&& (r matches Err(e) ==> (e is InvalidHeader ==> !valid_kind_byte(plain[0])))
            }),
    {
        self.half.read_header(buf)
    }

    /// As `Connection::read_payload`, on the split read endpoint.
    pub fn read_payload(&mut self, frm: &Frame, data: Vec<u8>) -> (r: Result<Message, Error>)
        requires
            data@.len() <= MAX_PAYLOAD_SIZE,
        ensures
            final(self).key() == old(self).key(),
            ({
                let plain = xor_keystream(old(self).key(), old(self).pos(), data@);
                &&& (r matches Ok(m) ==> {
                    &&& (valid_utf8(plain) ==> m@ == message_model(*frm, plain))
                    &&& (!kind_has_text(frm.kind) ==> m@ == message_model(*frm, plain))
                    &&& message_shape(*frm, m@)
                    &&& final(self).pos() == old(self).pos() + data@.len()
                })
                &&& (r matches Err(e) ==> e is Encryption)
            }),
    {
        read_payload_with(&mut self.half, frm, data)
    }
}

impl WriteConnection {
    /// The shared secret this endpoint encrypts under.
    pub closed spec fn key(&self) -> Seq<u8> {
        self.half.key()
    }

    /// Keystream bytes consumed so far.
    pub closed spec fn pos(&self) -> nat {
        self.half.pos()
    }

    /// As `Connection::control`, on the split write endpoint.
    pub fn control(&mut self, ctl: &Control) -> (r: Result<Vec<u8>, Error>)
        requires
            control_payload(ctl@).len() <= MAX_PAYLOAD_SIZE,
        ensures
            final(self).key() == old(self).key(),
            r matches Ok(bytes) ==> {
                &&& bytes@ == xor_keystream(
                    old(self).key(),
                    old(self).pos(),
                    frame_bytes(control_frame(ctl@), control_payload(ctl@)),
                )
                &&& final(self).pos() == old(self).pos() + bytes@.len()
            },
            r matches Err(e) ==> e is Encryption,
    {
        control_with(&mut self.half, ctl)
    }

    /// As `Connection::write`, on the split write endpoint.
    pub fn write(&mut self, id: Stream, data: &Vec<u8>) -> (r: Result<(Vec<u8>, usize), Error>)
        ensures
            final(self).key() == old(self).key(),
            r matches Ok((bytes, n)) ==> {
                &&& n == if data@.len() > MAX_PAYLOAD_SIZE {
                    MAX_PAYLOAD_SIZE as int
                } else {
                    data@.len() as int
                }
                &&& bytes@ == xor_keystream(
                    old(self).key(),
                    old(self).pos(),
                    frame_bytes(
                        Frame { kind: Kind::Payload, id: id.0 },
                        data@.subrange(0, n as int),
                    ),
                )
                &&& final(self).pos() == old(self).pos() + bytes@.len()
            },
            r matches Err(e) ==> e is Encryption,
    {
        write_with(&mut self.half, id, data)
    }
}

} // verus!

verus! {

/// The client role of the handshake: it speaks first, then validates the
/// server's reply.
pub struct Client {
    pub kp: KeyPair,
}

impl Client {
    /// A client around its own fresh keypair.
    pub fn new(kp: KeyPair) -> (r: Client)
        ensures
            r.kp == kp,
    {
        Client { kp }
    }

    /// The unencrypted 38-byte handshake this client sends first: magic,
    /// version, own public key.
    pub fn hello(&self) -> (r: Vec<u8>)
        requires
            self.kp.wf(),
        ensures
            r@ == handshake_bytes(self.kp.public@),
            r@.len() == HANDSHAKE_SIZE,
    {
        crate::wire::frame::write_handshake(&self.kp.public)
    }

    /// Validates the server's 38-byte handshake reply, derives the shared
    /// secret from the server's public key, and hands back the encrypted
    /// connection. A wrong magic number, a wrong version and an invalid
    /// public key fail in exactly that order of checks.
    pub fn negotiate(self, reply: &Vec<u8>) -> (r: Result<Connection, Error>)
        requires
            self.kp.wf(),
            reply@.len() == HANDSHAKE_SIZE,
        ensures
            ({
                let magic_ok = crate::wire::frame::u32_of_be(reply@.subrange(0, 4))
                    == crate::wire::frame::MAGIC;
                let version_ok = reply@[4] == crate::wire::frame::VERSION;
                let peer = reply@.subrange(5, HANDSHAKE_SIZE as int);
                &&& (r matches Ok(c) ==> {
                    &&& magic_ok && version_ok
                    &&& crate::wire::encrypt::valid_public_key(peer)
                    &&& c.write_key() == crate::wire::encrypt::shared_of(self.kp.secret@, peer)
                    &&& c.read_key() == crate::wire::encrypt::shared_of(self.kp.secret@, peer)
                    &&& c.write_pos() == 0 && c.read_pos() == 0
                })
                &&& ((r matches Err(Error::InvalidMagic)) <==> !magic_ok)
                &&& (r matches Err(Error::InvalidVersion(v)) ==> magic_ok && v == reply@[4]
                    && !version_ok)
                &&& (magic_ok && !version_ok ==> r matches Err(Error::InvalidVersion(_)))
                &&& (magic_ok && version_ok && !crate::wire::encrypt::valid_public_key(peer)
                    ==> r matches Err(Error::Encryption))
            }),
    {
        let peer = crate::wire::frame::read_handshake(reply)?;
        let secret = crate::wire::encrypt::shared(&self.kp, &peer)?;
        Connection::new(&secret)
    }
}

/// The server role of the handshake: it reads the client's handshake first,
/// then sends its own.
pub struct Server {
    pub kp: KeyPair,
}

impl Server {
    /// A server around its own fresh keypair.
    pub fn new(kp: KeyPair) -> (r: Server)
        ensures
            r.kp == kp,
    {
        Server { kp }
    }

    /// Validates the client's 38-byte handshake, and hands back the 38-byte
    /// reply to send together with the encrypted connection over the derived
    /// shared secret. The same checks fail in the same order as on the
    /// client.
    pub fn accept(self, request: &Vec<u8>) -> (r: Result<(Vec<u8>, Connection), Error>)
        requires
            self.kp.wf(),
            request@.len() == HANDSHAKE_SIZE,
        ensures
            ({
                let magic_ok = crate::wire::frame::u32_of_be(request@.subrange(0, 4))
                    == crate::wire::frame::MAGIC;
                let version_ok = request@[4] == crate::wire::frame::VERSION;
                let peer = request@.subrange(5, HANDSHAKE_SIZE as int);
                &&& (r matches Ok((hello, c)) ==> {
                    &&& magic_ok && version_ok
                    &&& crate::wire::encrypt::valid_public_key(peer)
                    &&& hello@ == handshake_bytes(self.kp.public@)
                    &&& c.write_key() == crate::wire::encrypt::shared_of(self.kp.secret@, peer)
                    &&& c.read_key() == crate::wire::encrypt::shared_of(self.kp.secret@, peer)
                    &&& c.write_pos() == 0 && c.read_pos() == 0
                })
                &&& ((r matches Err(Error::InvalidMagic)) <==> !magic_ok)
                &&& (r matches Err(Error::InvalidVersion(v)) ==> magic_ok && v == request@[4]
                    && !version_ok)
                &&& (magic_ok && !version_ok ==> r matches Err(Error::InvalidVersion(_)))
                &&& (magic_ok && version_ok && !crate::wire::encrypt::valid_public_key(peer)
                    ==> r matches Err(Error::Encryption))
            }),
    {
        let peer = crate::wire::frame::read_handshake(request)?;
        let hello = crate::wire::frame::write_handshake(&self.kp.public);
        let secret = crate::wire::encrypt::shared(&self.kp, &peer)?;
        let conn = Connection::new(&secret)?;
        Ok((hello, conn))
    }
}

/// The sender's outgoing direction and the receiver's incoming direction
/// agree: same shared secret, same keystream position.
pub open spec fn piped(tx: Connection, rx: Connection) -> bool {
    tx.write_key() == rx.read_key() && tx.write_pos() == rx.read_pos()
}

/// Carries one control message across an encrypted channel: a receiver whose
/// incoming cipher state matches the sender's outgoing one decodes exactly
/// the message that was sent, and the two states match again afterwards.
pub fn relay_control(tx: &mut Connection, rx: &mut Connection, ctl: &Control) -> (res: Result<
    Message,
    Error,
>)
    requires
        piped(*old(tx), *old(rx)),
        control_payload(ctl@).len() <= MAX_PAYLOAD_SIZE,
    ensures
        res matches Ok(m) ==> {
            &&& m@ == MessageModel::Control(ctl@)
            &&& piped(*final(tx), *final(rx))
        },
        res matches Err(e) ==> e is Encryption,
{
    broadcast use vstd::utf8::encode_utf8_valid_utf8;

    let ghost key = old(tx).write_key();
    let ghost pos = old(tx).write_pos();
    let ghost pv = control_payload(ctl@);
    let ghost frm0 = control_frame(ctl@);
    let ghost plain = frame_bytes(frm0, pv);
    let wire = tx.control(ctl)?;
    let hdr = crate::wire::frame::head_bytes(&wire, FRAME_HEADER_SIZE);
    let rest = crate::wire::frame::tail_bytes(&wire, FRAME_HEADER_SIZE);
    proof {
        crate::wire::encrypt::lemma_xor_keystream_subrange(key, pos, plain, 0, 7);
        crate::wire::encrypt::lemma_xor_keystream_subrange(key, pos, plain, 7, plain.len() as int);
        assert(plain.subrange(0, 7) =~= header_bytes(frm0, pv.len() as u16));
        assert(plain.subrange(7, plain.len() as int) =~= pv);
        crate::wire::encrypt::lemma_xor_keystream_involutive(key, pos, plain.subrange(0, 7));
        crate::wire::frame::lemma_header_round_trip(frm0, pv.len() as u16);
    }
    let (frm, _size) = rx.read_header(hdr)?;
    proof {
        crate::wire::encrypt::lemma_xor_keystream_involutive(key, (pos + 7) as nat, pv);
        assert(frm == frm0);
    }
    let m = rx.read_payload(&frm, rest)?;
    proof {
        lemma_control_round_trip(ctl@);
        assert(valid_utf8(pv));
    }
    Ok(m)
}

} // verus!
