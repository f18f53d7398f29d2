//! Framing layer of the wire protocol.
//!
//! A frame is a 7-byte big-endian header — kind (u8), id (u32), size (u16) —
//! followed by `size` payload bytes. The unencrypted 38-byte handshake that
//! precedes all frames carries a magic number, a protocol version and a
//! 33-byte compressed public key.
use vstd::prelude::*;

use crate::Error;

verus! {

/// The handshake magic number, `0x6469676c`.
pub const MAGIC: u32 = 0x6469676c;

/// The only protocol version this crate speaks.
pub const VERSION: u8 = 1;

/// A handshake is always exactly this many bytes: 4 magic + 1 version + 33 key.
pub const HANDSHAKE_SIZE: usize = 38;

/// A compressed SEC1 secp256k1 public key is 33 bytes.
pub const PUBLIC_KEY_SIZE: usize = 33;

/// A frame header is always exactly this many bytes.
pub const FRAME_HEADER_SIZE: usize = 7;

/// A frame payload is at most this many bytes, the largest u16.
pub const MAX_PAYLOAD_SIZE: usize = 65535;

/// What a frame carries, encoded as the header's first byte.
#[derive(Debug, PartialEq, Eq, Clone, Copy, Structural)]
pub enum Kind {
    /// Acknowledges the previous request.
    Okay,
    /// Reports an error message.
    Error,
    /// Registers a new domain name.
    Register,
    /// Ends registration; data may flow afterwards.
    FinishRegister,
    /// Carries payload bytes of one stream.
    Payload,
    /// Closes one stream.
    Close,
    /// Terminates the whole connection.
    Terminate,
    /// Carries the agent's login token.
    Login,
}

/// The stable numeric encoding of each frame kind.
pub open spec fn kind_byte(k: Kind) -> u8 {
    match k {
        Kind::Okay => 0,
        Kind::Error => 1,
        Kind::Register => 2,
        Kind::FinishRegister => 3,
        Kind::Payload => 4,
        Kind::Close => 5,
        Kind::Terminate => 6,
        Kind::Login => 7,
    }
}

/// Whether a byte is the encoding of some frame kind.
pub open spec fn valid_kind_byte(v: u8) -> bool {
    v <= 7
}

/// The frame kind a byte decodes to; meaningful only when `valid_kind_byte(v)`.
pub open spec fn kind_of_byte(v: u8) -> Kind {
    if v == 0 {
        Kind::Okay
    } else if v == 1 {
        Kind::Error
    } else if v == 2 {
        Kind::Register
    } else if v == 3 {
        Kind::FinishRegister
    } else if v == 4 {
        Kind::Payload
    } else if v == 5 {
        Kind::Close
    } else if v == 6 {
        Kind::Terminate
    } else {
        Kind::Login
    }
}

/// Decoding inverts encoding: every kind survives the trip through its byte,
/// and every valid byte survives the trip through its kind.
pub proof fn lemma_kind_byte_round_trip(k: Kind, v: u8)
    ensures
        kind_of_byte(kind_byte(k)) == k,
        valid_kind_byte(kind_byte(k)),
        valid_kind_byte(v) ==> kind_byte(kind_of_byte(v)) == v,
{
}

impl Kind {
    /// The header byte this kind is written as.
    pub fn as_byte(&self) -> (r: u8)
        ensures
            r == kind_byte(*self),
    {
        match self {
            Kind::Okay => 0,
            Kind::Error => 1,
            Kind::Register => 2,
            Kind::FinishRegister => 3,
            Kind::Payload => 4,
            Kind::Close => 5,
            Kind::Terminate => 6,
            Kind::Login => 7,
        }
    }

    /// Decodes a header byte; every value above 7 is rejected as an invalid
    /// header.
    pub fn try_from(value: u8) -> (r: Result<Kind, Error>)
        ensures
            r is Ok <==> valid_kind_byte(value),
            r matches Ok(k) ==> k == kind_of_byte(value),
            r matches Err(e) ==> e is InvalidHeader,
    {
        match value {
            0 => Ok(Kind::Okay),
            1 => Ok(Kind::Error),
            2 => Ok(Kind::Register),
            3 => Ok(Kind::FinishRegister),
            4 => Ok(Kind::Payload),
            5 => Ok(Kind::Close),
            6 => Ok(Kind::Terminate),
            7 => Ok(Kind::Login),
            _ => Err(Error::InvalidHeader),
        }
    }
}

/// A frame header before its size field: what kind of frame this is and which
/// stream or registration it addresses.
#[derive(Debug, PartialEq, Eq, Clone, Copy, Structural)]
pub struct Frame {
    pub kind: Kind,
    pub id: u32,
}

/// The big-endian bytes of a 32-bit integer.
pub open spec fn be32(x: u32) -> Seq<u8> {
    seq![(x >> 24u32) as u8, (x >> 16u32) as u8, (x >> 8u32) as u8, x as u8]
}

/// The big-endian bytes of a 16-bit integer.
pub open spec fn be16(x: u16) -> Seq<u8> {
    seq![(x >> 8u16) as u8, x as u8]
}

/// The 32-bit integer read back from four big-endian bytes.
pub open spec fn u32_of_be(b: Seq<u8>) -> u32
    recommends
        b.len() == 4,
{
    (((b[0] as u32) << 24u32) | ((b[1] as u32) << 16u32) | ((b[2] as u32) << 8u32) | (
    b[3] as u32)) as u32
}

/// The 16-bit integer read back from two big-endian bytes.
pub open spec fn u16_of_be(b: Seq<u8>) -> u16
    recommends
        b.len() == 2,
{
    (((b[0] as u16) << 8u16) | (b[1] as u16)) as u16
}

/// Reading four big-endian bytes inverts writing them, in both directions.
pub proof fn lemma_be32_round_trip(x: u32, b0: u8, b1: u8, b2: u8, b3: u8)
    ensures
        u32_of_be(be32(x)) == x,
        be32(u32_of_be(seq![b0, b1, b2, b3])) =~= seq![b0, b1, b2, b3],
{
    assert((((((x >> 24u32) as u8) as u32) << 24u32) | ((((x >> 16u32) as u8) as u32) << 16u32) | (
    (((x >> 8u32) as u8) as u32) << 8u32) | ((x as u8) as u32)) as u32 == x) by (bit_vector);
    let y = (((b0 as u32) << 24u32) | ((b1 as u32) << 16u32) | ((b2 as u32) << 8u32) | (
    b3 as u32)) as u32;
    assert((y >> 24u32) as u8 == b0 && (y >> 16u32) as u8 == b1 && (y >> 8u32) as u8 == b2
        && y as u8 == b3) by (bit_vector)
        requires
            y == (((b0 as u32) << 24u32) | ((b1 as u32) << 16u32) | ((b2 as u32) << 8u32) | (
            b3 as u32)) as u32,
    ;
}

/// Reading two big-endian bytes inverts writing them, in both directions.
pub proof fn lemma_be16_round_trip(x: u16, b0: u8, b1: u8)
    ensures
        u16_of_be(be16(x)) == x,
        be16(u16_of_be(seq![b0, b1])) =~= seq![b0, b1],
{
    assert(((((x >> 8u16) as u8) as u16) << 8u16 | ((x as u8) as u16)) as u16 == x)
        by (bit_vector);
    let y = (((b0 as u16) << 8u16) | (b1 as u16)) as u16;
    assert((y >> 8u16) as u8 == b0 && y as u8 == b1) by (bit_vector)
        requires
            y == (((b0 as u16) << 8u16) | (b1 as u16)) as u16,
    ;
}

/// The 7 header bytes of a frame with the given payload size: kind, id and
/// size, big-endian.
pub open spec fn header_bytes(frm: Frame, size: u16) -> Seq<u8> {
    seq![kind_byte(frm.kind)] + be32(frm.id) + be16(size)
}

/// Writes the 7-byte header of a frame with the given payload size.
pub fn encode_header(frm: &Frame, size: u16) -> (r: Vec<u8>)
    ensures
        r@ == header_bytes(*frm, size),
        r@.len() == FRAME_HEADER_SIZE,
{
    let mut r: Vec<u8> = Vec::new();
    r.push(frm.kind.as_byte());
    r.push((frm.id >> 24u32) as u8);
    r.push((frm.id >> 16u32) as u8);
    r.push((frm.id >> 8u32) as u8);
    r.push(frm.id as u8);
    r.push((size >> 8u16) as u8);
    r.push(size as u8);
    proof {
        assert(r@ =~= header_bytes(*frm, size));
    }
    r
}

/// Parses 7 header bytes into a frame and its payload size. Fails with
/// `InvalidHeader` exactly when the kind byte is unknown.
pub fn decode_header(bytes: &Vec<u8>) -> (r: Result<(Frame, u16), Error>)
    requires
        bytes@.len() == FRAME_HEADER_SIZE,
    ensures
        r is Ok <==> valid_kind_byte(bytes@[0]),
        r matches Ok((frm, size)) ==> {
            &&& frm.kind == kind_of_byte(bytes@[0])
            &&& frm.id == u32_of_be(bytes@.subrange(1, 5))
            &&& size == u16_of_be(bytes@.subrange(5, 7))
        },
        r matches Err(e) ==> e is InvalidHeader,
{
    let kind = Kind::try_from(bytes[0])?;
    let id: u32 = ((bytes[1] as u32) << 24u32) | ((bytes[2] as u32) << 16u32) | ((
    bytes[3] as u32) << 8u32) | (bytes[4] as u32);
    let size: u16 = ((bytes[5] as u16) << 8u16) | (bytes[6] as u16);
    proof {
        assert(bytes@.subrange(1, 5) =~= seq![bytes@[1], bytes@[2], bytes@[3], bytes@[4]]);
        assert(bytes@.subrange(5, 7) =~= seq![bytes@[5], bytes@[6]]);
    }
    Ok((Frame { kind, id }, size))
}

/// Every frame header survives the round trip: the 7 bytes written for a
/// frame parse back to the same kind, id and size.
pub proof fn lemma_header_round_trip(frm: Frame, size: u16)
    ensures
        header_bytes(frm, size).len() == FRAME_HEADER_SIZE,
        valid_kind_byte(header_bytes(frm, size)[0]),
        kind_of_byte(header_bytes(frm, size)[0]) == frm.kind,
        u32_of_be(header_bytes(frm, size).subrange(1, 5)) == frm.id,
        u16_of_be(header_bytes(frm, size).subrange(5, 7)) == size,
{
    let h = header_bytes(frm, size);
    lemma_kind_byte_round_trip(frm.kind, 0);
    assert(h.subrange(1, 5) =~= be32(frm.id));
    assert(h.subrange(5, 7) =~= be16(size));
    lemma_be32_round_trip(frm.id, 0, 0, 0, 0);
    lemma_be16_round_trip(size, 0, 0);
}

/// The 38 handshake bytes for a 33-byte public key: magic, version, key.
pub open spec fn handshake_bytes(key: Seq<u8>) -> Seq<u8> {
    be32(MAGIC) + seq![VERSION] + key
}

/// Writes the 38-byte handshake carrying this peer's compressed public key.
pub fn write_handshake(key: &Vec<u8>) -> (r: Vec<u8>)
    requires
        key@.len() == PUBLIC_KEY_SIZE,
    ensures
        r@ == handshake_bytes(key@),
        r@.len() == HANDSHAKE_SIZE,
{
    let mut r: Vec<u8> = Vec::new();
    r.push((MAGIC >> 24u32) as u8);
    r.push((MAGIC >> 16u32) as u8);
    r.push((MAGIC >> 8u32) as u8);
    r.push(MAGIC as u8);
    r.push(VERSION);
    let mut i: usize = 0;
    while i < key.len()
        invariant
            i <= key@.len(),
            key@.len() == PUBLIC_KEY_SIZE,
            r@ =~= be32(MAGIC) + seq![VERSION] + key@.subrange(0, i as int),
        decreases key@.len() - i,
    {
        r.push(key[i]);
        i = i + 1;
    }
    proof {
        assert(key@.subrange(0, key@.len() as int) =~= key@);
        assert(r@ =~= handshake_bytes(key@));
    }
    r
}

/// Parses a 38-byte handshake and hands back the peer's 33 key bytes.
/// Fails with `InvalidMagic` exactly when the magic number differs, and with
/// `InvalidVersion` exactly when the magic matches but the version is not 1.
pub fn read_handshake(buf: &Vec<u8>) -> (r: Result<Vec<u8>, Error>)
    requires
        buf@.len() == HANDSHAKE_SIZE,
    ensures
        r is Ok <==> u32_of_be(buf@.subrange(0, 4)) == MAGIC && buf@[4] == VERSION,
        r matches Ok(key) ==> key@ == buf@.subrange(5, HANDSHAKE_SIZE as int),
        r matches Err(e) ==> {
            &&& e is InvalidMagic || e is InvalidVersion
            &&& (e is InvalidMagic <==> u32_of_be(buf@.subrange(0, 4)) != MAGIC)
            &&& (e matches Error::InvalidVersion(v) ==> u32_of_be(buf@.subrange(0, 4)) == MAGIC
                && v == buf@[4] && v != VERSION)
        },
{
    let magic: u32 = ((buf[0] as u32) << 24u32) | ((buf[1] as u32) << 16u32) | ((
    buf[2] as u32) << 8u32) | (buf[3] as u32);
    proof {
        assert(buf@.subrange(0, 4) =~= seq![buf@[0], buf@[1], buf@[2], buf@[3]]);
    }
    if magic != MAGIC {
        return Err(Error::InvalidMagic);
    }
    let version = buf[4];
    if version != VERSION {
        return Err(Error::InvalidVersion(version));
    }
    let mut key: Vec<u8> = Vec::new();
    let mut i: usize = 5;
    while i < HANDSHAKE_SIZE
        invariant
            5 <= i <= HANDSHAKE_SIZE,
            buf@.len() == HANDSHAKE_SIZE,
            key@ =~= buf@.subrange(5, i as int),
        decreases HANDSHAKE_SIZE - i,
    {
        key.push(buf[i]);
        i = i + 1;
    }
    proof {
        assert(key@ =~= buf@.subrange(5, HANDSHAKE_SIZE as int));
    }
    Ok(key)
}

/// A written handshake always parses back to the key it was built from.
pub proof fn lemma_handshake_round_trip(key: Seq<u8>)
    requires
        key.len() == PUBLIC_KEY_SIZE,
    ensures
        handshake_bytes(key).len() == HANDSHAKE_SIZE,
        u32_of_be(handshake_bytes(key).subrange(0, 4)) == MAGIC,
        handshake_bytes(key)[4] == VERSION,
        handshake_bytes(key).subrange(5, HANDSHAKE_SIZE as int) =~= key,
{
    let h = handshake_bytes(key);
    assert(h.subrange(0, 4) =~= be32(MAGIC));
    lemma_be32_round_trip(MAGIC, 0, 0, 0, 0);
}

} // verus!

use crate::wire::encrypt::{keystream, xor_keystream, Cipher, SHARED_KEY_LEN};

verus! {

/// The payload bytes an optional payload argument stands for.
pub open spec fn payload_view(payload: Option<&Vec<u8>>) -> Seq<u8> {
    match payload {
        Some(p) => p@,
        None => Seq::empty(),
    }
}

/// The full plaintext bytes of one frame: the 7-byte header for this payload
/// length, then the payload itself.
pub open spec fn frame_bytes(frm: Frame, payload: Seq<u8>) -> Seq<u8> {
    header_bytes(frm, payload.len() as u16) + payload
}

/// Appends all bytes of `src` to `dst`.
pub(crate) fn append_bytes(dst: &mut Vec<u8>, src: &Vec<u8>)
    ensures
        final(dst)@ == old(dst)@ + src@,
{
    let mut i: usize = 0;
    while i < src.len()
        invariant
            i <= src@.len(),
            dst@ =~= old(dst)@ + src@.subrange(0, i as int),
        decreases src@.len() - i,
    {
        dst.push(src[i]);
        i = i + 1;
    }
    proof {
        assert(dst@ =~= old(dst)@ + src@);
    }
}

/// The bytes of `v` from `mid` on, as their own buffer.
pub(crate) fn tail_bytes(v: &Vec<u8>, mid: usize) -> (r: Vec<u8>)
    requires
        mid <= v@.len(),
    ensures
        r@ == v@.subrange(mid as int, v@.len() as int),
{
    let mut r: Vec<u8> = Vec::new();
    let mut i: usize = mid;
    while i < v.len()
        invariant
            mid <= i <= v@.len(),
            r@ =~= v@.subrange(mid as int, i as int),
        decreases v@.len() - i,
    {
        r.push(v[i]);
        i = i + 1;
    }
    proof {
        assert(r@ =~= v@.subrange(mid as int, v@.len() as int));
    }
    r
}

/// The first `mid` bytes of `v`, as their own buffer.
pub(crate) fn head_bytes(v: &Vec<u8>, mid: usize) -> (r: Vec<u8>)
    requires
        mid <= v@.len(),
    ensures
        r@ == v@.subrange(0, mid as int),
{
    let mut r: Vec<u8> = Vec::new();
    let mut i: usize = 0;
    while i < mid
        invariant
            i <= mid <= v@.len(),
            r@ =~= v@.subrange(0, i as int),
        decreases mid - i,
    {
        r.push(v[i]);
        i = i + 1;
    }
    r
}

/// The writing half of a framed channel: owns the cipher state that encrypts
/// outgoing frames. The write of one frame is a single unit; callers that
/// share a writer must hand whole frames to the transport one at a time.
pub struct FrameWriterHalf {
    cipher: Cipher,
}

impl FrameWriterHalf {
    /// The shared secret this half encrypts under.
    pub closed spec fn key(&self) -> Seq<u8> {
        self.cipher.key()
    }

    /// How many keystream bytes this half has consumed.
    pub closed spec fn pos(&self) -> nat {
        self.cipher.pos()
    }

    /// A writer half over a fresh encrypting cipher state at position 0.
    pub fn new(key: &Vec<u8>) -> (r: Result<FrameWriterHalf, Error>)
        requires
            key@.len() == SHARED_KEY_LEN,
        ensures
            r matches Ok(w) ==> w.key() == key@ && w.pos() == 0,
            r matches Err(e) ==> e is Encryption,
    {
        let cipher = Cipher::encryptor(key)?;
        Ok(FrameWriterHalf { cipher })
    }

    /// Encrypts one whole frame — header, then payload — and hands back the
    /// wire bytes to be written to the transport as one unit.
    pub fn write(&mut self, frm: &Frame, payload: Option<&Vec<u8>>) -> (r: Result<Vec<u8>, Error>)
        requires
            payload_view(payload).len() <= MAX_PAYLOAD_SIZE,
        ensures
            final(self).key() == old(self).key(),
            r matches Ok(bytes) ==> {
                &&& bytes@ == xor_keystream(
                    old(self).key(),
                    old(self).pos(),
                    frame_bytes(*frm, payload_view(payload)),
                )
                &&& bytes@.len() == FRAME_HEADER_SIZE + payload_view(payload).len()
                &&& final(self).pos() == old(self).pos() + bytes@.len()
            },
            r matches Err(e) ==> e is Encryption,
    {
        let size: u16 = match payload {
            Some(p) => p.len() as u16,
            None => 0,
        };
        let mut buf = encode_header(frm, size);
        if let Some(p) = payload {
            append_bytes(&mut buf, p);
        }
        proof {
            assert(buf@ == frame_bytes(*frm, payload_view(payload)));
        }
        self.cipher.apply(&mut buf)?;
        Ok(buf)
    }
}

/// The reading half of a framed channel: owns the cipher state that decrypts
/// incoming frames. A frame is read in two steps: exactly 7 header bytes,
/// then exactly as many payload bytes as the header announced.
pub struct FrameReaderHalf {
    cipher: Cipher,
}

impl FrameReaderHalf {
    /// The shared secret this half decrypts under.
    pub closed spec fn key(&self) -> Seq<u8> {
        self.cipher.key()
    }

    /// How many keystream bytes this half has consumed.
    pub closed spec fn pos(&self) -> nat {
        self.cipher.pos()
    }

    /// A reader half over a fresh decrypting cipher state at position 0.
    pub fn new(key: &Vec<u8>) -> (r: Result<FrameReaderHalf, Error>)
        requires
            key@.len() == SHARED_KEY_LEN,
        ensures
            r matches Ok(h) ==> h.key() == key@ && h.pos() == 0,
            r matches Err(e) ==> e is Encryption,
    {
        let cipher = Cipher::decryptor(key)?;
        Ok(FrameReaderHalf { cipher })
    }

    /// Decrypts and parses the 7 header bytes of the next frame. Fails with
    /// `InvalidHeader` exactly when the decrypted kind byte is unknown; the
    /// cipher has consumed the 7 bytes either way.
    pub fn read_header(&mut self, buf: Vec<u8>) -> (r: Result<(Frame, u16), Error>)
        requires
            buf@.len() == FRAME_HEADER_SIZE,
        ensures
            final(self).key() == old(self).key(),
            ({
                let plain = xor_keystream(old(self).key(), old(self).pos(), buf@);
                &&& (r matches Ok((frm, size)) ==> {
                    &&& valid_kind_byte(plain[0])
                    &&& frm.kind == kind_of_byte(plain[0])
                    &&& frm.id == u32_of_be(plain.subrange(1, 5))
                    &&& size == u16_of_be(plain.subrange(5, 7))
                    &&& final(self).pos() == old(self).pos() + FRAME_HEADER_SIZE
                })
                &&& (r matches Err(e) ==> (e is InvalidHeader || e is Encryption))
                &&& (r matches Err(e) ==> (e is InvalidHeader ==> !valid_kind_byte(plain[0])
                    && final(self).pos() == old(self).pos() + FRAME_HEADER_SIZE))
            }),
    {
        let mut b = buf;
        self.cipher.apply(&mut b)?;
        match decode_header(&b) {
            Ok((frm, size)) => Ok((frm, size)),
            Err(e) => Err(e),
        }
    }

    /// Decrypts the payload bytes of the frame whose header was just read.
    pub fn read_payload(&mut self, data: Vec<u8>) -> (r: Result<Vec<u8>, Error>)
        requires
            data@.len() <= MAX_PAYLOAD_SIZE,
        ensures
            final(self).key() == old(self).key(),
            r matches Ok(plain) ==> {
                &&& plain@ == xor_keystream(old(self).key(), old(self).pos(), data@)
                &&& final(self).pos() == old(self).pos() + data@.len()
            },
            r matches Err(e) ==> e is Encryption,
    {
        let mut b = data;
        self.cipher.apply(&mut b)?;
        Ok(b)
    }
}

/// Both halves of a framed channel, before it is split: an encrypting writer
/// and a decrypting reader over the same shared secret, each with its own
/// cipher state.
pub struct FrameStream {
    pub read_half: FrameReaderHalf,
    pub write_half: FrameWriterHalf,
}

impl FrameStream {
    /// A fresh framed channel over a 64-byte shared secret: both directions
    /// start at keystream position 0.
    pub fn new(key: &Vec<u8>) -> (r: Result<FrameStream, Error>)
        requires
            key@.len() == SHARED_KEY_LEN,
        ensures
            r matches Ok(s) ==> {
                &&& s.read_half.key() == key@ && s.read_half.pos() == 0
                &&& s.write_half.key() == key@ && s.write_half.pos() == 0
            },
            r matches Err(e) ==> e is Encryption,
    {
        let read_half = FrameReaderHalf::new(key)?;
        let write_half = FrameWriterHalf::new(key)?;
        Ok(FrameStream { read_half, write_half })
    }

    /// Takes the channel apart into independently owned halves.
    pub fn split(self) -> (r: (FrameReaderHalf, FrameWriterHalf))
        ensures
            r.0 == self.read_half,
            r.1 == self.write_half,
    {
        (self.read_half, self.write_half)
    }
}

/// A writer at one endpoint and a reader at the other endpoint agree: same
/// shared secret, same keystream position.
pub open spec fn in_sync(w: FrameWriterHalf, r: FrameReaderHalf) -> bool {
    w.key() == r.key() && w.pos() == r.pos()
}

/// Carries one frame from a writer to an in-sync reader: the reader decodes
/// exactly the frame and payload that were written, and the two keystream
/// positions, equal before, are equal again afterwards.
pub fn relay_frame(
    w: &mut FrameWriterHalf,
    r: &mut FrameReaderHalf,
    frm: &Frame,
    payload: Option<&Vec<u8>>,
) -> (res: Result<(Frame, Vec<u8>), Error>)
    requires
        in_sync(*old(w), *old(r)),
        payload_view(payload).len() <= MAX_PAYLOAD_SIZE,
    ensures
        res matches Ok((f2, data)) ==> {
            &&& f2 == *frm
            &&& data@ == payload_view(payload)
            &&& in_sync(*final(w), *final(r))
        },
        res matches Err(e) ==> e is Encryption,
{
    let ghost key = old(w).key();
    let ghost pos = old(w).pos();
    let ghost pv = payload_view(payload);
    let ghost plain = frame_bytes(*frm, pv);
    let wire = w.write(frm, payload)?;
    let hdr = head_bytes(&wire, FRAME_HEADER_SIZE);
    let rest = tail_bytes(&wire, FRAME_HEADER_SIZE);
    proof {
        crate::wire::encrypt::lemma_xor_keystream_subrange(key, pos, plain, 0, 7);
        crate::wire::encrypt::lemma_xor_keystream_subrange(
            key,
            pos,
            plain,
            7,
            plain.len() as int,
        );
        assert(plain.subrange(0, 7) =~= header_bytes(*frm, pv.len() as u16));
        assert(plain.subrange(7, plain.len() as int) =~= pv);
        crate::wire::encrypt::lemma_xor_keystream_involutive(key, pos, plain.subrange(0, 7));
        lemma_header_round_trip(*frm, pv.len() as u16);
    }
    let (f2, size) = r.read_header(hdr)?;
    proof {
        crate::wire::encrypt::lemma_xor_keystream_involutive(key, (pos + 7) as nat, pv);
    }
    let data = r.read_payload(rest)?;
    Ok((f2, data))
}

/// An encrypted channel is transparent: however many payload chunks one
/// endpoint's writer frames and encrypts, an independent cipher pair over the
/// same key at the same position reads back exactly those bytes, and the two
/// keystream positions end equal again.
pub fn relay_payloads(
    w: &mut FrameWriterHalf,
    r: &mut FrameReaderHalf,
    id: u32,
    chunks: &Vec<Vec<u8>>,
) -> (res: Result<Vec<Vec<u8>>, Error>)
    requires
        in_sync(*old(w), *old(r)),
        forall|i: int| 0 <= i < chunks@.len() ==> (#[trigger] chunks@[i])@.len() <= MAX_PAYLOAD_SIZE,
    ensures
        res matches Ok(out) ==> {
            &&& out.deep_view() == chunks.deep_view()
            &&& in_sync(*final(w), *final(r))
        },
        res matches Err(e) ==> e is Encryption,
{
    let mut out: Vec<Vec<u8>> = Vec::new();
    let mut i: usize = 0;
    while i < chunks.len()
        invariant
            i <= chunks@.len(),
            in_sync(*w, *r),
            forall|j: int|
                0 <= j < chunks@.len() ==> (#[trigger] chunks@[j])@.len() <= MAX_PAYLOAD_SIZE,
            out@.len() == i,
            forall|j: int| 0 <= j < i ==> (#[trigger] out@[j])@ == chunks@[j]@,
        decreases chunks@.len() - i,
    {
        let frm = Frame { kind: Kind::Payload, id };
        let (_f2, data) = relay_frame(w, r, &frm, Some(&chunks[i]))?;
        out.push(data);
        i = i + 1;
    }
    proof {
        assert forall|j: int| 0 <= j < chunks@.len() implies out.deep_view()[j]
            == chunks.deep_view()[j] by {
            assert(out.deep_view()[j] =~= out@[j]@);
            assert(chunks.deep_view()[j] =~= chunks@[j]@);
        }
        assert(out.deep_view() =~~= chunks.deep_view());
    }
    Ok(out)
}

} // verus!
