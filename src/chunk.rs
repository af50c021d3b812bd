use crate::chunk_type::{is_type_code, ChunkType};
use crate::types::{assert_or_err, error_from, Error, ErrorKind, Result};
use crate::text::{ascii_text, decimal_of, decimal_string, string_from_utf8};
use vstd::prelude::*;
use vstd::utf8::{decode_utf8, valid_utf8};
use vstd::slice::{slice_subrange, slice_to_vec};

verus! {

/// Width in bytes of the length field.
pub const LENGTH_WIDTH: usize = 4;

/// Width in bytes of the type-code field.
pub const TYPE_WIDTH: usize = 4;

/// Width in bytes of the checksum field.
pub const CRC_WIDTH: usize = 4;

/// Combined width of the three fixed fields of a chunk.
pub const REQ_FIELDS_WIDTH: usize = LENGTH_WIDTH + TYPE_WIDTH + CRC_WIDTH;

/// The CRC-32 (ISO-HDLC, as in zlib and PNG) of a byte sequence.
pub uninterp spec fn crc32_of(b: Seq<u8>) -> u32;

/// Relies on `crc::Crc::<u32>::checksum` with `crc::CRC_32_ISO_HDLC`: the
/// checksum is determined by the bytes alone.
#[verifier::external_body]
fn crc32_iso_hdlc(bytes: &[u8]) -> (r: u32)
    ensures
        r == crc32_of(bytes@),
{
    crc::Crc::<u32>::new(&crc::CRC_32_ISO_HDLC).checksum(bytes)
}

/// The informational summary of a chunk with type bytes `t` and payload `d`.
pub open spec fn summary_text(t: Seq<u8>, d: Seq<u8>) -> Seq<char> {
    "Chunk {Length: "@ + decimal_of(d.len() as u32) + ", Type: "@ + ascii_text(t) + ", Crc: "@
        + decimal_of(chunk_checksum(t, d)) + "}\n"@
}

/// The big-endian encoding of `n` in four bytes.
pub open spec fn be32_bytes(n: u32) -> Seq<u8> {
    seq![
        (n / 0x1000000) as u8,
        (n / 0x10000 % 0x100) as u8,
        (n / 0x100 % 0x100) as u8,
        (n % 0x100) as u8,
    ]
}

/// The number that four bytes encode in big-endian order.
pub open spec fn be32_value(b: Seq<u8>) -> int {
    b[0] as int * 0x1000000 + b[1] as int * 0x10000 + b[2] as int * 0x100 + b[3] as int
}

/// The checksum of a chunk: the CRC-32 of its type bytes followed by its payload.
pub open spec fn chunk_checksum(t: Seq<u8>, d: Seq<u8>) -> u32 {
    crc32_of(t + d)
}

/// The wire form of a chunk with type bytes `t` and payload `d`: length,
/// type, payload, checksum.
pub open spec fn wire_bytes(t: Seq<u8>, d: Seq<u8>) -> Seq<u8> {
    be32_bytes(d.len() as u32) + t + d + be32_bytes(chunk_checksum(t, d))
}

/// The fields of a buffer that is laid out as one chunk, before the
/// checksum is compared: type bytes, payload, and the stored checksum.
pub open spec fn spec_fields(b: Seq<u8>) -> core::result::Result<(Seq<u8>, Seq<u8>, u32), ErrorKind> {
    if b.len() < 12 {
        Err(ErrorKind::Incomplete)
    } else if b.len() != 12 + be32_value(b.subrange(0, 4)) {
        Err(ErrorKind::InvalidLength)
    } else if !is_type_code(b.subrange(4, 8)) {
        Err(crate::chunk_type::type_code_error(b.subrange(4, 8)))
    } else {
        Ok(
            (
                b.subrange(4, 8),
                b.subrange(8, b.len() - 4),
                be32_value(b.subrange(b.len() - 4, b.len() as int)) as u32,
            ),
        )
    }
}

/// What decoding a buffer gives: the type bytes and payload of the chunk it
/// holds, or the kind of error that rejects it.
pub open spec fn spec_decode(b: Seq<u8>) -> core::result::Result<(Seq<u8>, Seq<u8>), ErrorKind> {
    match spec_fields(b) {
        Err(k) => Err(k),
        Ok((t, d, c)) => if chunk_checksum(t, d) == c {
            Ok((t, d))
        } else {
            Err(ErrorKind::ChecksumMismatch)
        },
    }
}

/// Reading back the big-endian encoding of a number gives the number.
pub proof fn lemma_be32_round_trip(n: u32)
    ensures
        be32_value(be32_bytes(n)) == n,
{
    let b = be32_bytes(n);
    assert(b[0] as int == n as int / 0x1000000);
    assert(b[1] as int == n as int / 0x10000 % 0x100);
    assert(b[2] as int == n as int / 0x100 % 0x100);
    assert(b[3] as int == n as int % 0x100);
}

/// Decoding the wire form of a chunk gives back its type bytes and its
/// payload, for any type code and any payload whose length fits in 32 bits;
/// the checksum it carries is the one computed afresh.
pub proof fn lemma_round_trip(t: Seq<u8>, d: Seq<u8>)
    requires
        is_type_code(t),
        d.len() <= u32::MAX,
    ensures
        spec_decode(wire_bytes(t, d)) == Ok::<_, ErrorKind>((t, d)),
        spec_fields(wire_bytes(t, d)) == Ok::<_, ErrorKind>((t, d, chunk_checksum(t, d))),
{
    let w = wire_bytes(t, d);
    let n = d.len() as u32;
    let c = chunk_checksum(t, d);
    lemma_be32_round_trip(n);
    lemma_be32_round_trip(c);
    assert(w.len() == 12 + d.len());
    assert(w.subrange(0, 4) =~= be32_bytes(n));
    assert(w.subrange(4, 8) =~= t);
    assert(w.subrange(8, w.len() - 4) =~= d);
    assert(w.subrange(w.len() - 4, w.len() as int) =~= be32_bytes(c));
}

/// Decoding rejects a buffer shorter than the fixed fields, one whose size
/// is not the declared length plus the fixed fields, and one whose stored
/// checksum differs from the CRC-32 over its type bytes and payload.
pub proof fn lemma_decode_rejects(b: Seq<u8>)
    ensures
        b.len() < 12 ==> spec_decode(b) == Err::<(Seq<u8>, Seq<u8>), _>(ErrorKind::Incomplete),
        b.len() >= 12 && b.len() != 12 + be32_value(b.subrange(0, 4)) ==> spec_decode(b) == Err::<
            (Seq<u8>, Seq<u8>),
            _,
        >(ErrorKind::InvalidLength),
        b.len() >= 12 && b.len() == 12 + be32_value(b.subrange(0, 4)) && is_type_code(
            b.subrange(4, 8),
        ) && crc32_of(b.subrange(4, b.len() - 4)) != be32_value(b.subrange(b.len() - 4, b.len() as int))
            ==> spec_decode(b) == Err::<(Seq<u8>, Seq<u8>), _>(ErrorKind::ChecksumMismatch),
{
    if b.len() >= 12 {
        assert(b.subrange(4, b.len() - 4) =~= b.subrange(4, 8) + b.subrange(8, b.len() - 4));
        let v = be32_value(b.subrange(b.len() - 4, b.len() as int));
        assert(0 <= v <= u32::MAX);
    }
}

/// The checksum depends on the type bytes and the payload alone: two chunks
/// that hold the same ones have the same checksum.
pub proof fn lemma_checksum_deterministic(a: &Chunk, b: &Chunk)
    requires
        a@.0 == b@.0,
        a@.1 == b@.1,
    ensures
        chunk_checksum(a@.0, a@.1) == chunk_checksum(b@.0, b@.1),
{
}

/// Appends the bytes of `src` to `out`.
fn append_bytes(out: &mut Vec<u8>, src: &[u8])
    ensures
        final(out)@ == old(out)@ + src@,
{
    let mut i: usize = 0;
    while i < src.len()
        invariant
            0 <= i <= src@.len(),
            out@ == old(out)@ + src@.subrange(0, i as int),
        decreases src@.len() - i,
    {
        out.push(src[i]);
        i = i + 1;
        assert(src@.subrange(0, i as int) =~= src@.subrange(0, i - 1) + seq![src@[i - 1]]);
    }
    assert(src@.subrange(0, i as int) =~= src@);
}

/// Appends the big-endian encoding of `n` to `out`.
fn append_be32(out: &mut Vec<u8>, n: u32)
    ensures
        final(out)@ == old(out)@ + be32_bytes(n),
{
    out.push((n / 0x1000000) as u8);
    out.push((n / 0x10000 % 0x100) as u8);
    out.push((n / 0x100 % 0x100) as u8);
    out.push((n % 0x100) as u8);
    assert(final(out)@ =~= old(out)@ + be32_bytes(n));
}

/// Reads four bytes of `b`, from `at` on, as a big-endian number.
fn read_be32(b: &[u8], at: usize) -> (r: u32)
    requires
        at + 4 <= b@.len(),
    ensures
        r as int == be32_value(b@.subrange(at as int, at + 4)),
{
    let r = (b[at] as u32) * 0x1000000 + (b[at + 1] as u32) * 0x10000 + (b[at + 2] as u32) * 0x100
        + (b[at + 3] as u32);
    r
}

/// A chunk: a type code and the payload it tags.
#[derive(Debug)]
pub struct Chunk {
    chunk_type: ChunkType,
    data: Vec<u8>,
}

impl View for Chunk {
    type V = (Seq<u8>, Seq<u8>);

    /// The type bytes and the payload.
    closed spec fn view(&self) -> (Seq<u8>, Seq<u8>) {
        (self.chunk_type@, self.data@)
    }
}

impl Chunk {
    #[verifier::type_invariant]
    spec fn inv(self) -> bool {
        self.data@.len() <= u32::MAX
    }

    /// Creates a chunk from a type code and its payload.
    pub fn new(chunk_type: ChunkType, data: Vec<u8>) -> (r: Chunk)
        requires
            data@.len() <= u32::MAX,
        ensures
            r@ == (chunk_type@, data@),
    {
        Chunk { chunk_type, data }
    }

    /// The number of payload bytes.
    pub fn length(&self) -> (r: u32)
        ensures
            r as int == self@.1.len(),
    {
        proof {
            use_type_invariant(self);
        }
        self.data.len() as u32
    }

    /// The type code of this chunk.
    pub fn chunk_type(&self) -> (r: &ChunkType)
        ensures
            r@ == self@.0,
            is_type_code(r@),
    {
        proof {
            use_type_invariant(&self.chunk_type);
        }
        &self.chunk_type
    }

    /// The payload of this chunk.
    pub fn data(&self) -> (r: &[u8])
        ensures
            r@ == self@.1,
    {
        self.data.as_slice()
    }

    /// The CRC-32 over the type bytes followed by the payload, computed anew.
    pub fn crc(&self) -> (r: u32)
        ensures
            r == chunk_checksum(self@.0, self@.1),
    {
        let type_bytes = self.chunk_type.bytes();
        let mut bytes: Vec<u8> = Vec::new();
        append_bytes(&mut bytes, type_bytes.as_slice());
        append_bytes(&mut bytes, self.data.as_slice());
        crc32_iso_hdlc(bytes.as_slice())
    }

    /// The payload read as UTF-8 text; there is no replacement of malformed
    /// sequences.
    pub fn data_as_string(&self) -> (r: Result<String>)
        ensures
            r is Ok <==> valid_utf8(self@.1),
            r matches Ok(s) ==> s@ == decode_utf8(self@.1),
            r matches Err(e) ==> e.kind == ErrorKind::InvalidUtf8,
    {
        match string_from_utf8(slice_to_vec(self.data.as_slice())) {
            Some(s) => Ok(s),
            None => Err(error_from(ErrorKind::InvalidUtf8, "chunk data is not valid utf8")),
        }
    }

    /// A human-readable summary: length, type code and checksum. It is not
    /// part of the wire form.
    pub fn to_string(&self) -> (r: String)
        ensures
            r@ == summary_text(self@.0, self@.1),
    {
        let mut s = String::from_str("Chunk {Length: ");
        s.append(decimal_string(self.length()).as_str());
        s.append(", Type: ");
        s.append(self.chunk_type.to_string().as_str());
        s.append(", Crc: ");
        s.append(decimal_string(self.crc()).as_str());
        s.append("}\n");
        s
    }

    /// The whole chunk in its wire form.
    pub fn as_bytes(&self) -> (r: Vec<u8>)
        ensures
            r@ == wire_bytes(self@.0, self@.1),
    {
        proof {
            use_type_invariant(self);
        }
        let length = self.length();
        let type_bytes = self.chunk_type.bytes();
        let mut bytes: Vec<u8> = Vec::new();
        append_be32(&mut bytes, length);
        append_bytes(&mut bytes, type_bytes.as_slice());
        append_bytes(&mut bytes, self.data.as_slice());
        append_be32(&mut bytes, self.crc());
        bytes
    }
    /// Reads the fields of a buffer laid out as one chunk: its type code,
    /// its payload and the checksum it stores, which is not compared here.
    /// The buffer must hold the fixed fields, its size must be the declared
    /// length plus their width, and the type bytes must be letters.
    pub fn parse_fields(value: &[u8]) -> (r: Result<(ChunkType, Vec<u8>, u32)>)
        ensures
            match r {
                Ok((t, d, c)) => spec_fields(value@) == Ok::<_, ErrorKind>((t@, d@, c)),
                Err(e) => spec_fields(value@) == Err::<(Seq<u8>, Seq<u8>, u32), _>(e.kind),
            },
    {
        let type_begin: usize = LENGTH_WIDTH;
        let data_begin: usize = type_begin + TYPE_WIDTH;
        assert_or_err(
            value.len() >= REQ_FIELDS_WIDTH,
            ErrorKind::Incomplete,
            "invalid chunk data (incomplete)",
        )?;
        let chunk_length = read_be32(value, 0);
        assert_or_err(
            value.len() as u64 == REQ_FIELDS_WIDTH as u64 + chunk_length as u64,
            ErrorKind::InvalidLength,
            "invalid chunk data (invalid length)",
        )?;
        let crc_begin: usize = data_begin + chunk_length as usize;
        let type_bytes: [u8; 4] = [value[4], value[5], value[6], value[7]];
        assert(type_bytes@ =~= value@.subrange(4, 8));
        let chunk_type = ChunkType::try_from(type_bytes)?;
        let data = slice_to_vec(slice_subrange(value, data_begin, crc_begin));
        let stored = read_be32(value, crc_begin);
        Ok((chunk_type, data, stored))
    }

    /// Decodes a buffer that holds exactly one chunk, checking its layout,
    /// its type code and its checksum.
    pub fn try_from(value: &[u8]) -> (r: Result<Chunk>)
        ensures
            match r {
                Ok(c) => spec_decode(value@) == Ok::<_, ErrorKind>(c@),
                Err(e) => spec_decode(value@) == Err::<(Seq<u8>, Seq<u8>), _>(e.kind),
            },
    {
        let (chunk_type, data, stored) = Chunk::parse_fields(value)?;
        let chunk = Chunk::new(chunk_type, data);
        assert_or_err(
            chunk.crc() == stored,
            ErrorKind::ChecksumMismatch,
            "checksum does not match data",
        )?;
        Ok(chunk)
    }
}

impl<'a> core::convert::TryFrom<&'a [u8]> for Chunk {
    type Error = Error;

    fn try_from(value: &'a [u8]) -> Result<Chunk> {
        Chunk::try_from(value)
    }
}

impl<'a> vstd::std_specs::convert::TryFromSpecImpl<&'a [u8]> for Chunk {
    /// Nothing is claimed of the trait call; the inherent `try_from` carries
    /// the contract.
    open spec fn obeys_try_from_spec() -> bool {
        false
    }

    open spec fn try_from_spec(value: &'a [u8]) -> Result<Chunk> {
        arbitrary()
    }
}

} // verus!
