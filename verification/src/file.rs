//! The container format.
//!
//! A serialized container is laid out as: an 8-byte magic number, a 2-byte
//! big-endian version, an 8-byte key-derivation salt, a 4-byte big-endian
//! iteration count, a 12-byte AEAD nonce, an 8-byte big-endian body length,
//! the body itself (ciphertext plus tag), and a 4-byte big-endian checksum
//! of the body, seeded with the low 32 bits of the body length.

use vstd::prelude::*;

use crate::bytes::{
    be2_seq, be2_val, be4_seq, be4_val, be8_seq, be8_val, clone_bytes, copy_range, push_all,
    push_be2, push_be4, push_be8, read_be2, read_be4, read_be8, zero_vec, zeros,
};

verus! {

/// The format version this library writes.
pub const VERSION: u16 = 1;

/// What the checksum of a body is, as xxhash's 32-bit hash computes it.
pub uninterp spec fn xxh32_of(data: Seq<u8>, seed: u32) -> u32;

/// Relies on xxhash_rust's xxh32: a pure 32-bit hash, a function of the
/// bytes and the seed alone.
#[verifier::external_body]
fn xxh32_exec(data: &Vec<u8>, seed: u32) -> (r: u32)
    ensures
        r == xxh32_of(data@, seed),
{
    xxhash_rust::xxh32::xxh32(data.as_slice(), seed)
}

/// Why a byte sequence was rejected as a container.
#[derive(Debug, Clone, Copy, PartialEq, Eq, Structural)]
pub enum FormatError {
    /// The first eight bytes are not the magic number.
    NotThisFormat,
    /// The bytes end before the declared layout does.
    Truncated,
    /// The stored checksum does not match the checksum of the body.
    IntegrityFailure,
}

/// The mathematical content of a container.
#[verifier::ext_equal]
pub ghost struct FcxView {
    pub version: u16,
    pub salt: Seq<u8>,
    pub rounds: u32,
    pub nonce: Seq<u8>,
    pub length: u64,
    pub content: Seq<u8>,
    pub checksum: u32,
}

/// An encrypted-container file: header fields, ciphertext body, checksum.
#[derive(Debug)]
pub struct FcxFile {
    pub version: u16,
    pub salt: Vec<u8>,
    pub rounds: u32,
    pub nonce: Vec<u8>,
    pub length: u64,
    pub content: Vec<u8>,
    pub checksum: u32,
}

impl View for FcxFile {
    type V = FcxView;

    open spec fn view(&self) -> FcxView {
        FcxView {
            version: self.version,
            salt: self.salt@,
            rounds: self.rounds,
            nonce: self.nonce@,
            length: self.length,
            content: self.content@,
            checksum: self.checksum,
        }
    }
}

/// The eight magic bytes that open every container.
pub open spec fn magic_seq() -> Seq<u8> {
    seq![0x66u8, 0x63u8, 0x3cu8, 0x33u8, 0x72u8, 0x75u8, 0x73u8, 0x74u8]
}

/// The checksum seed: the low 32 bits of the body length.
pub open spec fn seed_of(length: u64) -> u32 {
    (length & 0xffff_ffff) as u32
}

/// Structural well-formedness: field widths match the layout, and the
/// declared length is the body's length.
pub open spec fn wf_view(v: FcxView) -> bool {
    &&& v.salt.len() == 8
    &&& v.nonce.len() == 12
    &&& v.length as int == v.content.len()
}

/// The stored checksum is the checksum of the body.
pub open spec fn checksum_matches(v: FcxView) -> bool {
    v.checksum == xxh32_of(v.content, seed_of(v.length))
}

/// The byte layout of a container: header, body, checksum footer.
pub open spec fn serial_of(v: FcxView) -> Seq<u8> {
    magic_seq() + be2_seq(v.version) + v.salt + be4_seq(v.rounds) + v.nonce + be8_seq(v.length)
        + v.content + be4_seq(v.checksum)
}

/// What parsing a byte sequence yields: the container it describes, or the
/// first reason it is rejected, checked in this order: enough bytes for the
/// magic number, the magic number itself, enough bytes for the header, enough
/// bytes for the declared body and the checksum, the checksum itself.
pub open spec fn parse_spec(b: Seq<u8>) -> Result<FcxView, FormatError> {
    if b.len() < 8 {
        Err(FormatError::Truncated)
    } else if b.subrange(0, 8) != magic_seq() {
        Err(FormatError::NotThisFormat)
    } else if b.len() < 42 {
        Err(FormatError::Truncated)
    } else {
        let length = be8_val(b.subrange(34, 42));
        if b.len() < 46 + length {
            Err(FormatError::Truncated)
        } else {
            let content = b.subrange(42, 42 + length);
            let stored = be4_val(b.subrange(42 + length, 46 + length));
            if stored != xxh32_of(content, seed_of(length)) {
                Err(FormatError::IntegrityFailure)
            } else {
                Ok(
                    FcxView {
                        version: be2_val(b.subrange(8, 10)),
                        salt: b.subrange(10, 18),
                        rounds: be4_val(b.subrange(18, 22)),
                        nonce: b.subrange(22, 34),
                        length,
                        content,
                        checksum: stored,
                    },
                )
            }
        }
    }
}

/// The magic bytes as a vector.
fn magic_vec() -> (r: Vec<u8>)
    ensures
        r@ == magic_seq(),
{
    let mut r: Vec<u8> = Vec::new();
    r.push(0x66);
    r.push(0x63);
    r.push(0x3c);
    r.push(0x33);
    r.push(0x72);
    r.push(0x75);
    r.push(0x73);
    r.push(0x74);
    assert(r@ =~= magic_seq());
    r
}

/// Whether the first eight bytes of `b` are the magic number.
fn has_magic(b: &Vec<u8>) -> (r: bool)
    requires
        b@.len() >= 8,
    ensures
        r == (b@.subrange(0, 8) == magic_seq()),
{
    let r = b[0] == 0x66 && b[1] == 0x63 && b[2] == 0x3c && b[3] == 0x33 && b[4] == 0x72
        && b[5] == 0x75 && b[6] == 0x73 && b[7] == 0x74;
    proof {
        let s = b@.subrange(0, 8);
        assert(forall|i: int| 0 <= i < 8 ==> s[i] == b@[i]);
        if r {
            assert(s =~= magic_seq());
        } else {
            assert(s != magic_seq());
        }
    }
    r
}

impl FcxFile {
    /// Structural well-formedness of this container.
    pub open spec fn wf(&self) -> bool {
        wf_view(self@)
    }

    /// The stored checksum matches the body.
    pub open spec fn integrity_ok(&self) -> bool {
        checksum_matches(self@)
    }

    /// An empty container: current version, zero salt, rounds, nonce and
    /// checksum, no body.
    pub fn new() -> (r: FcxFile)
        ensures
            r.wf(),
            r@ == (FcxView {
                version: VERSION,
                salt: zeros(8),
                rounds: 0,
                nonce: zeros(12),
                length: 0,
                content: Seq::empty(),
                checksum: 0,
            }),
    {
        let r = FcxFile {
            version: VERSION,
            salt: zero_vec(8),
            rounds: 0,
            nonce: zero_vec(12),
            length: 0,
            content: Vec::new(),
            checksum: 0,
        };
        proof {
            assert(r@ =~= (FcxView {
                version: VERSION,
                salt: zeros(8),
                rounds: 0,
                nonce: zeros(12),
                length: 0,
                content: Seq::empty(),
                checksum: 0,
            }));
        }
        r
    }

    /// Stores `data` as the body, setting the declared length and the
    /// checksum to match it. The header fields are untouched.
    pub fn set_content(&mut self, data: Vec<u8>)
        ensures
            final(self)@ == (FcxView {
                length: data@.len() as u64,
                content: data@,
                checksum: xxh32_of(data@, seed_of(data@.len() as u64)),
                ..old(self)@
            }),
            final(self).integrity_ok(),
            old(self).wf() ==> final(self).wf(),
    {
        let length_val: u64 = data.len() as u64;
        self.length = length_val;
        assert((length_val & 0xffff_ffff) <= 0xffff_ffff) by (bit_vector);
        let seed = (length_val & 0xffff_ffff) as u32;
        self.checksum = xxh32_exec(&data, seed);
        self.content = data;
    }

    /// A copy of the body.
    pub fn get_content(&self) -> (r: Vec<u8>)
        ensures
            r@ == self@.content,
    {
        clone_bytes(&self.content)
    }

    /// The declared body length.
    pub fn len(&self) -> (r: u64)
        ensures
            r == self@.length,
    {
        self.length
    }

    /// Serializes this container into its byte layout.
    pub fn to_bytes(&self) -> (r: Vec<u8>)
        ensures
            r@ == serial_of(self@),
    {
        let mut out = magic_vec();
        push_be2(&mut out, self.version);
        push_all(&mut out, &self.salt);
        push_be4(&mut out, self.rounds);
        push_all(&mut out, &self.nonce);
        push_be8(&mut out, self.length);
        push_all(&mut out, &self.content);
        push_be4(&mut out, self.checksum);
        assert(out@ =~= serial_of(self@));
        out
    }

    /// Parses a byte sequence as a container, validating the magic number,
    /// the layout lengths, and the checksum.
    pub fn parse(bytes: &Vec<u8>) -> (r: Result<FcxFile, FormatError>)
        ensures
            match r {
                Ok(f) => parse_spec(bytes@) == Ok::<FcxView, FormatError>(f@) && f.wf()
                    && f.integrity_ok(),
                Err(e) => parse_spec(bytes@) == Err::<FcxView, FormatError>(e),
            },
    {
        let total: usize = bytes.len();
        if total < 8 {
            return Err(FormatError::Truncated);
        }
        if !has_magic(bytes) {
            return Err(FormatError::NotThisFormat);
        }
        if total < 42 {
            return Err(FormatError::Truncated);
        }
        let length = read_be8(bytes, 34);
        if (total as u128) < 46u128 + (length as u128) {
            return Err(FormatError::Truncated);
        }
        let length_usize = length as usize;
        let content = copy_range(bytes, 42, length_usize);
        assert((length & 0xffff_ffff) <= 0xffff_ffff) by (bit_vector);
        let seed = (length & 0xffff_ffff) as u32;
        let computed = xxh32_exec(&content, seed);
        let stored = read_be4(bytes, 42 + length_usize);
        if computed != stored {
            return Err(FormatError::IntegrityFailure);
        }
        let version = read_be2(bytes, 8);
        let salt = copy_range(bytes, 10, 8);
        let rounds = read_be4(bytes, 18);
        let nonce = copy_range(bytes, 22, 12);
        let f = FcxFile { version, salt, rounds, nonce, length, content, checksum: stored };
        proof {
            let b = bytes@;
            let v = parse_spec(b)->Ok_0;
            assert(f@ =~= v);
        }
        Ok(f)
    }
}

/// Parsing the serialization of a structurally well-formed container gives
/// the container back when its stored checksum matches its body, and
/// rejects the bytes as an integrity failure when it does not.
pub proof fn lemma_parse_serial(v: FcxView)
    requires
        wf_view(v),
    ensures
        checksum_matches(v) ==> parse_spec(serial_of(v)) == Ok::<FcxView, FormatError>(v),
        !checksum_matches(v) ==> parse_spec(serial_of(v)) == Err::<FcxView, FormatError>(
            FormatError::IntegrityFailure,
        ),
{
    let b = serial_of(v);
    let n = v.content.len() as int;
    assert(b.len() == 46 + n);
    assert(b.subrange(0, 8) =~= magic_seq());
    assert(b.subrange(8, 10) =~= be2_seq(v.version));
    assert(b.subrange(10, 18) =~= v.salt);
    assert(b.subrange(18, 22) =~= be4_seq(v.rounds));
    assert(b.subrange(22, 34) =~= v.nonce);
    assert(b.subrange(34, 42) =~= be8_seq(v.length));
    assert(b.subrange(42, 42 + n) =~= v.content);
    assert(b.subrange(42 + n, 46 + n) =~= be4_seq(v.checksum));
    crate::bytes::lemma_be2_roundtrip(v.version);
    crate::bytes::lemma_be4_roundtrip(v.rounds);
    crate::bytes::lemma_be8_roundtrip(v.length);
    crate::bytes::lemma_be4_roundtrip(v.checksum);
    if checksum_matches(v) {
        assert(parse_spec(b)->Ok_0 =~= v);
    }
}

/// A serialized container whose checksum matches its body parses back to
/// exactly that container.
pub proof fn lemma_container_round_trip(v: FcxView)
    requires
        wf_view(v),
        checksum_matches(v),
    ensures
        parse_spec(serial_of(v)) == Ok::<FcxView, FormatError>(v),
{
    lemma_parse_serial(v);
}

/// Bytes that do not open with the magic number are always rejected as not
/// this format, whatever the rest of them holds.
pub proof fn lemma_magic_gate(b: Seq<u8>)
    requires
        b.len() >= 8,
        b.subrange(0, 8) != magic_seq(),
    ensures
        parse_spec(b) == Err::<FcxView, FormatError>(FormatError::NotThisFormat),
{
}

/// Tampering with the body of a serialized container is never silent.
/// Replacing the body with any other byte sequence of the same length gives
/// bytes that parse either to an integrity failure or to a container whose
/// body is the replacement; never back to the original container.
pub proof fn lemma_tamper_not_silent(v: FcxView, c2: Seq<u8>)
    requires
        wf_view(v),
        checksum_matches(v),
        c2.len() == v.content.len(),
        c2 != v.content,
    ensures
        ({
            let v2 = FcxView { content: c2, ..v };
            &&& (parse_spec(serial_of(v2)) == Err::<FcxView, FormatError>(
                FormatError::IntegrityFailure,
            ) || parse_spec(serial_of(v2)) == Ok::<FcxView, FormatError>(v2))
            &&& parse_spec(serial_of(v2)) != Ok::<FcxView, FormatError>(v)
        }),
{
    let v2 = FcxView { content: c2, ..v };
    assert(wf_view(v2));
    lemma_parse_serial(v2);
    assert(v2 != v);
}

} // verus!
