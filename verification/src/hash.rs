//! The four digests of a byte stream, computed together in one pass.
//!
//! The digest algorithms are those of the crates `crc32fast`, `md-5`, `ring`
//! and `xxhash-rust`. Their states are carried here as opaque values; what a
//! state has absorbed and what digest it yields are named, not defined.

use vstd::prelude::*;
use vstd::string::StringExecFns;
use crate::error::{HashError, HashResult};

verus! {

/// The most bytes that one stream may hold: beyond it SHA-1 is undefined.
pub const MAX_STREAM_BYTES: u64 = 0x1FFF_FFFF_FFFF_FFFF;

#[verifier::external_type_specification]
#[verifier::external_body]
pub struct ExCrc32Hasher(crc32fast::Hasher);

#[verifier::external_type_specification]
#[verifier::external_body]
pub struct ExSha1Context(ring::digest::Context);

#[verifier::external_type_specification]
#[verifier::external_body]
pub struct ExXxh3(xxhash_rust::xxh3::Xxh3);

/// The state of an MD5 computation of the crate `md-5`. The crate's own type
/// is an instance of a generic wrapper that cannot be declared, so it is held
/// here out of the verifier's sight.
#[verifier::external_body]
pub struct Md5State {
    inner: md5::Md5,
}

} // verus!

verus! {

/// The CRC-32 checksum of a byte sequence, as `crc32fast` computes it.
pub uninterp spec fn spec_crc32(data: Seq<u8>) -> u32;

/// The MD5 digest of a byte sequence, as `md-5` computes it.
pub uninterp spec fn spec_md5(data: Seq<u8>) -> Seq<u8>;

/// The SHA-1 digest of a byte sequence, as `ring` computes it.
pub uninterp spec fn spec_sha1(data: Seq<u8>) -> Seq<u8>;

/// The 128-bit XXH3 digest of a byte sequence with the default seed, as
/// `xxhash-rust` computes it.
pub uninterp spec fn spec_xxh3_128(data: Seq<u8>) -> u128;

/// The bytes that a CRC-32 state has absorbed, in order.
pub uninterp spec fn spec_crc32_absorbed(state: crc32fast::Hasher) -> Seq<u8>;

/// The bytes that an MD5 state has absorbed, in order.
pub uninterp spec fn spec_md5_absorbed(state: Md5State) -> Seq<u8>;

/// The bytes that a SHA-1 state has absorbed, in order.
pub uninterp spec fn spec_sha1_absorbed(state: ring::digest::Context) -> Seq<u8>;

/// The bytes that an XXH3 state has absorbed, in order.
pub uninterp spec fn spec_xxh3_absorbed(state: xxhash_rust::xxh3::Xxh3) -> Seq<u8>;

/// Calls `crc32fast::Hasher::new`: a state that has absorbed nothing.
#[verifier::external_body]
fn crc32_new() -> (state: crc32fast::Hasher)
    ensures
        spec_crc32_absorbed(state) == Seq::<u8>::empty(),
{
    crc32fast::Hasher::new()
}

/// Calls `crc32fast::Hasher::update`, which processes the bytes after those
/// absorbed before. The crate counts the bytes in 64 bits, so the count must
/// stay within them.
#[verifier::external_body]
fn crc32_update(state: &mut crc32fast::Hasher, data: &[u8])
    requires
        spec_crc32_absorbed(*old(state)).len() + data@.len() <= u64::MAX,
    ensures
        spec_crc32_absorbed(*final(state)) == spec_crc32_absorbed(*old(state)) + data@,
{
    state.update(data)
}

/// Calls `crc32fast::Hasher::finalize`: the checksum of everything absorbed.
#[verifier::external_body]
fn crc32_finalize(state: crc32fast::Hasher) -> (checksum: u32)
    ensures
        checksum == spec_crc32(spec_crc32_absorbed(state)),
{
    state.finalize()
}

/// Calls `md5::Md5::new` (of the trait `Digest`): a state that has absorbed
/// nothing.
#[verifier::external_body]
fn md5_new() -> (state: Md5State)
    ensures
        spec_md5_absorbed(state) == Seq::<u8>::empty(),
{
    Md5State { inner: <md5::Md5 as md5::Digest>::new() }
}

/// Calls `md5::Md5::update` (of the trait `Digest`), which processes the
/// bytes after those absorbed before.
#[verifier::external_body]
fn md5_update(state: &mut Md5State, data: &[u8])
    ensures
        spec_md5_absorbed(*final(state)) == spec_md5_absorbed(*old(state)) + data@,
{
    md5::Digest::update(&mut state.inner, data)
}

/// Calls `md5::Md5::finalize` (of the trait `Digest`): the 16 bytes of the
/// digest of everything absorbed.
#[verifier::external_body]
fn md5_finalize(state: Md5State) -> (digest: [u8; 16])
    ensures
        digest@ == spec_md5(spec_md5_absorbed(state)),
{
    md5::Digest::finalize(state.inner).into()
}

/// Calls `ring::digest::Context::new` for SHA-1: a state that has absorbed
/// nothing.
#[verifier::external_body]
fn sha1_new() -> (state: ring::digest::Context)
    ensures
        spec_sha1_absorbed(state) == Seq::<u8>::empty(),
{
    ring::digest::Context::new(&ring::digest::SHA1_FOR_LEGACY_USE_ONLY)
}

/// Calls `ring::digest::Context::update`, which updates the digest with all
/// the data after the bytes absorbed before.
#[verifier::external_body]
fn sha1_update(state: &mut ring::digest::Context, data: &[u8])
    ensures
        spec_sha1_absorbed(*final(state)) == spec_sha1_absorbed(*old(state)) + data@,
{
    state.update(data)
}

/// Calls `ring::digest::Context::finish`: the 20 bytes of the digest of
/// everything absorbed. The crate gives up on an input whose length in bits
/// does not fit in 64 bits, so the bytes absorbed must stay below that.
#[verifier::external_body]
fn sha1_finish(state: ring::digest::Context) -> (digest: [u8; 20])
    requires
        spec_sha1_absorbed(state).len() <= MAX_STREAM_BYTES,
    ensures
        digest@ == spec_sha1(spec_sha1_absorbed(state)),
{
    let mut digest = [0u8; 20];
    digest.copy_from_slice(state.finish().as_ref());
    digest
}

/// Calls `xxhash_rust::xxh3::Xxh3::new`: a state with the default seed that
/// has absorbed nothing.
#[verifier::external_body]
pub(crate) fn xxh3_new() -> (state: xxhash_rust::xxh3::Xxh3)
    ensures
        spec_xxh3_absorbed(state) == Seq::<u8>::empty(),
{
    xxhash_rust::xxh3::Xxh3::new()
}

/// Calls `xxhash_rust::xxh3::Xxh3::update`, which hashes the chunk after the
/// bytes absorbed before.
#[verifier::external_body]
pub(crate) fn xxh3_update(state: &mut xxhash_rust::xxh3::Xxh3, data: &[u8])
    ensures
        spec_xxh3_absorbed(*final(state)) == spec_xxh3_absorbed(*old(state)) + data@,
{
    state.update(data)
}

/// Calls `xxhash_rust::xxh3::Xxh3::digest128`: the 128-bit digest of
/// everything absorbed.
#[verifier::external_body]
pub(crate) fn xxh3_digest128(state: &xxhash_rust::xxh3::Xxh3) -> (digest: u128)
    ensures
        digest == spec_xxh3_128(spec_xxh3_absorbed(*state)),
{
    state.digest128()
}

/// The byte of `value` that ends `shift` bits above its low end.
pub open spec fn spec_byte_at(value: u128, shift: u128) -> u8 {
    ((value >> shift) & 0xff) as u8
}

/// The 16 bytes of a 128-bit value, the highest first.
pub open spec fn spec_u128_be_bytes(value: u128) -> Seq<u8> {
    seq![
        spec_byte_at(value, 120),
        spec_byte_at(value, 112),
        spec_byte_at(value, 104),
        spec_byte_at(value, 96),
        spec_byte_at(value, 88),
        spec_byte_at(value, 80),
        spec_byte_at(value, 72),
        spec_byte_at(value, 64),
        spec_byte_at(value, 56),
        spec_byte_at(value, 48),
        spec_byte_at(value, 40),
        spec_byte_at(value, 32),
        spec_byte_at(value, 24),
        spec_byte_at(value, 16),
        spec_byte_at(value, 8),
        spec_byte_at(value, 0),
    ]
}

/// The 4 bytes of a 32-bit value, the highest first.
pub open spec fn spec_u32_be_bytes(value: u32) -> Seq<u8> {
    seq![
        spec_byte_at(value as u128, 24),
        spec_byte_at(value as u128, 16),
        spec_byte_at(value as u128, 8),
        spec_byte_at(value as u128, 0),
    ]
}

fn byte_at(value: u128, shift: u32) -> (byte: u8)
    requires
        shift < 128,
    ensures
        byte == spec_byte_at(value, shift as u128),
{
    let wide: u128 = (value >> shift) & 0xff;
    assert(wide < 256) by (bit_vector)
        requires
            wide == (value >> shift) & 0xff,
    ;
    wide as u8
}

/// The 16 bytes of a 128-bit value, the highest first.
pub fn u128_be_bytes(value: u128) -> (bytes: [u8; 16])
    ensures
        bytes@ == spec_u128_be_bytes(value),
{
    let bytes = [
        byte_at(value, 120),
        byte_at(value, 112),
        byte_at(value, 104),
        byte_at(value, 96),
        byte_at(value, 88),
        byte_at(value, 80),
        byte_at(value, 72),
        byte_at(value, 64),
        byte_at(value, 56),
        byte_at(value, 48),
        byte_at(value, 40),
        byte_at(value, 32),
        byte_at(value, 24),
        byte_at(value, 16),
        byte_at(value, 8),
        byte_at(value, 0),
    ];
    assert(bytes@ =~= spec_u128_be_bytes(value));
    bytes
}

/// The 4 bytes of a 32-bit value, the highest first.
pub fn u32_be_bytes(value: u32) -> (bytes: [u8; 4])
    ensures
        bytes@ == spec_u32_be_bytes(value),
{
    let wide: u128 = value as u128;
    let bytes = [byte_at(wide, 24), byte_at(wide, 16), byte_at(wide, 8), byte_at(wide, 0)];
    assert(bytes@ =~= spec_u32_be_bytes(value));
    bytes
}

/// The four digests of a byte sequence.
pub struct DigestValues {
    pub crc32: u32,
    pub md5: Seq<u8>,
    pub sha1: Seq<u8>,
    pub xxh3: Seq<u8>,
}

/// The digests of `data`: its CRC-32, its MD5, its SHA-1, and its 128-bit
/// XXH3 written as 16 bytes, the highest first.
pub open spec fn spec_digests(data: Seq<u8>) -> DigestValues {
    DigestValues {
        crc32: spec_crc32(data),
        md5: spec_md5(data),
        sha1: spec_sha1(data),
        xxh3: spec_u128_be_bytes(spec_xxh3_128(data)),
    }
}

/// Computes the four digests of a stream that arrives in pieces. Every piece
/// is fed to all four algorithms; the stream is read once.
pub struct FileHasher {
    crc32_hasher: crc32fast::Hasher,
    md5_hasher: Md5State,
    sha1_context: ring::digest::Context,
    xxh3_hasher: xxhash_rust::xxh3::Xxh3,
    fed: u64,
    overlong: bool,
}

impl FileHasher {
    /// The bytes absorbed so far, in order.
    pub closed spec fn absorbed(&self) -> Seq<u8> {
        spec_crc32_absorbed(self.crc32_hasher)
    }

    /// Whether the stream went beyond `MAX_STREAM_BYTES`. From then on
    /// nothing is absorbed and no digest will be given.
    pub closed spec fn overlong(&self) -> bool {
        self.overlong
    }

    /// The four algorithms have absorbed the same bytes, and no more than
    /// they can digest.
    pub closed spec fn wf(&self) -> bool {
        &&& spec_md5_absorbed(self.md5_hasher) == self.absorbed()
        &&& spec_sha1_absorbed(self.sha1_context) == self.absorbed()
        &&& spec_xxh3_absorbed(self.xxh3_hasher) == self.absorbed()
        &&& self.fed == self.absorbed().len()
        &&& self.fed <= MAX_STREAM_BYTES
    }

    /// A hasher that has absorbed nothing.
    pub fn new() -> (hasher: Self)
        ensures
            hasher.wf(),
            hasher.absorbed() == Seq::<u8>::empty(),
            !hasher.overlong(),
    {
        FileHasher {
            crc32_hasher: crc32_new(),
            md5_hasher: md5_new(),
            sha1_context: sha1_new(),
            xxh3_hasher: xxh3_new(),
            fed: 0,
            overlong: false,
        }
    }

    /// The number of bytes absorbed so far.
    pub fn fed_bytes(&self) -> (count: u64)
        requires
            self.wf(),
        ensures
            count == self.absorbed().len(),
    {
        self.fed
    }

    /// Whether the stream went beyond `MAX_STREAM_BYTES`.
    pub fn is_overlong(&self) -> (overlong: bool)
        ensures
            overlong == self.overlong(),
    {
        self.overlong
    }

    /// Feeds the next piece of the stream to all four algorithms. A piece
    /// that would take the stream beyond `MAX_STREAM_BYTES` is not absorbed;
    /// the stream is marked overlong instead.
    pub fn update(&mut self, data: &[u8])
        requires
            old(self).wf(),
        ensures
            final(self).wf(),
            !old(self).overlong() && old(self).absorbed().len() + data@.len() <= MAX_STREAM_BYTES
                ==> final(self).absorbed() == old(self).absorbed() + data@ && !final(self).overlong(),
            old(self).overlong() || old(self).absorbed().len() + data@.len() > MAX_STREAM_BYTES
                ==> final(self).absorbed() == old(self).absorbed() && final(self).overlong(),
    {
        let length: u64 = data.len() as u64;
        if self.overlong || length > MAX_STREAM_BYTES - self.fed {
            self.overlong = true;
        } else {
            crc32_update(&mut self.crc32_hasher, data);
            md5_update(&mut self.md5_hasher, data);
            sha1_update(&mut self.sha1_context, data);
            xxh3_update(&mut self.xxh3_hasher, data);
            self.fed = self.fed + length;
        }
    }

    /// Ends the stream and gives its digests: CRC-32, MD5, SHA-1 and the
    /// 128-bit XXH3 as 16 bytes, the highest first. An overlong stream has
    /// no digests.
    pub fn finalize(self) -> (out: HashResult<(u32, [u8; 16], [u8; 20], [u8; 16])>)
        requires
            self.wf(),
        ensures
            !self.overlong() ==> (out matches Ok(d) && d.0 == spec_digests(self.absorbed()).crc32
                && d.1@ == spec_digests(self.absorbed()).md5 && d.2@ == spec_digests(
                self.absorbed(),
            ).sha1 && d.3@ == spec_digests(self.absorbed()).xxh3),
            self.overlong() ==> out matches Err(HashError::SystemResource(_)),
    {
        if self.overlong {
            return Err(
                HashError::SystemResource(
                    String::from_str("input is longer than the digests are defined for"),
                ),
            );
        }
        let crc32 = crc32_finalize(self.crc32_hasher);
        let md5 = md5_finalize(self.md5_hasher);
        let sha1 = sha1_finish(self.sha1_context);
        let xxh3 = u128_be_bytes(xxh3_digest128(&self.xxh3_hasher));
        Ok((crc32, md5, sha1, xxh3))
    }
}

impl Default for FileHasher {
    fn default() -> (hasher: Self)
        ensures
            hasher.wf(),
            hasher.absorbed() == Seq::<u8>::empty(),
            !hasher.overlong(),
    {
        FileHasher::new()
    }
}

} // verus!
