//! SHA-256 digesting, including a writer that hashes everything it forwards
//! to its sink.
//!
//! The hash itself comes from OpenSSL; the library names its result
//! ([`sha256_of`]) and states how the streaming hasher accumulates input,
//! and proves everything downstream of those statements.

use vstd::prelude::*;
use vstd::string::StringSliceAdditionalSpecFns;

use crate::hex::hex_bytes;
use crate::hex::push_hex;

verus! {

/// Declares OpenSSL's streaming SHA-256 hasher so it can stand in fields
/// and signatures; its state is reached only through [`sha_fed`].
#[verifier::external_type_specification]
#[verifier::external_body]
pub struct ExSha256(openssl::sha::Sha256);

/// The bytes fed so far into a streaming SHA-256 hasher.
pub uninterp spec fn sha_fed(h: openssl::sha::Sha256) -> Seq<u8>;

/// The SHA-256 digest of a byte sequence: 32 bytes, a function of the input
/// alone.
pub uninterp spec fn sha256_of(data: Seq<u8>) -> Seq<u8>;

/// Relies on openssl::sha::Sha256::new: a fresh hasher has seen no input.
#[verifier::external_body]
fn hasher_new() -> (h: openssl::sha::Sha256)
    ensures
        sha_fed(h) == Seq::<u8>::empty(),
{
    openssl::sha::Sha256::new()
}

/// Relies on openssl::sha::Sha256::update: feeds `buf` into the hasher,
/// after whatever was fed before.
#[verifier::external_body]
fn hasher_update(h: &mut openssl::sha::Sha256, buf: &[u8])
    ensures
        sha_fed(*final(h)) == sha_fed(*old(h)) + buf@,
{
    h.update(buf)
}

/// Relies on openssl::sha::Sha256::finish: returns the 32-byte SHA-256
/// digest of exactly the bytes fed in.
#[verifier::external_body]
fn hasher_finish(h: openssl::sha::Sha256) -> (d: Vec<u8>)
    ensures
        d@ == sha256_of(sha_fed(h)),
        d@.len() == 32,
{
    h.finish().to_vec()
}

/// A digest string as it appears in descriptors: the algorithm tag, a
/// colon, then the lowercase hex encoding of the digest.
pub open spec fn digest_string(data: Seq<u8>) -> Seq<u8> {
    "sha256:".spec_bytes() + hex_bytes(sha256_of(data))
}

/// Wraps a byte sink and accumulates the SHA-256 digest of every byte
/// forwarded to it.  The sink accepts all bytes, so the digest always
/// covers exactly what the sink holds.
pub struct Sha256Writer {
    hasher: openssl::sha::Sha256,
    writer: Vec<u8>,
}

impl Sha256Writer {
    /// The bytes written through this writer so far.
    pub closed spec fn written(&self) -> Seq<u8> {
        self.writer@
    }

    /// The hasher has been fed exactly the bytes the sink accepted.
    pub closed spec fn wf(&self) -> bool {
        sha_fed(self.hasher) == self.writer@
    }

    pub fn new() -> (w: Sha256Writer)
        ensures
            w.wf(),
            w.written() == Seq::<u8>::empty(),
    {
        Sha256Writer { hasher: hasher_new(), writer: Vec::new() }
    }

    /// Forwards `buf` to the sink and feeds it into the running hash;
    /// returns how many bytes were accepted (all of them).
    pub fn write(&mut self, buf: &[u8]) -> (n: usize)
        requires
            old(self).wf(),
        ensures
            final(self).wf(),
            final(self).written() == old(self).written() + buf@,
            n == buf@.len(),
    {
        crate::hex::push_all(&mut self.writer, buf);
        hasher_update(&mut self.hasher, buf);
        buf.len()
    }

    /// The in-memory sink holds nothing back; flushing changes nothing.
    pub fn flush(&mut self)
        ensures
            *final(self) == *old(self),
    {
    }

    /// Consumes the writer; returns the lowercase hex digest of the bytes
    /// written, and the sink holding those bytes.
    pub fn finish(self) -> (r: (Vec<u8>, Vec<u8>))
        requires
            self.wf(),
        ensures
            r.0@ == hex_bytes(sha256_of(self.written())),
            r.1@ == self.written(),
    {
        let digest = hasher_finish(self.hasher);
        let mut hex: Vec<u8> = Vec::new();
        push_hex(&mut hex, &digest);
        (hex, self.writer)
    }
}

} // verus!
