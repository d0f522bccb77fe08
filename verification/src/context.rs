//! The hash context that a transcript is absorbed into.
//!
//! The library asks little of a hash context: that one can be started, and
//! that it takes bytes in. What it relies on is that a context stands for
//! the message it has been given so far, byte after byte, whatever the calls
//! were that brought the bytes. [`Context`] states that.
//!
//! Two contexts come with the library. [`Transcript`] keeps the message as it
//! is, and is proved to be a context. SHA-256, as the `sha2` crate implements
//! it, hashes the message: that it is a context rests on what this module
//! assumes of `sha2` and `digest`, which is the one part of the library that
//! is not proved.

use vstd::prelude::*;

use digest::Digest;
use sha2::Sha256;

verus! {

/// An incremental hash context: it is started empty and absorbs bytes. How
/// a digest is taken from it in the end is its own affair.
///
/// Whoever implements this for a hash function vouches that the function
/// hashes the concatenation of what it was given, so that the cuts between
/// the calls of [`Context::absorb`] leave no trace.
pub trait Context: Sized {
    /// The message of the context: the bytes it has absorbed since it was
    /// started, in the order in which they came.
    spec fn absorbed(&self) -> Seq<u8>;

    /// The longest message, in bytes, that a context of this kind takes.
    spec fn capacity() -> nat;

    /// Starts a context, which has absorbed nothing yet.
    fn start() -> (ctx: Self)
        ensures
            ctx.absorbed() == Seq::<u8>::empty(),
    ;

    /// Absorbs `bytes`: the message grows by exactly these bytes, at its end.
    fn absorb(&mut self, bytes: &[u8])
        requires
            old(self).absorbed().len() + bytes@.len() <= Self::capacity(),
        ensures
            final(self).absorbed() == old(self).absorbed() + bytes@,
    ;
}

/// Whether `ctx` can absorb `more` bytes without passing its capacity.
pub open spec fn has_room<C: Context>(ctx: &C, more: nat) -> bool {
    ctx.absorbed().len() + more <= C::capacity()
}

/// A context that keeps its message instead of hashing it: for callers that
/// want to see a transcript byte for byte. It takes as many bytes as a vector
/// holds.
pub struct Transcript {
    bytes: Vec<u8>,
}

impl View for Transcript {
    type V = Seq<u8>;

    closed spec fn view(&self) -> Seq<u8> {
        self.bytes@
    }
}

impl Transcript {
    /// Hands out the message.
    pub fn into_bytes(self) -> (bytes: Vec<u8>)
        ensures
            bytes@ == self@,
    {
        self.bytes
    }
}

impl Context for Transcript {
    open spec fn absorbed(&self) -> Seq<u8> {
        self@
    }

    open spec fn capacity() -> nat {
        isize::MAX as nat
    }

    fn start() -> (ctx: Self) {
        Transcript { bytes: Vec::new() }
    }

    fn absorb(&mut self, bytes: &[u8]) {
        self.bytes.extend_from_slice(bytes);
    }
}

/// The context type `sha2::Sha256`, which the library carries around without
/// looking inside.
#[verifier::external_type_specification]
#[verifier::external_body]
pub struct ExSha256(sha2::Sha256);

/// The message of a SHA-256 context: the bytes it has been given since it
/// was made, in the order in which they came. The digest that the context
/// yields in the end is the SHA-256 hash of this message. A context is taken
/// to stand for one message only: two messages that leave a context in the
/// same state would be a collision within SHA-256.
pub uninterp spec fn sha256_message(ctx: Sha256) -> Seq<u8>;

/// The longest message, in bytes, that a SHA-256 context takes: it keeps the
/// length of its message in bits, in 64 bits.
pub const SHA256_CAPACITY: u64 = 0x1fff_ffff_ffff_ffff;

/// Makes a SHA-256 context, by `digest::Digest::new` as `sha2::Sha256` has
/// it. Trusted: the new context has been given nothing yet.
#[verifier::external_body]
fn sha256_start() -> (ctx: Sha256)
    ensures
        sha256_message(ctx) == Seq::<u8>::empty(),
{
    <Sha256 as Digest>::new()
}

/// Gives `bytes` to a SHA-256 context, by `digest::Digest::input` as
/// `sha2::Sha256` has it. Trusted: the message grows by exactly `bytes`, at
/// its end, however the bytes are cut into calls. The context counts the bits
/// of its message in 64 bits and adds to the count without a check, so a
/// message beyond [`SHA256_CAPACITY`] is ruled out here.
#[verifier::external_body]
fn sha256_absorb(ctx: &mut Sha256, bytes: &[u8])
    requires
        sha256_message(*old(ctx)).len() + bytes@.len() <= SHA256_CAPACITY,
    ensures
        sha256_message(*final(ctx)) == sha256_message(*old(ctx)) + bytes@,
{
    Digest::input(ctx, bytes)
}

impl Context for Sha256 {
    open spec fn absorbed(&self) -> Seq<u8> {
        sha256_message(*self)
    }

    open spec fn capacity() -> nat {
        SHA256_CAPACITY as nat
    }

    fn start() -> (ctx: Self) {
        sha256_start()
    }

    fn absorb(&mut self, bytes: &[u8]) {
        sha256_absorb(self, bytes)
    }
}

} // verus!
