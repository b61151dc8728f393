//! SHA-1 content digests, rendered as lowercase hexadecimal text.
//!
//! A digest is computed by streaming: a [`Sha1Stream`] is fed the content
//! chunk by chunk and never holds more than its fixed-size state, so content
//! of any length up to [`MAX_STREAM_BYTES`] can be digested.

use vstd::prelude::*;

verus! {

/// The most bytes that one stream can digest. SHA-1 works the length of its
/// input in bits into the digest, as a number of 64 bits.
pub const MAX_STREAM_BYTES: u64 = 0x1fff_ffff_ffff_ffff;

/// The sixteen lowercase hexadecimal digits, in order of value.
pub open spec fn hex_digits() -> Seq<char> {
    seq!['0', '1', '2', '3', '4', '5', '6', '7', '8', '9', 'a', 'b', 'c', 'd', 'e', 'f']
}

/// The lowercase hexadecimal text of a byte sequence: two digits per byte,
/// the high half of each byte first.
pub open spec fn hex_lower(data: Seq<u8>) -> Seq<char> {
    Seq::new(
        2 * data.len(),
        |i: int|
            if i % 2 == 0 {
                hex_digits()[data[i / 2] as int / 16]
            } else {
                hex_digits()[data[i / 2] as int % 16]
            },
    )
}

/// The 20-byte SHA-1 digest of a byte sequence.
pub uninterp spec fn sha1_digest(data: Seq<u8>) -> Seq<u8>;

/// The bytes that a hasher has been fed so far, in order.
pub uninterp spec fn absorbed(state: Sha1State) -> Seq<u8>;

/// The digest of `data` as it is written in release descriptors: the SHA-1
/// digest in lowercase hexadecimal.
pub open spec fn digest_text(data: Seq<u8>) -> Seq<char> {
    hex_lower(sha1_digest(data))
}

/// The hasher of the `sha1` crate, which Verus does not look into: what is
/// known of it is what the three functions below state.
#[verifier::external_body]
pub struct Sha1State {
    inner: sha1::Sha1,
}

/// `Digest::new` on `sha1::Sha1`: a hasher that has been fed nothing.
#[verifier::external_body]
fn hasher_new() -> (state: Sha1State)
    ensures
        absorbed(state) == Seq::<u8>::empty(),
{
    Sha1State { inner: <sha1::Sha1 as sha1::Digest>::new() }
}

/// `Digest::update` on `sha1::Sha1`: feeds `data` to the hasher, after what
/// it was fed before. The hasher counts the blocks that it is fed; the bound
/// keeps that count far from its limit.
#[verifier::external_body]
fn hasher_update(state: &mut Sha1State, data: &[u8])
    requires
        absorbed(*old(state)).len() + data@.len() <= MAX_STREAM_BYTES,
    ensures
        absorbed(*final(state)) == absorbed(*old(state)) + data@,
{
    sha1::Digest::update(&mut state.inner, data);
}

/// `Digest::finalize` on `sha1::Sha1`: the SHA-1 digest of everything the
/// hasher was fed, which is always 20 bytes long. The hasher multiplies the
/// number of bytes by eight, in 64 bits; the bound keeps that from
/// overflowing.
#[verifier::external_body]
fn hasher_finalize(state: Sha1State) -> (out: Vec<u8>)
    requires
        absorbed(state).len() <= MAX_STREAM_BYTES,
    ensures
        out@ == sha1_digest(absorbed(state)),
        out@.len() == 20,
{
    sha1::Digest::finalize(state.inner).to_vec()
}

/// `hex::encode`: two lowercase hexadecimal digits for each byte of `data`,
/// the high half of the byte first.
#[verifier::external_body]
fn hex_encode(data: &[u8]) -> (text: String)
    ensures
        text@ == hex_lower(data@),
{
    hex::encode(data)
}

/// A running SHA-1 computation over a stream of bytes.
pub struct Sha1Stream {
    state: Sha1State,
    fed: u64,
}

impl View for Sha1Stream {
    type V = Seq<u8>;

    /// Everything the stream has been fed so far.
    closed spec fn view(&self) -> Seq<u8> {
        absorbed(self.state)
    }
}

impl Sha1Stream {
    /// The stream knows how many bytes it has been fed, and has not been
    /// fed more than it can digest.
    #[verifier::type_invariant]
    spec fn counted(&self) -> bool {
        &&& self.fed == absorbed(self.state).len()
        &&& self.fed <= MAX_STREAM_BYTES
    }

    /// A stream that has been fed nothing yet.
    pub fn new() -> (stream: Self)
        ensures
            stream@ == Seq::<u8>::empty(),
    {
        Sha1Stream { state: hasher_new(), fed: 0 }
    }

    /// Feeds the next chunk of the content to the stream, and gives the
    /// stream back; `None` where the chunk would bring the stream over
    /// [`MAX_STREAM_BYTES`].
    pub fn update(self, chunk: &[u8]) -> (next: Option<Self>)
        ensures
            next is Some <==> self@.len() + chunk@.len() <= MAX_STREAM_BYTES,
            next is Some ==> next->Some_0@ == self@ + chunk@,
    {
        proof {
            use_type_invariant(&self);
        }
        let Sha1Stream { mut state, fed } = self;
        let room = MAX_STREAM_BYTES - fed;
        if chunk.len() as u64 > room {
            return None;
        }
        hasher_update(&mut state, chunk);
        Some(Sha1Stream { state, fed: fed + chunk.len() as u64 })
    }

    /// Ends the stream and gives the digest of all that it was fed, as 40
    /// lowercase hexadecimal digits.
    pub fn finish(self) -> (text: String)
        ensures
            text@ == digest_text(self@),
            text@.len() == 40,
    {
        proof {
            use_type_invariant(&self);
        }
        let raw = hasher_finalize(self.state);
        hex_encode(raw.as_slice())
    }
}

/// The digest of a buffer held in memory, as 40 lowercase hexadecimal
/// digits; `None` where the buffer is longer than [`MAX_STREAM_BYTES`].
pub fn sha1_hex(data: &[u8]) -> (text: Option<String>)
    ensures
        text is Some <==> data@.len() <= MAX_STREAM_BYTES,
        text is Some ==> text->Some_0@ == digest_text(data@),
        text is Some ==> text->Some_0@.len() == 40,
{
    match Sha1Stream::new().update(data) {
        Some(stream) => {
            assert(stream@ =~= data@);
            Some(stream.finish())
        },
        None => None,
    }
}

} // verus!
