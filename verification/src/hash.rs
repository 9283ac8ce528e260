//! Content digests: SHA-256 over the wrapped file's bytes, written as
//! lower-case hexadecimal text.

use sha2::Digest;
use vstd::prelude::*;

verus! {

/// A running SHA-256 computation of the `sha2` crate. Verus does not look
/// inside: what is known of a value is what `processed` says of it.
#[verifier::external_body]
pub struct Sha256State {
    inner: sha2::Sha256,
}

/// The SHA-256 digest of a message, as `sha2` computes it.
pub uninterp spec fn sha256(message: Seq<u8>) -> Seq<u8>;

/// The bytes that a running computation has been fed since it began, in
/// order.
pub uninterp spec fn processed(state: Sha256State) -> Seq<u8>;

/// `sha2::Sha256::new` (`Digest::new`): a fresh computation has been fed
/// nothing.
#[verifier::external_body]
fn sha256_new() -> (state: Sha256State)
    ensures
        processed(state) == Seq::<u8>::empty(),
{
    Sha256State { inner: sha2::Sha256::new() }
}

/// `Digest::update` on a `sha2::Sha256`: the data is fed to the computation
/// after everything it was fed before.
#[verifier::external_body]
fn sha256_update(state: &mut Sha256State, data: &[u8])
    ensures
        processed(*final(state)) == processed(*old(state)) + data@,
{
    state.inner.update(data);
}

/// `Digest::finalize` on a `sha2::Sha256`: the result is the SHA-256 digest of
/// all that the computation was fed, and it is 32 bytes long.
#[verifier::external_body]
fn sha256_finalize(state: Sha256State) -> (digest: Vec<u8>)
    ensures
        digest@ == sha256(processed(state)),
        digest@.len() == 32,
{
    state.inner.finalize().to_vec()
}

/// The lower-case hexadecimal digit for a value below 16.
pub open spec fn hex_digit(value: int) -> char
    recommends
        0 <= value < 16,
{
    if value < 10 {
        ('0' as int + value) as char
    } else {
        ('a' as int + (value - 10)) as char
    }
}

/// Lower-case hexadecimal text of `bytes`: two digits per byte, the high half
/// of each byte first.
pub open spec fn hex_lower(bytes: Seq<u8>) -> Seq<char> {
    Seq::new(
        2 * bytes.len(),
        |i: int|
            if i % 2 == 0 {
                hex_digit(bytes[i / 2] as int / 16)
            } else {
                hex_digit(bytes[i / 2] as int % 16)
            },
    )
}

/// The text of the digest of `content`.
pub open spec fn digest_of(content: Seq<u8>) -> Seq<char> {
    hex_lower(sha256(content))
}

/// A lower-case hexadecimal digit.
pub open spec fn is_hex_char(c: char) -> bool {
    ('0' <= c && c <= '9') || ('a' <= c && c <= 'f')
}

/// The shape of a digest's text: 64 lower-case hexadecimal digits.
pub open spec fn is_digest_text(s: Seq<char>) -> bool {
    &&& s.len() == 64
    &&& forall|i: int| 0 <= i < s.len() ==> is_hex_char(#[trigger] s[i])
}

fn hex_digit_of(value: u8) -> (digit: char)
    requires
        value < 16,
    ensures
        digit == hex_digit(value as int),
        is_hex_char(digit),
{
    if value < 10 {
        (48u8 + value) as char
    } else {
        (97u8 + (value - 10)) as char
    }
}

/// Writes `bytes` as lower-case hexadecimal text.
pub fn to_hex_lower(bytes: &[u8]) -> (text: String)
    ensures
        text@ == hex_lower(bytes@),
        text@.len() == 2 * bytes@.len(),
        forall|i: int| 0 <= i < text@.len() ==> is_hex_char(#[trigger] text@[i]),
{
    let mut text = String::new();
    let mut i: usize = 0;
    while i < bytes.len()
        invariant
            i <= bytes.len(),
            text@ == hex_lower(bytes@.take(i as int)),
            forall|k: int| 0 <= k < text@.len() ==> is_hex_char(#[trigger] text@[k]),
        decreases bytes.len() - i,
    {
        let byte = bytes[i];
        let high = hex_digit_of(byte / 16);
        let low = hex_digit_of(byte % 16);
        text.push(high);
        text.push(low);
        i = i + 1;
    }
    text
}

/// Hexadecimal text loses nothing: byte sequences with the same text are the
/// same. Two contents therefore have the same digest text only where SHA-256
/// itself gives them the same digest.
pub proof fn lemma_hex_lower_is_injective(first: Seq<u8>, second: Seq<u8>)
    requires
        hex_lower(first) == hex_lower(second),
    ensures
        first == second,
{
    assert(first.len() == second.len()) by {
        assert(hex_lower(first).len() == 2 * first.len());
        assert(hex_lower(second).len() == 2 * second.len());
    }
    assert forall|i: int| 0 <= i < first.len() implies first[i] == second[i] by {
        assert(hex_lower(first)[2 * i] == hex_digit(first[i] as int / 16));
        assert(hex_lower(first)[2 * i + 1] == hex_digit(first[i] as int % 16));
        assert(hex_lower(second)[2 * i] == hex_digit(second[i] as int / 16));
        assert(hex_lower(second)[2 * i + 1] == hex_digit(second[i] as int % 16));
    }
    assert(first =~= second);
}

/// Two contents to which SHA-256 gives different digests have different
/// digest texts.
pub proof fn lemma_digest_text_differs_where_sha256_differs(first: Seq<u8>, second: Seq<u8>)
    requires
        sha256(first) != sha256(second),
    ensures
        digest_of(first) != digest_of(second),
{
    if digest_of(first) == digest_of(second) {
        lemma_hex_lower_is_injective(sha256(first), sha256(second));
    }
}

/// The digest of a file's content: 64 lower-case hexadecimal digits.
#[derive(Debug)]
pub struct ContentDigest {
    hex: String,
}

impl View for ContentDigest {
    type V = Seq<char>;

    closed spec fn view(&self) -> Seq<char> {
        self.hex@
    }
}

impl Clone for ContentDigest {
    fn clone(&self) -> (copy: Self)
        ensures
            copy@ == self@,
    {
        proof {
            use_type_invariant(self);
        }
        ContentDigest { hex: self.hex.clone() }
    }
}

impl ContentDigest {
    #[verifier::type_invariant]
    spec fn well_formed(&self) -> bool {
        is_digest_text(self.hex@)
    }

    /// The digest as text.
    pub fn as_str(&self) -> (text: &str)
        ensures
            text@ == self@,
            is_digest_text(text@),
    {
        proof {
            use_type_invariant(self);
        }
        self.hex.as_str()
    }
}

/// Digests content that arrives in pieces; its view is all it was fed so far.
pub struct ContentHasher {
    state: Sha256State,
}

impl View for ContentHasher {
    type V = Seq<u8>;

    closed spec fn view(&self) -> Seq<u8> {
        processed(self.state)
    }
}

impl ContentHasher {
    /// A hasher that has been fed nothing.
    pub fn new() -> (hasher: Self)
        ensures
            hasher@ == Seq::<u8>::empty(),
    {
        ContentHasher { state: sha256_new() }
    }

    /// Feeds the next piece of the content.
    pub fn update(&mut self, chunk: &[u8])
        ensures
            final(self)@ == old(self)@ + chunk@,
    {
        sha256_update(&mut self.state, chunk);
    }

    /// The digest of all that was fed, whatever the pieces it came in.
    pub fn finalize(self) -> (digest: ContentDigest)
        ensures
            digest@ == digest_of(self@),
            is_digest_text(digest@),
    {
        let raw = sha256_finalize(self.state);
        let hex = to_hex_lower(raw.as_slice());
        ContentDigest { hex }
    }
}

} // verus!
