use vstd::prelude::*;
use crate::hex::hex_of;
use crate::hex::hex_encode;
use crate::hex::lemma_hex_of_shape;
use crate::text::push_char;
use sha2::Digest;

verus! {

/// The SHA-256 digest of the UTF-8 bytes of a character sequence. The
/// digest itself is left unstated: it is a fixed function of the input
/// alone, computed by the sha2 crate.
pub uninterp spec fn sha256_of(s: Seq<char>) -> Seq<u8>;

/// Relies on sha2::Sha256 through digest::Digest::digest: the result is a
/// 32-byte digest that depends only on the input bytes.
#[verifier::external_body]
fn sha256_digest(input: &str) -> (r: Vec<u8>)
    ensures
        r@ == sha256_of(input@),
        r@.len() == 32,
{
    sha2::Sha256::digest(input.as_bytes()).to_vec()
}

/// The session identifier derived from an email address and a relying
/// party's client identifier: the hexadecimal form of a SHA-256 digest
/// over the two values joined by a newline.
pub open spec fn session_id_of(email: Seq<char>, client_id: Seq<char>) -> Seq<char> {
    hex_of(sha256_of(email.push('\n') + client_id))
}

/// Derives the session identifier for an (email, client_id) pair.
///
/// The identifier is a one-way digest of the pair, so a second request for
/// the same pair lands on the same identifier, and the identifier does not
/// reveal the address to an observer of URLs or logs.
pub fn derive_session_id(email: &str, client_id: &str) -> (r: String)
    ensures
        r@ == session_id_of(email@, client_id@),
        r@.len() == 64,
        forall|k: int| 0 <= k < r@.len() ==> (('0' <= #[trigger] r@[k] && r@[k] <= '9')
            || ('a' <= r@[k] && r@[k] <= 'f')),
{
    let mut input = String::new();
    input.append(email);
    push_char(&mut input, '\n');
    input.append(client_id);
    proof {
        assert(input@ =~= email@.push('\n') + client_id@);
    }
    let digest = sha256_digest(input.as_str());
    let r = hex_encode(&digest);
    proof {
        lemma_hex_of_shape(digest@);
    }
    r
}

/// Session-identifier derivation is a pure function: identical
/// (email, client_id) pairs always yield the identical identifier.
pub proof fn lemma_session_id_deterministic(
    email1: Seq<char>,
    client1: Seq<char>,
    email2: Seq<char>,
    client2: Seq<char>,
)
    requires
        email1 == email2,
        client1 == client2,
    ensures
        session_id_of(email1, client1) == session_id_of(email2, client2),
{
}

} // verus!
