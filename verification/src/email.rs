use vstd::prelude::*;
use crate::CODE_LENGTH;
use crate::code::generate_code;
use crate::code::in_alphabet;
use crate::code::lemma_alphabet_ascii;
use crate::crypto::derive_session_id;
use crate::crypto::session_id_of;
use crate::query::percent_encode_query;
use crate::query::query_encode;
use crate::store::MemoryStore;
use crate::store::SessionRecord;
use crate::store::SessionRecordV;
use crate::store::StoredEntryV;
use crate::store::entry_live;
use crate::store::live_lookup;
use crate::store::lookup;
use crate::text::codes_match;

verus! {

/// Why a login request was refused.
#[derive(Clone, Copy, Debug, PartialEq, Eq, Structural)]
pub enum RequestError {
    /// The supplied login hint does not parse as an email address.
    InvalidAddress,
}

/// Why a verification attempt failed.
#[derive(Clone, Copy, Debug, PartialEq, Eq, Structural)]
pub enum VerifyError {
    /// No live session exists under the supplied identifier: it was never
    /// issued, or its record has expired.
    SessionNotFound,
    /// A live session exists, but the supplied code is not its code.
    IncorrectCode,
}

impl VerifyError {
    /// The diagnostic message for this failure.
    pub fn message(&self) -> (r: &'static str)
        ensures
            self is SessionNotFound ==> r@ == "session not found"@,
            self is IncorrectCode ==> r@ == "incorrect code"@,
    {
        match self {
            VerifyError::SessionNotFound => "session not found",
            VerifyError::IncorrectCode => "incorrect code",
        }
    }

    /// The production-facing message for this failure: the same for both
    /// variants, so a response does not confirm whether a given session is
    /// live.
    pub fn uniform_message(&self) -> (r: &'static str)
        ensures
            r@ == "invalid or expired code"@,
    {
        "invalid or expired code"
    }
}

/// The identity assertion minted on a successful verification: the
/// verified email address, scoped to the relying party that asked for it.
/// Signing it into a transportable token is the token capability's work.
pub struct IdentityToken {
    pub subject: String,
    pub audience: String,
}

/// A composed notification message, ready for the mail capability.
pub struct OutboundMail {
    pub to: String,
    pub subject: String,
    pub body: String,
}

/// Everything a successful login request produced: the derived session
/// identifier, the generated one-time code, the verification URL, and the
/// message to dispatch.
pub struct IssuedLogin {
    pub session_id: String,
    pub code: String,
    pub href: String,
    pub mail: OutboundMail,
}

/// The per-operation outcome of carrying an issued login out against the
/// real store and mail transport: each failure is reported independently,
/// since a failure in one does not prevent attempting the others.
pub struct IssueDiagnostics {
    pub store_error: Option<String>,
    pub ttl_error: Option<String>,
    pub mail_error: Option<String>,
}

impl IssueDiagnostics {
    /// Creates a diagnostic outcome with no failures.
    pub fn all_ok() -> (r: IssueDiagnostics)
        ensures
            r.store_error is None,
            r.ttl_error is None,
            r.mail_error is None,
    {
        IssueDiagnostics { store_error: None, ttl_error: None, mail_error: None }
    }

    /// Whether every operation succeeded.
    pub fn is_clean(&self) -> (r: bool)
        ensures
            r == (self.store_error is None && self.ttl_error is None && self.mail_error is None),
    {
        self.store_error.is_none() && self.ttl_error.is_none() && self.mail_error.is_none()
    }
}

/// Whether a character sequence parses as an email address: its last '@'
/// must stand strictly inside, leaving a nonempty local part before it and
/// a nonempty domain after it.
pub open spec fn email_valid(s: Seq<char>) -> bool {
    exists|i: int|
        0 < i && i + 1 < s.len() && s[i] == '@' && (forall|j: int|
            i < j < s.len() ==> s[j] != '@')
}

/// Relies on emailaddress::EmailAddress::new: parsing succeeds exactly
/// when the last '@' of the input has a nonempty local part before it and
/// a nonempty domain after it, and the parsed local part and domain joined
/// by '@' reproduce the input.
#[verifier::external_body]
fn parse_email(input: &str) -> (r: Option<String>)
    ensures
        r is Some <==> email_valid(input@),
        r is Some ==> r->Some_0@ == input@,
{
    match emailaddress::EmailAddress::new(input) {
        Ok(a) => Some(format!("{}@{}", a.local, a.domain)),
        Err(_) => None,
    }
}

/// The store key for a session identifier: a fixed namespace prefix,
/// then the identifier.
pub open spec fn store_key(sid: Seq<char>) -> Seq<char> {
    "session:"@ + sid
}

/// Builds the store key for a session identifier.
pub fn build_store_key(sid: &str) -> (r: String)
    ensures
        r@ == store_key(sid@),
{
    let mut s = String::from_str("session:");
    s.append(sid);
    s
}

/// The verification URL: the base URL, the confirmation path, and the
/// percent-encoded session identifier and code as query parameters.
pub open spec fn verification_href(base: Seq<char>, sid: Seq<char>, code: Seq<char>) -> Seq<
    char,
> {
    base + "/confirm?session="@ + query_encode(sid) + "&code="@ + query_encode(code)
}

/// The notification body: the bare code for manual entry, then the
/// one-click verification URL.
pub open spec fn mail_body(code: Seq<char>, href: Seq<char>) -> Seq<char> {
    "Enter your login code:\n\n"@ + code + "\n\nOr click this link:\n\n"@ + href
}

/// The notification subject: the code, and the relying party it signs
/// in to.
pub open spec fn mail_subject(code: Seq<char>, client_id: Seq<char>) -> Seq<char> {
    "Code: "@ + code + " - Finish logging in to "@ + client_id
}

/// Builds the verification URL for a session identifier and code.
pub fn build_href(base_url: &str, sid: &str, code: &str) -> (r: String)
    requires
        forall|k: int| 0 <= k < sid@.len() ==> (#[trigger] sid@[k] as int) < 128,
        forall|k: int| 0 <= k < code@.len() ==> (#[trigger] code@[k] as int) < 128,
    ensures
        r@ == verification_href(base_url@, sid@, code@),
{
    let mut s = String::from_str(base_url);
    s.append("/confirm?session=");
    let esid = percent_encode_query(sid);
    s.append(esid.as_str());
    s.append("&code=");
    let ecode = percent_encode_query(code);
    s.append(ecode.as_str());
    proof {
        assert(s@ =~= verification_href(base_url@, sid@, code@));
    }
    s
}

/// Composes the notification message for an issued code.
pub fn build_mail(to: String, code: &str, href: &str, client_id: &str) -> (r: OutboundMail)
    ensures
        r.to == to,
        r.subject@ == mail_subject(code@, client_id@),
        r.body@ == mail_body(code@, href@),
{
    let mut subject = String::from_str("Code: ");
    subject.append(code);
    subject.append(" - Finish logging in to ");
    subject.append(client_id);
    let mut body = String::from_str("Enter your login code:\n\n");
    body.append(code);
    body.append("\n\nOr click this link:\n\n");
    body.append(href);
    proof {
        assert(subject@ =~= mail_subject(code@, client_id@));
        assert(body@ =~= mail_body(code@, href@));
    }
    OutboundMail { to, subject, body }
}

/// A single issuance step on the store: the entry now stands under its
/// key, and every other key reads as before.
pub open spec fn issued(
    pre: Seq<StoredEntryV>,
    post: Seq<StoredEntryV>,
    key: Seq<char>,
    e: StoredEntryV,
) -> bool {
    &&& e.key == key
    &&& lookup(post, key) == Some(e)
    &&& forall|k: Seq<char>| k != key ==> lookup(post, k) == lookup(pre, k)
}

/// The record a login request stores for its session.
pub open spec fn issued_record(
    email: Seq<char>,
    client_id: Seq<char>,
    code: Seq<char>,
    redirect: Seq<char>,
) -> SessionRecordV {
    SessionRecordV { email, client_id, code, redirect }
}

/// Handles a login request: derives the session identifier for the
/// (email, client_id) pair, generates a fresh one-time code, persists the
/// session record and its expiry, and composes the notification message.
///
/// A malformed login hint is refused with `InvalidAddress` and the store
/// is left untouched. Otherwise the session record stands under the
/// derived key — overwriting any earlier record for the same pair — with
/// its expiry set, and the returned value carries the code, the
/// verification URL and the composed mail; dispatching the mail and
/// carrying the writes onto a remote store are the caller's side effects.
pub fn request(
    store: &mut MemoryStore,
    now: u64,
    expire_keys: u64,
    base_url: &str,
    login_hint: &str,
    client_id: &str,
    redirect_uri: &str,
) -> (r: Result<IssuedLogin, RequestError>)
    requires
        now + expire_keys <= u64::MAX,
    ensures
        r is Ok <==> email_valid(login_hint@),
        !email_valid(login_hint@) ==> r == Err::<IssuedLogin, RequestError>(
            RequestError::InvalidAddress,
        ) && final(store)@ == old(store)@,
        r is Ok ==> ({
            let out = r->Ok_0;
            &&& out.session_id@ == session_id_of(login_hint@, client_id@)
            &&& out.code@.len() == CODE_LENGTH as int
            &&& (forall|k: int| 0 <= k < out.code@.len() ==> in_alphabet(#[trigger] out.code@[k]))
            &&& out.href@ == verification_href(base_url@, out.session_id@, out.code@)
            &&& out.mail.to@ == login_hint@
            &&& out.mail.subject@ == mail_subject(out.code@, client_id@)
            &&& out.mail.body@ == mail_body(out.code@, out.href@)
            &&& issued(
                old(store)@,
                final(store)@,
                store_key(out.session_id@),
                StoredEntryV {
                    key: store_key(out.session_id@),
                    record: issued_record(login_hint@, client_id@, out.code@, redirect_uri@),
                    expires_at: Option::Some((now + expire_keys) as u64),
                },
            )
        }),
{
    let email = match parse_email(login_hint) {
        Option::None => {
            return Err(RequestError::InvalidAddress);
        },
        Option::Some(e) => e,
    };
    let code = generate_code(CODE_LENGTH);
    let sid = derive_session_id(email.as_str(), client_id);
    let key = build_store_key(sid.as_str());
    let record = SessionRecord {
        email: email.clone(),
        client_id: String::from_str(client_id),
        code: code.clone(),
        redirect: String::from_str(redirect_uri),
    };
    store.hset_session(key.as_str(), record, now);
    proof {
        assert(entry_live(lookup(store@, key@)->Some_0, now));
    }
    let deadline = now + expire_keys;
    let set = store.expire_session(key.as_str(), deadline, now);
    proof {
        assert forall|k: int| 0 <= k < sid@.len() implies (#[trigger] sid@[k] as int) < 128 by {}
        assert forall|k: int| 0 <= k < code@.len() implies (#[trigger] code@[k] as int) < 128 by {
            lemma_alphabet_ascii(code@[k]);
        }
    }
    let href = build_href(base_url, sid.as_str(), code.as_str());
    let mail = build_mail(email, code.as_str(), href.as_str(), client_id);
    Ok(IssuedLogin { session_id: sid, code, href, mail })
}

/// The outcome verification owes for a store state, session identifier,
/// supplied code and instant: the stored record when a live session under
/// the identifier carries exactly that code, and the first failing check
/// otherwise.
pub open spec fn verdict(
    s: Seq<StoredEntryV>,
    session: Seq<char>,
    code: Seq<char>,
    now: u64,
) -> Result<SessionRecordV, VerifyError> {
    match live_lookup(s, store_key(session), now) {
        Option::None => Err(VerifyError::SessionNotFound),
        Option::Some(e) => if e.record.code != code {
            Err(VerifyError::IncorrectCode)
        } else {
            Ok(e.record)
        },
    }
}

/// Verifies a one-time code against the session it was issued for.
///
/// Looks the session record up under the namespaced key; an absent or
/// expired record fails with `SessionNotFound`, a live record whose code
/// differs from the supplied one fails with `IncorrectCode`, and a match
/// mints the identity assertion for the stored email and relying party,
/// returned together with the stored redirect target. The record is not
/// consumed: it stays until its expiry.
pub fn verify(store: &MemoryStore, now: u64, session: &str, code: &str) -> (r: Result<
    (IdentityToken, String),
    VerifyError,
>)
    ensures
        match verdict(store@, session@, code@, now) {
            Result::Ok(rec) => r is Ok && r->Ok_0.0.subject@ == rec.email && r->Ok_0.0.audience@
                == rec.client_id && r->Ok_0.1@ == rec.redirect,
            Result::Err(e) => r == Err::<(IdentityToken, String), VerifyError>(e),
        },
{
    let key = build_store_key(session);
    let stored = match store.hget_session(key.as_str(), now) {
        Option::None => {
            return Err(VerifyError::SessionNotFound);
        },
        Option::Some(rec) => rec,
    };
    if !codes_match(code, stored.code.as_str()) {
        return Err(VerifyError::IncorrectCode);
    }
    let token = IdentityToken { subject: stored.email, audience: stored.client_id };
    Ok((token, stored.redirect))
}

/// The code issued for a session verifies: after an issuance step, as
/// long as the entry is alive, the verdict for its own code is the stored
/// record, and a token is owed.
pub proof fn lemma_issued_code_verifies(
    pre: Seq<StoredEntryV>,
    post: Seq<StoredEntryV>,
    session: Seq<char>,
    e: StoredEntryV,
    now: u64,
)
    requires
        issued(pre, post, store_key(session), e),
        entry_live(e, now),
    ensures
        verdict(post, session, e.record.code, now) == Ok::<SessionRecordV, VerifyError>(e.record),
{
}

/// Issuing a second login request for the same session key overwrites the
/// code: afterwards the first code is refused as incorrect, and the second
/// one verifies and yields the second record.
pub proof fn lemma_reissue_overwrites(
    s0: Seq<StoredEntryV>,
    s1: Seq<StoredEntryV>,
    s2: Seq<StoredEntryV>,
    session: Seq<char>,
    e1: StoredEntryV,
    e2: StoredEntryV,
    now: u64,
)
    requires
        issued(s0, s1, store_key(session), e1),
        issued(s1, s2, store_key(session), e2),
        e1.record.code != e2.record.code,
        entry_live(e2, now),
    ensures
        verdict(s2, session, e1.record.code, now) == Err::<SessionRecordV, VerifyError>(
            VerifyError::IncorrectCode,
        ),
        verdict(s2, session, e2.record.code, now) == Ok::<SessionRecordV, VerifyError>(e2.record),
{
}

/// A session that was never issued, or whose record has expired, never
/// yields a token: whatever code is supplied, the verdict is the
/// not-found failure.
pub proof fn lemma_unknown_session_rejected(
    s: Seq<StoredEntryV>,
    session: Seq<char>,
    code: Seq<char>,
    now: u64,
)
    requires
        live_lookup(s, store_key(session), now) is None,
    ensures
        verdict(s, session, code, now) == Err::<SessionRecordV, VerifyError>(
            VerifyError::SessionNotFound,
        ),
{
}

/// A wrong code against a live, unexpired session never yields a token:
/// the verdict is the incorrect-code failure.
pub proof fn lemma_wrong_code_rejected(
    s: Seq<StoredEntryV>,
    session: Seq<char>,
    code: Seq<char>,
    now: u64,
    e: StoredEntryV,
)
    requires
        live_lookup(s, store_key(session), now) == Some(e),
        e.record.code != code,
    ensures
        verdict(s, session, code, now) == Err::<SessionRecordV, VerifyError>(
            VerifyError::IncorrectCode,
        ),
{
}

} // verus!
