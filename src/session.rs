use vstd::prelude::*;
use vstd::string::StringExecFns;
use vstd::utf8::encode_utf8;

use crate::id::Id;
use crate::text::{decimal, decimal_text};

verus! {

/// The issuer a session carries unless told otherwise.
pub const DEFAULT_ISSUER: &'static str = "auth service";

/// How long a session lasts unless told otherwise: one hour, in seconds.
pub const DEFAULT_DURATION: i64 = 3600;

/// The lowercase hex text of the SHA-256 digest of `data`.
pub uninterp spec fn sha256_hex_of(data: Seq<u8>) -> Seq<char>;

/// Relies on `sha256::digest` over a byte slice: the lowercase hex text of
/// the SHA-256 digest of exactly those bytes, 64 characters long.
#[verifier::external_body]
fn sha256_hex(data: &[u8]) -> (r: String)
    ensures
        r@ == sha256_hex_of(data@),
        r@.len() == 64,
{
    sha256::digest(data)
}

/// The latest time chrono represents, 31 December 262142 23:59:59 UTC, in
/// seconds since the Unix epoch.
pub const MAX_UTC_TIMESTAMP: i64 = 8210266876799;

/// Relies on `chrono::Utc::now` and `DateTime::timestamp`: the current time
/// in whole seconds since the Unix epoch. `Utc::now` measures the time since
/// the epoch and builds a `DateTime` in chrono's range from it, so the value
/// is neither negative nor past `DateTime::<Utc>::MAX_UTC`.
#[verifier::external_body]
pub(crate) fn now_seconds() -> (r: i64)
    ensures
        0 <= r <= MAX_UTC_TIMESTAMP,
{
    chrono::Utc::now().timestamp()
}

/// The attributes of a session, timestamps in seconds since the Unix epoch.
pub struct SessionView {
    pub id: Seq<char>,
    pub subject: Seq<char>,
    pub issuer: Seq<char>,
    pub issued_at: i64,
    pub expires_at: i64,
}

impl SessionView {
    /// The canonical representation `id:subject:issuer:issued_at:expires_at`,
    /// timestamps written as decimal seconds.
    pub open spec fn canonical(self) -> Seq<char> {
        self.id + seq![':'] + self.subject + seq![':'] + self.issuer + seq![':'] + decimal_text(
            self.issued_at as int,
        ) + seq![':'] + decimal_text(self.expires_at as int)
    }

    /// The canonical representation followed by `:` and `nonce`.
    pub open spec fn payload(self, nonce: Seq<char>) -> Seq<char> {
        self.canonical() + seq![':'] + nonce
    }

    /// The bytes that are signed and hashed for this session under `nonce`.
    pub open spec fn payload_bytes(self, nonce: Seq<char>) -> Seq<u8> {
        encode_utf8(self.payload(nonce))
    }

    /// The content hash of this session under `nonce`.
    pub open spec fn content_hash(self, nonce: Seq<char>) -> Seq<char> {
        sha256_hex_of(self.payload_bytes(nonce))
    }

    /// Whether the session has run out at time `now`.
    pub open spec fn is_expired_at(self, now: i64) -> bool {
        now > self.expires_at
    }

    /// Whether a signed session with these attributes is valid at time `now`.
    pub open spec fn is_valid_at(self, now: i64) -> bool {
        &&& !self.is_expired_at(now)
        &&& self.subject.len() > 0
        &&& self.issuer.len() > 0
        &&& now >= self.issued_at
    }
}

/// The sign state of a session that has not been signed.
#[derive(Debug)]
pub struct Unsigned;

/// The sign state of a session that carries a signature.
#[derive(Debug)]
pub struct Signed {
    signature: Vec<u8>,
}

impl View for Signed {
    type V = Seq<u8>;

    closed spec fn view(&self) -> Seq<u8> {
        self.signature@
    }
}

impl Clone for Signed {
    fn clone(&self) -> (r: Signed)
        ensures
            r@ == self@,
    {
        Signed { signature: self.signature.clone() }
    }
}

/// A session: who it is for, who issued it, and when it runs out.
#[derive(Debug)]
pub struct Session<SignState> {
    id: Id,
    user_id: String,
    issuer: String,
    issued_at: i64,
    expires_at: i64,
    sign_state: SignState,
}

impl<SignState> View for Session<SignState> {
    type V = SessionView;

    closed spec fn view(&self) -> SessionView {
        SessionView {
            id: self.id@,
            subject: self.user_id@,
            issuer: self.issuer@,
            issued_at: self.issued_at,
            expires_at: self.expires_at,
        }
    }
}

/// The settings of a session that is being built.
pub struct SessionBuilderView {
    pub id: Seq<char>,
    pub subject: Seq<char>,
    pub issuer: Seq<char>,
    pub issued_at: i64,
    pub duration: i64,
}

/// Builds an unsigned session from defaults and overrides.
pub struct SessionBuilder {
    id: Id,
    user_id: String,
    issuer: String,
    issued_at: i64,
    duration: i64,
}

impl View for SessionBuilder {
    type V = SessionBuilderView;

    closed spec fn view(&self) -> SessionBuilderView {
        SessionBuilderView {
            id: self.id@,
            subject: self.user_id@,
            issuer: self.issuer@,
            issued_at: self.issued_at,
            duration: self.duration,
        }
    }
}

impl Default for SessionBuilder {
    /// A random identifier, no subject, the default issuer, issued now, and
    /// the default duration.
    fn default() -> (r: SessionBuilder)
        ensures
            r@.id.len() == 36,
            r@.subject.len() == 0,
            r@.issuer == DEFAULT_ISSUER@,
            0 <= r@.issued_at <= MAX_UTC_TIMESTAMP,
            r@.duration == DEFAULT_DURATION,
    {
        SessionBuilder {
            id: Id::new(),
            user_id: String::new(),
            issuer: DEFAULT_ISSUER.to_string(),
            issued_at: now_seconds(),
            duration: DEFAULT_DURATION,
        }
    }
}

impl SessionBuilder {
    /// Overrides the random identifier.
    pub fn with_id(self, id: Id) -> (r: SessionBuilder)
        ensures
            r@ == (SessionBuilderView { id: id@, ..self@ }),
    {
        SessionBuilder { id, ..self }
    }

    /// Overrides the default issuer.
    pub fn with_issuer(self, issuer: &str) -> (r: SessionBuilder)
        ensures
            r@ == (SessionBuilderView { issuer: issuer@, ..self@ }),
    {
        SessionBuilder { issuer: issuer.to_string(), ..self }
    }

    /// Overrides the time of issue.
    pub fn issued_at(self, issued_at: i64) -> (r: SessionBuilder)
        ensures
            r@ == (SessionBuilderView { issued_at, ..self@ }),
    {
        SessionBuilder { issued_at, ..self }
    }

    /// Overrides the default duration, in seconds.
    pub fn with_duration(self, duration: i64) -> (r: SessionBuilder)
        ensures
            r@ == (SessionBuilderView { duration, ..self@ }),
    {
        SessionBuilder { duration, ..self }
    }

    /// Builds the unsigned session; it runs out `duration` seconds after it
    /// was issued. A session always has a subject.
    pub fn finish(self) -> (r: Session<Unsigned>)
        requires
            self@.subject.len() > 0,
            i64::MIN <= self@.issued_at + self@.duration <= i64::MAX,
        ensures
            r@ == (SessionView {
                id: self@.id,
                subject: self@.subject,
                issuer: self@.issuer,
                issued_at: self@.issued_at,
                expires_at: (self@.issued_at + self@.duration) as i64,
            }),
    {
        let expires_at = self.issued_at + self.duration;
        Session {
            id: self.id,
            user_id: self.user_id,
            issuer: self.issuer,
            issued_at: self.issued_at,
            expires_at,
            sign_state: Unsigned,
        }
    }
}

impl<SignState> Session<SignState> {
    /// Whether the session has run out at time `now`: strictly after its
    /// expiry.
    pub fn is_expired_at(&self, now: i64) -> (r: bool)
        ensures
            r == self@.is_expired_at(now),
            r <==> now > self@.expires_at,
    {
        now > self.expires_at
    }

    /// Whether the session has run out, by the current time.
    pub fn is_expired(&self) -> (r: bool)
        ensures
            exists|now: i64|
                0 <= now <= MAX_UTC_TIMESTAMP && r == #[trigger] self@.is_expired_at(now),
    {
        let now = now_seconds();
        self.is_expired_at(now)
    }

    /// The session's identifier.
    pub fn id(&self) -> (r: Id)
        ensures
            r@ == self@.id,
    {
        self.id.clone()
    }

    /// The subject the session was issued for.
    pub fn user_id(&self) -> (r: String)
        ensures
            r@ == self@.subject,
    {
        self.user_id.clone()
    }

    /// Who issued the session.
    pub fn issuer(&self) -> (r: String)
        ensures
            r@ == self@.issuer,
    {
        self.issuer.clone()
    }

    /// When the session was issued, in seconds since the Unix epoch.
    pub fn issued_at(&self) -> (r: i64)
        ensures
            r == self@.issued_at,
    {
        self.issued_at
    }

    /// When the session runs out, in seconds since the Unix epoch.
    pub fn expires_at(&self) -> (r: i64)
        ensures
            r == self@.expires_at,
    {
        self.expires_at
    }

    /// The canonical representation `id:subject:issuer:issued_at:expires_at`.
    pub fn canonical(&self) -> (r: String)
        ensures
            r@ == self@.canonical(),
    {
        proof {
            reveal_strlit(":");
        }
        let issued_at = decimal(self.issued_at);
        let expires_at = decimal(self.expires_at);
        let mut s = self.id.as_str().to_string();
        s.append(":");
        s.append(self.user_id.as_str());
        s.append(":");
        s.append(self.issuer.as_str());
        s.append(":");
        s.append(issued_at.as_str());
        s.append(":");
        s.append(expires_at.as_str());
        assert(s@ =~= self@.canonical());
        s
    }

    /// The canonical representation followed by `:` and `nonce`: what is
    /// signed and hashed.
    pub fn payload(&self, nonce: &str) -> (r: String)
        ensures
            r@ == self@.payload(nonce@),
    {
        proof {
            reveal_strlit(":");
        }
        let mut s = self.canonical();
        s.append(":");
        s.append(nonce);
        assert(s@ =~= self@.payload(nonce@));
        s
    }

    /// The SHA-256 hex digest of the payload under `nonce`.
    pub fn hash(&self, nonce: &str) -> (r: String)
        ensures
            r@ == self@.content_hash(nonce@),
    {
        let payload = self.payload(nonce);
        sha256_hex(payload.as_str().as_bytes())
    }
}

impl Session<Unsigned> {
    /// Returns a builder with defaults for a session of `user_id`: a random
    /// identifier, the default issuer, issued now, lasting the default
    /// duration.
    pub fn build(user_id: &str) -> (r: SessionBuilder)
        ensures
            r@.id.len() == 36,
            r@.subject == user_id@,
            r@.issuer == DEFAULT_ISSUER@,
            0 <= r@.issued_at <= MAX_UTC_TIMESTAMP,
            r@.duration == DEFAULT_DURATION,
    {
        let builder = SessionBuilder::default();
        SessionBuilder { user_id: user_id.to_string(), ..builder }
    }

    /// Reconstructs a signed session from attributes read back from outside,
    /// as from a bearer token. Nothing about it is checked here.
    pub fn restore(
        id: Id,
        user_id: String,
        issuer: &str,
        issued_at: i64,
        expires_at: i64,
        signature: &[u8],
    ) -> (r: Session<Signed>)
        ensures
            r@ == (SessionView {
                id: id@,
                subject: user_id@,
                issuer: issuer@,
                issued_at,
                expires_at,
            }),
            r.spec_signature() == signature@,
    {
        Session {
            id,
            user_id,
            issuer: issuer.to_string(),
            issued_at,
            expires_at,
            sign_state: Signed { signature: copy_bytes(signature) },
        }
    }

    /// An unsigned session is not signed.
    pub fn is_signed(&self) -> (r: bool)
        ensures
            !r,
    {
        false
    }

    /// An unsigned session is never valid, whatever its attributes.
    pub fn is_valid(&self) -> (r: bool)
        ensures
            !r,
    {
        false
    }

    /// Attaches `signature`, giving the signed session with the same
    /// attributes.
    pub fn add_signature(self, signature: &[u8]) -> (r: Session<Signed>)
        ensures
            r@ == self@,
            r.spec_signature() == signature@,
    {
        Session {
            id: self.id,
            user_id: self.user_id,
            issuer: self.issuer,
            issued_at: self.issued_at,
            expires_at: self.expires_at,
            sign_state: Signed { signature: copy_bytes(signature) },
        }
    }
}

impl Session<Signed> {
    /// The signature the session carries.
    pub closed spec fn spec_signature(&self) -> Seq<u8> {
        self.sign_state.signature@
    }

    /// A signed session is signed.
    pub fn is_signed(&self) -> (r: bool)
        ensures
            r,
    {
        true
    }

    /// The signature the session carries.
    pub fn signature(&self) -> (r: &[u8])
        ensures
            r@ == self.spec_signature(),
    {
        self.sign_state.signature.as_slice()
    }

    /// Whether the session is valid at time `now`: not run out, with a
    /// subject and an issuer, and not issued after `now`.
    pub fn is_valid_at(&self, now: i64) -> (r: bool)
        ensures
            r == self@.is_valid_at(now),
    {
        !self.is_expired_at(now) && !self.user_id.as_str().is_empty() && !self.issuer.as_str().is_empty() && now
            >= self.issued_at
    }

    /// Whether the session is valid, by the current time.
    pub fn is_valid(&self) -> (r: bool)
        ensures
            exists|now: i64|
                0 <= now <= MAX_UTC_TIMESTAMP && r == #[trigger] self@.is_valid_at(now),
            r ==> self@.subject.len() > 0 && self@.issuer.len() > 0,
    {
        let now = now_seconds();
        self.is_valid_at(now)
    }
}

impl Clone for Session<Signed> {
    fn clone(&self) -> (r: Session<Signed>)
        ensures
            r@ == self@,
            r.spec_signature() == self.spec_signature(),
    {
        Session {
            id: self.id.clone(),
            user_id: self.user_id.clone(),
            issuer: self.issuer.clone(),
            issued_at: self.issued_at,
            expires_at: self.expires_at,
            sign_state: self.sign_state.clone(),
        }
    }
}

impl PartialEq for Session<Signed> {
    fn eq(&self, other: &Session<Signed>) -> (r: bool)
        ensures
            r == (self@ == other@ && self.spec_signature() == other.spec_signature()),
    {
        self.id == other.id && self.user_id == other.user_id && self.issuer == other.issuer
            && self.issued_at == other.issued_at && self.expires_at == other.expires_at
            && bytes_equal(self.sign_state.signature.as_slice(), other.sign_state.signature.as_slice())
    }
}

impl vstd::std_specs::cmp::PartialEqSpecImpl for Session<Signed> {
    open spec fn obeys_eq_spec() -> bool {
        true
    }

    open spec fn eq_spec(&self, other: &Session<Signed>) -> bool {
        self@ == other@ && self.spec_signature() == other.spec_signature()
    }
}

/// A copy of `a`.
pub(crate) fn copy_bytes(a: &[u8]) -> (r: Vec<u8>)
    ensures
        r@ == a@,
{
    let mut r: Vec<u8> = Vec::with_capacity(a.len());
    let mut i: usize = 0;
    while i < a.len()
        invariant
            i <= a@.len(),
            r@ == a@.subrange(0, i as int),
        decreases a@.len() - i,
    {
        r.push(a[i]);
        i = i + 1;
    }
    assert(r@ =~= a@);
    r
}

/// Whether two byte strings are the same.
fn bytes_equal(a: &[u8], b: &[u8]) -> (r: bool)
    ensures
        r == (a@ == b@),
{
    if a.len() != b.len() {
        return false;
    }
    let mut i: usize = 0;
    while i < a.len()
        invariant
            a@.len() == b@.len(),
            i <= a@.len(),
            forall|j: int| 0 <= j < i ==> a@[j] == b@[j],
        decreases a@.len() - i,
    {
        if a[i] != b[i] {
            return false;
        }
        i = i + 1;
    }
    assert(a@ =~= b@);
    true
}

} // verus!
