use rand::Rng;
use vstd::prelude::*;
use vstd::std_specs::cmp::PartialEqSpec;

use crate::key::{Key, KeyError, SigningKey};
use crate::session::{
    now_seconds, Session, SessionView, Signed, DEFAULT_DURATION, DEFAULT_ISSUER,
    MAX_UTC_TIMESTAMP,
};

verus! {

/// How many characters a generated nonce has.
pub const NONCE_LENGTH: usize = 30;

/// Whether `c` is an ASCII letter or digit.
pub open spec fn is_ascii_alphanumeric(c: char) -> bool {
    ('0' <= c && c <= '9') || ('A' <= c && c <= 'Z') || ('a' <= c && c <= 'z')
}

/// Relies on `rand::thread_rng` sampling `rand::distributions::Alphanumeric`,
/// which draws each character from `A-Z`, `a-z` and `0-9`; `take` keeps
/// exactly `len` of them from the endless sample.
#[verifier::external_body]
fn random_alphanumeric(len: usize) -> (r: String)
    ensures
        r@.len() == len,
        forall|i: int| 0 <= i < len ==> is_ascii_alphanumeric(#[trigger] r@[i]),
{
    rand::thread_rng().sample_iter(&rand::distributions::Alphanumeric).take(len).map(
        char::from,
    ).collect::<String>()
}

/// Why a session could not be issued or was not accepted.
#[derive(Debug, PartialEq, Eq, Structural)]
pub enum SessionError {
    /// The signing key failed.
    KeyError(KeyError),
    /// The session is not valid: run out, not yet issued, or missing its
    /// subject or issuer; or its expiry does not fit a timestamp.
    InvalidSession,
    /// The session is not one this manager issued.
    UnknownSession,
    /// The session's signature is not the manager's.
    InvalidSignature,
}

/// Whether a ledger entry has not run out at time `now`.
pub open spec fn current_at(now: i64) -> spec_fn((Seq<char>, i64)) -> bool {
    |e: (Seq<char>, i64)| e.1 >= now
}

/// Whether no content hash occurs twice in `ledger`.
pub open spec fn hashes_unique(ledger: Seq<(Seq<char>, i64)>) -> bool {
    forall|i: int, j: int|
        0 <= i < ledger.len() && 0 <= j < ledger.len() && i != j ==> #[trigger] ledger[i].0
            != #[trigger] ledger[j].0
}

/// `ledger` with `hash` mapped to `expires_at`: the entry for `hash` is
/// updated where there is one, and a new entry is added last otherwise.
pub open spec fn ledger_insert(ledger: Seq<(Seq<char>, i64)>, hash: Seq<char>, expires_at: i64) -> Seq<
    (Seq<char>, i64),
> {
    if exists|i: int| 0 <= i < ledger.len() && #[trigger] ledger[i].0 == hash {
        ledger.update(
            choose|i: int| 0 <= i < ledger.len() && #[trigger] ledger[i].0 == hash,
            (hash, expires_at),
        )
    } else {
        ledger.push((hash, expires_at))
    }
}

/// Inserting into a ledger keeps every hash where it was and records the
/// inserted hash at the index returned.
proof fn lemma_ledger_insert(ledger: Seq<(Seq<char>, i64)>, hash: Seq<char>, expires_at: i64) -> (k:
    int)
    ensures
        0 <= k < ledger_insert(ledger, hash, expires_at).len(),
        ledger_insert(ledger, hash, expires_at)[k].0 == hash,
        ledger_insert(ledger, hash, expires_at).len() >= ledger.len(),
        forall|i: int|
            0 <= i < ledger.len() ==> #[trigger] ledger_insert(ledger, hash, expires_at)[i].0
                == ledger[i].0,
{
    if exists|i: int| 0 <= i < ledger.len() && #[trigger] ledger[i].0 == hash {
        choose|i: int| 0 <= i < ledger.len() && #[trigger] ledger[i].0 == hash
    } else {
        ledger.len() as int
    }
}

/// What the manager remembers of a session it issued.
struct SessionData {
    hash: String,
    expires_at: i64,
}

impl SessionData {
    fn is_expired_at(&self, now: i64) -> (r: bool)
        ensures
            r == (now > self.expires_at),
    {
        now > self.expires_at
    }
}

/// Issues sessions and verifies them: it holds the signing key, a secret
/// nonce that binds sessions to this manager, and the ledger of the
/// sessions it issued.
pub struct SessionManager {
    key: Key,
    nonce: String,
    issuer: String,
    session_duration: i64,
    issued_sessions: Vec<SessionData>,
}

/// The settings of a session manager that is being built.
pub struct SessionManagerBuilderView {
    pub key: Option<Seq<u8>>,
    pub nonce: Seq<char>,
    pub issuer: Seq<char>,
    pub session_duration: i64,
}

/// Builds a session manager from defaults and overrides.
pub struct SessionManagerBuilder {
    key: Option<Key>,
    nonce: String,
    issuer: String,
    session_duration: i64,
}

impl View for SessionManagerBuilder {
    type V = SessionManagerBuilderView;

    closed spec fn view(&self) -> SessionManagerBuilderView {
        SessionManagerBuilderView {
            key: match self.key {
                Some(k) => Some(k@),
                None => None,
            },
            nonce: self.nonce@,
            issuer: self.issuer@,
            session_duration: self.session_duration,
        }
    }
}

impl Default for SessionManagerBuilder {
    /// No key yet, a random nonce, the default issuer and the default
    /// session duration.
    fn default() -> (r: SessionManagerBuilder)
        ensures
            r@.key is None,
            r@.nonce.len() == NONCE_LENGTH,
            forall|i: int| 0 <= i < NONCE_LENGTH ==> is_ascii_alphanumeric(#[trigger] r@.nonce[i]),
            r@.issuer == DEFAULT_ISSUER@,
            r@.session_duration == DEFAULT_DURATION,
    {
        SessionManagerBuilder {
            key: None,
            nonce: random_alphanumeric(NONCE_LENGTH),
            issuer: DEFAULT_ISSUER.to_string(),
            session_duration: DEFAULT_DURATION,
        }
    }
}

impl SessionManagerBuilder {
    /// Overrides the random nonce.
    pub fn with_nonce(self, nonce: &str) -> (r: SessionManagerBuilder)
        ensures
            r@ == (SessionManagerBuilderView { nonce: nonce@, ..self@ }),
    {
        SessionManagerBuilder { nonce: nonce.to_string(), ..self }
    }

    /// Uses `key` instead of a freshly generated one.
    pub fn with_key(self, key: Key) -> (r: SessionManagerBuilder)
        ensures
            r@ == (SessionManagerBuilderView { key: Some(key@), ..self@ }),
    {
        SessionManagerBuilder { key: Some(key), ..self }
    }

    /// Overrides the default issuer.
    pub fn with_issuer(self, issuer: &str) -> (r: SessionManagerBuilder)
        ensures
            r@ == (SessionManagerBuilderView { issuer: issuer@, ..self@ }),
    {
        SessionManagerBuilder { issuer: issuer.to_string(), ..self }
    }

    /// Overrides the default session duration, in seconds.
    pub fn with_session_duration(self, session_duration: i64) -> (r: SessionManagerBuilder)
        ensures
            r@ == (SessionManagerBuilderView { session_duration, ..self@ }),
    {
        SessionManagerBuilder { session_duration, ..self }
    }

    /// Builds the manager with an empty ledger. Where no key was given a
    /// fresh one is generated, which fails only where the cryptographic
    /// library does.
    pub fn finish(self) -> (r: Result<SessionManager, KeyError>)
        ensures
            r matches Ok(m) ==> {
                &&& m.spec_nonce() == self@.nonce
                &&& m.spec_issuer() == self@.issuer
                &&& m.spec_duration() == self@.session_duration
                &&& m.spec_ledger().len() == 0
                &&& m.wf()
                &&& m.spec_key().can_sign()
                &&& match self@.key {
                    Some(k) => m.spec_key()@ == k,
                    None => true,
                }
            },
            r matches Err(e) ==> self@.key is None && e == KeyError::RingUnspecifiedError,
            self@.key is Some ==> r is Ok,
    {
        let key = match self.key {
            Some(key) => key,
            None => match Key::new() {
                Ok(key) => key,
                Err(e) => {
                    return Err(e);
                },
            },
        };
        proof {
            use_type_invariant(&key);
        }
        let m = SessionManager {
            key,
            nonce: self.nonce,
            issuer: self.issuer,
            session_duration: self.session_duration,
            issued_sessions: Vec::new(),
        };
        assert(m.spec_ledger() =~= Seq::empty());
        Ok(m)
    }
}

impl SessionManager {
    /// The key the manager signs with.
    pub closed spec fn spec_key(&self) -> Key {
        self.key
    }

    /// The manager's secret nonce.
    pub closed spec fn spec_nonce(&self) -> Seq<char> {
        self.nonce@
    }

    /// The issuer of the manager's sessions.
    pub closed spec fn spec_issuer(&self) -> Seq<char> {
        self.issuer@
    }

    /// How long the manager's sessions last, in seconds.
    pub closed spec fn spec_duration(&self) -> i64 {
        self.session_duration
    }

    /// The issuance ledger: content hash and expiry of each issued session,
    /// oldest first.
    pub closed spec fn spec_ledger(&self) -> Seq<(Seq<char>, i64)> {
        Seq::new(
            self.issued_sessions@.len(),
            |i: int| (self.issued_sessions@[i].hash@, self.issued_sessions@[i].expires_at),
        )
    }

    /// The manager is well formed: its ledger holds each content hash at
    /// most once, as a map from hash to expiry.
    pub open spec fn wf(&self) -> bool {
        hashes_unique(self.spec_ledger())
    }

    /// Whether the ledger records a session with content hash `hash`.
    pub open spec fn is_recorded(&self, hash: Seq<char>) -> bool {
        exists|i: int| 0 <= i < self.spec_ledger().len() && #[trigger] self.spec_ledger()[i].0 == hash
    }

    /// What verifying a signed session with attributes `v` and signature
    /// `signature` gives at time `now`: the three checks in order, the first
    /// that fails deciding the error.
    pub open spec fn verify_outcome(&self, v: SessionView, signature: Seq<u8>, now: i64) -> Result<
        (),
        SessionError,
    > {
        if !v.is_valid_at(now) {
            Err(SessionError::InvalidSession)
        } else if !self.is_recorded(v.content_hash(self.spec_nonce())) {
            Err(SessionError::UnknownSession)
        } else if !self.spec_key().recognises(v.payload_bytes(self.spec_nonce()), signature) {
            Err(SessionError::InvalidSignature)
        } else {
            Ok(())
        }
    }

    /// Whether `next` is this manager after it issued the session with
    /// attributes `v` and signature `signature` for `subject`, issued at
    /// `issued_at`.
    pub open spec fn issues(
        &self,
        next: &SessionManager,
        subject: Seq<char>,
        issued_at: i64,
        v: SessionView,
        signature: Seq<u8>,
    ) -> bool {
        let payload = v.payload_bytes(self.spec_nonce());
        &&& v.subject == subject
        &&& v.issuer == self.spec_issuer()
        &&& v.issued_at == issued_at
        &&& v.expires_at == issued_at + self.spec_duration()
        &&& signature == self.spec_key().signature_for(payload)
        &&& self.spec_key().recognises(payload, signature)
        &&& next.spec_key() == self.spec_key()
        &&& next.spec_nonce() == self.spec_nonce()
        &&& next.spec_issuer() == self.spec_issuer()
        &&& next.spec_duration() == self.spec_duration()
        &&& next.spec_ledger() == ledger_insert(
            self.spec_ledger(),
            v.content_hash(self.spec_nonce()),
            v.expires_at,
        )
    }

    /// Whether a session issued at `issued_at` would have an expiry that
    /// does not fit a timestamp.
    pub open spec fn expiry_overflows(&self, issued_at: i64) -> bool {
        !(i64::MIN <= issued_at + self.spec_duration() <= i64::MAX)
    }

    /// Returns a builder with defaults: no key yet (a fresh one is
    /// generated when none is given), a random nonce, the default issuer
    /// and the default session duration.
    pub fn build() -> (r: SessionManagerBuilder)
        ensures
            r@.key is None,
            r@.nonce.len() == NONCE_LENGTH,
            forall|i: int| 0 <= i < NONCE_LENGTH ==> is_ascii_alphanumeric(#[trigger] r@.nonce[i]),
            r@.issuer == DEFAULT_ISSUER@,
            r@.session_duration == DEFAULT_DURATION,
    {
        SessionManagerBuilder::default()
    }

    /// Issues a signed session for `user_id`, issued at `issued_at`.
    ///
    /// The session is built with the manager's issuer and duration, its
    /// payload is signed with the manager's key, and its content hash is
    /// recorded in the ledger. Fails with `InvalidSession` exactly where the
    /// expiry does not fit a timestamp; then nothing is recorded.
    pub fn new_session_with_issued_time(&mut self, user_id: &str, issued_at: i64) -> (r: Result<
        Session<Signed>,
        SessionError,
    >)
        requires
            old(self).wf(),
            user_id@.len() > 0,
        ensures
            final(self).wf(),
            r matches Ok(s) ==> old(self).issues(
                final(self),
                user_id@,
                issued_at,
                s@,
                s.spec_signature(),
            ),
            r is Ok <==> !old(self).expiry_overflows(issued_at),
            r is Err ==> r == Err::<Session<Signed>, SessionError>(SessionError::InvalidSession)
                && *final(self) == *old(self),
            old(self).spec_key().can_sign(),
    {
        proof {
            use_type_invariant(&self.key);
        }
        let expires_at = match issued_at.checked_add(self.session_duration) {
            Some(t) => t,
            None => {
                return Err(SessionError::InvalidSession);
            },
        };
        let session = Session::build(user_id).with_issuer(self.issuer.as_str()).with_duration(
            self.session_duration,
        ).issued_at(issued_at).finish();
        let payload = session.payload(self.nonce.as_str());
        let signature = match self.key.sign(payload.as_str().as_bytes()) {
            Ok(sig) => sig,
            Err(e) => {
                return Err(SessionError::KeyError(e));
            },
        };
        let hash = session.hash(self.nonce.as_str());
        let ghost h = hash@;
        let ghost before = self.spec_ledger();
        match self.find_hash(&hash) {
            Some(i) => {
                self.issued_sessions.set(i, SessionData { hash, expires_at });
                proof {
                    let c = choose|k: int| 0 <= k < before.len() && #[trigger] before[k].0 == h;
                    assert(c == i as int);
                    assert(self.spec_ledger() =~= before.update(i as int, (h, expires_at)));
                }
            },
            None => {
                self.issued_sessions.push(SessionData { hash, expires_at });
                assert(self.spec_ledger() =~= before.push((h, expires_at)));
            },
        }
        let signed = session.add_signature(signature.as_slice());
        Ok(signed)
    }

    /// Issues a signed session for `user_id`, issued now; as
    /// `new_session_with_issued_time` at the current time.
    pub fn new_session(&mut self, user_id: &str) -> (r: Result<Session<Signed>, SessionError>)
        requires
            old(self).wf(),
            user_id@.len() > 0,
        ensures
            final(self).wf(),
            r matches Ok(s) ==> old(self).issues(
                final(self),
                user_id@,
                s@.issued_at,
                s@,
                s.spec_signature(),
            ) && 0 <= s@.issued_at <= MAX_UTC_TIMESTAMP,
            0 <= old(self).spec_duration() <= i64::MAX - MAX_UTC_TIMESTAMP ==> r is Ok,
            r is Err ==> r == Err::<Session<Signed>, SessionError>(SessionError::InvalidSession)
                && *final(self) == *old(self),
    {
        let now = now_seconds();
        self.new_session_with_issued_time(user_id, now)
    }

    /// Forgets the sessions that have run out at time `now`, keeping the
    /// ledger from growing without bound. What stays keeps its order.
    pub fn remove_expired_sessions(&mut self, now: i64)
        requires
            old(self).wf(),
        ensures
            final(self).wf(),
            final(self).spec_ledger() == old(self).spec_ledger().filter(current_at(now)),
            final(self).spec_key() == old(self).spec_key(),
            final(self).spec_nonce() == old(self).spec_nonce(),
            final(self).spec_issuer() == old(self).spec_issuer(),
            final(self).spec_duration() == old(self).spec_duration(),
    {
        let mut entries: Vec<SessionData> = Vec::new();
        std::mem::swap(&mut entries, &mut self.issued_sessions);
        let ghost ledger = old(self).spec_ledger();
        assert(self.spec_ledger() =~= ledger.subrange(0, 0).filter(current_at(now))) by {
            reveal(Seq::filter);
        }
        let ghost mut kept: Seq<int> = Seq::empty();
        let mut i: usize = 0;
        while i < entries.len()
            invariant
                i <= entries@.len(),
                entries@.len() == ledger.len(),
                hashes_unique(ledger),
                kept.len() == self.spec_ledger().len(),
                forall|k: int| 0 <= k < kept.len() ==> 0 <= #[trigger] kept[k] < i,
                forall|k: int|
                    0 <= k < kept.len() ==> #[trigger] self.spec_ledger()[k] == ledger[kept[k]],
                forall|a: int, b: int| 0 <= a < b < kept.len() ==> kept[a] < kept[b],
                forall|j: int|
                    0 <= j < ledger.len() ==> #[trigger] ledger[j] == (
                        entries@[j].hash@,
                        entries@[j].expires_at,
                    ),
                self.spec_ledger() == ledger.subrange(0, i as int).filter(current_at(now)),
                self.key == old(self).key,
                self.nonce == old(self).nonce,
                self.issuer == old(self).issuer,
                self.session_duration == old(self).session_duration,
            decreases entries@.len() - i,
        {
            let ghost before = self.spec_ledger();
            if !entries[i].is_expired_at(now) {
                let hash = entries[i].hash.clone();
                self.issued_sessions.push(SessionData { hash, expires_at: entries[i].expires_at });
                assert(self.spec_ledger() =~= before.push(ledger[i as int]));
                proof {
                    kept = kept.push(i as int);
                }
            } else {
                assert(self.spec_ledger() =~= before);
            }
            assert(ledger.subrange(0, i + 1).drop_last() =~= ledger.subrange(0, i as int));
            assert(ledger.subrange(0, i + 1).last() == ledger[i as int]);
            assert(self.spec_ledger() == ledger.subrange(0, i + 1).filter(current_at(now))) by {
                reveal(Seq::filter);
            }
            i = i + 1;
        }
        assert(ledger.subrange(0, ledger.len() as int) =~= ledger);
        assert forall|a: int, b: int|
            0 <= a < self.spec_ledger().len() && 0 <= b < self.spec_ledger().len() && a
                != b implies #[trigger] self.spec_ledger()[a].0 != #[trigger] self.spec_ledger()[b].0 by {
            assert(self.spec_ledger()[a] == ledger[kept[a]]);
            assert(self.spec_ledger()[b] == ledger[kept[b]]);
            if a < b {
                assert(kept[a] < kept[b]);
            } else {
                assert(kept[b] < kept[a]);
            }
        }
    }

    /// Where the ledger records `hash`, if it does.
    fn find_hash(&self, hash: &String) -> (r: Option<usize>)
        ensures
            r matches Some(i) ==> i < self.spec_ledger().len() && self.spec_ledger()[i as int].0
                == hash@,
            r is None <==> !self.is_recorded(hash@),
    {
        let mut i: usize = 0;
        while i < self.issued_sessions.len()
            invariant
                i <= self.issued_sessions@.len(),
                forall|j: int| 0 <= j < i ==> self.spec_ledger()[j].0 != hash@,
            decreases self.issued_sessions@.len() - i,
        {
            if self.issued_sessions[i].hash == *hash {
                assert(self.spec_ledger()[i as int].0 == hash@);
                return Some(i);
            }
            i = i + 1;
        }
        None
    }

    /// Verifies `session` at time `now`: it must be valid at `now`,
    /// recorded in the ledger, and signed with the manager's key, checked in
    /// that order.
    pub fn verify_session_at(&self, session: &Session<Signed>, now: i64) -> (r: Result<
        (),
        SessionError,
    >)
        ensures
            r == self.verify_outcome(session@, session.spec_signature(), now),
    {
        if !session.is_valid_at(now) {
            return Err(SessionError::InvalidSession);
        }
        let hash = session.hash(self.nonce.as_str());
        if self.find_hash(&hash).is_none() {
            return Err(SessionError::UnknownSession);
        }
        let payload = session.payload(self.nonce.as_str());
        if !self.key.has_signed(payload.as_str().as_bytes(), session.signature()) {
            return Err(SessionError::InvalidSignature);
        }
        Ok(())
    }

    /// Verifies `session` at the current time; as `verify_session_at`.
    pub fn verify_session(&self, session: &Session<Signed>) -> (r: Result<(), SessionError>)
        ensures
            exists|now: i64|
                0 <= now <= MAX_UTC_TIMESTAMP && r == #[trigger] self.verify_outcome(
                    session@,
                    session.spec_signature(),
                    now,
                ),
            r is Ok ==> {
                &&& self.is_recorded(session@.content_hash(self.spec_nonce()))
                &&& self.spec_key().recognises(
                    session@.payload_bytes(self.spec_nonce()),
                    session.spec_signature(),
                )
            },
    {
        let now = now_seconds();
        self.verify_session_at(session, now)
    }
}

/// A session is accepted by the manager that just issued it at any time
/// from its issue to its expiry, when that manager has an issuer.
pub proof fn lemma_issued_session_verifies(
    m: SessionManager,
    next: SessionManager,
    subject: Seq<char>,
    issued_at: i64,
    v: SessionView,
    signature: Seq<u8>,
    now: i64,
)
    requires
        m.issues(&next, subject, issued_at, v, signature),
        subject.len() > 0,
        m.spec_issuer().len() > 0,
        v.issued_at <= now <= v.expires_at,
    ensures
        next.verify_outcome(v, signature, now) == Ok::<(), SessionError>(()),
{
    let k = lemma_ledger_insert(m.spec_ledger(), v.content_hash(m.spec_nonce()), v.expires_at);
    assert(next.spec_ledger()[k].0 == v.content_hash(next.spec_nonce()));
}

/// A session restored from the attributes and signature of an issued
/// session equals it, and the manager that issued it accepts the restored
/// session at any time from its issue to its expiry.
pub proof fn lemma_restored_session_verifies(
    m: SessionManager,
    next: SessionManager,
    subject: Seq<char>,
    session: Session<Signed>,
    restored: Session<Signed>,
    now: i64,
)
    requires
        m.issues(&next, subject, session@.issued_at, session@, session.spec_signature()),
        restored@ == (SessionView {
            id: session@.id,
            subject: session@.subject,
            issuer: session@.issuer,
            issued_at: session@.issued_at,
            expires_at: session@.expires_at,
        }),
        restored.spec_signature() == session.spec_signature(),
        subject.len() > 0,
        m.spec_issuer().len() > 0,
        session@.issued_at <= now <= session@.expires_at,
    ensures
        restored.eq_spec(&session),
        next.verify_outcome(restored@, restored.spec_signature(), now) == Ok::<(), SessionError>(
            (),
        ),
{
    lemma_issued_session_verifies(
        m,
        next,
        subject,
        session@.issued_at,
        session@,
        session.spec_signature(),
        now,
    );
}

/// Issuing another session does not change whether the manager accepts a
/// session it already accepted.
pub proof fn lemma_issuing_keeps_sessions_verified(
    m: SessionManager,
    next: SessionManager,
    subject: Seq<char>,
    issued_at: i64,
    issued: SessionView,
    issued_signature: Seq<u8>,
    v: SessionView,
    signature: Seq<u8>,
    now: i64,
)
    requires
        m.issues(&next, subject, issued_at, issued, issued_signature),
        m.verify_outcome(v, signature, now) == Ok::<(), SessionError>(()),
    ensures
        next.verify_outcome(v, signature, now) == Ok::<(), SessionError>(()),
{
    let h = v.content_hash(m.spec_nonce());
    let i = choose|i: int| 0 <= i < m.spec_ledger().len() && #[trigger] m.spec_ledger()[i].0 == h;
    lemma_ledger_insert(m.spec_ledger(), issued.content_hash(m.spec_nonce()), issued.expires_at);
    assert(next.spec_ledger()[i].0 == h);
}

} // verus!
