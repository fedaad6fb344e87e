use vstd::prelude::*;

use crate::id::Id;
use crate::session::{copy_bytes, Session, SessionView, Signed};

verus! {

/// A signed session as the claims of a bearer token: subject, issue and
/// expiry times in seconds since the Unix epoch, issuer, identifier and the
/// raw signature.
#[derive(Debug)]
pub struct TokenClaims {
    pub sub: String,
    pub iat: i64,
    pub exp: i64,
    pub iss: String,
    pub id: Id,
    pub sig: Vec<u8>,
}

impl TokenClaims {
    /// The attributes the claims describe.
    pub open spec fn session_view(&self) -> SessionView {
        SessionView {
            id: self.id@,
            subject: self.sub@,
            issuer: self.iss@,
            issued_at: self.iat,
            expires_at: self.exp,
        }
    }

    /// The claims that carry `session`.
    pub fn from_session(session: &Session<Signed>) -> (r: TokenClaims)
        ensures
            r.session_view() == session@,
            r.sig@ == session.spec_signature(),
    {
        TokenClaims {
            sub: session.user_id(),
            iat: session.issued_at(),
            exp: session.expires_at(),
            iss: session.issuer(),
            id: session.id(),
            sig: copy_bytes(session.signature()),
        }
    }

    /// The signed session the claims carry, restored as it stands; it still
    /// has to be verified.
    pub fn into_session(self) -> (r: Session<Signed>)
        ensures
            r@ == self.session_view(),
            r.spec_signature() == self.sig@,
    {
        Session::restore(self.id, self.sub, self.iss.as_str(), self.iat, self.exp, self.sig.as_slice())
    }
}

} // verus!
