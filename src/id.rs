use vstd::prelude::*;

verus! {

/// The text of a freshly generated version 4 UUID.
///
/// Relies on `uuid::Uuid::new_v4` and its `Display` impl, which writes the
/// hyphenated form: 32 hex digits in five groups, 36 characters in all.
#[verifier::external_body]
fn random_uuid_text() -> (r: String)
    ensures
        r@.len() == 36,
{
    uuid::Uuid::new_v4().to_string()
}

/// An opaque, string-backed identifier for sessions and users.
#[derive(Debug)]
pub struct Id(String);

impl View for Id {
    type V = Seq<char>;

    closed spec fn view(&self) -> Seq<char> {
        self.0@
    }
}

impl Id {
    /// Returns a new random identifier.
    pub fn new() -> (r: Id)
        ensures
            r@.len() == 36,
    {
        Id(random_uuid_text())
    }

    /// Returns the identifier written as `value`, as when a session is
    /// read back from a bearer token.
    pub fn from(value: &str) -> (r: Id)
        ensures
            r@ == value@,
    {
        Id(value.to_string())
    }

    /// The identifier's text.
    pub fn as_str(&self) -> (r: &str)
        ensures
            r@ == self@,
    {
        self.0.as_str()
    }
}

impl Clone for Id {
    fn clone(&self) -> (r: Id)
        ensures
            r@ == self@,
    {
        Id(self.0.clone())
    }
}

impl PartialEq for Id {
    fn eq(&self, other: &Id) -> (r: bool)
        ensures
            r == (self@ == other@),
    {
        self.0 == other.0
    }
}

impl vstd::std_specs::cmp::PartialEqSpecImpl for Id {
    open spec fn obeys_eq_spec() -> bool {
        true
    }

    open spec fn eq_spec(&self, other: &Id) -> bool {
        self@ == other@
    }
}

impl Eq for Id {
}

impl Default for Id {
    fn default() -> (r: Id)
        ensures
            r@.len() == 36,
    {
        Id::new()
    }
}

} // verus!
