use vstd::prelude::*;

verus! {

/// The id of a signed-in user, as text.
pub struct UserId(pub String);

/// The token of a session.
pub struct SessionToken(pub String);

impl From<String> for UserId {
    fn from(s: String) -> (r: Self)
        ensures
            r.0 == s,
    {
        UserId(s)
    }
}

impl vstd::std_specs::convert::FromSpecImpl<String> for UserId {
    open spec fn obeys_from_spec() -> bool {
        true
    }

    open spec fn from_spec(v: String) -> UserId {
        UserId(v)
    }
}

impl SessionToken {
    /// The token's text.
    pub fn as_ref(&self) -> (r: &str)
        ensures
            r@ == self.0@,
    {
        self.0.as_str()
    }
}

} // verus!
