use vstd::prelude::*;

verus! {

/// The id of a signed-in user, as text.
pub struct UserId(pub String);

/// The token of a session.
pub struct SessionToken(pub String);

/// How long a session lasts, in seconds.
#[derive(Debug, Clone, Copy)]
pub struct SessionTtl(pub u64);

impl From<&str> for UserId {
    fn from(s: &str) -> (r: Self)
        ensures
            r.0@ == s@,
    {
        UserId(String::from_str(s))
    }
}

impl vstd::std_specs::convert::FromSpecImpl<&str> for UserId {
    open spec fn obeys_from_spec() -> bool {
        false
    }

    open spec fn from_spec(v: &str) -> UserId {
        vstd::pervasive::arbitrary()
    }
}

} // verus!
