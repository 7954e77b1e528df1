use vstd::prelude::*;

verus! {

/// The answer to a sign-in request.
#[derive(Debug)]
pub struct LoginResponse {
    pub message: String,
}

/// The answer given to every sign-in request for now.
pub fn login_response() -> (r: LoginResponse)
    ensures
        r.message@ == "Login successful"@,
{
    LoginResponse { message: String::from_str("Login successful") }
}

} // verus!
