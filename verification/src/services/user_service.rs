use vstd::prelude::*;
use crate::errors::{AppError, AppResult, AppErrorView};

verus! {

/// Users: looked up by e-mail address in a repository, and registered.
pub struct UserService<R> {
    repo: R,
}

impl<R> UserService<R> {
    /// The repository.
    pub closed spec fn repository(&self) -> R {
        self.repo
    }

    /// A service over a repository of users.
    pub fn new(repo: R) -> (r: Self)
        ensures
            r.repository() == repo,
    {
        Self { repo }
    }

    /// The repository.
    pub fn repo(&self) -> (r: &R)
        ensures
            *r == self.repository(),
    {
        &self.repo
    }
}

/// The user that the repository found for `email`, or "not found".
pub fn found_user<T>(found: Option<T>, email: &str) -> (r: AppResult<T>)
    ensures
        match found {
            Some(u) => r matches Ok(v) && v == u,
            None => r matches Err(e) && e@ == AppErrorView::NotFound(
                "Użytkownik "@ + email@ + " nie istnieje"@,
            ),
        },
{
    match found {
        Some(u) => Ok(u),
        None => {
            let mut m = String::from_str("Użytkownik ");
            m.append(email);
            m.append(" nie istnieje");
            Err(AppError::NotFound(m))
        },
    }
}

} // verus!
