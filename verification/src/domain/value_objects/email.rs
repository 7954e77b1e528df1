use vstd::prelude::*;
use crate::errors::{AppError, AppErrorView};
use crate::trusted::text::{trim_text, lowercase_text, text_contains_char, is_trimmed, lowercase_of};

verus! {

/// An e-mail address, trimmed and in lower case, with an '@' in it.
#[derive(Debug, Clone, PartialEq, Eq, Hash)]
pub struct Email(String);

impl View for Email {
    type V = Seq<char>;

    closed spec fn view(&self) -> Seq<char> {
        self.0@
    }
}

/// Whether a normalized text is accepted as an address: not empty, with an '@'.
pub open spec fn acceptable_email(s: Seq<char>) -> bool {
    s.len() > 0 && s.contains('@')
}

impl Email {
    /// Normalizes `value` (trims it and lowers its case) and accepts it when
    /// the result is not empty and holds an '@'.
    pub fn new(value: String) -> (r: Result<Email, AppError>)
        ensures
            exists|t: Seq<char>|
                #![trigger lowercase_of(t)]
                is_trimmed(value@, t) && match r {
                    Ok(e) => e@ == lowercase_of(t) && acceptable_email(e@),
                    Err(err) => !acceptable_email(lowercase_of(t)) && err@
                        == AppErrorView::ValidationError("Invalid email format"@),
                },
    {
        let trimmed = trim_text(value.as_str());
        let lowered = lowercase_text(trimmed);
        if lowered.as_str().is_empty() || !text_contains_char(lowered.as_str(), '@') {
            return Err(AppError::ValidationError(String::from_str("Invalid email format")));
        }
        Ok(Email(lowered))
    }

    /// The address as text.
    pub fn as_str(&self) -> (r: &str)
        ensures
            r@ == self@,
    {
        self.0.as_str()
    }
}

} // verus!
