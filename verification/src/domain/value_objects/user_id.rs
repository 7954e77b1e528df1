use vstd::prelude::*;
use crate::errors::{AppError, AppErrorView};
use crate::trusted::object_id::{
    object_id_parse, object_id_hex, is_object_id_hex, hex_bytes, lower_hex, hex_value,
    lower_hex_digit,
};

verus! {

/// The id of a user: the twelve bytes of a database object id.
#[derive(Debug, Clone, Copy, PartialEq, Eq, Hash)]
pub struct UserId([u8; 12]);

impl View for UserId {
    type V = Seq<u8>;

    closed spec fn view(&self) -> Seq<u8> {
        self.0@
    }
}

impl UserId {
    /// The id with the given object id bytes.
    pub fn new(id: [u8; 12]) -> (r: UserId)
        ensures
            r@ == id@,
    {
        UserId(id)
    }

    /// The id written as 24 hexadecimal digits; anything else is refused.
    pub fn parse(value: &str) -> (r: Result<UserId, AppError>)
        ensures
            r is Ok <==> is_object_id_hex(value@),
            r matches Ok(u) ==> u@ == hex_bytes(value@),
            r matches Err(e) ==> e@ == AppErrorView::ValidationError("Invalid UserId: "@ + value@),
    {
        match object_id_parse(value) {
            Some(bytes) => Ok(UserId(bytes)),
            None => {
                let mut m = String::from_str("Invalid UserId: ");
                m.append(value);
                Err(AppError::ValidationError(m))
            },
        }
    }

    /// The object id bytes.
    pub fn as_inner(&self) -> (r: &[u8; 12])
        ensures
            r@ == self@,
    {
        &self.0
    }

    /// The id as 24 lower-case hexadecimal digits.
    pub fn to_hex(&self) -> (r: String)
        ensures
            r@ == lower_hex(self@),
    {
        object_id_hex(self.0)
    }

    /// The id as it is displayed: its hexadecimal text.
    pub fn to_string(&self) -> (r: String)
        ensures
            r@ == lower_hex(self@),
    {
        self.to_hex()
    }
}

proof fn lemma_hex_digit(d: int)
    requires
        0 <= d < 16,
    ensures
        hex_value(lower_hex_digit(d)) == d,
{
}

/// Writing an id in hexadecimal and parsing the text gives the id back:
/// the text of any twelve bytes is accepted and stands for those bytes.
pub proof fn lemma_hex_round_trip(b: Seq<u8>)
    requires
        b.len() == 12,
    ensures
        is_object_id_hex(lower_hex(b)),
        hex_bytes(lower_hex(b)) == b,
{
    let s = lower_hex(b);
    assert forall|i: int| 0 <= i < s.len() implies hex_value(#[trigger] s[i]) >= 0 by {
        let x = b[i / 2] as int;
        lemma_hex_digit(x / 16);
        lemma_hex_digit(x % 16);
    }
    assert forall|i: int| 0 <= i < b.len() implies #[trigger] hex_bytes(s)[i] == b[i] by {
        let x = b[i] as int;
        assert((2 * i) / 2 == i && (2 * i + 1) / 2 == i && (2 * i) % 2 == 0 && (2 * i + 1) % 2
            == 1);
        lemma_hex_digit(x / 16);
        lemma_hex_digit(x % 16);
        assert(x / 16 * 16 + x % 16 == x);
    }
    assert(hex_bytes(s) =~= b);
}

} // verus!
