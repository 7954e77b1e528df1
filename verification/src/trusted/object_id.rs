use vstd::prelude::*;
use mongodb::bson::oid::ObjectId;

verus! {

/// The value of a hexadecimal digit (either case), or -1 for any other character.
pub open spec fn hex_value(c: char) -> int {
    let v = c as int;
    if 48 <= v <= 57 {
        v - 48
    } else if 97 <= v <= 102 {
        v - 87
    } else if 65 <= v <= 70 {
        v - 55
    } else {
        -1
    }
}

/// Whether a text is an object id in hexadecimal: 24 hexadecimal digits.
pub open spec fn is_object_id_hex(s: Seq<char>) -> bool {
    s.len() == 24 && forall|i: int| 0 <= i < s.len() ==> hex_value(#[trigger] s[i]) >= 0
}

/// The bytes that a text of hexadecimal digit pairs stands for.
pub open spec fn hex_bytes(s: Seq<char>) -> Seq<u8> {
    Seq::new(s.len() / 2, |i: int| (hex_value(s[2 * i]) * 16 + hex_value(s[2 * i + 1])) as u8)
}

/// The lower-case hexadecimal digit of a value below 16.
pub open spec fn lower_hex_digit(d: int) -> char {
    if d < 10 {
        (48 + d) as char
    } else {
        (87 + d) as char
    }
}

/// The lower-case hexadecimal text of some bytes, two digits per byte.
pub open spec fn lower_hex(b: Seq<u8>) -> Seq<char> {
    Seq::new(
        2 * b.len(),
        |i: int|
            if i % 2 == 0 {
                lower_hex_digit(b[i / 2] as int / 16)
            } else {
                lower_hex_digit(b[i / 2] as int % 16)
            },
    )
}

/// `bson::oid::ObjectId::parse_str`, giving the id's twelve bytes.
/// Claimed, from bson's and hex's source: it succeeds exactly when the text is
/// 24 hexadecimal digits, and the bytes are the digit pairs' values.
#[verifier::external_body]
pub fn object_id_parse(s: &str) -> (r: Option<[u8; 12]>)
    ensures
        r is Some <==> is_object_id_hex(s@),
        r matches Some(b) ==> b@ == hex_bytes(s@),
{
    match ObjectId::parse_str(s) {
        Ok(id) => Some(id.bytes()),
        Err(_) => None,
    }
}

/// `bson::oid::ObjectId::to_hex` of the id with these bytes.
/// Claimed, from bson's and hex's source: two lower-case hexadecimal digits per byte.
#[verifier::external_body]
pub fn object_id_hex(bytes: [u8; 12]) -> (r: String)
    ensures
        r@ == lower_hex(bytes@),
{
    ObjectId::from_bytes(bytes).to_hex()
}

} // verus!
