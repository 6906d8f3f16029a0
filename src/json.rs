use vstd::prelude::*;

verus! {

/// serde_json's error type, carried opaquely.
#[verifier::external_type_specification]
#[verifier::external_body]
pub struct ExJsonError(serde_json::Error);

/// serde_json's JSON value, carried opaquely in records whose parts the
/// library does not interpret.
#[verifier::external_type_specification]
#[verifier::external_body]
pub struct ExJsonValue(serde_json::Value);

/// Lower-case hexadecimal digit of `n`, for `n < 16`.
pub open spec fn hex_digit(n: int) -> char {
    seq!['0', '1', '2', '3', '4', '5', '6', '7', '8', '9', 'a', 'b', 'c', 'd', 'e', 'f'][n]
}

/// How one character is written inside a JSON string literal: quote and
/// backslash are escaped, control characters take their short escape or a
/// `\u00XX` form, everything else stands as it is.
pub open spec fn escaped_char(c: char) -> Seq<char> {
    if c == '"' {
        seq!['\\', '"']
    } else if c == '\\' {
        seq!['\\', '\\']
    } else if c == '\u{8}' {
        seq!['\\', 'b']
    } else if c == '\t' {
        seq!['\\', 't']
    } else if c == '\n' {
        seq!['\\', 'n']
    } else if c == '\u{c}' {
        seq!['\\', 'f']
    } else if c == '\r' {
        seq!['\\', 'r']
    } else if (c as int) < 0x20 {
        seq!['\\', 'u', '0', '0', hex_digit(c as int / 16), hex_digit(c as int % 16)]
    } else {
        seq![c]
    }
}

/// The characters of `s`, each escaped for a JSON string literal.
pub open spec fn escaped(s: Seq<char>) -> Seq<char>
    decreases s.len(),
{
    if s.len() == 0 {
        Seq::empty()
    } else {
        escaped(s.drop_last()) + escaped_char(s.last())
    }
}

/// The JSON string literal that denotes `s`.
pub open spec fn quoted(s: Seq<char>) -> Seq<char> {
    seq!['"'] + escaped(s) + seq!['"']
}

/// Relies on serde_json::to_string applied to a `str`: it writes the string
/// between double quotes, escaping each character as `escaped_char` states,
/// into a `Vec`, which cannot fail.
#[verifier::external_body]
fn str_to_json(s: &str) -> (r: Result<String, serde_json::Error>)
    ensures
        r is Ok,
        r is Ok ==> r->Ok_0@ == quoted(s@),
{
    serde_json::to_string(s)
}

/// The JSON string literal that denotes `s`.
pub fn json_string(s: &str) -> (r: String)
    ensures
        r@ == quoted(s@),
{
    match str_to_json(s) {
        Ok(t) => t,
        Err(_) => {
            proof {
                assert(false);
            }
            String::new()
        },
    }
}

/// The JSON object `{"address":..,"password":..}` that carries a mailbox's
/// credentials.
pub open spec fn credentials_json(address: Seq<char>, password: Seq<char>) -> Seq<char> {
    "{\"address\":"@ + quoted(address) + ",\"password\":"@ + quoted(password) + "}"@
}

/// The JSON object that carries `address` and `password` as credentials.
pub fn credentials_body(address: &str, password: &str) -> (r: String)
    ensures
        r@ == credentials_json(address@, password@),
{
    let mut r = String::from_str("{\"address\":");
    let a = json_string(address);
    r.append(a.as_str());
    r.append(",\"password\":");
    let p = json_string(password);
    r.append(p.as_str());
    r.append("}");
    r
}

} // verus!
