//! JSON text for the values that responses carry. Strings are quoted and
//! escaped by serde_json; objects and arrays are framed here, field by field,
//! in the order of the record's fields and with no white space.

use vstd::prelude::*;
use crate::text::{decimal, decimal_text};
use crate::user::{NewUser, User};

verus! {

/// `serde_json::Error`, which `serde_json::to_string` may return; carried,
/// never inspected.
#[verifier::external_type_specification]
#[verifier::external_body]
pub struct ExJsonError(serde_json::Error);

/// The lowercase hexadecimal digit `d`.
pub open spec fn hex_digit(d: nat) -> char {
    seq!['0', '1', '2', '3', '4', '5', '6', '7', '8', '9', 'a', 'b', 'c', 'd', 'e', 'f'][d as int]
}

/// How one character is written inside a JSON string: `"` and `\` behind a
/// backslash; backspace, tab, line feed, form feed and carriage return as
/// `\b`, `\t`, `\n`, `\f`, `\r`; any other character below U+0020 as
/// `\u00` and two lowercase hex digits; everything else as it is.
pub open spec fn json_escape(c: char) -> Seq<char> {
    let v = c as u32;
    if c == '"' {
        seq!['\\', '"']
    } else if c == '\\' {
        seq!['\\', '\\']
    } else if v == 0x8 {
        seq!['\\', 'b']
    } else if v == 0x9 {
        seq!['\\', 't']
    } else if v == 0xa {
        seq!['\\', 'n']
    } else if v == 0xc {
        seq!['\\', 'f']
    } else if v == 0xd {
        seq!['\\', 'r']
    } else if v < 0x20 {
        seq!['\\', 'u', '0', '0', hex_digit((v / 16) as nat), hex_digit((v % 16) as nat)]
    } else {
        seq![c]
    }
}

/// The characters of `s`, each written as inside a JSON string.
pub open spec fn json_escaped(s: Seq<char>) -> Seq<char>
    decreases s.len(),
{
    if s.len() == 0 {
        Seq::empty()
    } else {
        json_escaped(s.drop_last()) + json_escape(s.last())
    }
}

/// The JSON string literal of a text: its escaped characters between quotes.
pub open spec fn json_string_of(s: Seq<char>) -> Seq<char> {
    seq!['"'] + json_escaped(s) + seq!['"']
}

/// Relies on `serde_json::to_string` for a `str`: it writes the text between
/// quotes, each byte escaped by serde_json's table as `json_escape` states.
/// It writes into a `Vec`, which never fails, so the result is `Ok`.
#[verifier::external_body]
fn to_json_string(s: &str) -> (r: Result<String, serde_json::Error>)
    ensures
        r is Ok,
        r matches Ok(t) ==> t@ == json_string_of(s@),
{
    serde_json::to_string(s)
}

/// The JSON string literal of a text.
pub fn json_string(s: &str) -> (r: String)
    ensures
        r@ == json_string_of(s@),
{
    match to_json_string(s) {
        Ok(t) => t,
        Err(_) => String::new(),
    }
}

/// The JSON object of a user: `{"id":..,"name":..,"email":..}`.
pub open spec fn user_json(u: User) -> Seq<char> {
    "{\"id\":"@ + decimal(u.id as int) + ",\"name\":"@ + json_string_of(u.name@) + ",\"email\":"@
        + json_string_of(u.email@) + "}"@
}

/// The JSON object of a new user: `{"name":..,"email":..}`.
pub open spec fn new_user_json(u: NewUser) -> Seq<char> {
    "{\"name\":"@ + json_string_of(u.name@) + ",\"email\":"@ + json_string_of(u.email@) + "}"@
}

/// The objects of the users, separated by commas.
pub open spec fn users_items(us: Seq<User>) -> Seq<char>
    decreases us.len(),
{
    if us.len() == 0 {
        Seq::empty()
    } else if us.len() == 1 {
        user_json(us[0])
    } else {
        users_items(us.drop_last()) + ","@ + user_json(us.last())
    }
}

/// The JSON array of the users' objects.
pub open spec fn users_json(us: Seq<User>) -> Seq<char> {
    "["@ + users_items(us) + "]"@
}

impl User {
    /// This user as a JSON object.
    pub fn to_json(&self) -> (r: String)
        ensures
            r@ == user_json(*self),
    {
        let mut r = String::from_str("{\"id\":");
        let id = decimal_text(self.id);
        r.append(id.as_str());
        r.append(",\"name\":");
        let name = json_string(self.name.as_str());
        r.append(name.as_str());
        r.append(",\"email\":");
        let email = json_string(self.email.as_str());
        r.append(email.as_str());
        r.append("}");
        r
    }
}

impl NewUser {
    /// This new user as a JSON object.
    pub fn to_json(&self) -> (r: String)
        ensures
            r@ == new_user_json(*self),
    {
        let mut r = String::from_str("{\"name\":");
        let name = json_string(self.name.as_str());
        r.append(name.as_str());
        r.append(",\"email\":");
        let email = json_string(self.email.as_str());
        r.append(email.as_str());
        r.append("}");
        r
    }
}

/// The users as a JSON array of objects, in their order.
pub fn users_to_json(users: &Vec<User>) -> (r: String)
    ensures
        r@ == users_json(users@),
{
    let mut items = String::new();
    let mut i: usize = 0;
    while i < users.len()
        invariant
            i <= users@.len(),
            items@ == users_items(users@.take(i as int)),
        decreases users@.len() - i,
    {
        let obj = users[i].to_json();
        proof {
            let t = users@.take(i + 1);
            assert(t.drop_last() =~= users@.take(i as int));
            assert(t.last() == users@[i as int]);
        }
        if i > 0 {
            items.append(",");
        }
        items.append(obj.as_str());
        proof {
            if i == 0 {
                assert(Seq::<char>::empty() + obj@ =~= obj@);
            }
        }
        i = i + 1;
    }
    assert(users@.take(users@.len() as int) =~= users@);
    let mut r = String::from_str("[");
    r.append(items.as_str());
    r.append("]");
    r
}

} // verus!
