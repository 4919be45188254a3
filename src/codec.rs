use vstd::prelude::*;

use crate::user::{User, UserView, hex_digit, uuid_text};

verus! {

/// How a character stands inside a JSON string literal: `"` and `\\` and the
/// control characters are escaped (the short forms where JSON has one, else
/// `\u00XX` in lower-case hexadecimal); every other character stands as is.
pub open spec fn escaped(c: char) -> Seq<char> {
    if c == '"' {
        seq!['\\', '"']
    } else if c == '\\' {
        seq!['\\', '\\']
    } else if c == '\x08' {
        seq!['\\', 'b']
    } else if c == '\t' {
        seq!['\\', 't']
    } else if c == '\n' {
        seq!['\\', 'n']
    } else if c == '\x0c' {
        seq!['\\', 'f']
    } else if c == '\r' {
        seq!['\\', 'r']
    } else if (c as u32) < 0x20 {
        seq!['\\', 'u', '0', '0', hex_digit((c as u32) as int / 16), hex_digit((c as u32) as int % 16)]
    } else {
        seq![c]
    }
}

/// The escaped characters of a text, in order.
pub open spec fn escaped_text(s: Seq<char>) -> Seq<char>
    decreases s.len(),
{
    if s.len() == 0 {
        Seq::empty()
    } else {
        escaped_text(s.drop_last()) + escaped(s.last())
    }
}

/// The JSON string literal of a text: its escaped characters between quotes.
pub open spec fn json_string(s: Seq<char>) -> Seq<char> {
    seq!['"'] + escaped_text(s) + seq!['"']
}

/// Relies on `serde_json::to_string` on a `str`: the quoted literal with
/// `format_escaped_str`'s escapes. Writing into its `Vec` buffer has no error
/// path, so the call always returns `Ok`.
#[verifier::external_body]
fn quote(s: &str) -> (r: String)
    ensures
        r@ == json_string(s@),
{
    serde_json::to_string(s).unwrap_or_default()
}

/// The view of each record of a sequence.
pub open spec fn views(s: Seq<User>) -> Seq<UserView> {
    s.map_values(|u: User| u@)
}

/// One JSON object `{id, name, email}` from its three already-quoted values.
/// The pretty form is the one of an element of a pretty-printed top-level array.
pub open spec fn object_text(id: Seq<char>, name: Seq<char>, email: Seq<char>, pretty: bool) -> Seq<char> {
    if pretty {
        "  {\n    \"id\": "@ + id + ",\n    \"name\": "@ + name + ",\n    \"email\": "@ + email
            + "\n  }"@
    } else {
        "{\"id\":"@ + id + ",\"name\":"@ + name + ",\"email\":"@ + email + "}"@
    }
}

/// The separator between two elements of an array.
pub open spec fn separator(pretty: bool) -> Seq<char> {
    if pretty {
        ",\n"@
    } else {
        ","@
    }
}

/// The elements of an array, separated.
pub open spec fn joined(items: Seq<Seq<char>>, pretty: bool) -> Seq<char>
    decreases items.len(),
{
    if items.len() == 0 {
        Seq::empty()
    } else if items.len() == 1 {
        items[0]
    } else {
        joined(items.drop_last(), pretty) + separator(pretty) + items.last()
    }
}

/// A JSON array of already-encoded elements.
pub open spec fn array_text(items: Seq<Seq<char>>, pretty: bool) -> Seq<char> {
    if items.len() == 0 {
        "[]"@
    } else if pretty {
        "[\n"@ + joined(items, pretty) + "\n]"@
    } else {
        "["@ + joined(items, pretty) + "]"@
    }
}

/// The JSON object of a record.
pub open spec fn user_text(u: UserView, pretty: bool) -> Seq<char> {
    object_text(json_string(uuid_text(u.id)), json_string(u.name), json_string(u.email), pretty)
}

/// The JSON array of records.
pub open spec fn users_text(s: Seq<UserView>, pretty: bool) -> Seq<char> {
    array_text(s.map_values(|u: UserView| user_text(u, pretty)), pretty)
}

/// Lays out one object from its three quoted values.
pub fn frame_object(id: &str, name: &str, email: &str, pretty: bool) -> (r: String)
    ensures
        r@ == object_text(id@, name@, email@, pretty),
{
    let mut out = String::new();
    if pretty {
        out.append("  {\n    \"id\": ");
        out.append(id);
        out.append(",\n    \"name\": ");
        out.append(name);
        out.append(",\n    \"email\": ");
        out.append(email);
        out.append("\n  }");
    } else {
        out.append("{\"id\":");
        out.append(id);
        out.append(",\"name\":");
        out.append(name);
        out.append(",\"email\":");
        out.append(email);
        out.append("}");
    }
    proof {
        assert(out@ =~= object_text(id@, name@, email@, pretty));
    }
    out
}

/// The strings' views.
pub open spec fn texts(v: Seq<String>) -> Seq<Seq<char>> {
    v.map_values(|s: String| s@)
}

/// Lays out an array from its already-encoded elements.
pub fn frame_array(items: &Vec<String>, pretty: bool) -> (r: String)
    ensures
        r@ == array_text(texts(items@), pretty),
{
    if items.len() == 0 {
        return "[]".to_owned();
    }
    let mut body = String::new();
    let mut i: usize = 0;
    while i < items.len()
        invariant
            0 <= i <= items.len(),
            body@ == joined(texts(items@.subrange(0, i as int)), pretty),
        decreases items.len() - i,
    {
        let ghost before = texts(items@.subrange(0, i as int));
        let ghost after = texts(items@.subrange(0, i + 1));
        if i > 0 {
            if pretty {
                body.append(",\n");
            } else {
                body.append(",");
            }
        }
        body.append(items[i].as_str());
        proof {
            assert(after.drop_last() =~= before);
            assert(after.last() == items@[i as int]@);
            assert(body@ =~= joined(after, pretty));
        }
        i = i + 1;
    }
    assert(items@.subrange(0, items@.len() as int) =~= items@);
    let mut out = String::new();
    if pretty {
        out.append("[\n");
        out.append(body.as_str());
        out.append("\n]");
    } else {
        out.append("[");
        out.append(body.as_str());
        out.append("]");
    }
    assert(out@ =~= array_text(texts(items@), pretty));
    out
}

/// The JSON object of a record.
pub fn encode_user(u: &User, pretty: bool) -> (r: String)
    ensures
        r@ == user_text(u@, pretty),
{
    let id = u.id_text();
    let id_q = quote(id.as_str());
    let name_q = quote(u.name.as_str());
    let email_q = quote(u.email.as_str());
    frame_object(id_q.as_str(), name_q.as_str(), email_q.as_str(), pretty)
}

/// The JSON array of the records, in order.
pub fn encode_users(users: &Vec<User>, pretty: bool) -> (r: String)
    ensures
        r@ == users_text(views(users@), pretty),
{
    let mut items: Vec<String> = Vec::new();
    let mut i: usize = 0;
    while i < users.len()
        invariant
            0 <= i <= users.len(),
            items@.len() == i,
            forall|j: int| 0 <= j < i ==> #[trigger] items@[j]@ == user_text(views(users@)[j], pretty),
        decreases users.len() - i,
    {
        let t = encode_user(&users[i], pretty);
        items.push(t);
        i = i + 1;
    }
    let r = frame_array(&items, pretty);
    assert(texts(items@) =~= views(users@).map_values(|u: UserView| user_text(u, pretty)));
    r
}

} // verus!
