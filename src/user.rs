use vstd::prelude::*;

verus! {

/// The mathematical content of a [`User`].
pub struct UserView {
    pub id: u128,
    pub name: Seq<char>,
    pub email: Seq<char>,
}

/// A user record. `id` holds the 128 bits of the record's UUID.
pub struct User {
    pub id: u128,
    pub name: String,
    pub email: String,
}

impl View for User {
    type V = UserView;

    open spec fn view(&self) -> UserView {
        UserView { id: self.id, name: self.name@, email: self.email@ }
    }
}

/// The body of a create request.
pub struct CreateUserPayload {
    pub name: String,
    pub email: String,
}

/// A random (version 4) UUID: the version nibble is 4 and the variant bits are `10`.
pub open spec fn is_v4(id: u128) -> bool {
    (id >> 76u128) & 0xfu128 == 4u128 && (id >> 62u128) & 3u128 == 2u128
}

/// The lower-case hexadecimal digit of a value below 16.
pub open spec fn hex_digit(n: int) -> char {
    seq!['0', '1', '2', '3', '4', '5', '6', '7', '8', '9', 'a', 'b', 'c', 'd', 'e', 'f'][n]
}

/// Whether position `i` of a UUID's text holds a hyphen.
pub open spec fn is_hyphen_at(i: int) -> bool {
    i == 8 || i == 13 || i == 18 || i == 23
}

/// How many hyphens stand before position `i` of a UUID's text.
pub open spec fn hyphens_before(i: int) -> int {
    if i > 23 {
        4
    } else if i > 18 {
        3
    } else if i > 13 {
        2
    } else if i > 8 {
        1
    } else {
        0
    }
}

/// Digit `k` (0 is the most significant) of the 32 hexadecimal digits of `id`.
pub open spec fn nibble(id: u128, k: int) -> int {
    ((id >> ((124 - 4 * k) as u128)) & 0xfu128) as int
}

/// The hyphenated lower-case text of a UUID: its 32 hexadecimal digits, most
/// significant first, in groups of 8, 4, 4, 4 and 12 joined by hyphens.
pub open spec fn uuid_text(id: u128) -> Seq<char> {
    Seq::new(
        36,
        |i: int|
            if is_hyphen_at(i) {
                '-'
            } else {
                hex_digit(nibble(id, i - hyphens_before(i)))
            },
    )
}

/// Relies on `uuid::Uuid::new_v4` (then `as_u128`): random bits with the
/// version-4 and variant bits forced.
#[verifier::external_body]
fn random_v4_id() -> (r: u128)
    ensures
        is_v4(r),
{
    uuid::Uuid::new_v4().as_u128()
}

/// Relies on `uuid::Uuid::hyphenated` and its `Display` (through `LowerHex`):
/// the 36-character lower-case hyphenated form of the UUID with these bits.
#[verifier::external_body]
fn hyphenated(id: u128) -> (r: String)
    ensures
        r@ == uuid_text(id),
        r@.len() == 36,
{
    uuid::Uuid::from_u128(id).hyphenated().to_string()
}

/// The text of a random identifier is 36 characters, hyphenated in groups of
/// 8-4-4-4-12, shows version `4` at position 14 and one of `8`, `9`, `a`, `b`
/// (the variant) at position 19.
pub proof fn v4_text(id: u128)
    requires
        is_v4(id),
    ensures
        uuid_text(id).len() == 36,
        forall|i: int| 0 <= i < 36 && is_hyphen_at(i) ==> uuid_text(id)[i] == '-',
        uuid_text(id)[14] == '4',
        uuid_text(id)[19] == '8' || uuid_text(id)[19] == '9' || uuid_text(id)[19] == 'a'
            || uuid_text(id)[19] == 'b',
{
    assert(nibble(id, 12) == 4) by {
        assert((124 - 4 * 12) as u128 == 76u128);
    }
    let v = (id >> 60u128) & 0xfu128;
    assert(8u128 <= v <= 11u128) by (bit_vector)
        requires
            (id >> 62u128) & 3u128 == 2u128,
            v == (id >> 60u128) & 0xfu128,
    ;
    assert(nibble(id, 16) == v as int) by {
        assert((124 - 4 * 16) as u128 == 60u128);
    }
}

impl User {
    /// A new record with the given name and email and a fresh random identifier.
    pub fn new(name: String, email: String) -> (r: User)
        ensures
            r.name@ == name@,
            r.email@ == email@,
            is_v4(r.id),
    {
        User { id: random_v4_id(), name, email }
    }

    /// The identifier in its textual (hyphenated) form.
    pub fn id_text(&self) -> (r: String)
        ensures
            r@ == uuid_text(self.id),
            r@.len() == 36,
    {
        hyphenated(self.id)
    }

    /// An independent copy of the record.
    pub fn duplicate(&self) -> (r: User)
        ensures
            r@ == self@,
    {
        User { id: self.id, name: self.name.clone(), email: self.email.clone() }
    }
}

} // verus!
