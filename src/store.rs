use vstd::prelude::*;

use crate::codec::{array_text, encode_users, frame_array, texts, users_text, views};
use crate::user::{User, UserView};

verus! {

/// Why a store operation failed.
#[derive(Debug, PartialEq, Eq, Structural, Clone, Copy)]
pub enum StoreError {
    /// The backing file could not be created, opened, read or written.
    Io,
    /// The backing file does not hold a JSON array of user records.
    Parse,
    /// A record with this identifier is already stored, or two loaded records
    /// share one: identifiers are never reused.
    DuplicateId,
}

/// No two records of the sequence share an identifier.
pub open spec fn ids_distinct(s: Seq<UserView>) -> bool {
    forall|i: int, j: int| 0 <= i < s.len() && 0 <= j < s.len() && i != j ==> s[i].id != s[j].id
}

/// Some record of the sequence has this identifier.
pub open spec fn has_id(s: Seq<UserView>, id: u128) -> bool {
    exists|i: int| 0 <= i < s.len() && #[trigger] s[i].id == id
}

/// The records after an `add`: the new record goes last, unless its identifier is taken.
pub open spec fn added(s: Seq<UserView>, u: UserView) -> Seq<UserView> {
    if has_id(s, u.id) {
        s
    } else {
        s.push(u)
    }
}

/// What an `add` returns: the document to write back, or why there is none.
pub open spec fn add_result(s: Seq<UserView>, u: UserView) -> Result<Seq<char>, StoreError> {
    if has_id(s, u.id) {
        Err(StoreError::DuplicateId)
    } else {
        Ok(users_text(s.push(u), true))
    }
}

/// The result's text, viewed.
pub open spec fn result_view(r: Result<String, StoreError>) -> Result<Seq<char>, StoreError> {
    match r {
        Ok(t) => Ok(t@),
        Err(e) => Err(e),
    }
}

/// The ordered, identity-unique collection of user records.
pub struct Store {
    users: Vec<User>,
}

impl View for Store {
    type V = Seq<UserView>;

    closed spec fn view(&self) -> Seq<UserView> {
        views(self.users@)
    }
}

impl Store {
    /// Identifiers are never shared.
    pub open spec fn wf(&self) -> bool {
        ids_distinct(self@)
    }

    /// An empty store.
    pub fn new() -> (r: Store)
        ensures
            r@ == Seq::<UserView>::empty(),
            r.wf(),
    {
        let r = Store { users: Vec::new() };
        assert(r@ =~= Seq::<UserView>::empty());
        r
    }

    /// The store over what loading the backing file gave. A file that could not
    /// be read or parsed counts as empty. Loaded records that share an
    /// identifier are reported, not dropped.
    pub fn from_loaded(loaded: Result<Vec<User>, StoreError>) -> (r: Result<Store, StoreError>)
        ensures
            r matches Ok(st) ==> st.wf(),
            match loaded {
                Ok(v) => if ids_distinct(views(v@)) {
                    r matches Ok(st) && st@ == views(v@)
                } else {
                    r == Err::<Store, StoreError>(StoreError::DuplicateId)
                },
                Err(_) => r matches Ok(st) && st@ == Seq::<UserView>::empty(),
            },
    {
        match loaded {
            Ok(v) => {
                let candidate = Store { users: v };
                if candidate.distinct_ids() {
                    Ok(candidate)
                } else {
                    Err(StoreError::DuplicateId)
                }
            },
            Err(_) => Ok(Store::new()),
        }
    }

    /// Whether no two records share an identifier.
    fn distinct_ids(&self) -> (r: bool)
        ensures
            r == ids_distinct(self@),
    {
        let n = self.users.len();
        let mut i: usize = 0;
        while i < n
            invariant
                n == self@.len(),
                0 <= i <= n,
                forall|a: int, b: int| 0 <= a < i && 0 <= b < n && a != b ==> self@[a].id != self@[b].id,
            decreases n - i,
        {
            let mut j: usize = 0;
            while j < n
                invariant
                    n == self@.len(),
                    0 <= i < n,
                    0 <= j <= n,
                    forall|a: int, b: int| 0 <= a < i && 0 <= b < n && a != b ==> self@[a].id != self@[b].id,
                    forall|b: int| 0 <= b < j && b != i ==> self@[i as int].id != self@[b].id,
                decreases n - j,
            {
                assert(self@[i as int].id == self.users@[i as int].id);
                assert(self@[j as int].id == self.users@[j as int].id);
                if j != i && self.users[i].id == self.users[j].id {
                    return false;
                }
                j = j + 1;
            }
            i = i + 1;
        }
        true
    }

    /// Whether a record with this identifier is stored.
    pub fn contains_id(&self, id: u128) -> (r: bool)
        ensures
            r == has_id(self@, id),
    {
        let mut i: usize = 0;
        while i < self.users.len()
            invariant
                0 <= i <= self.users.len(),
                self@.len() == self.users.len(),
                forall|j: int| 0 <= j < i ==> self@[j].id != id,
            decreases self.users.len() - i,
        {
            assert(self@[i as int].id == self.users@[i as int].id);
            if self.users[i].id == id {
                return true;
            }
            i = i + 1;
        }
        false
    }

    /// The number of stored records.
    pub fn len(&self) -> (r: usize)
        ensures
            r == self@.len(),
    {
        self.users.len()
    }

    /// Appends a record and returns the whole collection as the pretty-printed
    /// JSON document to write back. A record whose identifier is already stored
    /// is refused and nothing changes: identifiers are never reused.
    pub fn add_user(&mut self, user: User) -> (r: Result<String, StoreError>)
        requires
            old(self).wf(),
        ensures
            final(self).wf(),
            final(self)@ == added(old(self)@, user@),
            result_view(r) == add_result(old(self)@, user@),
    {
        if self.contains_id(user.id) {
            return Err(StoreError::DuplicateId);
        }
        let ghost before = self@;
        let ghost u = user@;
        self.users.push(user);
        assert(self@ =~= before.push(u));
        Ok(encode_users(&self.users, true))
    }

    /// The document of a store with no records: an empty JSON array.
    pub fn empty_document() -> (r: String)
        ensures
            r@ == array_text(Seq::empty(), false),
            r@ == users_text(Seq::empty(), false),
    {
        let none: Vec<String> = Vec::new();
        assert(texts(none@) =~= Seq::empty());
        let r = frame_array(&none, false);
        assert(Seq::<UserView>::empty().map_values(|u: UserView| crate::codec::user_text(u, false))
            =~= Seq::empty());
        r
    }

    /// An independent copy of the records, in insertion order.
    pub fn get_users(&self) -> (r: Vec<User>)
        ensures
            views(r@) == self@,
    {
        let mut out: Vec<User> = Vec::new();
        let mut i: usize = 0;
        while i < self.users.len()
            invariant
                0 <= i <= self.users.len(),
                self@.len() == self.users.len(),
                views(out@) =~= self@.subrange(0, i as int),
            decreases self.users.len() - i,
        {
            let ghost prev = out@;
            out.push(self.users[i].duplicate());
            proof {
                assert(self@[i as int] == self.users@[i as int]@);
                assert(out@ =~= prev.push(out@.last()));
                assert(views(out@) =~= views(prev).push(self@[i as int]));
            }
            i = i + 1;
        }
        assert(views(out@) =~= self@);
        out
    }
}

/// The records after adding each of `us` in turn.
pub open spec fn added_all(s: Seq<UserView>, us: Seq<UserView>) -> Seq<UserView>
    decreases us.len(),
{
    if us.len() == 0 {
        s
    } else {
        added(added_all(s, us.drop_last()), us.last())
    }
}

/// An add of a record whose identifier is new succeeds, with the document of
/// the records that a later list returns; they hold the record, last, with its
/// name and email; identifiers stay distinct.
pub proof fn add_then_list(s: Seq<UserView>, u: UserView)
    requires
        ids_distinct(s),
    ensures
        !has_id(s, u.id) ==> add_result(s, u) == Ok::<Seq<char>, StoreError>(users_text(added(s, u), true)),
        !has_id(s, u.id) ==> added(s, u).last() == u && added(s, u).contains(u),
        ids_distinct(added(s, u)),
{
    if !has_id(s, u.id) {
        assert(added(s, u)[s.len() as int] == u);
    }
}

/// Adds of records whose identifiers are new and pairwise distinct keep every
/// record exactly once, in the order of the adds.
pub proof fn adds_keep_order(s: Seq<UserView>, us: Seq<UserView>)
    requires
        ids_distinct(s + us),
    ensures
        added_all(s, us) == s + us,
        added_all(s, us).len() == s.len() + us.len(),
    decreases us.len(),
{
    if us.len() > 0 {
        let init = us.drop_last();
        assert(ids_distinct(s + init)) by {
            assert forall|i: int, j: int|
                0 <= i < (s + init).len() && 0 <= j < (s + init).len() && i != j implies
                (s + init)[i].id != (s + init)[j].id by {
                assert((s + init)[i] == (s + us)[i]);
                assert((s + init)[j] == (s + us)[j]);
            }
        }
        adds_keep_order(s, init);
        let k = (s + us).len() - 1;
        assert(!has_id(s + init, us.last().id)) by {
            if has_id(s + init, us.last().id) {
                let i = choose|i: int| 0 <= i < (s + init).len() && #[trigger] (s + init)[i].id == us.last().id;
                assert((s + init)[i] == (s + us)[i]);
                assert((s + us)[k] == us.last());
            }
        }
        assert((s + init).push(us.last()) =~= s + us);
    } else {
        assert(s + us =~= s);
    }
}

/// Whatever records are added, in whatever order, no two stored records share
/// an identifier.
pub proof fn ids_stay_distinct(s: Seq<UserView>, us: Seq<UserView>)
    requires
        ids_distinct(s),
    ensures
        ids_distinct(added_all(s, us)),
    decreases us.len(),
{
    if us.len() > 0 {
        ids_stay_distinct(s, us.drop_last());
        add_then_list(added_all(s, us.drop_last()), us.last());
    }
}

/// Two lists with no add between them return the same records: each is the
/// store's contents.
pub proof fn list_is_stable(store: &Store, first: Seq<User>, second: Seq<User>)
    requires
        views(first) == store@,
        views(second) == store@,
    ensures
        views(first) == views(second),
{
}

} // verus!
