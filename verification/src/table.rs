use vstd::prelude::*;
use crate::errors::DecodeFailure;
use crate::json::JsonValue;
use crate::text::str_eq;

verus! {

/// No name occurs twice in the list.
pub open spec fn distinct_names<V>(s: Seq<(Seq<char>, V)>) -> bool {
    forall|i: int, j: int|
        0 <= i < j < s.len() ==> (#[trigger] s[i]).0 != (#[trigger] s[j]).0
}

/// Entry `i` of the list has the given name.
pub open spec fn is_named<V>(s: Seq<(Seq<char>, V)>, name: Seq<char>, i: int) -> bool {
    0 <= i < s.len() && s[i].0 == name
}

/// The value that the list holds under the given name.
pub open spec fn lookup<V>(s: Seq<(Seq<char>, V)>, name: Seq<char>) -> Option<V> {
    if exists|i: int| is_named(s, name, i) {
        Some(s[choose|i: int| is_named(s, name, i)].1)
    } else {
        None
    }
}

/// The list with `value` under `name`: in the place of the value that the
/// list held under that name, or else at the end.
pub open spec fn put<V>(s: Seq<(Seq<char>, V)>, name: Seq<char>, value: V) -> Seq<
    (Seq<char>, V),
> {
    if exists|i: int| is_named(s, name, i) {
        s.update(choose|i: int| is_named(s, name, i), (name, value))
    } else {
        s.push((name, value))
    }
}

/// A name that no entry has is looked up in vain, and is put at the end.
pub proof fn lemma_unnamed<V>(s: Seq<(Seq<char>, V)>, name: Seq<char>, value: V)
    requires
        forall|i: int| 0 <= i < s.len() ==> (#[trigger] s[i]).0 != name,
    ensures
        lookup(s, name) is None,
        put(s, name, value) == s.push((name, value)),
        distinct_names(s) ==> distinct_names(put(s, name, value)),
{
    assert(!exists|i: int| is_named(s, name, i));
}

/// In a list without a name twice, the entry of a name is the only one
/// that is looked up and the one that is replaced.
pub proof fn lemma_named<V>(s: Seq<(Seq<char>, V)>, name: Seq<char>, value: V, i: int)
    requires
        distinct_names(s),
        is_named(s, name, i),
    ensures
        lookup(s, name) == Some(s[i].1),
        put(s, name, value) == s.update(i, (name, value)),
        distinct_names(put(s, name, value)),
{
    let k = choose|k: int| is_named(s, name, k);
    if k < i {
        assert(s[k].0 != s[i].0);
    } else if i < k {
        assert(s[i].0 != s[k].0);
    }
    let t = s.update(i, (name, value));
    assert forall|a: int, b: int| 0 <= a < b < t.len() implies (#[trigger] t[a]).0 != (
    #[trigger] t[b]).0 by {
        assert(s[a].0 != s[b].0);
    }
}

/// After `value` was put under `name`, it is what is found under `name`,
/// and what is found under any other name is what was found there before.
pub proof fn lemma_lookup_put<V>(
    s: Seq<(Seq<char>, V)>,
    name: Seq<char>,
    value: V,
    other: Seq<char>,
)
    requires
        distinct_names(s),
    ensures
        distinct_names(put(s, name, value)),
        lookup(put(s, name, value), name) == Some(value),
        other != name ==> lookup(put(s, name, value), other) == lookup(s, other),
{
    let t = put(s, name, value);
    if exists|i: int| is_named(s, name, i) {
        let i = choose|i: int| is_named(s, name, i);
        lemma_named(s, name, value, i);
        assert(is_named(t, name, i));
        lemma_named(t, name, value, i);
        if other != name {
            if exists|k: int| is_named(s, other, k) {
                let k = choose|k: int| is_named(s, other, k);
                lemma_named(s, other, value, k);
                assert(is_named(t, other, k));
                lemma_named(t, other, value, k);
            } else {
                assert forall|k: int| !is_named(t, other, k) by {
                    if is_named(t, other, k) {
                        assert(is_named(s, other, k));
                    }
                }
            }
        }
    } else {
        assert forall|i: int| 0 <= i < s.len() implies (#[trigger] s[i]).0 != name by {
            assert(!is_named(s, name, i));
        }
        lemma_unnamed(s, name, value);
        let last = s.len() as int;
        assert(is_named(t, name, last));
        lemma_named(t, name, value, last);
        if other != name {
            if exists|k: int| is_named(s, other, k) {
                let k = choose|k: int| is_named(s, other, k);
                lemma_named(s, other, value, k);
                assert(is_named(t, other, k));
                lemma_named(t, other, value, k);
            } else {
                assert forall|k: int| !is_named(t, other, k) by {
                    if is_named(t, other, k) {
                        assert(is_named(s, other, k));
                    }
                }
            }
        }
    }
}

/// Member `i` is the last member of the list that is named `name`.
pub open spec fn is_last_named(
    members: Seq<(Seq<char>, JsonValue)>,
    name: Seq<char>,
    i: int,
) -> bool {
    &&& 0 <= i < members.len()
    &&& members[i].0 == name
    &&& forall|j: int| i < j < members.len() ==> (#[trigger] members[j]).0 != name
}

/// The value of the last member of the list that is named `name`.
pub open spec fn last_named(members: Seq<(Seq<char>, JsonValue)>, name: Seq<char>) -> Option<
    JsonValue,
> {
    if exists|i: int| is_last_named(members, name, i) {
        Some(members[choose|i: int| is_last_named(members, name, i)].1)
    } else {
        None
    }
}

/// The table that the members of an object give: each member is read by
/// `read` and put under its name, one after the other. The first member
/// that cannot be read fails the whole table.
pub open spec fn table_of<V>(
    members: Seq<(Seq<char>, JsonValue)>,
    read: spec_fn(JsonValue) -> Result<V, DecodeFailure>,
) -> Result<Seq<(Seq<char>, V)>, DecodeFailure>
    decreases members.len(),
{
    if members.len() == 0 {
        Ok(Seq::empty())
    } else {
        match table_of(members.drop_last(), read) {
            Err(e) => Err(e),
            Ok(table) => match read(members.last().1) {
                Err(e) => Err(e),
                Ok(value) => Ok(put(table, members.last().0, value)),
            },
        }
    }
}

/// A table whose first members cannot be read cannot be read at all, and
/// fails as they do.
pub proof fn lemma_table_fails_on<V>(
    members: Seq<(Seq<char>, JsonValue)>,
    read: spec_fn(JsonValue) -> Result<V, DecodeFailure>,
    n: int,
)
    requires
        0 <= n <= members.len(),
        table_of(members.take(n), read) is Err,
    ensures
        table_of(members, read) == table_of(members.take(n), read),
    decreases members.len(),
{
    if n == members.len() {
        assert(members.take(n) =~= members);
    } else {
        assert(members.drop_last().take(n) =~= members.take(n));
        lemma_table_fails_on(members.drop_last(), read, n);
    }
}

/// The last member of a name is found at one place only.
pub proof fn lemma_last_named_is(members: Seq<(Seq<char>, JsonValue)>, name: Seq<char>, i: int)
    requires
        is_last_named(members, name, i),
    ensures
        last_named(members, name) == Some(members[i].1),
{
    let k = choose|k: int| is_last_named(members, name, k);
    if k < i {
        assert(members[i].0 != name);
    } else if i < k {
        assert(members[k].0 != name);
    }
}

/// A table is read exactly where each member can be read. Where one
/// cannot, the table fails as the first such member does.
pub proof fn lemma_table_is_read<V>(
    members: Seq<(Seq<char>, JsonValue)>,
    read: spec_fn(JsonValue) -> Result<V, DecodeFailure>,
)
    ensures
        table_of(members, read) is Ok <==> forall|i: int|
            0 <= i < members.len() ==> read((#[trigger] members[i]).1) is Ok,
        forall|k: int|
            0 <= k < members.len() && read((#[trigger] members[k]).1) is Err && (forall|i: int|
                0 <= i < k ==> read((#[trigger] members[i]).1) is Ok) ==> table_of(members, read)
                is Err && table_of(members, read)->Err_0 == read(members[k].1)->Err_0,
    decreases members.len(),
{
    if members.len() > 0 {
        let front = members.drop_last();
        let last = members.len() - 1;
        lemma_table_is_read(front, read);
        assert forall|i: int| 0 <= i < front.len() implies front[i] == members[i] by {}
        if table_of(front, read) is Ok {
            assert forall|i: int| 0 <= i < front.len() implies read(
                (#[trigger] members[i]).1,
            ) is Ok by {
                assert(read(front[i].1) is Ok);
            }
            if read(members[last].1) is Ok {
                assert forall|i: int| 0 <= i < members.len() implies read(
                    (#[trigger] members[i]).1,
                ) is Ok by {
                    if i < last {
                        assert(read(front[i].1) is Ok);
                    }
                }
            }
        } else {
            let bad = choose|i: int| 0 <= i < front.len() && !(read((#[trigger] front[i]).1) is Ok);
            assert(!(read(members[bad].1) is Ok));
        }
        assert forall|k: int|
            0 <= k < members.len() && read((#[trigger] members[k]).1) is Err && (forall|i: int|
                0 <= i < k ==> read((#[trigger] members[i]).1) is Ok) implies table_of(
            members,
            read,
        ) is Err && table_of(members, read)->Err_0 == read(members[k].1)->Err_0 by {
            if k < last {
                assert(read(front[k].1) is Err);
                assert forall|i: int| 0 <= i < k implies read((#[trigger] front[i]).1) is Ok by {
                    assert(read(members[i].1) is Ok);
                }
            } else {
                assert forall|i: int| 0 <= i < front.len() implies read(
                    (#[trigger] front[i]).1,
                ) is Ok by {
                    assert(read(members[i].1) is Ok);
                }
            }
        }
    }
}

/// In a table that was read, no name occurs twice, and under each name
/// stands what the last member of that name gives.
pub proof fn lemma_table_holds_last<V>(
    members: Seq<(Seq<char>, JsonValue)>,
    read: spec_fn(JsonValue) -> Result<V, DecodeFailure>,
    name: Seq<char>,
)
    requires
        table_of(members, read) is Ok,
    ensures
        distinct_names(table_of(members, read)->Ok_0),
        lookup(table_of(members, read)->Ok_0, name) == match last_named(members, name) {
            Some(j) => Some(read(j)->Ok_0),
            None => None,
        },
    decreases members.len(),
{
    if members.len() == 0 {
        let empty = Seq::<(Seq<char>, V)>::empty();
        assert(!exists|i: int| is_named(empty, name, i));
        assert(!exists|i: int| is_last_named(members, name, i));
    } else {
        let front = members.drop_last();
        let last = members.len() - 1;
        let table = table_of(front, read)->Ok_0;
        let value = read(members[last].1)->Ok_0;
        lemma_table_holds_last(front, read, name);
        lemma_lookup_put(table, members[last].0, value, name);
        if members[last].0 == name {
            lemma_last_named_is(members, name, last);
        } else if exists|i: int| is_last_named(front, name, i) {
            let i = choose|i: int| is_last_named(front, name, i);
            assert forall|j: int| i < j < members.len() implies (#[trigger] members[j]).0
                != name by {
                if j < last {
                    assert(front[j].0 != name);
                }
            }
            assert(members[i] == front[i]);
            lemma_last_named_is(members, name, i);
        } else {
            assert forall|i: int| !is_last_named(members, name, i) by {
                if is_last_named(members, name, i) {
                    assert forall|j: int| i < j < front.len() implies (#[trigger] front[j]).0
                        != name by {
                        assert(members[j].0 != name);
                    }
                    assert(front[i] == members[i]);
                    assert(is_last_named(front, name, i));
                }
            }
        }
    }
}

/// Values under names, such as the latest trade of each symbol. A name has
/// one value; entries stand in the order in which their names came first.
#[derive(Debug)]
pub struct SymbolTable<T: View> {
    entries: Vec<(String, T)>,
}

impl<T: View> Default for SymbolTable<T> {
    fn default() -> (r: Self)
        ensures
            r@ == Seq::<(Seq<char>, T::V)>::empty(),
    {
        SymbolTable::new()
    }
}

impl<T: View + Clone> Clone for SymbolTable<T> {
    fn clone(&self) -> (r: Self)
        ensures
            r@.len() == self@.len(),
            forall|i: int| 0 <= i < self@.len() ==> (#[trigger] r@[i]).0 == self@[i].0,
    {
        proof {
            use_type_invariant(self);
        }
        let mut entries: Vec<(String, T)> = Vec::new();
        let mut i: usize = 0;
        while i < self.entries.len()
            invariant
                i <= self.entries.len(),
                entries.len() == i,
                forall|k: int| 0 <= k < i ==> (#[trigger] entries@[k]).0@ == self.entries@[k].0@,
            decreases self.entries.len() - i,
        {
            let name = self.entries[i].0.clone();
            let value = self.entries[i].1.clone();
            entries.push((name, value));
            i += 1;
        }
        let ghost copy = Seq::new(entries.len() as nat, |i: int| (entries[i].0@, entries[i].1@));
        assert forall|a: int, b: int| 0 <= a < b < copy.len() implies (#[trigger] copy[a]).0 != (
        #[trigger] copy[b]).0 by {
            assert(self@[a].0 != self@[b].0);
        }
        SymbolTable { entries }
    }
}

impl<T: View> View for SymbolTable<T> {
    type V = Seq<(Seq<char>, T::V)>;

    closed spec fn view(&self) -> Seq<(Seq<char>, T::V)> {
        Seq::new(self.entries.len() as nat, |i: int| (self.entries[i].0@, self.entries[i].1@))
    }
}

impl<T: View> SymbolTable<T> {
    #[verifier::type_invariant]
    spec fn well_formed(self) -> bool {
        distinct_names(self@)
    }

    /// The table without an entry.
    pub fn new() -> (r: Self)
        ensures
            r@ == Seq::<(Seq<char>, T::V)>::empty(),
    {
        let r = SymbolTable { entries: Vec::new() };
        assert(r@ =~= Seq::<(Seq<char>, T::V)>::empty());
        r
    }

    /// The number of entries. No two of them have the same name.
    pub fn len(&self) -> (r: usize)
        ensures
            r == self@.len(),
            distinct_names(self@),
    {
        proof {
            use_type_invariant(self);
        }
        self.entries.len()
    }

    /// The name of entry `i`.
    pub fn name_at(&self, i: usize) -> (r: &str)
        requires
            i < self@.len(),
        ensures
            r@ == self@[i as int].0,
    {
        self.entries[i].0.as_str()
    }

    /// The value of entry `i`.
    pub fn value_at(&self, i: usize) -> (r: &T)
        requires
            i < self@.len(),
        ensures
            r@ == self@[i as int].1,
    {
        &self.entries[i].1
    }

    /// Where the entry of the given name stands.
    fn position(&self, name: &str) -> (r: Option<usize>)
        ensures
            match r {
                Some(i) => is_named(self@, name@, i as int),
                None => forall|i: int| 0 <= i < self@.len() ==> (#[trigger] self@[i]).0 != name@,
            },
    {
        let mut i: usize = 0;
        while i < self.entries.len()
            invariant
                i <= self.entries.len(),
                self@.len() == self.entries.len(),
                forall|k: int| 0 <= k < i ==> (#[trigger] self@[k]).0 != name@,
            decreases self.entries.len() - i,
        {
            if str_eq(self.entries[i].0.as_str(), name) {
                return Some(i);
            }
            i += 1;
        }
        None
    }

    /// The value under the given name.
    pub fn get(&self, name: &str) -> (r: Option<&T>)
        ensures
            match r {
                Some(v) => lookup(self@, name@) == Some(v@),
                None => lookup(self@, name@) is None,
            },
    {
        proof {
            use_type_invariant(self);
        }
        match self.position(name) {
            Some(i) => {
                proof {
                    lemma_named(self@, name@, self@[i as int].1, i as int);
                }
                Some(&self.entries[i].1)
            },
            None => {
                proof {
                    if self@.len() > 0 {
                        lemma_unnamed(self@, name@, self@[0].1);
                    } else {
                        assert(!exists|i: int| is_named(self@, name@, i));
                    }
                }
                None
            },
        }
    }

    /// The table with `value` under `name`, in the place of the value that
    /// was there.
    pub fn insert(self, name: String, value: T) -> (r: Self)
        ensures
            r@ == put(self@, name@, value@),
    {
        proof {
            use_type_invariant(&self);
        }
        let ghost before = self@;
        let found = self.position(name.as_str());
        let mut entries = self.entries;
        assert(before =~= Seq::new(entries.len() as nat, |i: int| (entries[i].0@, entries[i].1@)));
        match found {
            Some(i) => {
                proof {
                    lemma_named(before, name@, value@, i as int);
                }
                entries.set(i, (name, value));
            },
            None => {
                proof {
                    lemma_unnamed(before, name@, value@);
                }
                entries.push((name, value));
            },
        }
        let ghost after = Seq::new(
            entries.len() as nat,
            |i: int| (entries[i].0@, entries[i].1@),
        );
        assert(after =~= put(before, name@, value@));
        assert(distinct_names(after));
        let r = SymbolTable { entries };
        assert(r@ =~= after);
        r
    }
}

} // verus!
