//! Names: sets and maps of strings, and the identifiers that are handed out for them.
use crate::text::{
    chars_of, decimal, law_decimals_differ, lemma_decimal_not_empty, lemma_digits, same, to_decimal,
};
use vstd::multiset::Multiset;
use vstd::prelude::*;

verus! {

/// Whether `a` comes before `b` where strings are ordered by their characters.
pub open spec fn precedes(a: Seq<char>, b: Seq<char>) -> bool
    decreases a.len(),
{
    if b.len() == 0 {
        false
    } else if a.len() == 0 {
        true
    } else if a[0] != b[0] {
        a[0] < b[0]
    } else {
        precedes(a.skip(1), b.skip(1))
    }
}

/// Whether each name in `names` comes before all that follow it.
pub open spec fn ascending(names: Seq<Seq<char>>) -> bool {
    forall|i: int, j: int| 0 <= i < j < names.len() ==> precedes(names[i], names[j])
}

/// The names of a set, in ascending order.
pub open spec fn in_order(names: Set<Seq<char>>) -> Seq<Seq<char>> {
    choose|list: Seq<Seq<char>>| ascending(list) && #[trigger] list.to_set() == names
}

proof fn lemma_precedes_irreflexive(a: Seq<char>)
    ensures
        !precedes(a, a),
    decreases a.len(),
{
    if a.len() > 0 {
        lemma_precedes_irreflexive(a.skip(1));
    }
}

proof fn lemma_precedes_transitive(a: Seq<char>, b: Seq<char>, c: Seq<char>)
    requires
        precedes(a, b),
        precedes(b, c),
    ensures
        precedes(a, c),
    decreases a.len(),
{
    if a.len() > 0 && a[0] == b[0] && b[0] == c[0] {
        lemma_precedes_transitive(a.skip(1), b.skip(1), c.skip(1));
    }
}

proof fn lemma_precedes_total(a: Seq<char>, b: Seq<char>)
    ensures
        a == b || precedes(a, b) || precedes(b, a),
    decreases a.len(),
{
    if a.len() == 0 || b.len() == 0 {
        if a.len() == 0 && b.len() == 0 {
            assert(a == b);
        }
    } else if a[0] == b[0] {
        lemma_precedes_total(a.skip(1), b.skip(1));
        if a.skip(1) == b.skip(1) {
            assert(a == seq![a[0]] + a.skip(1));
            assert(b == seq![b[0]] + b.skip(1));
        }
    }
}

/// A set of names is listed in ascending order in one way only.
pub proof fn lemma_in_order(list: Seq<Seq<char>>)
    requires
        ascending(list),
    ensures
        in_order(list.to_set()) == list,
{
    let other = in_order(list.to_set());
    assert(ascending(list) && list.to_set() == list.to_set());
    lemma_ascending_unique(list, other);
}

proof fn lemma_ascending_unique(a: Seq<Seq<char>>, b: Seq<Seq<char>>)
    requires
        ascending(a),
        ascending(b),
        a.to_set() == b.to_set(),
    ensures
        a == b,
    decreases a.len(),
{
    if a.len() == 0 {
        if b.len() > 0 {
            assert(b.to_set().contains(b[0]));
            assert(a.to_set().contains(b[0]));
        }
        assert(a == b);
    } else {
        assert(a.to_set().contains(a[0]));
        assert(b.to_set().contains(a[0]));
        let i = choose|i: int| 0 <= i < b.len() && b[i] == a[0];
        assert(b.to_set().contains(b[0]));
        assert(a.to_set().contains(b[0]));
        let j = choose|j: int| 0 <= j < a.len() && a[j] == b[0];
        if i > 0 {
            assert(precedes(b[0], a[0]));
            if j > 0 {
                assert(precedes(a[0], b[0]));
                lemma_precedes_transitive(a[0], b[0], a[0]);
            }
            lemma_precedes_irreflexive(a[0]);
        }
        assert(a[0] == b[0]);
        let ra = a.skip(1);
        let rb = b.skip(1);
        assert forall|x: Seq<char>| ra.to_set().contains(x) == rb.to_set().contains(x) by {
            lemma_rest(a, b, x);
            lemma_rest(b, a, x);
        }
        assert(ra.to_set() =~= rb.to_set());
        lemma_ascending_unique(ra, rb);
        assert(a == seq![a[0]] + ra);
        assert(b == seq![b[0]] + rb);
    }
}

proof fn lemma_rest(a: Seq<Seq<char>>, b: Seq<Seq<char>>, x: Seq<char>)
    requires
        ascending(a),
        a.to_set() == b.to_set(),
        a.len() > 0,
        b.len() > 0,
        a[0] == b[0],
    ensures
        a.skip(1).contains(x) ==> b.skip(1).contains(x),
{
    if a.skip(1).contains(x) {
        let k = choose|k: int| 0 <= k < a.skip(1).len() && a.skip(1)[k] == x;
        assert(a[k + 1] == x);
        assert(precedes(a[0], x));
        lemma_precedes_irreflexive(x);
        assert(a.to_set().contains(x));
        assert(b.to_set().contains(x));
        let m = choose|m: int| 0 <= m < b.len() && b[m] == x;
        assert(b.skip(1)[m - 1] == x);
    }
}

/// The names of a finite set can be listed in ascending order.
proof fn lemma_listed(names: Set<Seq<char>>) -> (list: Seq<Seq<char>>)
    requires
        names.finite(),
    ensures
        ascending(list),
        list.to_set() == names,
    decreases names.len(),
{
    if names.len() == 0 {
        let list = Seq::<Seq<char>>::empty();
        assert(list.to_set() =~= names);
        list
    } else {
        let name = names.choose();
        let rest = lemma_listed(names.remove(name));
        let list = lemma_placed(rest, name);
        assert(list.to_set() =~= names);
        list
    }
}

/// A name has a place in an ascending list.
proof fn lemma_placed(list: Seq<Seq<char>>, name: Seq<char>) -> (r: Seq<Seq<char>>)
    requires
        ascending(list),
        !list.to_set().contains(name),
    ensures
        ascending(r),
        forall|x: Seq<char>| #[trigger]
            r.to_set().contains(x) <==> x == name || list.to_set().contains(x),
    decreases list.len(),
{
    if list.len() == 0 {
        let r = seq![name];
        assert(r[0] == name);
        assert forall|x: Seq<char>| #[trigger] r.to_set().contains(x) <==> x == name
            || list.to_set().contains(x) by {
            assert(r.to_set().contains(x) == r.contains(x));
            assert(list.to_set().contains(x) == list.contains(x));
        }
        r
    } else {
        let rest = list.skip(1);
        assert(list.to_set().contains(list[0]));
        assert forall|x: Seq<char>| rest.contains(x) implies list.contains(x) by {
            let k = choose|k: int| 0 <= k < rest.len() && rest[k] == x;
            assert(list[k + 1] == x);
        }
        assert forall|x: Seq<char>| list.contains(x) implies x == list[0] || rest.contains(x) by {
            let k = choose|k: int| 0 <= k < list.len() && list[k] == x;
            if k > 0 {
                assert(rest[k - 1] == x);
            }
        }
        lemma_precedes_total(name, list[0]);
        let (first, others) = if precedes(name, list[0]) {
            (name, list)
        } else {
            (list[0], lemma_placed(rest, name))
        };
        let r = seq![first] + others;
        assert forall|x: Seq<char>| #[trigger] others.contains(x) implies precedes(first, x) by {
            if precedes(name, list[0]) {
                let k = choose|k: int| 0 <= k < list.len() && list[k] == x;
                if k > 0 {
                    lemma_precedes_transitive(name, list[0], x);
                }
            } else {
                assert(others.to_set().contains(x));
                if x != name {
                    let k = choose|k: int| 0 <= k < rest.len() && rest[k] == x;
                    assert(list[k + 1] == x);
                }
            }
        }
        assert forall|i: int, j: int| 0 <= i < j < r.len() implies precedes(r[i], r[j]) by {
            assert(r[j] == others[j - 1]);
            if i == 0 {
                assert(others.contains(others[j - 1]));
            } else {
                assert(r[i] == others[i - 1]);
            }
        }
        assert forall|x: Seq<char>| #[trigger] r.to_set().contains(x) <==> x == name
            || list.to_set().contains(x) by {
            if r.contains(x) {
                let k = choose|k: int| 0 <= k < r.len() && r[k] == x;
                if k > 0 {
                    assert(others[k - 1] == x);
                    assert(others.to_set().contains(x));
                }
            }
            if x == first {
                assert(r[0] == x);
            }
            if others.contains(x) {
                let k = choose|k: int| 0 <= k < others.len() && others[k] == x;
                assert(r[k + 1] == x);
            }
            assert(others.to_set().contains(x) == others.contains(x));
        }
        r
    }
}

/// The names of a finite set stand in ascending order, each once, in their list.
pub proof fn law_in_order(names: Set<Seq<char>>)
    requires
        names.finite(),
    ensures
        ascending(in_order(names)),
        in_order(names).to_set() == names,
        in_order(names).no_duplicates(),
        names.is_empty() <==> in_order(names).len() == 0,
{
    let list = lemma_listed(names);
    assert(ascending(list) && list.to_set() == names);
    let order = in_order(names);
    assert forall|i: int, j: int| 0 <= i < j < order.len() implies order[i] != order[j] by {
        lemma_precedes_irreflexive(order[i]);
    }
    if order.len() > 0 {
        assert(order.to_set().contains(order[0]));
    } else {
        assert(order.to_set() =~= Set::<Seq<char>>::empty());
    }
}

/// Whether `a` comes before `b`.
fn before(a: &str, b: &str) -> (r: bool)
    ensures
        r == precedes(a@, b@),
{
    let x = chars_of(a);
    let y = chars_of(b);
    let mut i: usize = 0;
    assert(a@.skip(0) == a@);
    assert(b@.skip(0) == b@);
    while i < x.len() && i < y.len() && x[i] == y[i]
        invariant
            x@ == a@,
            y@ == b@,
            i <= x.len(),
            i <= y.len(),
            precedes(a@, b@) == precedes(a@.skip(i as int), b@.skip(i as int)),
        decreases x.len() - i,
    {
        assert(a@.skip(i as int).skip(1) == a@.skip(i as int + 1));
        assert(b@.skip(i as int).skip(1) == b@.skip(i as int + 1));
        i += 1;
    }
    if i >= y.len() {
        false
    } else if i >= x.len() {
        true
    } else {
        x[i] < y[i]
    }
}

/// A set of names.
pub struct NameSet {
    names: Vec<String>,
}

impl View for NameSet {
    type V = Set<Seq<char>>;

    closed spec fn view(&self) -> Set<Seq<char>> {
        self.names@.map_values(|name: String| name@).to_set()
    }
}

impl NameSet {
    /// The empty set.
    pub fn new() -> (r: NameSet)
        ensures
            r@ == Set::<Seq<char>>::empty(),
    {
        let r = NameSet { names: Vec::new() };
        assert(r@ == Set::<Seq<char>>::empty());
        r
    }

    /// Whether `name` is in the set.
    pub fn contains(&self, name: &str) -> (r: bool)
        ensures
            r == self@.contains(name@),
    {
        let mut i: usize = 0;
        let ghost names = self.names@.map_values(|name: String| name@);
        while i < self.names.len()
            invariant
                i <= self.names.len(),
                names == self.names@.map_values(|name: String| name@),
                forall|j: int| 0 <= j < i ==> names[j] != name@,
            decreases self.names.len() - i,
        {
            if same(self.names[i].as_str(), name) {
                assert(names[i as int] == name@);
                return true;
            }
            i += 1;
        }
        false
    }

    /// Puts `name` into the set, and says whether it was not there before.
    pub fn insert(&mut self, name: &str) -> (r: bool)
        ensures
            r == !old(self)@.contains(name@),
            final(self)@ == old(self)@.insert(name@),
    {
        if self.contains(name) {
            assert(self@.insert(name@) == self@);
            return false;
        }
        let ghost names = self.names@.map_values(|name: String| name@);
        self.names.push(name.to_string());
        proof {
            let after = self.names@.map_values(|name: String| name@);
            assert(after == names.push(name@));
            assert forall|x: Seq<char>| after.contains(x) == (names.contains(x) || x == name@) by {
                if names.contains(x) {
                    let k = choose|k: int| 0 <= k < names.len() && names[k] == x;
                    assert(after[k] == x);
                }
                if x == name@ {
                    assert(after[names.len() as int] == x);
                }
            }
            assert(self@ =~= old(self)@.insert(name@));
        }
        true
    }
}

/// The names that identifiers were asked for, and how often.
pub struct UsedNames {
    uses: Vec<String>,
}

impl View for UsedNames {
    type V = Multiset<Seq<char>>;

    closed spec fn view(&self) -> Multiset<Seq<char>> {
        self.uses@.map_values(|name: String| name@).to_multiset()
    }
}

impl UsedNames {
    /// No name was used yet.
    pub fn new() -> (r: UsedNames)
        ensures
            r@ == Multiset::<Seq<char>>::empty(),
    {
        let r = UsedNames { uses: Vec::new() };
        proof {
            broadcast use vstd::seq_lib::group_to_multiset_ensures;
            let names = r.uses@.map_values(|name: String| name@);
            assert(names.to_multiset().len() == 0);
            assert(r@ =~= Multiset::<Seq<char>>::empty());
        }
        r
    }

    /// How often `name` was used.
    pub fn count(&self, name: &str) -> (r: usize)
        ensures
            r == self@.count(name@),
    {
        let ghost names = self.uses@.map_values(|name: String| name@);
        let mut n: usize = 0;
        let mut i: usize = 0;
        proof {
            broadcast use vstd::seq_lib::group_to_multiset_ensures;
            assert(names.take(0).to_multiset().len() == 0);
        }
        while i < self.uses.len()
            invariant
                i <= self.uses.len(),
                names == self.uses@.map_values(|name: String| name@),
                n <= i,
                n == names.take(i as int).to_multiset().count(name@),
            decreases self.uses.len() - i,
        {
            proof {
                broadcast use vstd::seq_lib::group_to_multiset_ensures;
                assert(names.take(i as int + 1) == names.take(i as int).push(names[i as int]));
            }
            if same(self.uses[i].as_str(), name) {
                n += 1;
            }
            i += 1;
        }
        assert(names.take(names.len() as int) == names);
        n
    }

    /// Counts one more use of `name`, and says how often it was used by now.
    fn add_use(&mut self, name: &str) -> (r: usize)
        ensures
            final(self)@ == old(self)@.insert(name@),
            r == old(self)@.count(name@) + 1,
    {
        let ghost names = self.uses@.map_values(|name: String| name@);
        self.uses.push(name.to_string());
        proof {
            broadcast use vstd::seq_lib::group_to_multiset_ensures;
            assert(self.uses@.map_values(|name: String| name@) == names.push(name@));
        }
        self.count(name)
    }
}

/// The identifier for `name` where `used` tells which names were asked for before.
///
/// The name itself the first time, then the name with a number behind it. `default` is no name
/// that a definition can have, so it gets its number at once.
pub open spec fn identifier(used: Multiset<Seq<char>>, name: Seq<char>) -> Seq<char> {
    if used.count(name) == 0 && name != "default"@ {
        name
    } else {
        name + decimal(used.count(name) + 1)
    }
}

/// Hands out an identifier for `name`.
pub fn generate_identifier(name: &str, used_names: &mut UsedNames) -> (r: String)
    ensures
        r@ == identifier(old(used_names)@, name@),
        final(used_names)@ == old(used_names)@.insert(name@),
{
    let count = used_names.add_use(name);
    // `default` is mangled at once: `import { default } from './module';` is no valid glue.
    if count == 1 && !same(name, "default") {
        name.to_string()
    } else {
        let mut r = name.to_string();
        r.append(to_decimal(count as u64).as_str());
        r
    }
}

/// Two identifiers for the same name differ where they are handed out at different times.
pub proof fn law_identifiers_differ(
    earlier: Multiset<Seq<char>>,
    later: Multiset<Seq<char>>,
    name: Seq<char>,
)
    requires
        earlier.insert(name).subset_of(later),
    ensures
        identifier(earlier, name) != identifier(later, name),
{
    let (m, n) = (earlier.count(name), later.count(name));
    assert(earlier.insert(name).count(name) == m + 1);
    assert(m < n);
    let (first, second) = (identifier(earlier, name), identifier(later, name));
    assert(second == name + decimal(n + 1));
    lemma_decimal_not_empty(n + 1);
    if first == second {
        assert(first.len() > name.len());
        assert(first == name + decimal(m + 1));
        assert(first.skip(name.len() as int) =~= decimal(m + 1));
        assert(second.skip(name.len() as int) =~= decimal(n + 1));
        law_decimals_differ(m + 1, n + 1);
    }
}

/// `default`, which no definition can be called, is never handed out, whatever the name.
pub proof fn law_default_is_mangled(used: Multiset<Seq<char>>, name: Seq<char>)
    ensures
        identifier(used, name) != "default"@,
{
    let number = decimal(used.count(name) + 1);
    lemma_digits(used.count(name) + 1);
    reveal_strlit("default");
    assert('0' <= number[number.len() - 1] <= '9');
    assert((name + number).last() == number[number.len() - 1]);
    assert("default"@.last() == 't');
}

/// The names of some entries.
pub open spec fn names_of<V>(entries: Seq<(String, V)>) -> Seq<Seq<char>> {
    entries.map_values(|entry: (String, V)| entry.0@)
}

/// The map that some entries stand for.
pub open spec fn map_of<V>(entries: Seq<(String, V)>) -> Map<Seq<char>, V> {
    Map::new(
        |name: Seq<char>| names_of(entries).contains(name),
        |name: Seq<char>| entries[names_of(entries).index_of(name)].1,
    )
}

proof fn lemma_map_at<V>(entries: Seq<(String, V)>, i: int)
    requires
        ascending(names_of(entries)),
        0 <= i < entries.len(),
    ensures
        names_of(entries)[i] == entries[i].0@,
        names_of(entries).index_of(entries[i].0@) == i,
        map_of(entries).contains_key(entries[i].0@),
        map_of(entries)[entries[i].0@] == entries[i].1,
{
    let names = names_of(entries);
    let name = names[i];
    let k = names.index_of(name);
    assert(names.contains(name));
    assert(0 <= k < names.len() && names[k] == name);
    if k < i {
        assert(precedes(names[k], names[i]));
    } else if i < k {
        assert(precedes(names[i], names[k]));
    }
    lemma_precedes_irreflexive(name);
}

/// `i` is the first place of `entries` whose name does not come before `name`.
spec fn is_place<V>(entries: Seq<(String, V)>, name: Seq<char>, i: int) -> bool {
    &&& 0 <= i <= entries.len()
    &&& forall|j: int| 0 <= j < i ==> precedes(#[trigger] names_of(entries)[j], name)
    &&& i < entries.len() ==> !precedes(names_of(entries)[i], name)
}

proof fn lemma_place<V>(entries: Seq<(String, V)>, name: Seq<char>, i: int)
    requires
        ascending(names_of(entries)),
        is_place(entries, name, i),
    ensures
        map_of(entries).contains_key(name) == (i < entries.len() && entries[i].0@ == name),
        map_of(entries).contains_key(name) ==> map_of(entries)[name] == entries[i].1,
        !map_of(entries).contains_key(name) ==> forall|j: int|
            i <= j < entries.len() ==> precedes(name, #[trigger] names_of(entries)[j]),
{
    let names = names_of(entries);
    if i < entries.len() {
        lemma_map_at(entries, i);
        if names[i] != name {
            lemma_precedes_total(names[i], name);
            assert forall|j: int| i <= j < entries.len() implies precedes(
                name,
                #[trigger] names[j],
            ) by {
                if j > i {
                    lemma_precedes_transitive(name, names[i], names[j]);
                }
            }
        }
    }
    if map_of(entries).contains_key(name) {
        let k = names.index_of(name);
        assert(names[k] == name);
        lemma_precedes_irreflexive(name);
        assert(i < entries.len() && entries[i].0@ == name) by {
            if i < entries.len() && names[i] != name {
                lemma_precedes_total(names[i], name);
                assert(precedes(name, names[k]));
            }
        }
    }
}

/// Entries stay in order where one is put in its place.
proof fn lemma_insert<V>(entries: Seq<(String, V)>, i: int, entry: (String, V))
    requires
        ascending(names_of(entries)),
        is_place(entries, entry.0@, i),
        !map_of(entries).contains_key(entry.0@),
    ensures
        ascending(names_of(entries.insert(i, entry))),
        map_of(entries.insert(i, entry)) == map_of(entries).insert(entry.0@, entry.1),
{
    let name = entry.0@;
    let after = entries.insert(i, entry);
    let old_names = names_of(entries);
    let names = names_of(after);
    lemma_place(entries, name, i);
    assert forall|a: int, b: int| 0 <= a < b < names.len() implies precedes(names[a], names[b]) by {
        if a < i {
            assert(names[a] == old_names[a]);
        } else if a > i {
            assert(names[a] == old_names[a - 1]);
        }
        if b < i {
            assert(names[b] == old_names[b]);
        } else if b > i {
            assert(names[b] == old_names[b - 1]);
        }
    }
    let expected = map_of(entries).insert(name, entry.1);
    assert forall|x: Seq<char>| #[trigger] map_of(after).contains_key(x) implies expected.contains_key(
        x,
    ) && map_of(after)[x] == expected[x] by {
        let k = names.index_of(x);
        assert(0 <= k < names.len() && names[k] == x);
        lemma_map_at(after, k);
        if k < i {
            assert(after[k] == entries[k]);
            lemma_map_at(entries, k);
            lemma_precedes_irreflexive(x);
        } else if k > i {
            assert(after[k] == entries[k - 1]);
            lemma_map_at(entries, k - 1);
            assert(precedes(name, old_names[k - 1]));
            lemma_precedes_irreflexive(x);
        }
    }
    assert forall|x: Seq<char>| #[trigger] expected.contains_key(x) implies map_of(
        after,
    ).contains_key(x) by {
        if x == name {
            lemma_map_at(after, i);
        } else {
            let k = old_names.index_of(x);
            assert(0 <= k < old_names.len() && old_names[k] == x);
            if k < i {
                assert(after[k] == entries[k]);
                lemma_map_at(after, k);
            } else {
                assert(after[k + 1] == entries[k]);
                lemma_map_at(after, k + 1);
            }
        }
    }
    assert(map_of(after) =~= expected);
}

/// A change of the value in one place changes the map for that name alone.
proof fn lemma_update<V>(entries: Seq<(String, V)>, i: int, value: V)
    requires
        ascending(names_of(entries)),
        0 <= i < entries.len(),
    ensures
        names_of(entries.update(i, (entries[i].0, value))) == names_of(entries),
        map_of(entries.update(i, (entries[i].0, value))) == map_of(entries).insert(
            entries[i].0@,
            value,
        ),
{
    let after = entries.update(i, (entries[i].0, value));
    assert(names_of(after) == names_of(entries));
    lemma_map_at(after, i);
    assert forall|x: Seq<char>| #[trigger] map_of(after).contains_key(x) && x != entries[i].0@ implies map_of(
        after,
    )[x] == map_of(entries)[x] by {
        let k = names_of(entries).index_of(x);
        assert(0 <= k < entries.len() && names_of(entries)[k] == x);
        lemma_map_at(after, k);
        lemma_map_at(entries, k);
    }
    assert(map_of(after) =~= map_of(entries).insert(entries[i].0@, value));
}

/// A map from names to values, kept in ascending order of the names.
pub struct NameMap<V> {
    entries: Vec<(String, V)>,
}

impl<V> View for NameMap<V> {
    type V = Map<Seq<char>, V>;

    closed spec fn view(&self) -> Map<Seq<char>, V> {
        map_of(self.entries@)
    }
}

impl<V> NameMap<V> {
    /// The names are in ascending order, so none occurs twice.
    pub closed spec fn wf(&self) -> bool {
        ascending(names_of(self.entries@))
    }

    /// The map without entries.
    pub fn new() -> (r: NameMap<V>)
        ensures
            r.wf(),
            r@ == Map::<Seq<char>, V>::empty(),
    {
        let r: NameMap<V> = NameMap { entries: Vec::new() };
        assert(r@ =~= Map::<Seq<char>, V>::empty());
        r
    }

    /// The first place whose name does not come before `name`.
    fn place(&self, name: &str) -> (r: usize)
        requires
            self.wf(),
        ensures
            is_place(self.entries@, name@, r as int),
    {
        let mut i: usize = 0;
        while i < self.entries.len() && before(self.entries[i].0.as_str(), name)
            invariant
                i <= self.entries.len(),
                forall|j: int|
                    0 <= j < i ==> precedes(#[trigger] names_of(self.entries@)[j], name@),
            decreases self.entries.len() - i,
        {
            i += 1;
        }
        i
    }

    /// The value for `name`, if there is one.
    pub fn get(&self, name: &str) -> (r: Option<&V>)
        requires
            self.wf(),
        ensures
            r == (if self@.contains_key(name@) {
                Some(&self@[name@])
            } else {
                None
            }),
    {
        let i = self.place(name);
        proof {
            lemma_place(self.entries@, name@, i as int);
        }
        if i < self.entries.len() && same(self.entries[i].0.as_str(), name) {
            Some(&self.entries[i].1)
        } else {
            None
        }
    }

    /// The value for `name`, to be changed in place; `value` is put there first where there was
    /// none.
    pub fn entry(&mut self, name: &str, value: V) -> (r: &mut V)
        requires
            old(self).wf(),
        ensures
            *r == (if old(self)@.contains_key(name@) {
                old(self)@[name@]
            } else {
                value
            }),
            final(self).wf(),
            final(self)@ == old(self)@.insert(name@, *final(r)),
    {
        let i = self.place(name);
        let ghost start = self.entries@;
        proof {
            lemma_place(start, name@, i as int);
        }
        if i >= self.entries.len() || !same(self.entries[i].0.as_str(), name) {
            let entry = (name.to_string(), value);
            proof {
                lemma_insert(start, i as int, entry);
            }
            self.entries.insert(i, entry);
        }
        let ghost mid = self.entries@;
        proof {
            assert forall|v: V|
                {
                    let end = #[trigger] mid.update(i as int, (mid[i as int].0, v));
                    ascending(names_of(end)) && map_of(end) == map_of(start).insert(name@, v)
                } by {
                lemma_update(mid, i as int, v);
                assert(map_of(mid).insert(name@, v) =~= map_of(start).insert(name@, v));
            }
            lemma_map_at(mid, i as int);
        }
        &mut self.entries[i].1
    }

    /// How many names the map has.
    pub fn len(&self) -> (r: usize)
        requires
            self.wf(),
        ensures
            r == in_order(self@.dom()).len(),
    {
        proof {
            self.lemma_order();
        }
        self.entries.len()
    }

    /// The names of the map, in ascending order, are those of the entries.
    proof fn lemma_order(&self)
        requires
            self.wf(),
        ensures
            in_order(self@.dom()) == names_of(self.entries@),
    {
        lemma_in_order(names_of(self.entries@));
        assert(self@.dom() =~= names_of(self.entries@).to_set());
    }

    /// A map has finitely many names.
    pub proof fn law_finite(&self)
        ensures
            self@.dom().finite(),
    {
        assert(self@.dom() =~= names_of(self.entries@).to_set());
    }

    /// The names of a map stand in ascending order, each once, in their list.
    pub proof fn law_order(&self)
        ensures
            ascending(in_order(self@.dom())),
            in_order(self@.dom()).to_set() == self@.dom(),
            in_order(self@.dom()).no_duplicates(),
    {
        self.law_finite();
        law_in_order(self@.dom());
    }

    /// The name in place `i` of the ascending order.
    pub fn name_at(&self, i: usize) -> (r: &str)
        requires
            self.wf(),
            i < in_order(self@.dom()).len(),
        ensures
            r@ == in_order(self@.dom())[i as int],
    {
        proof {
            self.lemma_order();
        }
        self.entries[i].0.as_str()
    }

    /// The value for the name in place `i` of the ascending order.
    pub fn value_at(&self, i: usize) -> (r: &V)
        requires
            self.wf(),
            i < in_order(self@.dom()).len(),
        ensures
            self@.contains_key(in_order(self@.dom())[i as int]),
            *r == self@[in_order(self@.dom())[i as int]],
    {
        proof {
            self.lemma_order();
            lemma_map_at(self.entries@, i as int);
        }
        &self.entries[i].1
    }
}

} // verus!
