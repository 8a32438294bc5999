use vstd::prelude::*;

verus! {

/// An entry of a table keyed by a name: the name it is stored under, and the
/// value it stands for.
pub trait Keyed {
    type Mapped;

    /// The name the entry is stored under.
    spec fn key_of(&self) -> Seq<char>;

    /// What the entry stands for in the table's map.
    spec fn value_of(&self) -> Self::Mapped;

    /// The name the entry is stored under.
    fn key(&self) -> (r: &String)
        ensures
            r@ == self.key_of(),
    ;
}

/// No two entries of `s` share a key.
pub open spec fn unique_keys<A: Keyed>(s: Seq<A>) -> bool {
    forall|i: int, j: int| 0 <= i < j < s.len() ==> s[i].key_of() != s[j].key_of()
}

/// The entries of `s` as a map from key to value.
pub open spec fn keyed_map<A: Keyed>(s: Seq<A>) -> Map<Seq<char>, A::Mapped> {
    Map::new(
        |k: Seq<char>| exists|i: int| 0 <= i < s.len() && s[i].key_of() == k,
        |k: Seq<char>| s[choose|i: int| 0 <= i < s.len() && s[i].key_of() == k].value_of(),
    )
}

pub proof fn lemma_keyed_map_at<A: Keyed>(s: Seq<A>, i: int)
    requires
        unique_keys(s),
        0 <= i < s.len(),
    ensures
        keyed_map(s).contains_key(s[i].key_of()),
        keyed_map(s)[s[i].key_of()] == s[i].value_of(),
{
    let k = s[i].key_of();
    assert(exists|j: int| 0 <= j < s.len() && s[j].key_of() == k);
    let j = choose|j: int| 0 <= j < s.len() && s[j].key_of() == k;
    if j < i {
        assert(s[j].key_of() != s[i].key_of());
    } else if i < j {
        assert(s[i].key_of() != s[j].key_of());
    }
}

pub proof fn lemma_keyed_map_push<A: Keyed>(s: Seq<A>, e: A)
    requires
        unique_keys(s),
        !keyed_map(s).contains_key(e.key_of()),
    ensures
        unique_keys(s.push(e)),
        keyed_map(s.push(e)) == keyed_map(s).insert(e.key_of(), e.value_of()),
{
    let t = s.push(e);
    assert forall|i: int| 0 <= i < s.len() implies s[i].key_of() != e.key_of() by {
        if s[i].key_of() == e.key_of() {
            assert(keyed_map(s).contains_key(e.key_of()));
        }
    }
    assert(unique_keys(t));
    assert forall|k: Seq<char>| #[trigger] keyed_map(t).contains_key(k) implies keyed_map(
        s,
    ).insert(e.key_of(), e.value_of()).contains_key(k) by {
        let j = choose|j: int| 0 <= j < t.len() && t[j].key_of() == k;
        if j < s.len() {
            assert(s[j].key_of() == k);
        }
    }
    assert forall|k: Seq<char>| #[trigger]
        keyed_map(s).insert(e.key_of(), e.value_of()).contains_key(k) implies keyed_map(
        t,
    ).contains_key(k) && keyed_map(t)[k] == keyed_map(s).insert(e.key_of(), e.value_of())[k] by {
        if k == e.key_of() {
            lemma_keyed_map_at(t, s.len() as int);
        } else {
            let j = choose|j: int| 0 <= j < s.len() && s[j].key_of() == k;
            lemma_keyed_map_at(s, j);
            assert(t[j] == s[j]);
            lemma_keyed_map_at(t, j);
        }
    }
    assert(keyed_map(t) =~= keyed_map(s).insert(e.key_of(), e.value_of()));
}

pub proof fn lemma_keyed_map_remove<A: Keyed>(s: Seq<A>, i: int)
    requires
        unique_keys(s),
        0 <= i < s.len(),
    ensures
        unique_keys(s.remove(i)),
        keyed_map(s.remove(i)) == keyed_map(s).remove(s[i].key_of()),
{
    let t = s.remove(i);
    let n = s[i].key_of();
    assert forall|a: int, b: int| 0 <= a < b < t.len() implies t[a].key_of() != t[b].key_of() by {
        let a2 = if a < i { a } else { a + 1 };
        let b2 = if b < i { b } else { b + 1 };
        assert(t[a] == s[a2] && t[b] == s[b2]);
    }
    assert forall|k: Seq<char>| #[trigger] keyed_map(t).contains_key(k) implies keyed_map(
        s,
    ).remove(n).contains_key(k) && keyed_map(t)[k] == keyed_map(s).remove(n)[k] by {
        let j = choose|j: int| 0 <= j < t.len() && t[j].key_of() == k;
        let j2 = if j < i { j } else { j + 1 };
        assert(t[j] == s[j2]);
        lemma_keyed_map_at(s, j2);
        lemma_keyed_map_at(t, j);
        if j2 < i {
            assert(s[j2].key_of() != s[i].key_of());
        } else {
            assert(s[i].key_of() != s[j2].key_of());
        }
    }
    assert forall|k: Seq<char>| #[trigger]
        keyed_map(s).remove(n).contains_key(k) implies keyed_map(t).contains_key(k) by {
        let j = choose|j: int| 0 <= j < s.len() && s[j].key_of() == k;
        if j < i {
            assert(t[j] == s[j]);
        } else {
            assert(j != i);
            assert(t[j - 1] == s[j]);
        }
    }
    assert(keyed_map(t) =~= keyed_map(s).remove(n));
}

pub proof fn lemma_keyed_map_update<A: Keyed>(s: Seq<A>, i: int, e: A)
    requires
        unique_keys(s),
        0 <= i < s.len(),
        e.key_of() == s[i].key_of(),
    ensures
        unique_keys(s.update(i, e)),
        keyed_map(s.update(i, e)) == keyed_map(s).insert(e.key_of(), e.value_of()),
{
    let t = s.update(i, e);
    assert forall|a: int, b: int| 0 <= a < b < t.len() implies t[a].key_of() != t[b].key_of() by {
        assert(t[a].key_of() == s[a].key_of() && t[b].key_of() == s[b].key_of());
    }
    assert forall|k: Seq<char>| #[trigger] keyed_map(t).contains_key(k) implies keyed_map(
        s,
    ).insert(e.key_of(), e.value_of()).contains_key(k) && keyed_map(t)[k] == keyed_map(s).insert(
        e.key_of(),
        e.value_of(),
    )[k] by {
        let j = choose|j: int| 0 <= j < t.len() && t[j].key_of() == k;
        lemma_keyed_map_at(t, j);
        if j != i {
            assert(t[j] == s[j]);
            lemma_keyed_map_at(s, j);
        }
    }
    assert forall|k: Seq<char>| #[trigger]
        keyed_map(s).insert(e.key_of(), e.value_of()).contains_key(k) implies keyed_map(
        t,
    ).contains_key(k) by {
        if k != e.key_of() {
            let j = choose|j: int| 0 <= j < s.len() && s[j].key_of() == k;
            assert(t[j].key_of() == s[j].key_of());
        } else {
            assert(t[i].key_of() == k);
        }
    }
    assert(keyed_map(t) =~= keyed_map(s).insert(e.key_of(), e.value_of()));
}

/// The index in `entries` of the one whose key is `key`.
pub fn position_of_key<A: Keyed>(entries: &Vec<A>, key: &str) -> (r: Option<usize>)
    ensures
        match r {
            Some(i) => i < entries@.len() && entries@[i as int].key_of() == key@,
            None => forall|j: int| 0 <= j < entries@.len() ==> entries@[j].key_of() != key@,
        },
{
    let wanted = String::from_str(key);
    let mut i: usize = 0;
    while i < entries.len()
        invariant
            i <= entries@.len(),
            wanted@ == key@,
            forall|j: int| 0 <= j < i ==> entries@[j].key_of() != key@,
        decreases entries@.len() - i,
    {
        if *entries[i].key() == wanted {
            return Some(i);
        }
        i = i + 1;
    }
    None
}

} // verus!
