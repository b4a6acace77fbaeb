//! The TOML document model that mob files are edited through.

use vstd::prelude::*;
use vstd::string::StringSliceAdditionalSpecFns;

verus! {

broadcast use vstd::std_specs::vec::group_vec_axioms;

/// Mathematical value of a document node.
pub enum TomlSpec {
    Str(Seq<char>),
    Int(i64),
    Float(u64),
    Bool(bool),
    Datetime(Seq<char>),
    Array(Seq<TomlSpec>),
    Table(Map<Seq<char>, TomlSpec>),
}

/// A TOML value.  Floating point numbers are held by their IEEE-754 bit pattern.
#[derive(Debug)]
pub enum TomlValue {
    String(String),
    Integer(i64),
    Float(u64),
    Boolean(bool),
    Datetime(String),
    Array(Vec<TomlValue>),
    Table(TomlTable),
}

/// A TOML table: a finite map from keys to values, each key at most once.
///
/// The table is the library's own rather than `toml::Table`: declared to Verus, an outside map
/// must reject recursive types, so it cannot hold a value type that nests tables again (Verus
/// refuses such a `TomlValue`). The entries are therefore kept in a list whose keys are unique.
#[derive(Debug)]
pub struct TomlTable {
    entries: Vec<(String, TomlValue)>,
}

/// The value a node stands for.
pub open spec fn value_view(v: TomlValue) -> TomlSpec
    decreases v,
{
    match v {
        TomlValue::String(s) => TomlSpec::Str(s@),
        TomlValue::Integer(i) => TomlSpec::Int(i),
        TomlValue::Float(b) => TomlSpec::Float(b),
        TomlValue::Boolean(b) => TomlSpec::Bool(b),
        TomlValue::Datetime(s) => TomlSpec::Datetime(s@),
        TomlValue::Array(items) => TomlSpec::Array(seq_view(items@)),
        TomlValue::Table(t) => TomlSpec::Table(t.map_view()),
    }
}

/// The values of a sequence of nodes.
pub open spec fn seq_view(s: Seq<TomlValue>) -> Seq<TomlSpec>
    decreases s,
{
    if s.len() == 0 {
        Seq::empty()
    } else {
        seq_view(s.drop_last()).push(value_view(s.last()))
    }
}

/// The map that a list of entries stands for (a later entry wins over an earlier one).
pub closed spec fn entries_view(s: Seq<(String, TomlValue)>) -> Map<Seq<char>, TomlSpec>
    decreases s,
{
    if s.len() == 0 {
        Map::empty()
    } else {
        entries_view(s.drop_last()).insert(s.last().0@, value_view(s.last().1))
    }
}

/// No key occurs twice in a list of entries.
pub open spec fn unique_keys(s: Seq<(String, TomlValue)>) -> bool {
    forall|i: int, j: int|
        0 <= i < s.len() && 0 <= j < s.len() && i != j ==> #[trigger] s[i].0@ != #[trigger] s[j].0@
}

impl TomlTable {
    pub closed spec fn map_view(self) -> Map<Seq<char>, TomlSpec>
        decreases self,
    {
        entries_view(self.entries@)
    }

    #[verifier::type_invariant]
    closed spec fn keys_are_unique(self) -> bool {
        unique_keys(self.entries@)
    }
}

impl View for TomlTable {
    type V = Map<Seq<char>, TomlSpec>;

    open spec fn view(&self) -> Map<Seq<char>, TomlSpec> {
        self.map_view()
    }
}

impl View for TomlValue {
    type V = TomlSpec;

    open spec fn view(&self) -> TomlSpec {
        value_view(*self)
    }
}

proof fn lemma_entries_contains(s: Seq<(String, TomlValue)>, k: Seq<char>)
    ensures
        entries_view(s).contains_key(k) <==> exists|i: int| 0 <= i < s.len() && #[trigger] s[i].0@ == k,
    decreases s.len(),
{
    if s.len() > 0 {
        lemma_entries_contains(s.drop_last(), k);
        if entries_view(s).contains_key(k) && k != s.last().0@ {
            let i = choose|i: int| 0 <= i < s.drop_last().len() && #[trigger] s.drop_last()[i].0@ == k;
            assert(s[i].0@ == k);
        }
        if exists|i: int| 0 <= i < s.len() && #[trigger] s[i].0@ == k {
            let i = choose|i: int| 0 <= i < s.len() && #[trigger] s[i].0@ == k;
            if i < s.len() - 1 {
                assert(s.drop_last()[i].0@ == k);
            }
        }
    }
}

proof fn lemma_entries_at(s: Seq<(String, TomlValue)>, i: int)
    requires
        unique_keys(s),
        0 <= i < s.len(),
    ensures
        entries_view(s).contains_key(s[i].0@),
        entries_view(s)[s[i].0@] == value_view(s[i].1),
    decreases s.len(),
{
    if i < s.len() - 1 {
        assert(unique_keys(s.drop_last()));
        assert(s.drop_last()[i] == s[i]);
        lemma_entries_at(s.drop_last(), i);
        assert(s[i].0@ != s[s.len() - 1].0@);
    }
}

proof fn lemma_entries_update(s: Seq<(String, TomlValue)>, i: int, e: (String, TomlValue))
    requires
        unique_keys(s),
        0 <= i < s.len(),
        e.0@ == s[i].0@,
    ensures
        unique_keys(s.update(i, e)),
        entries_view(s.update(i, e)) == entries_view(s).insert(e.0@, value_view(e.1)),
    decreases s.len(),
{
    let t = s.update(i, e);
    assert forall|a: int, b: int| 0 <= a < t.len() && 0 <= b < t.len() && a != b implies #[trigger] t[a].0@ != #[trigger] t[b].0@ by {
        assert(s[a].0@ != s[b].0@);
    }
    if i == s.len() - 1 {
        assert(t.drop_last() =~= s.drop_last());
        assert(entries_view(t) =~= entries_view(s).insert(e.0@, value_view(e.1)));
    } else {
        assert(t.drop_last() =~= s.drop_last().update(i, e));
        assert(unique_keys(s.drop_last()));
        lemma_entries_update(s.drop_last(), i, e);
        assert(s[i].0@ != s[s.len() - 1].0@);
        assert(entries_view(t) =~= entries_view(s).insert(e.0@, value_view(e.1)));
    }
}

proof fn lemma_entries_remove(s: Seq<(String, TomlValue)>, i: int)
    requires
        unique_keys(s),
        0 <= i < s.len(),
    ensures
        unique_keys(s.remove(i)),
        entries_view(s.remove(i)) == entries_view(s).remove(s[i].0@),
    decreases s.len(),
{
    let t = s.remove(i);
    assert forall|a: int, b: int| 0 <= a < t.len() && 0 <= b < t.len() && a != b implies #[trigger] t[a].0@ != #[trigger] t[b].0@ by {
        let a2 = if a < i { a } else { a + 1 };
        let b2 = if b < i { b } else { b + 1 };
        assert(t[a] == s[a2]);
        assert(t[b] == s[b2]);
        assert(s[a2].0@ != s[b2].0@);
    }
    let k = s[i].0@;
    if i == s.len() - 1 {
        assert(t =~= s.drop_last());
        lemma_entries_contains(s.drop_last(), k);
        if entries_view(s.drop_last()).contains_key(k) {
            let j = choose|j: int| 0 <= j < s.drop_last().len() && #[trigger] s.drop_last()[j].0@ == k;
            assert(s[j].0@ == k);
        }
        assert(entries_view(t) =~= entries_view(s).remove(k));
    } else {
        assert(t.drop_last() =~= s.drop_last().remove(i));
        assert(t.last() == s.last());
        assert(unique_keys(s.drop_last()));
        lemma_entries_remove(s.drop_last(), i);
        assert(s[i].0@ != s[s.len() - 1].0@);
        assert(entries_view(t) =~= entries_view(s).remove(k));
    }
}

proof fn lemma_entries_len(s: Seq<(String, TomlValue)>)
    requires
        unique_keys(s),
    ensures
        entries_view(s).dom().finite(),
        entries_view(s).dom().len() == s.len(),
    decreases s.len(),
{
    if s.len() > 0 {
        assert(unique_keys(s.drop_last()));
        lemma_entries_len(s.drop_last());
        lemma_entries_contains(s.drop_last(), s.last().0@);
        if entries_view(s.drop_last()).contains_key(s.last().0@) {
            let j = choose|j: int| 0 <= j < s.drop_last().len() && #[trigger] s.drop_last()[j].0@ == s.last().0@;
            assert(s[j].0@ == s[s.len() - 1].0@);
        }
    }
}

/// The values of a sequence of nodes, element by element.
pub broadcast proof fn lemma_seq_view(s: Seq<TomlValue>)
    ensures
        #[trigger] seq_view(s).len() == s.len(),
        forall|i: int| 0 <= i < s.len() ==> #[trigger] seq_view(s)[i] == value_view(s[i]),
    decreases s.len(),
{
    if s.len() > 0 {
        lemma_seq_view(s.drop_last());
        assert forall|i: int| 0 <= i < s.len() implies #[trigger] seq_view(s)[i] == value_view(s[i]) by {
            if i < s.len() - 1 {
                assert(s.drop_last()[i] == s[i]);
            }
        }
    }
}

/// Whether two strings hold the same characters; compares their UTF-8 bytes.
pub fn str_eq(a: &str, b: &str) -> (r: bool)
    ensures
        r == (a@ == b@),
{
    broadcast use vstd::utf8::encode_utf8_decode_utf8;

    let x = a.as_bytes();
    let y = b.as_bytes();
    if x.len() != y.len() {
        return false;
    }
    let mut i: usize = 0;
    while i < x.len()
        invariant
            x@ == a.spec_bytes(),
            y@ == b.spec_bytes(),
            x@.len() == y@.len(),
            i <= x@.len(),
            forall|j: int| 0 <= j < i ==> x@[j] == y@[j],
        decreases x@.len() - i,
    {
        if x[i] != y[i] {
            return false;
        }
        i = i + 1;
    }
    assert(x@ =~= y@);
    assert(vstd::utf8::decode_utf8(vstd::utf8::encode_utf8(a@)) == a@);
    assert(vstd::utf8::decode_utf8(vstd::utf8::encode_utf8(b@)) == b@);
    true
}

/// Whether two values are the same document value (floats compare by bit pattern).
#[verifier::loop_isolation(false)]
pub fn values_equal(a: &TomlValue, b: &TomlValue) -> (r: bool)
    ensures
        r == (a@ == b@),
    decreases a,
{
    match (a, b) {
        (TomlValue::String(x), TomlValue::String(y)) => str_eq(x.as_str(), y.as_str()),
        (TomlValue::Integer(x), TomlValue::Integer(y)) => *x == *y,
        (TomlValue::Float(x), TomlValue::Float(y)) => *x == *y,
        (TomlValue::Boolean(x), TomlValue::Boolean(y)) => *x == *y,
        (TomlValue::Datetime(x), TomlValue::Datetime(y)) => str_eq(x.as_str(), y.as_str()),
        (TomlValue::Array(x), TomlValue::Array(y)) => {
            proof {
                lemma_seq_view(x@);
                lemma_seq_view(y@);
            }
            if x.len() != y.len() {
                return false;
            }
            let mut i: usize = 0;
            while i < x.len()
                invariant
                    x@.len() == y@.len(),
                    i <= x@.len(),
                    seq_view(x@).len() == x@.len(),
                    seq_view(y@).len() == y@.len(),
                    forall|j: int| 0 <= j < x@.len() ==> #[trigger] seq_view(x@)[j] == value_view(x@[j]),
                    forall|j: int| 0 <= j < y@.len() ==> #[trigger] seq_view(y@)[j] == value_view(y@[j]),
                    forall|j: int| 0 <= j < i ==> value_view(#[trigger] x@[j]) == value_view(y@[j]),
                decreases x@.len() - i,
            {
                proof {
                    assert(decreases_to!(*a => *x));
                    assert(decreases_to!(*x => x@[i as int]));
                    assert(decreases_to!(*a => x@[i as int]));
                }
                if !values_equal(&x[i], &y[i]) {
                    assert(seq_view(x@)[i as int] != seq_view(y@)[i as int]);
                    return false;
                }
                i = i + 1;
            }
            assert(seq_view(x@) =~= seq_view(y@));
            true
        },
        (TomlValue::Table(x), TomlValue::Table(y)) => {
            proof {
                use_type_invariant(x);
                use_type_invariant(y);
                lemma_entries_len(x.entries@);
                lemma_entries_len(y.entries@);
            }
            if x.entries.len() != y.entries.len() {
                return false;
            }
            let mut i: usize = 0;
            while i < x.entries.len()
                invariant
                    unique_keys(x.entries@),
                    unique_keys(y.entries@),
                    x.entries@.len() == y.entries@.len(),
                    x@.dom().finite(),
                    y@.dom().finite(),
                    x@.dom().len() == x.entries@.len(),
                    y@.dom().len() == y.entries@.len(),
                    i <= x.entries@.len(),
                    forall|j: int|
                        0 <= j < i ==> y@.contains_key(#[trigger] x.entries@[j].0@) && y@[x.entries@[j].0@]
                            == value_view(x.entries@[j].1),
                decreases x.entries@.len() - i,
            {
                proof {
                    lemma_entries_at(x.entries@, i as int);
                    assert(decreases_to!(*a => *x));
                    assert(decreases_to!(*x => x.entries));
                    assert(decreases_to!(x.entries => x.entries@[i as int]));
                    assert(decreases_to!(x.entries@[i as int] => x.entries@[i as int].1));
                    assert(decreases_to!(*a => x.entries@[i as int].1));
                }
                let entry = &x.entries[i];
                match y.get(entry.0.as_str()) {
                    Some(w) => {
                        if !values_equal(&entry.1, w) {
                            return false;
                        }
                    },
                    None => {
                        return false;
                    },
                }
                i = i + 1;
            }
            proof {
                assert(x@.dom().subset_of(y@.dom())) by {
                    assert forall|k: Seq<char>| x@.dom().contains(k) implies y@.dom().contains(k) by {
                        lemma_entries_contains(x.entries@, k);
                        let j = choose|j: int| 0 <= j < x.entries@.len() && #[trigger] x.entries@[j].0@ == k;
                    }
                }
                vstd::set_lib::lemma_subset_equality(x@.dom(), y@.dom());
                assert forall|k: Seq<char>| x@.dom().contains(k) implies x@[k] == y@[k] by {
                    lemma_entries_contains(x.entries@, k);
                    let j = choose|j: int| 0 <= j < x.entries@.len() && #[trigger] x.entries@[j].0@ == k;
                    lemma_entries_at(x.entries@, j);
                }
                assert(x@ =~= y@);
            }
            true
        },
        _ => false,
    }
}

proof fn lemma_entries_congruent(s: Seq<(String, TomlValue)>, t: Seq<(String, TomlValue)>)
    requires
        s.len() == t.len(),
        forall|j: int| 0 <= j < s.len() ==> #[trigger] s[j].0@ == t[j].0@ && value_view(s[j].1) == value_view(t[j].1),
    ensures
        entries_view(s) == entries_view(t),
        unique_keys(s) ==> unique_keys(t),
    decreases s.len(),
{
    if s.len() > 0 {
        assert forall|j: int| 0 <= j < s.drop_last().len() implies #[trigger] s.drop_last()[j].0@ == t.drop_last()[j].0@
            && value_view(s.drop_last()[j].1) == value_view(t.drop_last()[j].1) by {
            assert(s.drop_last()[j] == s[j]);
            assert(t.drop_last()[j] == t[j]);
        }
        lemma_entries_congruent(s.drop_last(), t.drop_last());
        assert(s[s.len() - 1].0@ == t[t.len() - 1].0@);
    }
    if unique_keys(s) {
        assert forall|a: int, b: int| 0 <= a < t.len() && 0 <= b < t.len() && a != b implies #[trigger] t[a].0@ != #[trigger] t[b].0@ by {
            assert(s[a].0@ != s[b].0@);
        }
    }
}

/// A copy of `v`.
#[verifier::loop_isolation(false)]
pub fn clone_value(v: &TomlValue) -> (r: TomlValue)
    ensures
        r@ == v@,
    decreases v,
{
    match v {
        TomlValue::String(s) => TomlValue::String(s.clone()),
        TomlValue::Integer(i) => TomlValue::Integer(*i),
        TomlValue::Float(b) => TomlValue::Float(*b),
        TomlValue::Boolean(b) => TomlValue::Boolean(*b),
        TomlValue::Datetime(s) => TomlValue::Datetime(s.clone()),
        TomlValue::Array(x) => {
            proof {
                lemma_seq_view(x@);
            }
            let mut out: Vec<TomlValue> = Vec::new();
            let mut i: usize = 0;
            while i < x.len()
                invariant
                    i <= x@.len(),
                    out@.len() == i,
                    forall|j: int| 0 <= j < i ==> value_view(#[trigger] out@[j]) == value_view(x@[j]),
                decreases x@.len() - i,
            {
                proof {
                    assert(decreases_to!(*v => *x));
                    assert(decreases_to!(*x => x@[i as int]));
                    assert(decreases_to!(*v => x@[i as int]));
                }
                let c = clone_value(&x[i]);
                out.push(c);
                i = i + 1;
            }
            proof {
                lemma_seq_view(out@);
                assert(seq_view(out@) =~= seq_view(x@));
            }
            TomlValue::Array(out)
        },
        TomlValue::Table(x) => {
            proof {
                use_type_invariant(x);
            }
            let mut entries: Vec<(String, TomlValue)> = Vec::new();
            let mut i: usize = 0;
            while i < x.entries.len()
                invariant
                    i <= x.entries@.len(),
                    entries@.len() == i,
                    forall|j: int|
                        0 <= j < i ==> #[trigger] entries@[j].0@ == x.entries@[j].0@ && value_view(
                            entries@[j].1,
                        ) == value_view(x.entries@[j].1),
                decreases x.entries@.len() - i,
            {
                proof {
                    assert(decreases_to!(*v => *x));
                    assert(decreases_to!(*x => x.entries));
                    assert(decreases_to!(x.entries => x.entries@[i as int]));
                    assert(decreases_to!(x.entries@[i as int] => x.entries@[i as int].1));
                    assert(decreases_to!(*v => x.entries@[i as int].1));
                }
                let e = &x.entries[i];
                let c = clone_value(&e.1);
                entries.push((e.0.clone(), c));
                i = i + 1;
            }
            proof {
                lemma_entries_congruent(x.entries@, entries@);
            }
            TomlValue::Table(TomlTable { entries })
        },
    }
}

impl TomlTable {
    /// An empty table.
    pub fn new() -> (t: TomlTable)
        ensures
            t@ == Map::<Seq<char>, TomlSpec>::empty(),
    {
        TomlTable { entries: Vec::new() }
    }

    /// The position of `key` among the entries, if it is there.
    fn find(&self, key: &str) -> (r: Option<usize>)
        ensures
            match r {
                Some(i) => i < self.entries@.len() && self.entries@[i as int].0@ == key@,
                None => forall|i: int| 0 <= i < self.entries@.len() ==> #[trigger] self.entries@[i].0@ != key@,
            },
    {
        let mut i: usize = 0;
        while i < self.entries.len()
            invariant
                i <= self.entries@.len(),
                forall|j: int| 0 <= j < i ==> #[trigger] self.entries@[j].0@ != key@,
            decreases self.entries@.len() - i,
        {
            if str_eq(self.entries[i].0.as_str(), key) {
                return Some(i);
            }
            i = i + 1;
        }
        None
    }

    /// The entries of the table, each key once.
    pub fn entries(&self) -> (r: &Vec<(String, TomlValue)>)
        ensures
            unique_keys(r@),
            entries_view(r@) == self@,
    {
        proof {
            use_type_invariant(self);
        }
        &self.entries
    }

    /// The keys of the table, each once.
    pub fn keys(&self) -> (r: Vec<String>)
        ensures
            r@.len() == self@.dom().len(),
            forall|i: int| 0 <= i < r@.len() ==> self@.contains_key(#[trigger] r@[i]@),
            forall|k: Seq<char>| #[trigger] self@.contains_key(k) ==> exists|i: int| 0 <= i < r@.len() && r@[i]@ == k,
            forall|i: int, j: int| 0 <= i < r@.len() && 0 <= j < r@.len() && i != j ==> (#[trigger] r@[i])@ != (#[trigger] r@[j])@,
    {
        proof {
            use_type_invariant(self);
            lemma_entries_len(self.entries@);
        }
        let mut r: Vec<String> = Vec::new();
        let mut i: usize = 0;
        while i < self.entries.len()
            invariant
                i <= self.entries@.len(),
                r@.len() == i,
                unique_keys(self.entries@),
                forall|j: int| 0 <= j < i ==> (#[trigger] r@[j])@ == self.entries@[j].0@,
            decreases self.entries@.len() - i,
        {
            r.push(self.entries[i].0.clone());
            i = i + 1;
        }
        proof {
            assert forall|j: int| 0 <= j < r@.len() implies self@.contains_key(#[trigger] r@[j]@) by {
                lemma_entries_at(self.entries@, j);
            }
            assert forall|k: Seq<char>| #[trigger] self@.contains_key(k) implies exists|j: int| 0 <= j < r@.len() && r@[j]@ == k by {
                lemma_entries_contains(self.entries@, k);
                let j = choose|j: int| 0 <= j < self.entries@.len() && #[trigger] self.entries@[j].0@ == k;
                assert(r@[j]@ == k);
            }
            assert forall|a: int, b: int| 0 <= a < r@.len() && 0 <= b < r@.len() && a != b implies (#[trigger] r@[a])@ != (#[trigger] r@[b])@ by {
                assert(self.entries@[a].0@ != self.entries@[b].0@);
            }
        }
        r
    }

    /// The number of keys.
    pub fn len(&self) -> (n: usize)
        ensures
            self@.dom().finite(),
            n == self@.dom().len(),
    {
        proof {
            use_type_invariant(self);
            lemma_entries_len(self.entries@);
        }
        self.entries.len()
    }

    /// Whether the table has no key.
    pub fn is_empty(&self) -> (r: bool)
        ensures
            r == (self@ == Map::<Seq<char>, TomlSpec>::empty()),
    {
        proof {
            use_type_invariant(self);
            lemma_entries_len(self.entries@);
            if self.entries@.len() == 0 {
                assert(self@ =~= Map::<Seq<char>, TomlSpec>::empty());
            }
        }
        self.entries.len() == 0
    }

    /// Whether `key` is in the table.
    pub fn contains_key(&self, key: &str) -> (r: bool)
        ensures
            r == self@.contains_key(key@),
    {
        proof {
            lemma_entries_contains(self.entries@, key@);
        }
        let i = self.find(key);
        i.is_some()
    }

    /// The value under `key`.
    pub fn get(&self, key: &str) -> (r: Option<&TomlValue>)
        ensures
            match r {
                Some(v) => self@.contains_key(key@) && self@[key@] == v@,
                None => !self@.contains_key(key@),
            },
    {
        proof {
            use_type_invariant(self);
            lemma_entries_contains(self.entries@, key@);
        }
        match self.find(key) {
            Some(i) => {
                proof {
                    lemma_entries_at(self.entries@, i as int);
                }
                Some(&self.entries[i].1)
            },
            None => None,
        }
    }

    /// Sets `key` to `value`, handing back the value it replaced.
    pub fn insert(&mut self, key: String, value: TomlValue) -> (r: Option<TomlValue>)
        ensures
            final(self)@ == old(self)@.insert(key@, value@),
            match r {
                Some(v) => old(self)@.contains_key(key@) && old(self)@[key@] == v@,
                None => !old(self)@.contains_key(key@),
            },
    {
        proof {
            use_type_invariant(&*self);
            lemma_entries_contains(self.entries@, key@);
        }
        let idx = self.find(key.as_str());
        let mut entries: Vec<(String, TomlValue)> = Vec::new();
        std::mem::swap(&mut entries, &mut self.entries);
        let ghost before = entries@;
        match idx {
            Some(i) => {
                let ghost k = key@;
                let ghost e = (key, value);
                proof {
                    lemma_entries_at(before, i as int);
                    lemma_entries_update(before, i as int, e);
                }
                let old_entry = entries.remove(i);
                entries.insert(i, (key, value));
                assert(entries@ =~= before.update(i as int, e));
                self.entries = entries;
                Some(old_entry.1)
            },
            None => {
                let ghost e = (key, value);
                entries.push((key, value));
                assert(entries@.drop_last() =~= before);
                assert(unique_keys(entries@)) by {
                    assert forall|a: int, b: int|
                        0 <= a < entries@.len() && 0 <= b < entries@.len() && a != b
                        implies #[trigger] entries@[a].0@ != #[trigger] entries@[b].0@ by {
                        if a < before.len() && b < before.len() {
                            assert(before[a].0@ != before[b].0@);
                        } else if a < before.len() {
                            assert(before[a].0@ != key@);
                        } else {
                            assert(before[b].0@ != key@);
                        }
                    }
                }
                self.entries = entries;
                None
            },
        }
    }

    /// Takes the array stored under `key` out of the table; a value of another kind stays.
    pub fn take_array(&mut self, key: &str) -> (r: Option<Vec<TomlValue>>)
        ensures
            match r {
                Some(v) => {
                    &&& old(self)@.contains_key(key@)
                    &&& old(self)@[key@] == TomlSpec::Array(seq_view(v@))
                    &&& final(self)@ == old(self)@.remove(key@)
                },
                None => {
                    &&& final(self)@ == old(self)@
                    &&& !(old(self)@.contains_key(key@) && old(self)@[key@] is Array)
                },
            },
    {
        let ghost before = self@;
        match self.remove(key) {
            Some(TomlValue::Array(v)) => Some(v),
            Some(other) => {
                self.insert(key.to_owned(), other);
                assert(self@ =~= before);
                None
            },
            None => {
                assert(self@ =~= before);
                None
            },
        }
    }

    /// Takes the table stored under `key` out of the table; a value of another kind stays.
    pub fn take_table(&mut self, key: &str) -> (r: Option<TomlTable>)
        ensures
            match r {
                Some(t) => {
                    &&& old(self)@.contains_key(key@)
                    &&& old(self)@[key@] == TomlSpec::Table(t@)
                    &&& final(self)@ == old(self)@.remove(key@)
                },
                None => {
                    &&& final(self)@ == old(self)@
                    &&& !(old(self)@.contains_key(key@) && old(self)@[key@] is Table)
                },
            },
    {
        let ghost before = self@;
        match self.remove(key) {
            Some(TomlValue::Table(t)) => Some(t),
            Some(other) => {
                self.insert(key.to_owned(), other);
                assert(self@ =~= before);
                None
            },
            None => {
                assert(self@ =~= before);
                None
            },
        }
    }

    /// Removes `key`, handing back its value.
    pub fn remove(&mut self, key: &str) -> (r: Option<TomlValue>)
        ensures
            final(self)@ == old(self)@.remove(key@),
            match r {
                Some(v) => old(self)@.contains_key(key@) && old(self)@[key@] == v@,
                None => !old(self)@.contains_key(key@),
            },
    {
        proof {
            use_type_invariant(&*self);
            lemma_entries_contains(self.entries@, key@);
        }
        let idx = self.find(key);
        match idx {
            Some(i) => {
                let mut entries: Vec<(String, TomlValue)> = Vec::new();
                std::mem::swap(&mut entries, &mut self.entries);
                let ghost before = entries@;
                proof {
                    lemma_entries_at(before, i as int);
                    lemma_entries_remove(before, i as int);
                }
                let old_entry = entries.remove(i);
                self.entries = entries;
                Some(old_entry.1)
            },
            None => {
                assert(self@ =~= self@.remove(key@));
                None
            },
        }
    }
}

} // verus!
