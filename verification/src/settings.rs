//! The settings snapshot and its optimistic compare-and-swap protocol.
//!
//! A snapshot is an immutable, versioned key-to-value mapping. Every edit
//! reads the current snapshot, copies it, applies a single key mutation, and
//! commits with a compare-and-swap against the version it started from; a
//! writer that lost the race re-reads and retries, so no edit is silently
//! dropped because an unrelated edit came first.
use vstd::prelude::*;

verus! {

/// The mathematical model of a settings value.
pub enum ValueModel {
    Bool(bool),
    I64(i64),
    F64Bits(u64),
    Text(Seq<char>),
    Nested(Seq<(Seq<char>, ValueModel)>),
    List(Seq<ValueModel>),
}

/// A settings value: a scalar, a string, or a nested map or list. A 64-bit
/// float value is carried as its raw bit pattern.
pub enum SettingsValue {
    Bool(bool),
    I64(i64),
    F64Bits(u64),
    Text(String),
    Nested(SettingsMap),
    List(Vec<SettingsValue>),
}

/// A settings snapshot: an ordered key-to-value mapping with unique keys.
pub struct SettingsMap {
    pub entries: Vec<(String, SettingsValue)>,
}

/// The model of a sequence of map entries, in insertion order.
pub open spec fn entries_model(es: Seq<(String, SettingsValue)>) -> Seq<(Seq<char>, ValueModel)>
    decreases es,
{
    if es.len() == 0 {
        Seq::empty()
    } else {
        entries_model(es.drop_last()).push((es.last().0@, es.last().1.model()))
    }
}

/// The model of a sequence of list elements.
pub open spec fn list_model(vs: Seq<SettingsValue>) -> Seq<ValueModel>
    decreases vs,
{
    if vs.len() == 0 {
        Seq::empty()
    } else {
        list_model(vs.drop_last()).push(vs.last().model())
    }
}

impl SettingsValue {
    pub open spec fn model(self) -> ValueModel
        decreases self,
    {
        match self {
            SettingsValue::Bool(b) => ValueModel::Bool(b),
            SettingsValue::I64(x) => ValueModel::I64(x),
            SettingsValue::F64Bits(bits) => ValueModel::F64Bits(bits),
            SettingsValue::Text(s) => ValueModel::Text(s@),
            SettingsValue::Nested(m) => ValueModel::Nested(entries_model(m.entries@)),
            SettingsValue::List(vs) => ValueModel::List(list_model(vs@)),
        }
    }
}

/// The entry models are the models of the entries, index for index.
pub proof fn lemma_entries_model(es: Seq<(String, SettingsValue)>)
    ensures
        entries_model(es).len() == es.len(),
        forall|i: int|
            0 <= i < es.len() ==> entries_model(es)[i] == (es[i].0@, es[i].1.model()),
    decreases es,
{
    if es.len() > 0 {
        lemma_entries_model(es.drop_last());
    }
}

/// The list models are the models of the elements, index for index.
pub proof fn lemma_list_model(vs: Seq<SettingsValue>)
    ensures
        list_model(vs).len() == vs.len(),
        forall|i: int| 0 <= i < vs.len() ==> list_model(vs)[i] == vs[i].model(),
    decreases vs,
{
    if vs.len() > 0 {
        lemma_list_model(vs.drop_last());
    }
}

impl SettingsValue {
    /// An independent copy with the same model.
    #[verifier::loop_isolation(false)]
    pub fn duplicate(&self) -> (r: Self)
        ensures
            r.model() == self.model(),
        decreases *self,
    {
        match self {
            SettingsValue::Bool(b) => SettingsValue::Bool(*b),
            SettingsValue::I64(x) => SettingsValue::I64(*x),
            SettingsValue::F64Bits(bits) => SettingsValue::F64Bits(*bits),
            SettingsValue::Text(s) => SettingsValue::Text(s.clone()),
            SettingsValue::Nested(m) => SettingsValue::Nested(m.duplicate()),
            SettingsValue::List(vs) => {
                let n = vs.len();
                let mut out: Vec<SettingsValue> = Vec::new();
                let mut i: usize = 0;
                while i < n
                    invariant
                        i <= n,
                        n == vs@.len(),
                        out@.len() == i,
                        forall|j: int| 0 <= j < i ==> out@[j].model() == vs@[j].model(),
                    decreases n - i,
                {
                    proof {
                        assert(decreases_to!(*self => *vs));
                        assert(decreases_to!(*vs => vs@));
                        assert(decreases_to!(vs@ => vs@[i as int]));
                        assert(decreases_to!(*self => vs@[i as int]));
                    }
                    out.push(vs[i].duplicate());
                    i = i + 1;
                }
                proof {
                    lemma_list_model(out@);
                    lemma_list_model(vs@);
                    assert(list_model(out@) =~= list_model(vs@));
                }
                SettingsValue::List(out)
            },
        }
    }
}

impl SettingsMap {
    /// The snapshot as a sequence of key/value models, in insertion order.
    pub open spec fn model(self) -> Seq<(Seq<char>, ValueModel)> {
        entries_model(self.entries@)
    }

    /// Keys are unique, so a key names at most one entry.
    pub open spec fn wf(self) -> bool {
        keys_unique(self.model())
    }

    pub fn new() -> (r: Self)
        ensures
            r.model() == Seq::<(Seq<char>, ValueModel)>::empty(),
            r.wf(),
    {
        SettingsMap { entries: Vec::new() }
    }

    /// An independent copy with the same model.
    #[verifier::loop_isolation(false)]
    pub fn duplicate(&self) -> (r: Self)
        ensures
            r.model() == self.model(),
            r.entries@.len() == self.entries@.len(),
        decreases *self,
    {
        let n = self.entries.len();
        let mut out: Vec<(String, SettingsValue)> = Vec::new();
        let mut i: usize = 0;
        while i < n
            invariant
                i <= n,
                n == self.entries@.len(),
                out@.len() == i,
                forall|j: int|
                    0 <= j < i ==> out@[j].0@ == self.entries@[j].0@ && out@[j].1.model()
                        == self.entries@[j].1.model(),
            decreases n - i,
        {
            out.push((self.entries[i].0.clone(), self.entries[i].1.duplicate()));
            i = i + 1;
        }
        proof {
            lemma_entries_model(out@);
            lemma_entries_model(self.entries@);
            assert(entries_model(out@) =~= entries_model(self.entries@));
        }
        SettingsMap { entries: out }
    }

    /// Apply a single key mutation: overwrite the value of an existing key
    /// in place, or append a new key at the end, keeping insertion order.
    #[verifier::loop_isolation(false)]
    pub fn insert(&mut self, key: String, value: SettingsValue)
        requires
            old(self).wf(),
            old(self).entries@.len() < usize::MAX,
        ensures
            final(self).wf(),
            final(self).model() == inserted_model(old(self).model(), key@, value.model()),
            final(self).entries@.len() <= old(self).entries@.len() + 1,
    {
        proof {
            lemma_entries_model(self.entries@);
        }
        let n = self.entries.len();
        let mut i: usize = 0;
        while i < n
            invariant
                i <= n,
                n == self.entries@.len(),
                *self == *old(self),
                forall|j: int| 0 <= j < i ==> self.entries@[j].0@ != key@,
            decreases n - i,
        {
            if self.entries[i].0 == key {
                proof {
                    lemma_entries_model(self.entries@);
                    assert(self.model()[i as int].0 == key@);
                    lemma_key_index_unique(self.model(), key@, i as int);
                }
                let ghost value_model = value.model();
                self.entries[i].1 = value;
                proof {
                    lemma_entries_model(self.entries@);
                    lemma_entries_model(old(self).entries@);
                    assert(self.model() =~= inserted_model(old(self).model(), key@, value_model));
                    lemma_inserted_model(old(self).model(), key@, value_model);
                }
                return;
            }
            i = i + 1;
        }
        proof {
            lemma_entries_model(self.entries@);
            assert(!model_has_key(self.model(), key@)) by {
                if model_has_key(self.model(), key@) {
                    let ci = model_key_index(self.model(), key@);
                    assert(self.entries@[ci].0@ == key@);
                }
            }
        }
        self.entries.push((key, value));
        proof {
            lemma_entries_model(self.entries@);
            lemma_entries_model(old(self).entries@);
            assert(self.model() =~= inserted_model(old(self).model(), key@, value.model()));
            lemma_inserted_model(old(self).model(), key@, value.model());
        }
    }

    /// Look a key up in the snapshot.
    #[verifier::loop_isolation(false)]
    pub fn get(&self, key: &String) -> (r: Option<&SettingsValue>)
        requires
            self.wf(),
        ensures
            r matches Some(v) ==> model_has_key(self.model(), key@) && v.model()
                == model_value_of(self.model(), key@),
            r is None ==> !model_has_key(self.model(), key@),
    {
        proof {
            lemma_entries_model(self.entries@);
        }
        let n = self.entries.len();
        let mut i: usize = 0;
        while i < n
            invariant
                i <= n,
                n == self.entries@.len(),
                self.wf(),
                forall|j: int| 0 <= j < i ==> self.entries@[j].0@ != key@,
            decreases n - i,
        {
            if self.entries[i].0 == *key {
                proof {
                    lemma_entries_model(self.entries@);
                    assert(self.model()[i as int].0 == key@);
                    lemma_key_index_unique(self.model(), key@, i as int);
                }
                return Some(&self.entries[i].1);
            }
            i = i + 1;
        }
        proof {
            lemma_entries_model(self.entries@);
            assert(!model_has_key(self.model(), key@)) by {
                if model_has_key(self.model(), key@) {
                    let ci = model_key_index(self.model(), key@);
                    assert(self.entries@[ci].0@ == key@);
                }
            }
        }
        None
    }
}

/// The shared holder of the current settings snapshot, versioned so that a
/// writer can tell whether the snapshot it started from is still current.
pub struct SettingsStore {
    pub version: u64,
    pub snapshot: SettingsMap,
}

impl SettingsStore {
    pub open spec fn wf(self) -> bool {
        self.snapshot.wf()
    }

    pub fn new() -> (r: Self)
        ensures
            r.wf(),
            r.version == 0,
            r.snapshot.model() == Seq::<(Seq<char>, ValueModel)>::empty(),
    {
        SettingsStore { version: 0, snapshot: SettingsMap::new() }
    }

    /// Read the current snapshot: its version and an independent copy.
    pub fn read(&self) -> (r: (u64, SettingsMap))
        ensures
            r.0 == self.version,
            r.1.model() == self.snapshot.model(),
            r.1.entries@.len() == self.snapshot.entries@.len(),
    {
        (self.version, self.snapshot.duplicate())
    }

    /// Publish `new_map` only if the store still holds the version the
    /// writer started from; otherwise leave the store untouched.
    pub fn compare_and_swap(&mut self, expected: u64, new_map: SettingsMap) -> (ok: bool)
        requires
            old(self).version < u64::MAX,
        ensures
            ok == (expected == old(self).version),
            ok ==> final(self).version == old(self).version + 1 && final(self).snapshot
                == new_map,
            !ok ==> *final(self) == *old(self),
    {
        if expected == self.version {
            self.version = self.version + 1;
            self.snapshot = new_map;
            true
        } else {
            false
        }
    }

    /// One writer's whole edit: read, copy, mutate one key, compare-and-swap,
    /// and retry from the now-current snapshot after losing a race. Exclusive
    /// access (`&mut self`) means the first attempt here always wins; the
    /// retry arm is the protocol's answer to an interleaved writer.
    pub fn commit_edit(&mut self, key: &String, value: &SettingsValue)
        requires
            old(self).wf(),
            old(self).version < u64::MAX,
            old(self).snapshot.entries@.len() < usize::MAX,
        ensures
            final(self).wf(),
            final(self).version == old(self).version + 1,
            final(self).snapshot.model() == inserted_model(
                old(self).snapshot.model(),
                key@,
                value.model(),
            ),
    {
        loop
            invariant_except_break
                self.wf(),
                self.version == old(self).version,
                self.version < u64::MAX,
                self.snapshot.model() == old(self).snapshot.model(),
                self.snapshot.entries@.len() < usize::MAX,
            ensures
                self.wf(),
                self.version == old(self).version + 1,
                self.snapshot.model() == inserted_model(
                    old(self).snapshot.model(),
                    key@,
                    value.model(),
                ),
            decreases 0int,
        {
            let (base, mut snap) = self.read();
            proof {
                lemma_entries_model(snap.entries@);
                lemma_entries_model(self.snapshot.entries@);
            }
            snap.insert(key.clone(), value.duplicate());
            if self.compare_and_swap(base, snap) {
                break;
            }
            proof {
                // The store is held exclusively, so its version cannot have
                // moved between the read and the swap.
                assert(false);
            }
        }
    }
}

/// Two writers that edit disjoint keys starting from the same snapshot both
/// end up in the final snapshot: the winner's edit is applied first, the
/// loser re-reads the winner's snapshot and commits on top of it, and
/// neither edit is lost.
pub proof fn lemma_disjoint_writers(
    es: Seq<(Seq<char>, ValueModel)>,
    key_a: Seq<char>,
    val_a: ValueModel,
    key_b: Seq<char>,
    val_b: ValueModel,
)
    requires
        keys_unique(es),
        key_a != key_b,
    ensures
        ({
            let after_a = inserted_model(es, key_a, val_a);
            let after_b = inserted_model(after_a, key_b, val_b);
            &&& keys_unique(after_b)
            &&& model_has_key(after_b, key_a)
            &&& model_value_of(after_b, key_a) == val_a
            &&& model_has_key(after_b, key_b)
            &&& model_value_of(after_b, key_b) == val_b
        }),
{
    lemma_inserted_model(es, key_a, val_a);
    lemma_inserted_model(inserted_model(es, key_a, val_a), key_b, val_b);
}

/// No two entries share a key.
pub open spec fn keys_unique(es: Seq<(Seq<char>, ValueModel)>) -> bool {
    forall|i: int, j: int| 0 <= i < j < es.len() ==> es[i].0 != es[j].0
}

/// True when some entry carries the key.
pub open spec fn model_has_key(es: Seq<(Seq<char>, ValueModel)>, key: Seq<char>) -> bool {
    exists|i: int| 0 <= i < es.len() && es[i].0 == key
}

/// The index of the entry carrying the key; meaningful only when the keys
/// are unique and `model_has_key` holds.
pub open spec fn model_key_index(es: Seq<(Seq<char>, ValueModel)>, key: Seq<char>) -> int {
    choose|i: int| 0 <= i < es.len() && es[i].0 == key
}

/// The value stored under the key.
pub open spec fn model_value_of(es: Seq<(Seq<char>, ValueModel)>, key: Seq<char>) -> ValueModel {
    es[model_key_index(es, key)].1
}

/// With unique keys, an index holding `key` is the one `model_key_index`
/// names.
pub proof fn lemma_key_index_unique(es: Seq<(Seq<char>, ValueModel)>, key: Seq<char>, i: int)
    requires
        keys_unique(es),
        0 <= i < es.len(),
        es[i].0 == key,
    ensures
        model_has_key(es, key),
        model_key_index(es, key) == i,
{
    assert(model_has_key(es, key));
    let ci = model_key_index(es, key);
    assert(0 <= ci < es.len() && es[ci].0 == key);
    if ci < i {
        assert(es[ci].0 != es[i].0);
        assert(false);
    } else if i < ci {
        assert(es[i].0 != es[ci].0);
        assert(false);
    }
}

/// The snapshot after a single key mutation: overwrite the value of an
/// existing key in place, or append a new key at the end.
pub open spec fn inserted_model(
    es: Seq<(Seq<char>, ValueModel)>,
    key: Seq<char>,
    value: ValueModel,
) -> Seq<(Seq<char>, ValueModel)> {
    if model_has_key(es, key) {
        es.update(model_key_index(es, key), (key, value))
    } else {
        es.push((key, value))
    }
}

/// A single key mutation keeps the keys unique, leaves every other key's
/// value as it was, and stores the new value under the edited key.
pub proof fn lemma_inserted_model(
    es: Seq<(Seq<char>, ValueModel)>,
    key: Seq<char>,
    value: ValueModel,
)
    requires
        keys_unique(es),
    ensures
        keys_unique(inserted_model(es, key, value)),
        model_has_key(inserted_model(es, key, value), key),
        model_value_of(inserted_model(es, key, value), key) == value,
        forall|k: Seq<char>|
            k != key ==> model_has_key(inserted_model(es, key, value), k) == model_has_key(
                es,
                k,
            ),
        forall|k: Seq<char>|
            k != key && model_has_key(es, k) ==> model_value_of(inserted_model(es, key, value), k)
                == model_value_of(es, k),
{
    let post = inserted_model(es, key, value);
    assert forall|k: Seq<char>| k != key implies model_has_key(post, k) == model_has_key(
        es,
        k,
    ) by {
        if model_has_key(es, k) {
            let i = model_key_index(es, k);
            assert(post[i].0 == k);
        }
        if model_has_key(post, k) {
            let i = model_key_index(post, k);
            assert(es[i].0 == k);
        }
    }
    assert forall|k: Seq<char>|
        k != key && model_has_key(es, k) implies model_value_of(post, k) == model_value_of(
        es,
        k,
    ) by {
        let i = model_key_index(es, k);
        assert(post[i].0 == k);
        let j = model_key_index(post, k);
        assert(post[j].0 == k);
        if model_has_key(es, key) {
            assert(j == i);
        } else {
            assert(es[j].0 == k);
            assert(j == i);
        }
    }
    if model_has_key(es, key) {
        let i = model_key_index(es, key);
        let j = model_key_index(post, key);
        assert(post[i].0 == key);
        assert(j == i);
    } else {
        let j = model_key_index(post, key);
        assert(post[es.len() as int].0 == key);
        assert(j == es.len());
    }
}

} // verus!
