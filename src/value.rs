//! The generic values that the store holds, and the cell: a list of named slots.
use crate::text::str_eq;
use vstd::prelude::*;

verus! {

/// The slot of a cell that holds its typed payload.
pub const CELL_DATA: &'static str = "data";

/// The slot of a cell that records the field type that wrote it.
pub const CELL_FIELD_TYPE: &'static str = "field_type";

/// The key under which a rich type option keeps its serialized configuration.
pub const TYPE_OPTION_CONTENT: &'static str = "content";

/// A value of the store, as far as the codecs read it.
#[derive(Debug)]
pub enum AnyValue {
    Null,
    Bool(bool),
    Int(i64),
    Text(String),
    Array(Vec<AnyValue>),
}

/// A slot of a map: a key and the value under it.
#[derive(Debug)]
pub struct Slot<V> {
    pub key: String,
    pub value: V,
}

/// An ordered map with string keys: the later of two equal keys takes precedence.
#[derive(Debug)]
pub struct SlotMap<V> {
    pub slots: Vec<Slot<V>>,
}

/// An ordered map of named store values.
pub type AnyMap = SlotMap<AnyValue>;

/// One field's value for one row.
pub type Cell = AnyMap;

/// A field's configuration for its type.
pub type TypeOptionData = AnyMap;

/// The value under `k` in `s`: that of the last slot with that key.
pub open spec fn slot_lookup<V>(s: Seq<Slot<V>>, k: Seq<char>) -> Option<V>
    decreases s.len(),
{
    if s.len() == 0 {
        None
    } else if s.last().key@ == k {
        Some(s.last().value)
    } else {
        slot_lookup(s.drop_last(), k)
    }
}

impl<V> SlotMap<V> {
    pub open spec fn lookup(&self, k: Seq<char>) -> Option<V> {
        slot_lookup(self.slots@, k)
    }

    /// A map with no slots.
    pub fn new() -> (r: Self)
        ensures
            forall|k: Seq<char>| r.lookup(k) is None,
    {
        SlotMap { slots: Vec::new() }
    }

    /// The value under `k`, if any.
    pub fn get(&self, k: &str) -> (r: Option<&V>)
        ensures
            match r {
                Some(v) => self.lookup(k@) == Some(*v),
                None => self.lookup(k@) is None,
            },
    {
        let mut i: usize = self.slots.len();
        assert(self.slots@.subrange(0, i as int) == self.slots@);
        while i > 0
            invariant
                i <= self.slots@.len(),
                slot_lookup(self.slots@.subrange(0, i as int), k@) == self.lookup(k@),
            decreases i,
        {
            let ghost s = self.slots@.subrange(0, i as int);
            assert(s.drop_last() == self.slots@.subrange(0, i - 1));
            if str_eq(self.slots[i - 1].key.as_str(), k) {
                return Some(&self.slots[i - 1].value);
            }
            i = i - 1;
        }
        None
    }

    /// Puts `v` under `k`: it replaces the slot that held `k`, or is added last.
    pub fn insert(&mut self, k: String, v: V)
        ensures
            final(self).lookup(k@) == Some(v),
            forall|j: Seq<char>| j != k@ ==> final(self).lookup(j) == old(self).lookup(j),
    {
        let mut i: usize = self.slots.len();
        assert(self.slots@.subrange(i as int, i as int) =~= Seq::<Slot<V>>::empty());
        while i > 0
            invariant
                i <= self.slots@.len(),
                self.slots@ == old(self).slots@,
                forall|t: int| i <= t < self.slots@.len() ==> #[trigger] self.slots@[t].key@ != k@,
            decreases i,
        {
            if str_eq(self.slots[i - 1].key.as_str(), k.as_str()) {
                let ghost before = self.slots@;
                let ghost at = (i - 1) as int;
                let slot = Slot { key: k, value: v };
                proof {
                    lemma_lookup_update_other(before, at, slot);
                    lemma_lookup_update_last(before, at, slot);
                }
                self.slots[i - 1] = slot;
                assert(self.slots@ == before.update(at, slot));
                assert(forall|j: Seq<char>| j != slot.key@ ==> slot_lookup(self.slots@, j) == slot_lookup(before, j));
                return;
            }
            i = i - 1;
        }
        let ghost before = self.slots@;
        let ghost key = k@;
        self.slots.push(Slot { key: k, value: v });
        assert(self.slots@.drop_last() == before);
        assert forall|j: Seq<char>| j != key implies slot_lookup(self.slots@, j) == slot_lookup(
            before,
            j,
        ) by {
            assert(self.slots@.last().key@ == key);
        }
    }
}

/// Replacing a slot whose key is not `j` by another whose key is not `j`
/// leaves the value under `j` alone.
proof fn lemma_lookup_update_other<V>(s: Seq<Slot<V>>, at: int, x: Slot<V>)
    requires
        0 <= at < s.len(),
        s[at].key@ == x.key@,
    ensures
        forall|j: Seq<char>| j != x.key@ ==> slot_lookup(s.update(at, x), j) == slot_lookup(s, j),
    decreases s.len(),
{
    let u = s.update(at, x);
    if at < s.len() - 1 {
        lemma_lookup_update_other(s.drop_last(), at, x);
        assert(u.drop_last() == s.drop_last().update(at, x));
        assert(u.last() == s.last());
    } else {
        assert(u.drop_last() == s.drop_last());
        assert(u.last() == x);
        assert(s.last() == s[at]);
    }
    assert forall|j: Seq<char>| j != x.key@ implies slot_lookup(u, j) == slot_lookup(s, j) by {
        assert(u.len() == s.len());
        if u.last().key@ != j {
            assert(slot_lookup(u, j) == slot_lookup(u.drop_last(), j));
            assert(slot_lookup(s, j) == slot_lookup(s.drop_last(), j));
            if at < s.len() - 1 {
                assert(slot_lookup(s.drop_last().update(at, x), j) == slot_lookup(s.drop_last(), j));
            }
        }
    }
}

/// A slot put where no later slot has its key is what a lookup of that key finds.
proof fn lemma_lookup_update_last<V>(s: Seq<Slot<V>>, at: int, x: Slot<V>)
    requires
        0 <= at < s.len(),
        forall|t: int| at < t < s.len() ==> #[trigger] s[t].key@ != x.key@,
    ensures
        slot_lookup(s.update(at, x), x.key@) == Some(x.value),
    decreases s.len(),
{
    if at < s.len() - 1 {
        lemma_lookup_update_last(s.drop_last(), at, x);
        assert(s.update(at, x).drop_last() == s.drop_last().update(at, x));
        assert(s.update(at, x).last() == s.last());
    }
}

impl SlotMap<AnyValue> {
    /// A new cell whose field-type slot holds `field_type`.
    pub fn with_field_type(field_type: i64) -> (r: Self)
        ensures
            r.lookup(CELL_FIELD_TYPE@) == Some(AnyValue::Int(field_type)),
            forall|k: Seq<char>| k != CELL_FIELD_TYPE@ ==> r.lookup(k) is None,
    {
        let mut c = AnyMap::new();
        c.insert(CELL_FIELD_TYPE.to_owned(), AnyValue::Int(field_type));
        c
    }

    /// The string under `k`, if the slot holds one.
    pub fn get_str_value(&self, k: &str) -> (r: Option<String>)
        ensures
            match r {
                Some(s) => self.lookup(k@) matches Some(AnyValue::Text(t)) && s@ == t@,
                None => !(self.lookup(k@) matches Some(AnyValue::Text(_))),
            },
    {
        match self.get(k) {
            Some(AnyValue::Text(s)) => Some(s.clone()),
            _ => None,
        }
    }
}

} // verus!
