use vstd::prelude::*;

use crate::byte_map::ByteMap;
use crate::bytes::copy_bytes;
use vstd::string::StringSliceAdditionalSpecFns;

verus! {

/// The value of an Istio attribute.
pub enum AttributeValue {
    Str(Vec<u8>),
    Int64(i64),
}

/// What an attribute value holds.
pub enum AttributeValueView {
    Str(Seq<u8>),
    Int64(i64),
}

impl View for AttributeValue {
    type V = AttributeValueView;

    open spec fn view(&self) -> AttributeValueView {
        match self {
            AttributeValue::Str(s) => AttributeValueView::Str(s@),
            AttributeValue::Int64(n) => AttributeValueView::Int64(*n),
        }
    }
}

impl AttributeValue {
    /// A copy of the value.
    pub fn copy(&self) -> (r: AttributeValue)
        ensures
            r@ == self@,
    {
        match self {
            AttributeValue::Str(s) => AttributeValue::Str(copy_bytes(s.as_slice())),
            AttributeValue::Int64(n) => AttributeValue::Int64(*n),
        }
    }
}

/// The views of the values of a map of attributes.
pub open spec fn attribute_views(m: Map<Seq<u8>, AttributeValue>) -> Map<
    Seq<u8>,
    AttributeValueView,
> {
    m.map_values(|v: AttributeValue| v@)
}

/// A set of named Istio attributes that a report carries; a name has at most
/// one value, and the last value stored under it wins.
pub struct IstioAttributes {
    entries: ByteMap<AttributeValue>,
}

impl View for IstioAttributes {
    type V = Map<Seq<u8>, AttributeValueView>;

    closed spec fn view(&self) -> Map<Seq<u8>, AttributeValueView> {
        attribute_views(self.entries@)
    }
}

impl IstioAttributes {
    /// The names, in the order in which they were first stored.
    pub closed spec fn names(&self) -> Seq<Seq<u8>> {
        self.entries.key_seq()
    }

    /// The attribute set is well formed.
    pub closed spec fn wf(&self) -> bool {
        self.entries.wf()
    }

    /// An empty attribute set.
    pub fn new() -> (r: IstioAttributes)
        ensures
            r.wf(),
            r@ == Map::<Seq<u8>, AttributeValueView>::empty(),
            r.names() == Seq::<Seq<u8>>::empty(),
    {
        let r = IstioAttributes { entries: ByteMap::new() };
        assert(r@ =~= Map::<Seq<u8>, AttributeValueView>::empty());
        r
    }

    proof fn lemma_insert_view(
        before: Map<Seq<u8>, AttributeValue>,
        after: Map<Seq<u8>, AttributeValue>,
        k: Seq<u8>,
        v: AttributeValue,
    )
        requires
            after == before.insert(k, v),
        ensures
            attribute_views(after) == attribute_views(before).insert(k, v@),
    {
        assert(attribute_views(after) =~= attribute_views(before).insert(k, v@));
    }

    /// Stores `value` under `name`.
    pub fn insert(&mut self, name: Vec<u8>, value: AttributeValue)
        requires
            old(self).wf(),
        ensures
            final(self).wf(),
            final(self)@ == old(self)@.insert(name@, value@),
    {
        let ghost before = self.entries@;
        let ghost k = name@;
        let ghost v = value;
        self.entries.insert(name, value);
        proof {
            Self::lemma_insert_view(before, self.entries@, k, v);
        }
    }

    /// Stores the string `value` under `name`.
    pub fn insert_string_attribute(&mut self, name: &str, value: &[u8])
        requires
            old(self).wf(),
        ensures
            final(self).wf(),
            final(self)@ == old(self)@.insert(name.spec_bytes(), AttributeValueView::Str(value@)),
    {
        let key = copy_bytes(name.as_bytes());
        let v = AttributeValue::Str(copy_bytes(value));
        self.insert(key, v);
    }

    /// Stores the number `value` under `name`.
    pub fn insert_int64_attribute(&mut self, name: &str, value: i64)
        requires
            old(self).wf(),
        ensures
            final(self).wf(),
            final(self)@ == old(self)@.insert(name.spec_bytes(), AttributeValueView::Int64(value)),
    {
        let key = copy_bytes(name.as_bytes());
        self.insert(key, AttributeValue::Int64(value));
    }

    /// Stores every attribute of `other`, which wins over what is stored under
    /// the same name.
    pub fn extend(&mut self, other: &IstioAttributes)
        requires
            old(self).wf(),
            other.wf(),
        ensures
            final(self).wf(),
            final(self)@ == old(self)@.union_prefer_right(other@),
    {
        let ghost start = self@;
        let n = other.entries.len();
        proof {
            other.entries.lemma_prefix_map_ends();
            assert(start.union_prefer_right(attribute_views(other.entries.prefix_map(0)))
                =~= start);
        }
        let mut i: usize = 0;
        while i < n
            invariant
                self.wf(),
                other.wf(),
                n == other.entries.key_seq().len(),
                i <= n,
                self@ == start.union_prefer_right(
                    attribute_views(other.entries.prefix_map(i as int)),
                ),
            decreases n - i,
        {
            let key = copy_bytes(other.entries.key_at(i).as_slice());
            let value = other.entries.value_at(i).copy();
            let ghost before = self@;
            self.insert(key, value);
            proof {
                other.entries.lemma_prefix_map_step(i as int);
                let pm = other.entries.prefix_map(i as int);
                let k = other.entries.key_seq()[i as int];
                let v = other.entries.value_seq()[i as int];
                Self::lemma_insert_view(pm, pm.insert(k, v), k, v);
                assert(self@ =~= start.union_prefer_right(
                    attribute_views(other.entries.prefix_map(i as int + 1)),
                ));
            }
            i = i + 1;
        }
        proof {
            other.entries.lemma_prefix_map_ends();
        }
    }

    /// The value stored under `name`, if any.
    pub fn get(&self, name: &[u8]) -> (r: Option<&AttributeValue>)
        requires
            self.wf(),
        ensures
            match r {
                Some(v) => self@.contains_key(name@) && v@ == self@[name@],
                None => !self@.contains_key(name@),
            },
    {
        self.entries.get(name)
    }

    /// The number of attributes.
    pub fn len(&self) -> (r: usize)
        requires
            self.wf(),
        ensures
            r == self.names().len(),
            r == self@.dom().len(),
    {
        assert(self@.dom() =~= self.entries@.dom());
        self.entries.len()
    }

    /// The name stored at position `i`, counting in the order of first insertion.
    pub fn name_at(&self, i: usize) -> (r: &Vec<u8>)
        requires
            self.wf(),
            i < self.names().len(),
        ensures
            r@ == self.names()[i as int],
    {
        self.entries.key_at(i)
    }

    /// The value of the attribute at position `i`.
    pub fn value_at(&self, i: usize) -> (r: &AttributeValue)
        requires
            self.wf(),
            i < self.names().len(),
        ensures
            self@.contains_key(self.names()[i as int]),
            r@ == self@[self.names()[i as int]],
    {
        proof {
            self.entries.lemma_entry(i as int);
        }
        self.entries.value_at(i)
    }
}

} // verus!
