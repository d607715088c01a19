//! Turns SDV topic/value pairs into HAR vehicle data fragments.

use crate::keyed::{distinct_keys, has_key, key_index, lemma_lookup_insert, list_insert, lookup, ListMap};
use vstd::prelude::*;

verus! {

/// The value carried by a vehicle data fragment. `F32` and `F64` hold the
/// IEEE-754 bit patterns of the numbers; `U8` holds a byte widened to 32 bits,
/// as the wire format does.
#[derive(Debug)]
pub enum VehicleDataPoint {
    Bool(bool),
    I32(i32),
    U32(u32),
    F32(u32),
    F64(u64),
    U8(u32),
    String(String),
    Binary(Vec<u8>),
}

/// A vehicle data fragment for HAR: a topic name and a value.
#[derive(Debug)]
pub struct VehicleData {
    pub name: String,
    pub data: Option<VehicleDataPoint>,
}

/// A data point, by view.
pub enum VehicleDataPointView {
    Bool(bool),
    I32(i32),
    U32(u32),
    F32(u32),
    F64(u64),
    U8(u32),
    String(Seq<char>),
    Binary(Seq<u8>),
}

impl View for VehicleDataPoint {
    type V = VehicleDataPointView;

    open spec fn view(&self) -> VehicleDataPointView {
        match self {
            VehicleDataPoint::Bool(x) => VehicleDataPointView::Bool(*x),
            VehicleDataPoint::I32(x) => VehicleDataPointView::I32(*x),
            VehicleDataPoint::U32(x) => VehicleDataPointView::U32(*x),
            VehicleDataPoint::F32(x) => VehicleDataPointView::F32(*x),
            VehicleDataPoint::F64(x) => VehicleDataPointView::F64(*x),
            VehicleDataPoint::U8(x) => VehicleDataPointView::U8(*x),
            VehicleDataPoint::String(x) => VehicleDataPointView::String(x@),
            VehicleDataPoint::Binary(x) => VehicleDataPointView::Binary(x@),
        }
    }
}

/// A fragment, by view.
pub struct VehicleDataView {
    pub name: Seq<char>,
    pub data: Option<VehicleDataPointView>,
}

impl View for VehicleData {
    type V = VehicleDataView;

    open spec fn view(&self) -> VehicleDataView {
        VehicleDataView {
            name: self.name@,
            data: match self.data {
                Some(d) => Some(d@),
                None => None,
            },
        }
    }
}

/// Maps an SDV topic name to a HAR topic name.
pub trait TopicMapper {
    /// The HAR name of the SDV topic `topic`.
    spec fn mapped_topic(&self, topic: Seq<char>) -> Seq<char>;

    /// Converts an SDV topic name to a HAR topic name.
    fn map_topic(&self, topic: String) -> (r: String)
        ensures
            r@ == self.mapped_topic(topic@),
    ;
}

/// Maps SDV topic-message pairs into vehicle data fragments.
pub struct SdvToHarMapper<Mapper: TopicMapper> {
    pub mapper: Mapper,
}

impl<Mapper: TopicMapper> SdvToHarMapper<Mapper> {
    pub fn new(mapper: Mapper) -> (m: Self)
        ensures
            m.mapper == mapper,
    {
        Self { mapper }
    }

    /// The fragment for `topic` with the given value.
    pub open spec fn fragment(&self, topic: Seq<char>, data: VehicleDataPointView) -> VehicleDataView {
        VehicleDataView { name: self.mapper.mapped_topic(topic), data: Some(data) }
    }

    pub fn map_bool(&self, topic: String, message: bool) -> (r: VehicleData)
        ensures
            r@ == self.fragment(topic@, VehicleDataPointView::Bool(message)),
    {
        VehicleData {
            name: self.mapper.map_topic(topic),
            data: Some(VehicleDataPoint::Bool(message)),
        }
    }

    pub fn map_i32(&self, topic: String, message: i32) -> (r: VehicleData)
        ensures
            r@ == self.fragment(topic@, VehicleDataPointView::I32(message)),
    {
        VehicleData { name: self.mapper.map_topic(topic), data: Some(VehicleDataPoint::I32(message)) }
    }

    pub fn map_u32(&self, topic: String, message: u32) -> (r: VehicleData)
        ensures
            r@ == self.fragment(topic@, VehicleDataPointView::U32(message)),
    {
        VehicleData { name: self.mapper.map_topic(topic), data: Some(VehicleDataPoint::U32(message)) }
    }

    /// `message` is the bit pattern of a binary32 number.
    pub fn map_f32(&self, topic: String, message: u32) -> (r: VehicleData)
        ensures
            r@ == self.fragment(topic@, VehicleDataPointView::F32(message)),
    {
        VehicleData { name: self.mapper.map_topic(topic), data: Some(VehicleDataPoint::F32(message)) }
    }

    /// `message` is the bit pattern of a binary64 number.
    pub fn map_f64(&self, topic: String, message: u64) -> (r: VehicleData)
        ensures
            r@ == self.fragment(topic@, VehicleDataPointView::F64(message)),
    {
        VehicleData { name: self.mapper.map_topic(topic), data: Some(VehicleDataPoint::F64(message)) }
    }

    pub fn map_u8(&self, topic: String, message: u8) -> (r: VehicleData)
        ensures
            r@ == self.fragment(topic@, VehicleDataPointView::U8(message as u32)),
    {
        VehicleData {
            name: self.mapper.map_topic(topic),
            data: Some(VehicleDataPoint::U8(message as u32)),
        }
    }

    pub fn map_string(&self, topic: String, message: String) -> (r: VehicleData)
        ensures
            r@ == self.fragment(topic@, VehicleDataPointView::String(message@)),
    {
        VehicleData {
            name: self.mapper.map_topic(topic),
            data: Some(VehicleDataPoint::String(message)),
        }
    }
}

/// The entries after adding each pair in order; a later pair for the same
/// topic replaces the earlier one.
pub open spec fn insert_pairs(
    m: Seq<(Seq<char>, Seq<char>)>,
    pairs: Seq<(Seq<char>, Seq<char>)>,
) -> Seq<(Seq<char>, Seq<char>)>
    decreases pairs.len(),
{
    if pairs.len() == 0 {
        m
    } else {
        list_insert(insert_pairs(m, pairs.drop_last()), pairs.last().0, pairs.last().1)
    }
}

/// Each topic of a table of pairs has an entry once the pairs are added.
pub proof fn lemma_insert_pairs_has_key(
    m: Seq<(Seq<char>, Seq<char>)>,
    pairs: Seq<(Seq<char>, Seq<char>)>,
    i: int,
)
    requires
        0 <= i < pairs.len(),
    ensures
        has_key(insert_pairs(m, pairs), pairs[i].0),
    decreases pairs.len(),
{
    let rest = insert_pairs(m, pairs.drop_last());
    let k = pairs.last().0;
    let v = pairs.last().1;
    if i < pairs.len() - 1 {
        lemma_insert_pairs_has_key(m, pairs.drop_last(), i);
        assert(pairs.drop_last()[i] == pairs[i]);
        let j = key_index(rest, pairs[i].0);
        if has_key(rest, k) {
            let p = key_index(rest, k);
            assert(rest.update(p, (k, v))[j].0 == pairs[i].0);
        } else {
            assert(rest.push((k, v))[j].0 == pairs[i].0);
        }
    } else {
        if has_key(rest, k) {
            let p = key_index(rest, k);
            assert(rest.update(p, (k, v))[p].0 == k);
        } else {
            assert(rest.push((k, v))[rest.len() as int].0 == k);
        }
    }
}

/// What a topic maps to after the pairs are added to an empty table is the
/// HAR name of one of the pairs.
pub proof fn lemma_insert_pairs_value(pairs: Seq<(Seq<char>, Seq<char>)>, k: Seq<char>)
    ensures
        distinct_keys(insert_pairs(Seq::empty(), pairs)),
        has_key(insert_pairs(Seq::empty(), pairs), k) ==> exists|j: int|
            0 <= j < pairs.len() && lookup(insert_pairs(Seq::empty(), pairs), k) == Some(
                #[trigger] pairs[j].1,
            ),
    decreases pairs.len(),
{
    if pairs.len() > 0 {
        let rest = insert_pairs(Seq::empty(), pairs.drop_last());
        lemma_insert_pairs_value(pairs.drop_last(), k);
        let last = pairs.len() - 1;
        lemma_lookup_insert(rest, pairs[last].0, pairs[last].1, k);
        let t = insert_pairs(Seq::empty(), pairs);
        if has_key(t, k) {
            if k == pairs[last].0 {
                assert(lookup(t, k) == Some(pairs[last].1));
            } else {
                assert(lookup(t, k) == lookup(rest, k));
                if has_key(rest, k) {
                    let j = choose|j: int|
                        0 <= j < pairs.drop_last().len() && lookup(rest, k) == Some(
                            #[trigger] pairs.drop_last()[j].1,
                        );
                    assert(pairs.drop_last()[j] == pairs[j]);
                } else {
                    assert(lookup(rest, k) is None);
                    assert(lookup(t, k) is Some) by {
                        let i = key_index(t, k);
                        assert(t[i].0 == k);
                    }
                }
            }
        }
    }
}

/// The views of a table of string pairs.
pub open spec fn pair_views(pairs: Seq<(&str, &str)>) -> Seq<(Seq<char>, Seq<char>)> {
    pairs.map_values(|p: (&str, &str)| (p.0@, p.1@))
}

/// A topic mapper backed by a table; topics without an entry keep their name.
pub struct HashMapTopicMapper {
    map: ListMap<String, String>,
}

impl HashMapTopicMapper {
    /// The entries of the table, in the order they were added.
    pub closed spec fn entries(&self) -> Seq<(Seq<char>, Seq<char>)> {
        self.map@
    }

    #[verifier::type_invariant]
    closed spec fn inv(&self) -> bool {
        self.map.wf()
    }

    pub fn new() -> (m: Self)
        ensures
            m.entries() == Seq::<(Seq<char>, Seq<char>)>::empty(),
            distinct_keys(m.entries()),
    {
        Self { map: ListMap::new() }
    }

    /// Maps the topic `from` to the topic `to`, replacing an earlier mapping.
    pub fn add(&mut self, from: String, to: String)
        ensures
            final(self).entries() == list_insert(old(self).entries(), from@, to@),
            distinct_keys(old(self).entries()),
            distinct_keys(final(self).entries()),
            final(self).mapped_topic(from@) == to@,
            forall|q: Seq<char>|
                q != from@ ==> #[trigger] final(self).mapped_topic(q) == old(self).mapped_topic(q),
    {
        proof {
            use_type_invariant(&*self);
            lemma_lookup_insert(self.entries(), from@, to@, from@);
            assert forall|q: Seq<char>| q != from@ implies #[trigger] lookup(
                list_insert(self.entries(), from@, to@),
                q,
            ) == lookup(self.entries(), q) by {
                lemma_lookup_insert(self.entries(), from@, to@, q);
            }
        }
        let mut map = ListMap::new();
        std::mem::swap(&mut map, &mut self.map);
        map.insert(from, to);
        self.map = map;
    }

    /// A mapper with the pairs of `pairs` added in order.
    pub fn from_pairs(pairs: &Vec<(&str, &str)>) -> (m: Self)
        ensures
            m.entries() == insert_pairs(Seq::empty(), pair_views(pairs@)),
            distinct_keys(m.entries()),
    {
        let mut m = Self::new();
        let n = pairs.len();
        let mut i: usize = 0;
        while i < n
            invariant
                n == pairs@.len(),
                i <= n,
                m.entries() == insert_pairs(Seq::empty(), pair_views(pairs@).subrange(0, i as int)),
                distinct_keys(m.entries()),
            decreases n - i,
        {
            let (from, to) = pairs[i];
            m.add(String::from_str(from), String::from_str(to));
            assert(pair_views(pairs@).subrange(0, i + 1).drop_last() =~= pair_views(
                pairs@,
            ).subrange(0, i as int));
            i = i + 1;
        }
        assert(pair_views(pairs@).subrange(0, n as int) =~= pair_views(pairs@));
        m
    }
}

impl Default for HashMapTopicMapper {
    fn default() -> (m: Self)
        ensures
            m.entries() == Seq::<(Seq<char>, Seq<char>)>::empty(),
    {
        Self::new()
    }
}

/// A topic added to a mapper maps to the name it was added with, and every
/// other topic maps as before.
pub proof fn law_added_topic_maps(
    before: HashMapTopicMapper,
    after: HashMapTopicMapper,
    from: Seq<char>,
    to: Seq<char>,
    other: Seq<char>,
)
    requires
        distinct_keys(before.entries()),
        after.entries() == list_insert(before.entries(), from, to),
        other != from,
    ensures
        after.mapped_topic(from) == to,
        after.mapped_topic(other) == before.mapped_topic(other),
{
    lemma_lookup_insert(before.entries(), from, to, from);
    lemma_lookup_insert(before.entries(), from, to, other);
}

/// A topic without an entry keeps its name.
pub proof fn law_unmapped_topic_keeps_name(m: HashMapTopicMapper, topic: Seq<char>)
    requires
        lookup(m.entries(), topic) is None,
    ensures
        m.mapped_topic(topic) == topic,
{
}

impl TopicMapper for HashMapTopicMapper {
    open spec fn mapped_topic(&self, topic: Seq<char>) -> Seq<char> {
        match lookup(self.entries(), topic) {
            Some(t) => t,
            None => topic,
        }
    }

    fn map_topic(&self, topic: String) -> (r: String)
        ensures
            distinct_keys(self.entries()),
    {
        proof {
            use_type_invariant(self);
        }
        match self.map.get(&topic) {
            Some(t) => t.clone(),
            None => topic,
        }
    }
}

} // verus!
