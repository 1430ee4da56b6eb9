use vstd::prelude::*;
use vstd::hash_map::StringHashMap;

verus! {

/// The headers that `write_all` leaves in `m` after setting each of `hs` in
/// turn, a later value overwriting an earlier one of the same name.
pub open spec fn write_all(m: Map<Seq<char>, Seq<char>>, hs: Seq<(Seq<char>, Seq<char>)>) -> Map<
    Seq<char>,
    Seq<char>,
>
    decreases hs.len(),
{
    if hs.len() == 0 {
        m
    } else {
        write_all(m, hs.drop_last()).insert(hs.last().0, hs.last().1)
    }
}

/// Those of `hs` whose name was already present at the moment each was set,
/// setting them in turn on `m`.
pub open spec fn overwritten_by(m: Map<Seq<char>, Seq<char>>, hs: Seq<(Seq<char>, Seq<char>)>) -> Seq<
    (Seq<char>, Seq<char>),
>
    decreases hs.len(),
{
    if hs.len() == 0 {
        seq![]
    } else {
        let before = write_all(m, hs.drop_last());
        overwritten_by(m, hs.drop_last()) + if before.contains_key(hs.last().0) {
            seq![hs.last()]
        } else {
            seq![]
        }
    }
}

/// Setting `hs` on `m` is the same as laying the headers that `hs` sets on an
/// empty map over `m`.
pub proof fn lemma_write_all_union(m: Map<Seq<char>, Seq<char>>, hs: Seq<(Seq<char>, Seq<char>)>)
    ensures
        write_all(m, hs) == m.union_prefer_right(write_all(Map::empty(), hs)),
    decreases hs.len(),
{
    if hs.len() == 0 {
        assert(m.union_prefer_right(Map::empty()) =~= m);
    } else {
        lemma_write_all_union(m, hs.drop_last());
        assert(write_all(m, hs) =~= m.union_prefer_right(write_all(Map::empty(), hs)));
    }
}

/// Setting the same headers twice leaves what setting them once left.
pub proof fn lemma_write_all_twice(m: Map<Seq<char>, Seq<char>>, hs: Seq<(Seq<char>, Seq<char>)>)
    ensures
        write_all(write_all(m, hs), hs) == write_all(m, hs),
{
    let e = write_all(Map::empty(), hs);
    lemma_write_all_union(m, hs);
    lemma_write_all_union(write_all(m, hs), hs);
    assert(m.union_prefer_right(e).union_prefer_right(e) =~= m.union_prefer_right(e));
}

/// The headers of a response: at most one value for each name, names being
/// compared exactly.
pub struct HeaderSink {
    headers: StringHashMap<String>,
}

impl View for HeaderSink {
    type V = Map<Seq<char>, Seq<char>>;

    closed spec fn view(&self) -> Map<Seq<char>, Seq<char>> {
        self.headers@.map_values(|v: String| v@)
    }
}

impl HeaderSink {
    /// A sink that holds no header.
    pub fn new() -> (r: HeaderSink)
        ensures
            r@ == Map::<Seq<char>, Seq<char>>::empty(),
    {
        let r = HeaderSink { headers: StringHashMap::new() };
        assert(r@ =~= Map::<Seq<char>, Seq<char>>::empty());
        r
    }

    /// Whether a header named `name` is present.
    pub fn has_header(&self, name: &str) -> (r: bool)
        ensures
            r == self@.contains_key(name@),
    {
        self.headers.contains_key(name)
    }

    /// The value of the header named `name`, if present.
    pub fn get(&self, name: &str) -> (r: Option<String>)
        ensures
            r is Some <==> self@.contains_key(name@),
            r is Some ==> r->0@ == self@[name@],
    {
        match self.headers.get(name) {
            Some(v) => Some(v.clone()),
            None => None,
        }
    }

    /// Sets the header `name` to `value`, replacing any value it had. Returns
    /// whether one was replaced.
    pub fn set_header(&mut self, name: String, value: String) -> (replaced: bool)
        ensures
            replaced == old(self)@.contains_key(name@),
            final(self)@ == old(self)@.insert(name@, value@),
    {
        let replaced = self.headers.contains_key(name.as_str());
        let ghost k = name@;
        let ghost v = value@;
        self.headers.insert(name, value);
        assert(self@ =~= old(self)@.insert(k, v));
        replaced
    }
}

} // verus!
