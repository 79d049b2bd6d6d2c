//! Query parameters of list calls: at most one value per name.
use vstd::prelude::*;

verus! {

/// The form-urlencoded text of name/value pairs, in order.
pub uninterp spec fn urlencoded(pairs: Seq<(Seq<char>, Seq<char>)>) -> Seq<char>;

/// Relies on `url::form_urlencoded::Serializer`: the pairs, encoded in order.
#[verifier::external_body]
fn form_urlencode(pairs: &Vec<(String, String)>) -> (r: String)
    ensures
        r@ == urlencoded(pairs@.map_values(|p: (String, String)| (p.0@, p.1@))),
{
    url::form_urlencoded::Serializer::new(String::new())
        .extend_pairs(pairs.iter().map(|p| (p.0.as_str(), p.1.as_str())))
        .finish()
}

/// Whether no name occurs twice.
pub open spec fn unique_names(s: Seq<(Seq<char>, Seq<char>)>) -> bool {
    forall|i: int, j: int| 0 <= i < s.len() && 0 <= j < s.len() && i != j ==> #[trigger] s[i].0 != #[trigger] s[j].0
}

/// The value of each name.
pub open spec fn as_map(s: Seq<(Seq<char>, Seq<char>)>) -> Map<Seq<char>, Seq<char>> {
    Map::new(
        |k: Seq<char>| exists|i: int| 0 <= i < s.len() && #[trigger] s[i].0 == k,
        |k: Seq<char>| s[choose|i: int| 0 <= i < s.len() && #[trigger] s[i].0 == k].1,
    )
}

/// Query parameters, kept in the order their names were first set.
#[derive(Debug)]
pub struct QueryParams {
    pairs: Vec<(String, String)>,
}

impl View for QueryParams {
    type V = Seq<(Seq<char>, Seq<char>)>;

    closed spec fn view(&self) -> Seq<(Seq<char>, Seq<char>)> {
        self.pairs@.map_values(|p: (String, String)| (p.0@, p.1@))
    }
}

impl QueryParams {
    /// No name occurs twice.
    pub open spec fn wf(&self) -> bool {
        unique_names(self@)
    }

    /// No parameters.
    pub fn new() -> (r: QueryParams)
        ensures
            r.wf(),
            r@ == Seq::<(Seq<char>, Seq<char>)>::empty(),
    {
        let r = QueryParams { pairs: Vec::new() };
        assert(r@ =~= Seq::<(Seq<char>, Seq<char>)>::empty());
        r
    }

    /// Whether there are none.
    pub fn is_empty(&self) -> (r: bool)
        ensures
            r == (self@.len() == 0),
    {
        self.pairs.len() == 0
    }

    /// The number of parameters.
    pub fn len(&self) -> (r: usize)
        ensures
            r == self@.len(),
    {
        self.pairs.len()
    }

    /// The name and value of the `i`-th parameter.
    pub fn get(&self, i: usize) -> (r: (&str, &str))
        requires
            i < self@.len(),
        ensures
            r.0@ == self@[i as int].0,
            r.1@ == self@[i as int].1,
    {
        let p = &self.pairs[i];
        (p.0.as_str(), p.1.as_str())
    }

    /// Sets a parameter: a name already set keeps its place and takes the
    /// new value, a new name goes last.
    pub fn insert(&mut self, name: &str, value: String)
        requires
            old(self).wf(),
        ensures
            final(self).wf(),
            as_map(final(self)@) == as_map(old(self)@).insert(name@, value@),
            (exists|i: int| 0 <= i < old(self)@.len() && #[trigger] old(self)@[i].0 == name@)
                ==> final(self)@.len() == old(self)@.len(),
            !(exists|i: int| 0 <= i < old(self)@.len() && #[trigger] old(self)@[i].0 == name@)
                ==> final(self)@ == old(self)@.push((name@, value@)),
    {
        let ghost s0 = self@;
        let key = String::from_str(name);
        match self.position(&key) {
            Some(i) => {
                let ghost s1 = s0.update(i as int, (name@, value@));
                self.pairs.set(i, (key, value));
                assert(self@ =~= s1);
                assert(unique_names(s1));
                assert(as_map(s1) =~= as_map(s0).insert(name@, value@)) by {
                    assert forall|k: Seq<char>| #[trigger] as_map(s1).contains_key(k) == as_map(s0).insert(name@, value@).contains_key(k) by {
                        if k == name@ {
                            assert(s1[i as int].0 == k);
                        } else {
                            if as_map(s0).contains_key(k) {
                                let j = choose|j: int| 0 <= j < s0.len() && #[trigger] s0[j].0 == k;
                                assert(s1[j].0 == k);
                            }
                            if as_map(s1).contains_key(k) {
                                let j = choose|j: int| 0 <= j < s1.len() && #[trigger] s1[j].0 == k;
                                assert(s0[j].0 == k);
                            }
                        }
                    }
                    assert forall|k: Seq<char>| as_map(s1).contains_key(k) implies #[trigger] as_map(s1)[k] == as_map(s0).insert(name@, value@)[k] by {
                        let j = choose|j: int| 0 <= j < s1.len() && #[trigger] s1[j].0 == k;
                        if k == name@ {
                            assert(j == i);
                        } else {
                            assert(s0[j].0 == k);
                            let j0 = choose|j0: int| 0 <= j0 < s0.len() && #[trigger] s0[j0].0 == k;
                            assert(j0 == j);
                        }
                    }
                }
            },
            None => {
                let ghost s1 = s0.push((name@, value@));
                self.pairs.push((key, value));
                assert(self@ =~= s1);
                assert(as_map(s1) =~= as_map(s0).insert(name@, value@)) by {
                    assert forall|k: Seq<char>| #[trigger] as_map(s1).contains_key(k) == as_map(s0).insert(name@, value@).contains_key(k) by {
                        if k == name@ {
                            assert(s1[s0.len() as int].0 == k);
                        } else {
                            if as_map(s0).contains_key(k) {
                                let j = choose|j: int| 0 <= j < s0.len() && #[trigger] s0[j].0 == k;
                                assert(s1[j].0 == k);
                            }
                            if as_map(s1).contains_key(k) {
                                let j = choose|j: int| 0 <= j < s1.len() && #[trigger] s1[j].0 == k;
                                assert(s0[j].0 == k);
                            }
                        }
                    }
                    assert forall|k: Seq<char>| as_map(s1).contains_key(k) implies #[trigger] as_map(s1)[k] == as_map(s0).insert(name@, value@)[k] by {
                        let j = choose|j: int| 0 <= j < s1.len() && #[trigger] s1[j].0 == k;
                        if k == name@ {
                            assert(j == s0.len());
                        } else {
                            assert(s0[j].0 == k);
                            let j0 = choose|j0: int| 0 <= j0 < s0.len() && #[trigger] s0[j0].0 == k;
                            assert(j0 == j);
                        }
                    }
                }
            },
        }
    }

    /// The place of a name, if it is set.
    fn position(&self, key: &String) -> (r: Option<usize>)
        ensures
            match r {
                Some(i) => i < self@.len() && self@[i as int].0 == key@,
                None => forall|j: int| 0 <= j < self@.len() ==> #[trigger] self@[j].0 != key@,
            },
    {
        let mut i: usize = 0;
        while i < self.pairs.len()
            invariant
                i <= self.pairs.len(),
                forall|j: int| 0 <= j < i ==> #[trigger] self@[j].0 != key@,
            decreases self.pairs.len() - i,
        {
            let same = self.pairs[i].0 == *key;
            assert(self@[i as int] == (self.pairs@[i as int].0@, self.pairs@[i as int].1@));
            if same {
                return Some(i);
            }
            i = i + 1;
        }
        None
    }

    /// The parameters as a query text; `None` when there are none.
    pub fn serialize(&self) -> (r: Option<String>)
        ensures
            self@.len() == 0 ==> r is None,
            self@.len() > 0 ==> (r matches Some(t) && t@ == urlencoded(self@)),
    {
        if self.pairs.len() == 0 {
            None
        } else {
            Some(form_urlencode(&self.pairs))
        }
    }

    /// A copy with the same parameters.
    pub fn copy(&self) -> (r: QueryParams)
        ensures
            r@ == self@,
    {
        let mut pairs: Vec<(String, String)> = Vec::new();
        let mut i: usize = 0;
        while i < self.pairs.len()
            invariant
                i <= self.pairs.len(),
                pairs@.len() == i,
                pairs@.map_values(|p: (String, String)| (p.0@, p.1@)) == self@.subrange(0, i as int),
            decreases self.pairs.len() - i,
        {
            let p = &self.pairs[i];
            let ghost before = pairs@;
            pairs.push((p.0.clone(), p.1.clone()));
            assert(pairs@.map_values(|p: (String, String)| (p.0@, p.1@)) =~= self@.subrange(0, i as int + 1)) by {
                assert(self@[i as int] == (self.pairs@[i as int].0@, self.pairs@[i as int].1@));
            }
            i = i + 1;
        }
        let r = QueryParams { pairs };
        assert(self@.subrange(0, self@.len() as int) =~= self@);
        r
    }
}

} // verus!
