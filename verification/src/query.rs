//! What a session learns of the request that opened it: the path and the
//! parameters of the query string.

use vstd::prelude::*;
use vstd::string::*;

verus! {

/// The name and value pairs that a query string holds, in its order, each
/// decoded.
pub uninterp spec fn query_pairs_of(query: Seq<char>) -> Seq<(Seq<char>, Seq<char>)>;

/// A list of pairs as texts.
pub open spec fn pair_views(pairs: Seq<(String, String)>) -> Seq<(Seq<char>, Seq<char>)> {
    pairs.map_values(|pair: (String, String)| (pair.0@, pair.1@))
}

/// `form_urlencoded::parse` on the bytes of a query string, with each pair
/// it yields made into owned strings. The claim is that the pairs depend on
/// the query alone: they are its decoded pairs, in its order.
#[verifier::external_body]
pub(crate) fn parse_query(query: &str) -> (pairs: Vec<(String, String)>)
    ensures
        pair_views(pairs@) == query_pairs_of(query@),
{
    form_urlencoded::parse(query.as_bytes()).into_owned().collect()
}

/// The mapping that a list of pairs stands for: where a name occurs more
/// than once, its last value counts.
pub open spec fn map_of(pairs: Seq<(Seq<char>, Seq<char>)>) -> Map<Seq<char>, Seq<char>>
    decreases pairs.len(),
{
    if pairs.len() == 0 {
        Map::empty()
    } else {
        map_of(pairs.drop_last()).insert(pairs.last().0, pairs.last().1)
    }
}

/// No name occurs twice in the list.
pub open spec fn distinct_names(pairs: Seq<(Seq<char>, Seq<char>)>) -> bool {
    forall|i: int, j: int| 0 <= i < j < pairs.len() ==> pairs[i].0 != pairs[j].0
}

/// A name that the list lacks is not in its mapping.
pub proof fn lemma_map_of_lacks(pairs: Seq<(Seq<char>, Seq<char>)>, name: Seq<char>)
    requires
        forall|i: int| 0 <= i < pairs.len() ==> pairs[i].0 != name,
    ensures
        !map_of(pairs).contains_key(name),
    decreases pairs.len(),
{
    if pairs.len() > 0 {
        lemma_map_of_lacks(pairs.drop_last(), name);
    }
}

/// In a list without repeated names, each pair is an entry of the mapping.
pub proof fn lemma_map_of_holds(pairs: Seq<(Seq<char>, Seq<char>)>, at: int)
    requires
        distinct_names(pairs),
        0 <= at < pairs.len(),
    ensures
        map_of(pairs).contains_key(pairs[at].0),
        map_of(pairs)[pairs[at].0] == pairs[at].1,
    decreases pairs.len(),
{
    if at < pairs.len() - 1 {
        lemma_map_of_holds(pairs.drop_last(), at);
    }
}

/// In a list without repeated names, to replace a pair's value is to
/// insert the name with the new value.
pub proof fn lemma_map_of_update(pairs: Seq<(Seq<char>, Seq<char>)>, at: int, value: Seq<char>)
    requires
        distinct_names(pairs),
        0 <= at < pairs.len(),
    ensures
        map_of(pairs.update(at, (pairs[at].0, value))) == map_of(pairs).insert(pairs[at].0, value),
        distinct_names(pairs.update(at, (pairs[at].0, value))),
    decreases pairs.len(),
{
    let updated = pairs.update(at, (pairs[at].0, value));
    if at == pairs.len() - 1 {
        assert(updated.drop_last() =~= pairs.drop_last());
        assert(map_of(updated) =~= map_of(pairs).insert(pairs[at].0, value));
    } else {
        lemma_map_of_update(pairs.drop_last(), at, value);
        assert(updated.drop_last() =~= pairs.drop_last().update(at, (pairs[at].0, value)));
        assert(map_of(updated) =~= map_of(pairs).insert(pairs[at].0, value));
    }
}

/// A list without repeated names has as many pairs as its mapping has
/// entries.
pub proof fn lemma_map_of_len(pairs: Seq<(Seq<char>, Seq<char>)>)
    requires
        distinct_names(pairs),
    ensures
        map_of(pairs).dom().finite(),
        map_of(pairs).len() == pairs.len(),
    decreases pairs.len(),
{
    if pairs.len() > 0 {
        lemma_map_of_len(pairs.drop_last());
        assert forall|i: int| 0 <= i < pairs.drop_last().len() implies pairs.drop_last()[i].0
            != pairs.last().0 by {}
        lemma_map_of_lacks(pairs.drop_last(), pairs.last().0);
    }
}

/// Where the name stands in a list of pairs, if it does.
fn position(entries: &Vec<(String, String)>, name: &str) -> (at: Option<usize>)
    ensures
        match at {
            Some(at) => at < entries@.len() && entries@[at as int].0@ == name@,
            None => forall|i: int| 0 <= i < entries@.len() ==> entries@[i].0@ != name@,
        },
{
    let mut at: usize = 0;
    while at < entries.len()
        invariant
            at <= entries@.len(),
            forall|i: int| 0 <= i < at ==> entries@[i].0@ != name@,
        decreases entries@.len() - at,
    {
        if *entries[at].0.as_str() == *name {
            return Some(at);
        }
        at = at + 1;
    }
    None
}

/// The parameters of a query string: each name once, with its value.
#[derive(Debug)]
pub struct QueryParams {
    entries: Vec<(String, String)>,
}

impl View for QueryParams {
    type V = Map<Seq<char>, Seq<char>>;

    closed spec fn view(&self) -> Map<Seq<char>, Seq<char>> {
        map_of(pair_views(self.entries@))
    }
}

impl QueryParams {
    #[verifier::type_invariant]
    spec fn well_formed(&self) -> bool {
        distinct_names(pair_views(self.entries@))
    }

    /// No parameters.
    pub fn new() -> (params: QueryParams)
        ensures
            params@ == Map::<Seq<char>, Seq<char>>::empty(),
    {
        QueryParams { entries: Vec::new() }
    }

    /// Gives the name this value; a value that the name had is replaced.
    pub fn insert(&mut self, name: String, value: String)
        ensures
            final(self)@ == old(self)@.insert(name@, value@),
    {
        proof {
            use_type_invariant(&*self);
        }
        let mut entries: Vec<(String, String)> = Vec::new();
        core::mem::swap(&mut self.entries, &mut entries);
        let ghost before = pair_views(entries@);
        match position(&entries, name.as_str()) {
            Some(at) => {
                proof {
                    lemma_map_of_update(before, at as int, value@);
                    assert(pair_views(entries@.update(at as int, (name, value))) =~= before.update(
                        at as int,
                        (before[at as int].0, value@),
                    ));
                }
                entries.set(at, (name, value));
            },
            None => {
                proof {
                    let after = pair_views(entries@.push((name, value)));
                    assert(after =~= before.push((name@, value@)));
                    assert(after.drop_last() =~= before);
                }
                entries.push((name, value));
            },
        }
        self.entries = entries;
    }

    /// The value of a name, where it has one.
    pub fn get(&self, name: &str) -> (value: Option<&str>)
        ensures
            match value {
                Some(value) => self@.contains_key(name@) && self@[name@] == value@,
                None => !self@.contains_key(name@),
            },
    {
        proof {
            use_type_invariant(self);
        }
        match position(&self.entries, name) {
            Some(at) => {
                proof {
                    lemma_map_of_holds(pair_views(self.entries@), at as int);
                }
                Some(self.entries[at].1.as_str())
            },
            None => {
                proof {
                    lemma_map_of_lacks(pair_views(self.entries@), name@);
                }
                None
            },
        }
    }

    /// How many names have a value.
    pub fn len(&self) -> (len: usize)
        ensures
            self@.dom().finite(),
            len == self@.len(),
    {
        proof {
            use_type_invariant(self);
            lemma_map_of_len(pair_views(self.entries@));
        }
        self.entries.len()
    }

    /// The parameters that a list of pairs stands for: a later pair
    /// replaces an earlier one of the same name.
    pub fn from_pairs(pairs: Vec<(String, String)>) -> (params: QueryParams)
        ensures
            params@ == map_of(pair_views(pairs@)),
    {
        let ghost all = pair_views(pairs@);
        let mut params = QueryParams::new();
        for pair in it: pairs.into_iter()
            invariant
                all == pair_views(it.seq()),
                params@ == map_of(all.take(it.index())),
        {
            proof {
                assert(all.take(it.index() + 1).drop_last() =~= all.take(it.index()));
            }
            let (name, value) = pair;
            params.insert(name, value);
        }
        assert(all.take(all.len() as int) =~= all);
        params
    }

    /// The parameters as a list, each name once.
    pub fn into_pairs(self) -> (pairs: Vec<(String, String)>)
        ensures
            distinct_names(pair_views(pairs@)),
            map_of(pair_views(pairs@)) == self@,
    {
        proof {
            use_type_invariant(&self);
        }
        self.entries
    }
}

/// What is known of the request that opened a session.
#[derive(Debug)]
pub struct ConnectionDetails {
    /// The path that was asked for.
    pub path: String,
    /// The parameters of the query string.
    pub query_params: QueryParams,
}

impl ConnectionDetails {
    /// The details of a request, from its path and its query string: of
    /// the pairs that the query holds, the last of each name counts.
    pub fn new(path: &str, query: Option<&str>) -> (details: ConnectionDetails)
        ensures
            details.path@ == path@,
            details.query_params@ == map_of(
                query_pairs_of(
                    match query {
                        Some(query) => query@,
                        None => Seq::empty(),
                    },
                ),
            ),
    {
        proof {
            reveal_strlit("");
        }
        let text = match query {
            Some(query) => query,
            None => "",
        };
        assert(text@ =~= match query {
            Some(query) => query@,
            None => Seq::empty(),
        });
        let pairs = parse_query(text);
        ConnectionDetails {
            path: String::from_str(path),
            query_params: QueryParams::from_pairs(pairs),
        }
    }
}

} // verus!
