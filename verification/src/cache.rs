//! The cache of resolved dispatch ids.
//!
//! The automation object assigns every method it exposes a dispatch id, and answers the
//! sentinel [`DISPID_UNKNOWN`] for a name it does not expose. A name is asked for once: the
//! answer, also a negative one, is kept for as long as the cache lives.

use vstd::prelude::*;

verus! {

/// The id that stands for "no such method".
pub const DISPID_UNKNOWN: i32 = -1;

/// What a method name resolves to.
#[derive(Debug, Clone, Copy, PartialEq, Eq, Structural)]
pub enum Resolution {
    /// The automation object exposes the method under this dispatch id.
    Id(i32),
    /// The automation object does not expose the method.
    NotFound,
}

/// How a cached id reads: the sentinel as `NotFound`, every other id as itself.
pub open spec fn resolution_of(id: i32) -> Resolution {
    if id == DISPID_UNKNOWN {
        Resolution::NotFound
    } else {
        Resolution::Id(id)
    }
}

/// The id that is cached for an answer of the automation object. A lookup that failed
/// counts as the sentinel.
pub open spec fn answered_id(answer: Option<i32>) -> i32 {
    match answer {
        Some(id) => id,
        None => DISPID_UNKNOWN,
    }
}

/// What a cache with the given content resolves a name to; `None` while the name was never
/// asked for.
pub open spec fn spec_resolve(cache: Map<Seq<char>, i32>, name: Seq<char>) -> Option<Resolution> {
    if cache.contains_key(name) {
        Some(resolution_of(cache[name]))
    } else {
        None
    }
}

/// The content of a cache after it learned an answer for a name. The first answer stays.
pub open spec fn spec_learn(
    cache: Map<Seq<char>, i32>,
    name: Seq<char>,
    answer: Option<i32>,
) -> Map<Seq<char>, i32> {
    if cache.contains_key(name) {
        cache
    } else {
        cache.insert(name, answered_id(answer))
    }
}

/// The content of a cache after it learned a series of answers, in order.
pub open spec fn spec_learn_all(
    cache: Map<Seq<char>, i32>,
    answers: Seq<(Seq<char>, Option<i32>)>,
) -> Map<Seq<char>, i32>
    decreases answers.len(),
{
    if answers.len() == 0 {
        cache
    } else {
        spec_learn_all(spec_learn(cache, answers[0].0, answers[0].1), answers.drop_first())
    }
}

/// The names of the entries, in order.
spec fn names_of(entries: Seq<(String, i32)>) -> Seq<Seq<char>> {
    entries.map_values(|e: (String, i32)| e.0@)
}

/// Method names with the dispatch ids that the automation object answered for them.
#[derive(Debug)]
pub struct DispIdCache {
    entries: Vec<(String, i32)>,
}

impl View for DispIdCache {
    type V = Map<Seq<char>, i32>;

    /// The cached id of every name that was asked for.
    closed spec fn view(&self) -> Map<Seq<char>, i32> {
        let names = names_of(self.entries@);
        Map::new(
            |name: Seq<char>| names.contains(name),
            |name: Seq<char>| self.entries@[names.index_of(name)].1,
        )
    }
}

impl DispIdCache {
    #[verifier::type_invariant]
    spec fn no_name_twice(&self) -> bool {
        names_of(self.entries@).no_duplicates()
    }

    /// A cache that knows no name.
    pub fn new() -> (cache: Self)
        ensures
            cache@ == Map::<Seq<char>, i32>::empty(),
    {
        let cache = DispIdCache { entries: Vec::new() };
        assert(cache@ =~= Map::<Seq<char>, i32>::empty());
        cache
    }

    /// The position of `name` among the entries, if it has one.
    fn position(&self, name: &String) -> (at: Option<usize>)
        ensures
            match at {
                Some(i) => i < self.entries@.len() && names_of(self.entries@)[i as int] == name@,
                None => !names_of(self.entries@).contains(name@),
            },
    {
        let mut i: usize = 0;
        while i < self.entries.len()
            invariant
                i <= self.entries@.len(),
                forall|j: int| 0 <= j < i ==> names_of(self.entries@)[j] != name@,
            decreases self.entries@.len() - i,
        {
            if self.entries[i].0 == *name {
                return Some(i);
            }
            i += 1;
        }
        None
    }

    /// What `name` resolves to, as far as the cache knows: `None` if the automation object
    /// was never asked for it.
    pub fn resolve(&self, name: &str) -> (found: Option<Resolution>)
        ensures
            found == spec_resolve(self@, name@),
    {
        proof {
            use_type_invariant(self);
        }
        let key = name.to_owned();
        match self.position(&key) {
            Some(i) => {
                let id = self.entries[i].1;
                assert(names_of(self.entries@).contains(name@));
                if id == DISPID_UNKNOWN {
                    Some(Resolution::NotFound)
                } else {
                    Some(Resolution::Id(id))
                }
            },
            None => None,
        }
    }

    /// Takes in what the automation object answered when it was asked for `name`: `Some` id,
    /// or `None` if the lookup failed. An answer for a name that the cache already knows
    /// changes nothing. Returns what the name resolves to from now on.
    pub fn learn(&mut self, name: &str, answer: Option<i32>) -> (now: Resolution)
        ensures
            final(self)@ == spec_learn(old(self)@, name@, answer),
            Some(now) == spec_resolve(final(self)@, name@),
    {
        proof {
            use_type_invariant(&*self);
        }
        let key = name.to_owned();
        let id = match self.position(&key) {
            Some(i) => {
                assert(names_of(self.entries@).contains(name@));
                self.entries[i].1
            },
            None => {
                let id = match answer {
                    Some(id) => id,
                    None => DISPID_UNKNOWN,
                };
                let ghost names = names_of(self.entries@);
                // The list leaves the cache while it grows: the cache has to be well formed
                // whenever it is borrowed.
                let mut entries: Vec<(String, i32)> = Vec::new();
                core::mem::swap(&mut self.entries, &mut entries);
                entries.push((key, id));
                proof {
                    assert(names_of(entries@) =~= names.push(name@));
                }
                core::mem::swap(&mut self.entries, &mut entries);
                proof {
                    let grown = names_of(self.entries@);
                    assert(grown[names.len() as int] == name@);
                    assert forall|other: Seq<char>| names.contains(other) implies grown.contains(
                        other,
                    ) && grown.index_of(other) == names.index_of(other) by {
                        assert(grown[names.index_of(other)] == other);
                    }
                    assert(self@ =~= old(self)@.insert(name@, id));
                }
                id
            },
        };
        if id == DISPID_UNKNOWN {
            Resolution::NotFound
        } else {
            Resolution::Id(id)
        }
    }
}

/// Whatever a cache learns later, a name that it knows keeps its id.
pub proof fn lemma_learned_stays(
    cache: Map<Seq<char>, i32>,
    name: Seq<char>,
    later: Seq<(Seq<char>, Option<i32>)>,
)
    requires
        cache.contains_key(name),
    ensures
        spec_learn_all(cache, later).contains_key(name),
        spec_learn_all(cache, later)[name] == cache[name],
    decreases later.len(),
{
    if later.len() > 0 {
        lemma_learned_stays(spec_learn(cache, later[0].0, later[0].1), name, later.drop_first());
    }
}

/// Negative answers are cached for good. If the automation object does not expose a name
/// (it answers the sentinel, or the lookup fails), the name resolves to `NotFound` from the
/// first answer on, whatever the cache learns later about this name or any other.
pub proof fn lemma_not_found_stays(
    cache: Map<Seq<char>, i32>,
    name: Seq<char>,
    answer: Option<i32>,
    later: Seq<(Seq<char>, Option<i32>)>,
)
    requires
        !cache.contains_key(name),
        answered_id(answer) == DISPID_UNKNOWN,
    ensures
        spec_resolve(spec_learn(cache, name, answer), name) == Some(Resolution::NotFound),
        spec_resolve(spec_learn_all(spec_learn(cache, name, answer), later), name) == Some(
            Resolution::NotFound,
        ),
{
    lemma_learned_stays(spec_learn(cache, name, answer), name, later);
}

/// A resolved id is stable. If the automation object exposes a name under an id, the name
/// resolves to that id from the first answer on, whatever the cache learns later; a second
/// answer for the same name, even a different one, does not replace it.
pub proof fn lemma_id_stays(
    cache: Map<Seq<char>, i32>,
    name: Seq<char>,
    id: i32,
    later: Seq<(Seq<char>, Option<i32>)>,
)
    requires
        !cache.contains_key(name),
        id != DISPID_UNKNOWN,
    ensures
        spec_resolve(spec_learn(cache, name, Some(id)), name) == Some(Resolution::Id(id)),
        spec_resolve(spec_learn_all(spec_learn(cache, name, Some(id)), later), name) == Some(
            Resolution::Id(id),
        ),
{
    lemma_learned_stays(spec_learn(cache, name, Some(id)), name, later);
}

/// A name is looked up at most once: as soon as the cache has learned an answer for it, it
/// never again reports the name as unresolved.
pub proof fn lemma_asked_once(
    cache: Map<Seq<char>, i32>,
    name: Seq<char>,
    answer: Option<i32>,
    later: Seq<(Seq<char>, Option<i32>)>,
)
    ensures
        spec_resolve(spec_learn_all(spec_learn(cache, name, answer), later), name) is Some,
{
    lemma_learned_stays(spec_learn(cache, name, answer), name, later);
}

} // verus!
