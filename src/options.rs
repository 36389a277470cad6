//! Option maps held as lists of key/value pairs, and the merge of
//! server-pushed option changes into them.
use vstd::prelude::*;

verus! {

/// Value of `k` in a pair list; a later pair for the same key wins.
pub open spec fn lookup(s: Seq<(String, String)>, k: Seq<char>) -> Option<Seq<char>>
    decreases s.len(),
{
    if s.len() == 0 {
        None
    } else if s.last().0@ == k {
        Some(s.last().1@)
    } else {
        lookup(s.drop_last(), k)
    }
}

/// The map that a pair list stands for.
pub open spec fn map_of(s: Seq<(String, String)>) -> Map<Seq<char>, Seq<char>> {
    Map::new(|k: Seq<char>| lookup(s, k) is Some, |k: Seq<char>| lookup(s, k)->0)
}

/// Options after applying `changes`: a key named there with an empty value is
/// removed, one with a non-empty value is set, every other key is kept.
pub open spec fn merged(
    options: Map<Seq<char>, Seq<char>>,
    changes: Map<Seq<char>, Seq<char>>,
) -> Map<Seq<char>, Seq<char>> {
    Map::new(
        |k: Seq<char>|
            if changes.contains_key(k) {
                changes[k].len() > 0
            } else {
                options.contains_key(k)
            },
        |k: Seq<char>|
            if changes.contains_key(k) {
                changes[k]
            } else {
                options[k]
            },
    )
}

/// Per-key form of `merged` on a single lookup.
pub open spec fn merged_entry(old: Option<Seq<char>>, change: Option<Seq<char>>) -> Option<
    Seq<char>,
> {
    match change {
        Some(v) => if v.len() == 0 {
            None
        } else {
            Some(v)
        },
        None => old,
    }
}

/// Strategy pushed by the server: option overrides to apply and extra
/// informational entries that are not applied.
pub struct StrategyOptions {
    pub config_options: Vec<(String, String)>,
    pub extra: Vec<(String, String)>,
}

/// The entries of `s` whose key is not `k`, in order.
fn without_key(s: &Vec<(String, String)>, k: &String) -> (r: Vec<(String, String)>)
    ensures
        forall|q: Seq<char>| #[trigger]
            lookup(r@, q) == if q == k@ {
                None
            } else {
                lookup(s@, q)
            },
{
    let mut r: Vec<(String, String)> = Vec::new();
    let mut i: usize = 0;
    while i < s.len()
        invariant
            i <= s@.len(),
            forall|q: Seq<char>| #[trigger]
                lookup(r@, q) == if q == k@ {
                    None
                } else {
                    lookup(s@.subrange(0, i as int), q)
                },
        decreases s.len() - i,
    {
        let ghost prev = r@;
        assert(s@.subrange(0, i + 1).drop_last() =~= s@.subrange(0, i as int));
        let same = s[i].0 == *k;
        if !same {
            r.push((s[i].0.clone(), s[i].1.clone()));
            assert(r@.drop_last() =~= prev);
        }
        assert forall|q: Seq<char>| #[trigger]
            lookup(r@, q) == (if q == k@ {
                None
            } else {
                lookup(s@.subrange(0, i + 1), q)
            }) by {
            let t = s@.subrange(0, i + 1);
            assert(t.last() == s@[i as int]);
            assert(t.drop_last() =~= s@.subrange(0, i as int));
            assert(lookup(prev, q) == (if q == k@ {
                None
            } else {
                lookup(s@.subrange(0, i as int), q)
            }));
            if !same {
                assert(r@.last() == s@[i as int]);
            }
        }
        i = i + 1;
    }
    assert(s@.subrange(0, s@.len() as int) =~= s@);
    r
}

/// Applies `changes` to `options` in order: an empty value removes its key,
/// any other value sets it.
pub fn handle_config_options(options: &mut Vec<(String, String)>, changes: &Vec<(String, String)>)
    ensures
        forall|q: Seq<char>| #[trigger]
            lookup(final(options)@, q) == merged_entry(lookup(old(options)@, q), lookup(changes@, q)),
        map_of(final(options)@) == merged(map_of(old(options)@), map_of(changes@)),
{
    let ghost start = options@;
    let mut i: usize = 0;
    while i < changes.len()
        invariant
            i <= changes@.len(),
            forall|q: Seq<char>| #[trigger]
                lookup(options@, q) == merged_entry(
                    lookup(start, q),
                    lookup(changes@.subrange(0, i as int), q),
                ),
        decreases changes.len() - i,
    {
        assert(changes@.subrange(0, i + 1).drop_last() =~= changes@.subrange(0, i as int));
        let mut next = without_key(options, &changes[i].0);
        if changes[i].1.as_str().is_empty() {
            *options = next;
        } else {
            let ghost before = next@;
            next.push((changes[i].0.clone(), changes[i].1.clone()));
            assert(next@.drop_last() =~= before);
            *options = next;
        }
        i = i + 1;
    }
    assert(changes@.subrange(0, changes@.len() as int) =~= changes@);
    assert(map_of(options@) =~= merged(map_of(start), map_of(changes@)));
}

/// Merging the same changes twice leaves the options as merging them once.
pub proof fn lemma_merge_idempotent(
    options: Map<Seq<char>, Seq<char>>,
    changes: Map<Seq<char>, Seq<char>>,
)
    ensures
        merged(merged(options, changes), changes) == merged(options, changes),
{
    assert(merged(merged(options, changes), changes) =~= merged(options, changes));
}

} // verus!
