use vstd::prelude::*;

verus! {

/// The text of each name in a list, in order.
pub open spec fn names(v: Seq<String>) -> Seq<Seq<char>> {
    Seq::new(v.len(), |i: int| v[i]@)
}

/// `s` without the repeats: each name stands where it first occurred.
pub open spec fn first_occurrences(s: Seq<Seq<char>>) -> Seq<Seq<char>>
    decreases s.len(),
{
    if s.len() == 0 {
        Seq::empty()
    } else {
        let init = first_occurrences(s.drop_last());
        if init.contains(s.last()) {
            init
        } else {
            init.push(s.last())
        }
    }
}

/// The names of `wanted` that `actual` does not hold, in the order of
/// `wanted`.
pub open spec fn missing(actual: Seq<Seq<char>>, wanted: Seq<Seq<char>>) -> Seq<Seq<char>>
    decreases wanted.len(),
{
    if wanted.len() == 0 {
        Seq::empty()
    } else {
        let init = missing(actual, wanted.drop_last());
        if actual.contains(wanted.last()) {
            init
        } else {
            init.push(wanted.last())
        }
    }
}

/// Whether `list` holds `name`.
pub fn contains_name(list: &[String], name: &String) -> (r: bool)
    ensures
        r == names(list@).contains(name@),
{
    let mut i: usize = 0;
    while i < list.len()
        invariant
            i <= list@.len(),
            forall|j: int| 0 <= j < i ==> names(list@)[j] != name@,
        decreases list@.len() - i,
    {
        if list[i] == *name {
            assert(names(list@)[i as int] == name@);
            return true;
        }
        i += 1;
    }
    false
}

/// Removes repeated names, keeping each at its first place.
pub fn unique_names(list: Vec<String>) -> (r: Vec<String>)
    ensures
        names(r@) == first_occurrences(names(list@)),
{
    let mut out: Vec<String> = Vec::new();
    let mut i: usize = 0;
    assert(names(out@) =~= Seq::empty());
    while i < list.len()
        invariant
            i <= list@.len(),
            names(out@) == first_occurrences(names(list@).take(i as int)),
        decreases list@.len() - i,
    {
        proof {
            let upto = names(list@).take(i + 1);
            assert(upto.drop_last() =~= names(list@).take(i as int));
            assert(upto.last() == list@[i as int]@);
        }
        if !contains_name(out.as_slice(), &list[i]) {
            let name = list[i].clone();
            assert(names(out@.push(name)) =~= names(out@).push(name@));
            out.push(name);
        }
        i += 1;
    }
    assert(names(list@).take(i as int) =~= names(list@));
    out
}

/// A name is in the result of `first_occurrences` exactly when it is in the
/// input.
pub proof fn lemma_first_occurrences_members(s: Seq<Seq<char>>, x: Seq<char>)
    ensures
        first_occurrences(s).contains(x) <==> s.contains(x),
    decreases s.len(),
{
    if s.len() > 0 {
        let init = s.drop_last();
        lemma_first_occurrences_members(init, x);
        let d = first_occurrences(init);
        let r = first_occurrences(s);
        if r.contains(x) {
            let k = choose|k: int| 0 <= k < r.len() && r[k] == x;
            if k < d.len() {
                assert(d[k] == x);
                assert(d.contains(x));
                let j = choose|j: int| 0 <= j < init.len() && init[j] == x;
                assert(s[j] == x);
            } else {
                assert(s[s.len() - 1] == x);
            }
        }
        if s.contains(x) {
            let j = choose|j: int| 0 <= j < s.len() && s[j] == x;
            if j < init.len() {
                assert(init[j] == x);
                assert(init.contains(x));
                let k = choose|k: int| 0 <= k < d.len() && d[k] == x;
                assert(r[k] == x);
            } else if d.contains(x) {
                let k = choose|k: int| 0 <= k < d.len() && d[k] == x;
                assert(r[k] == x);
            } else {
                assert(r[r.len() - 1] == x);
            }
        }
    }
}

/// The result of `first_occurrences` holds no name twice.
pub proof fn lemma_first_occurrences_unique(s: Seq<Seq<char>>)
    ensures
        first_occurrences(s).no_duplicates(),
    decreases s.len(),
{
    if s.len() > 0 {
        lemma_first_occurrences_unique(s.drop_last());
    }
}

/// Order is that of first occurrence: what a prefix of the input gives is a
/// prefix of what the whole input gives.
pub proof fn lemma_first_occurrences_keeps_order(s: Seq<Seq<char>>, k: int)
    requires
        0 <= k <= s.len(),
    ensures
        first_occurrences(s.take(k)).is_prefix_of(first_occurrences(s)),
    decreases s.len() - k,
{
    if k == s.len() {
        assert(s.take(k) =~= s);
    } else {
        lemma_first_occurrences_keeps_order(s.drop_last(), k);
        assert(s.drop_last().take(k) =~= s.take(k));
    }
}

/// A name is reported missing exactly when it was asked for and is not
/// there: every such name, and no other.
pub proof fn lemma_missing_is_every_absent_name(
    actual: Seq<Seq<char>>,
    wanted: Seq<Seq<char>>,
    x: Seq<char>,
)
    ensures
        missing(actual, wanted).contains(x) <==> wanted.contains(x) && !actual.contains(x),
    decreases wanted.len(),
{
    if wanted.len() > 0 {
        let init = wanted.drop_last();
        lemma_missing_is_every_absent_name(actual, init, x);
        let d = missing(actual, init);
        let r = missing(actual, wanted);
        if r.contains(x) {
            let k = choose|k: int| 0 <= k < r.len() && r[k] == x;
            if k < d.len() {
                assert(d[k] == x);
                assert(d.contains(x));
                let j = choose|j: int| 0 <= j < init.len() && init[j] == x;
                assert(wanted[j] == x);
            } else {
                assert(wanted[wanted.len() - 1] == x);
            }
        }
        if wanted.contains(x) && !actual.contains(x) {
            let j = choose|j: int| 0 <= j < wanted.len() && wanted[j] == x;
            if j < init.len() {
                assert(init[j] == x);
                assert(init.contains(x));
                let k = choose|k: int| 0 <= k < d.len() && d[k] == x;
                assert(r[k] == x);
            } else {
                assert(r[r.len() - 1] == x);
            }
        }
    }
}

} // verus!
