use vstd::prelude::*;

verus! {

/// The predicate that completion filters candidates by: carrying `p` as a
/// prefix.
pub open spec fn prefix_pred(p: Seq<char>) -> spec_fn(Seq<char>) -> bool {
    |t: Seq<char>| p.is_prefix_of(t)
}

/// The character sequences of a list of strings.
pub open spec fn views_of(s: Seq<String>) -> Seq<Seq<char>> {
    s.map_values(|x: String| x@)
}

/// Whether `s` starts with `prefix`, character by character.
pub fn starts_with_prefix(s: &String, prefix: &String) -> (r: bool)
    ensures
        r == prefix@.is_prefix_of(s@),
{
    let n = prefix.as_str().unicode_len();
    let m = s.as_str().unicode_len();
    if n > m {
        return false;
    }
    let mut i: usize = 0;
    while i < n
        invariant
            i <= n,
            n == prefix@.len(),
            m == s@.len(),
            n <= m,
            forall|j: int| 0 <= j < i ==> s@[j] == prefix@[j],
        decreases n - i,
    {
        if s.as_str().get_char(i) != prefix.as_str().get_char(i) {
            proof {
                if prefix@.is_prefix_of(s@) {
                    assert(prefix@[i as int] == s@.subrange(0, n as int)[i as int]);
                }
            }
            return false;
        }
        i += 1;
    }
    proof {
        assert(prefix@ =~= s@.subrange(0, n as int));
    }
    true
}

/// The candidates that carry `prefix` as a prefix, in their given order:
/// what a completion request answers with.
pub fn filter_by_prefix(candidates: &Vec<String>, prefix: &String) -> (r: Vec<String>)
    ensures
        views_of(r@) == views_of(candidates@).filter(prefix_pred(prefix@)),
{
    let mut out: Vec<String> = Vec::new();
    let n = candidates.len();
    proof {
        reveal(Seq::filter);
        assert(candidates@.take(0) =~= Seq::<String>::empty());
        assert(views_of(candidates@.take(0)) =~= Seq::<Seq<char>>::empty());
        assert(views_of(out@) =~= views_of(candidates@.take(0)).filter(prefix_pred(prefix@)));
    }
    let mut i: usize = 0;
    while i < n
        invariant
            i <= n,
            n == candidates@.len(),
            views_of(out@) == views_of(candidates@.take(i as int)).filter(prefix_pred(prefix@)),
        decreases n - i,
    {
        let ghost pred = prefix_pred(prefix@);
        let ghost m0 = views_of(candidates@.take(i as int));
        let ghost m1 = views_of(candidates@.take(i as int + 1));
        proof {
            assert(candidates@.take(i as int + 1).drop_last() =~= candidates@.take(i as int));
            assert(m1.drop_last() =~= m0);
            assert(m1.last() == candidates@[i as int]@);
            reveal(Seq::filter);
        }
        if starts_with_prefix(&candidates[i], prefix) {
            let ghost out0 = out@;
            out.push(candidates[i].clone());
            proof {
                assert(pred(m1.last()));
                assert(m1.filter(pred) == m0.filter(pred).push(m1.last()));
                assert(views_of(out@) =~= views_of(out0).push(candidates@[i as int]@));
            }
        } else {
            proof {
                assert(!pred(m1.last()));
                assert(m1.filter(pred) == m0.filter(pred));
            }
        }
        i += 1;
    }
    proof {
        assert(candidates@.take(n as int) =~= candidates@);
    }
    out
}

} // verus!
