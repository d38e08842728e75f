use vstd::prelude::*;

verus! {

/// Every element is strictly smaller than the next one.
pub open spec fn strictly_increasing(s: Seq<u128>) -> bool {
    forall|i: int, j: int| 0 <= i < j < s.len() ==> s[i] < s[j]
}

/// A strictly increasing sequence has no repeated element, so its length is
/// the number of distinct values in it.
pub proof fn lemma_increasing_distinct_count(s: Seq<u128>)
    requires
        strictly_increasing(s),
    ensures
        s.no_duplicates(),
        s.len() == s.to_set().len(),
{
    assert forall|i: int, j: int| 0 <= i < s.len() && 0 <= j < s.len() && i != j implies s[i]
        != s[j] by {
        if i < j {
            assert(s[i] < s[j]);
        } else {
            assert(s[j] < s[i]);
        }
    }
    s.unique_seq_to_set();
}

/// Two strictly increasing sequences with the same elements are equal: the
/// sorted distinct form of a list depends only on which values it holds, not
/// on their order or on repeats.
pub proof fn lemma_increasing_same_elements_equal(a: Seq<u128>, b: Seq<u128>)
    requires
        strictly_increasing(a),
        strictly_increasing(b),
        forall|x: u128| a.contains(x) <==> b.contains(x),
    ensures
        a == b,
    decreases a.len(),
{
    if a.len() == 0 {
        if b.len() > 0 {
            assert(b.contains(b[0]));
        }
        assert(a =~= b);
    } else {
        assert(a.contains(a[0]));
        assert(b.len() > 0);
        assert(b.contains(b[0]));
        let i = choose|i: int| 0 <= i < b.len() && b[i] == a[0];
        let j = choose|j: int| 0 <= j < a.len() && a[j] == b[0];
        if i > 0 {
            assert(b[0] < b[i]);
        }
        if j > 0 {
            assert(a[0] < a[j]);
        }
        assert(a[0] == b[0]);
        let a1 = a.drop_first();
        let b1 = b.drop_first();
        assert forall|x: u128| a1.contains(x) <==> b1.contains(x) by {
            if a1.contains(x) {
                let k = choose|k: int| 0 <= k < a1.len() && a1[k] == x;
                assert(a[k + 1] == x);
                assert(a.contains(x));
                let m = choose|m: int| 0 <= m < b.len() && b[m] == x;
                assert(a[0] < a[k + 1]);
                assert(m != 0);
                assert(b1[m - 1] == x);
            }
            if b1.contains(x) {
                let k = choose|k: int| 0 <= k < b1.len() && b1[k] == x;
                assert(b[k + 1] == x);
                assert(b.contains(x));
                let m = choose|m: int| 0 <= m < a.len() && a[m] == x;
                assert(b[0] < b[k + 1]);
                assert(m != 0);
                assert(a1[m - 1] == x);
            }
        }
        lemma_increasing_same_elements_equal(a1, b1);
        assert(a[0] == b[0]);
        assert(a.len() == b.len());
        assert forall|k: int| 0 <= k < a.len() implies a[k] == b[k] by {
            if k > 0 {
                assert(a[k] == a1[k - 1]);
                assert(b[k] == b1[k - 1]);
            }
        }
        assert(a =~= b);
    }
}

/// The distinct values of `v`, in ascending order (what sorting then removing
/// duplicates gives).
pub fn sorted_unique(v: &Vec<u128>) -> (r: Vec<u128>)
    ensures
        strictly_increasing(r@),
        forall|x: u128| r@.contains(x) <==> v@.contains(x),
        r.len() <= v.len(),
{
    let mut out: Vec<u128> = Vec::new();
    let n = v.len();
    let mut i: usize = 0;
    while i < n
        invariant
            n == v@.len(),
            i <= n,
            strictly_increasing(out@),
            forall|x: u128| out@.contains(x) <==> v@.subrange(0, i as int).contains(x),
            out.len() <= i,
        decreases n - i,
    {
        let x = v[i];
        let m = out.len();
        let mut pos: usize = 0;
        while pos < m && out[pos] < x
            invariant
                m == out.len(),
                pos <= m,
                forall|k: int| 0 <= k < pos ==> out@[k] < x,
            decreases m - pos,
        {
            pos = pos + 1;
        }
        let ghost before = out@;
        if pos < m && out[pos] == x {
            assert(before[pos as int] == x);
            assert forall|y: u128| out@.contains(y) <==> (before.contains(y) || y == x) by {
                if y == x {
                    assert(before[pos as int] == y);
                }
            }
        } else {
            out.insert(pos, x);
            proof {
                assert(out@ =~= before.subrange(0, pos as int).push(x) + before.subrange(pos as int, m as int));
                assert forall|a: int, b: int| 0 <= a < b < out@.len() implies out@[a] < out@[b] by {
                    if b < pos {
                    } else if b == pos {
                        assert(out@[a] == before[a]);
                    } else if a < pos {
                        assert(out@[a] == before[a]);
                        assert(out@[b] == before[b - 1]);
                        assert(before[b - 1] >= x);
                        if b - 1 > pos {
                            assert(before[pos as int] < before[b - 1]);
                        }
                    } else if a == pos {
                        assert(out@[b] == before[b - 1]);
                        if b - 1 > pos {
                            assert(before[pos as int] < before[b - 1]);
                        }
                    } else {
                        assert(out@[a] == before[a - 1]);
                        assert(out@[b] == before[b - 1]);
                    }
                }
                assert forall|y: u128| out@.contains(y) <==> (before.contains(y) || y == x) by {
                    if out@.contains(y) {
                        let k = choose|k: int| 0 <= k < out@.len() && out@[k] == y;
                        if k < pos {
                            assert(before[k] == y);
                        } else if k > pos {
                            assert(before[k - 1] == y);
                        }
                    }
                    if before.contains(y) {
                        let k = choose|k: int| 0 <= k < before.len() && before[k] == y;
                        if k < pos {
                            assert(out@[k] == y);
                        } else {
                            assert(out@[k + 1] == y);
                        }
                    }
                    if y == x {
                        assert(out@[pos as int] == x);
                    }
                }
            }
        }
        proof {
            let prefix = v@.subrange(0, i as int);
            assert(v@.subrange(0, i + 1) =~= prefix.push(x));
            assert forall|y: u128| prefix.push(x).contains(y) <==> (prefix.contains(y) || y == x) by {
                if prefix.push(x).contains(y) {
                    let k = choose|k: int| 0 <= k < i + 1 && prefix.push(x)[k] == y;
                    if k < i {
                        assert(prefix[k] == y);
                    }
                }
                if prefix.contains(y) {
                    let k = choose|k: int| 0 <= k < i && prefix[k] == y;
                    assert(prefix.push(x)[k] == y);
                }
                if y == x {
                    assert(prefix.push(x)[i as int] == x);
                }
            }
            assert forall|y: u128| out@.contains(y) <==> v@.subrange(0, i + 1).contains(y) by {
                assert(out@.contains(y) <==> (before.contains(y) || y == x));
                assert(before.contains(y) <==> prefix.contains(y));
                assert(prefix.push(x).contains(y) <==> (prefix.contains(y) || y == x));
            }
        }
        i = i + 1;
    }
    assert(v@.subrange(0, n as int) =~= v@);
    out
}

} // verus!
