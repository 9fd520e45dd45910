//! Ordering rows by name: the lexicographic order of texts, character by
//! character, and a stable sort of rows by it.

use vstd::prelude::*;

verus! {

broadcast use vstd::seq_lib::group_to_multiset_ensures;

/// `a` comes no later than `b`: lexicographic order by character code, a
/// prefix before every longer text.
pub open spec fn text_le(a: Seq<char>, b: Seq<char>) -> bool
    decreases a.len(),
{
    if a.len() == 0 {
        true
    } else if b.len() == 0 {
        false
    } else if (a[0] as int) < (b[0] as int) {
        true
    } else if (a[0] as int) > (b[0] as int) {
        false
    } else {
        text_le(a.drop_first(), b.drop_first())
    }
}

/// Every text comes no later than itself.
pub proof fn text_le_reflexive(a: Seq<char>)
    ensures
        text_le(a, a),
    decreases a.len(),
{
    if a.len() > 0 {
        text_le_reflexive(a.drop_first());
    }
}

/// Of any two texts, one comes no later than the other: names always compare.
pub proof fn text_le_total(a: Seq<char>, b: Seq<char>)
    ensures
        text_le(a, b) || text_le(b, a),
    decreases a.len(),
{
    if a.len() > 0 && b.len() > 0 && a[0] as int == b[0] as int {
        text_le_total(a.drop_first(), b.drop_first());
    }
}

/// The order of names is transitive.
pub proof fn text_le_transitive(a: Seq<char>, b: Seq<char>, c: Seq<char>)
    requires
        text_le(a, b),
        text_le(b, c),
    ensures
        text_le(a, c),
    decreases a.len(),
{
    if a.len() > 0 && b.len() > 0 && c.len() > 0 && a[0] as int == b[0] as int && b[0] as int == c[0] as int {
        text_le_transitive(a.drop_first(), b.drop_first(), c.drop_first());
    }
}

/// Two texts that each come no later than the other are the same text.
pub proof fn text_le_antisymmetric(a: Seq<char>, b: Seq<char>)
    requires
        text_le(a, b),
        text_le(b, a),
    ensures
        a == b,
    decreases a.len(),
{
    if a.len() > 0 && b.len() > 0 {
        assert(a[0] as int == b[0] as int);
        assert(a[0] == b[0]);
        text_le_antisymmetric(a.drop_first(), b.drop_first());
        assert(a =~= seq![a[0]] + a.drop_first());
        assert(b =~= seq![b[0]] + b.drop_first());
    } else {
        assert(a.len() == 0 && b.len() == 0);
        assert(a =~= b);
    }
}

/// Whether one text comes no later than the other.
pub fn text_at_most(a: &Vec<char>, b: &Vec<char>) -> (r: bool)
    ensures
        r == text_le(a@, b@),
{
    let n = a.len();
    let m = b.len();
    let mut i: usize = 0;
    proof {
        assert(a@.skip(0) =~= a@);
        assert(b@.skip(0) =~= b@);
    }
    while i < n && i < m
        invariant
            n == a@.len(),
            m == b@.len(),
            i <= n,
            i <= m,
            text_le(a@, b@) == text_le(a@.skip(i as int), b@.skip(i as int)),
        decreases n - i,
    {
        let x = a[i];
        let y = b[i];
        proof {
            assert(a@.skip(i as int)[0] == a@[i as int]);
            assert(b@.skip(i as int)[0] == b@[i as int]);
        }
        if x < y {
            return true;
        }
        if x > y {
            return false;
        }
        proof {
            assert(a@.skip(i as int).drop_first() =~= a@.skip(i + 1));
            assert(b@.skip(i as int).drop_first() =~= b@.skip(i + 1));
        }
        i = i + 1;
    }
    proof {
        assert(a@.skip(i as int).len() == n - i);
        assert(b@.skip(i as int).len() == m - i);
    }
    i == n
}

/// Rows in name order: every row's name comes no later than the next one's.
pub open spec fn sorted_by_name(names: Seq<Seq<char>>, rows: Seq<usize>) -> bool {
    forall|i: int, j: int| 0 <= i < j < rows.len() ==> text_le(names[rows[i] as int], names[rows[j] as int])
}

/// Rows of equal name keep the order they came in.
pub open spec fn stable_by_name(names: Seq<Seq<char>>, rows: Seq<usize>) -> bool {
    forall|i: int, j: int| 0 <= i < j < rows.len() && names[rows[i] as int] == names[rows[j] as int] ==> rows[i] < rows[j]
}

/// `r` is `rows` reordered: row `i` of `r` is row `order[i]` of `rows`, and
/// `order` takes every position of `rows` exactly once.
pub open spec fn reordering(rows: Seq<usize>, r: Seq<usize>, order: Seq<int>) -> bool {
    &&& r.len() == rows.len()
    &&& order.len() == rows.len()
    &&& forall|i: int| 0 <= i < order.len() ==> 0 <= #[trigger] order[i] < rows.len()
    &&& forall|i: int, j: int| 0 <= i < j < order.len() ==> order[i] != order[j]
    &&& forall|i: int| 0 <= i < r.len() ==> r[i] == rows[#[trigger] order[i]]
}

/// Rows of equal name keep the order they came in: of two rows with the same
/// name, the one earlier in the input stays earlier.
pub open spec fn stable_reordering(names: Seq<Seq<char>>, r: Seq<usize>, order: Seq<int>) -> bool {
    forall|i: int, j: int| 0 <= i < j < r.len() && names[r[i] as int] == names[r[j] as int] ==> order[i] < order[j]
}

/// Sorts rows (positions into `names`, in any order, repeats allowed) by
/// name, rows of equal name keeping the order they came in: what `sort_by`
/// on the names does.
pub fn sort_by_name(names: &Vec<Vec<char>>, rows: &Vec<usize>) -> (r: Vec<usize>)
    requires
        forall|i: int| 0 <= i < rows@.len() ==> rows@[i] < names@.len(),
    ensures
        r@.len() == rows@.len(),
        sorted_by_name(names@.map_values(|n: Vec<char>| n@), r@),
        exists|order: Seq<int>|
            reordering(rows@, r@, order) && stable_reordering(names@.map_values(|n: Vec<char>| n@), r@, order),
{
    let ghost nm = names@.map_values(|n: Vec<char>| n@);
    let n = rows.len();
    // The name of each row, and the rows' own positions, which are increasing.
    let mut keyed: Vec<Vec<char>> = Vec::new();
    let mut at: Vec<usize> = Vec::new();
    for k in 0..n
        invariant
            n == rows@.len(),
            nm == names@.map_values(|n: Vec<char>| n@),
            forall|i: int| 0 <= i < rows@.len() ==> rows@[i] < names@.len(),
            keyed@.len() == k,
            at@ == positions(k as nat),
            forall|i: int| 0 <= i < k ==> (#[trigger] keyed@[i])@ == nm[rows@[i] as int],
    {
        let name = &names[rows[k]];
        let mut copy: Vec<char> = Vec::new();
        for c in 0..name.len()
            invariant
                copy@ == name@.take(c as int),
        {
            copy.push(name[c]);
            proof { assert(name@.take(c + 1) =~= name@.take(c as int).push(name@[c as int])); }
        }
        proof { assert(name@.take(name@.len() as int) =~= name@); }
        keyed.push(copy);
        at.push(k);
        proof { assert(at@ =~= positions((k + 1) as nat)); }
    }
    let ghost kn = keyed@.map_values(|v: Vec<char>| v@);
    let idx = sort_increasing_by_name(&keyed, &at);
    let mut r: Vec<usize> = Vec::new();
    for i in 0..n
        invariant
            n == rows@.len(),
            idx@.len() == n,
            keyed@.len() == n,
            forall|j: int| 0 <= j < n ==> idx@[j] < n,
            r@.len() == i,
            forall|j: int| 0 <= j < i ==> r@[j] == rows@[idx@[j] as int],
    {
        r.push(rows[idx[i]]);
    }
    proof {
        assert forall|j: int| 0 <= j < n implies nm[r@[j] as int] == kn[idx@[j] as int] by {
            assert(kn[idx@[j] as int] == keyed@[idx@[j] as int]@);
        }
        let order = Seq::new(n as nat, |j: int| idx@[j] as int);
        assert forall|i: int, j: int| 0 <= i < j < order.len() implies order[i] != order[j] by {
            if order[i] == order[j] {
                assert(kn[idx@[i] as int] == kn[idx@[j] as int]);
            }
        }
        assert(reordering(rows@, r@, order));
        assert(stable_reordering(nm, r@, order));
    }
    r
}

/// Sorts rows (positions into `names`, given in increasing order) by name,
/// rows of equal name keeping their order.
pub(crate) fn sort_increasing_by_name(names: &Vec<Vec<char>>, rows: &Vec<usize>) -> (r: Vec<usize>)
    requires
        forall|i: int| 0 <= i < rows@.len() ==> rows@[i] < names@.len(),
        forall|i: int, j: int| 0 <= i < j < rows@.len() ==> rows@[i] < rows@[j],
    ensures
        r@.to_multiset() == rows@.to_multiset(),
        r@.len() == rows@.len(),
        forall|i: int| 0 <= i < r@.len() ==> r@[i] < names@.len(),
        sorted_by_name(names@.map_values(|n: Vec<char>| n@), r@),
        stable_by_name(names@.map_values(|n: Vec<char>| n@), r@),
{
    let ghost nm = names@.map_values(|n: Vec<char>| n@);
    let mut out: Vec<usize> = Vec::new();
    let n = rows.len();
    for k in 0..n
        invariant
            n == rows@.len(),
            nm == names@.map_values(|n: Vec<char>| n@),
            forall|i: int| 0 <= i < rows@.len() ==> rows@[i] < names@.len(),
            forall|i: int, j: int| 0 <= i < j < rows@.len() ==> rows@[i] < rows@[j],
            out@.to_multiset() == rows@.take(k as int).to_multiset(),
            out@.len() == k,
            forall|i: int| 0 <= i < out@.len() ==> out@[i] < names@.len(),
            k < n ==> forall|i: int| 0 <= i < out@.len() ==> out@[i] < rows@[k as int],
            sorted_by_name(nm, out@),
            stable_by_name(nm, out@),
    {
        let x = rows[k];
        let xname = &names[x];
        // The position after every row whose name comes no later than x's.
        let mut p: usize = 0;
        loop
            invariant_except_break
                out@.len() == k,
                xname@ == names@[x as int]@,
                p <= out@.len(),
                x < names@.len(),
                nm == names@.map_values(|n: Vec<char>| n@),
                forall|i: int| 0 <= i < out@.len() ==> out@[i] < names@.len(),
                forall|i: int| 0 <= i < p ==> text_le(nm[out@[i] as int], nm[x as int]),
            ensures
                out@.len() == k,
                p <= out@.len(),
                forall|i: int| 0 <= i < p ==> text_le(nm[out@[i] as int], nm[x as int]),
                p < out@.len() ==> !text_le(nm[out@[p as int] as int], nm[x as int]),
            decreases out@.len() - p,
        {
            if p >= out.len() {
                break;
            }
            let le = text_at_most(&names[out[p]], xname);
            proof {
                assert(nm[out@[p as int] as int] == names@[out@[p as int] as int]@);
                assert(nm[x as int] == names@[x as int]@);
            }
            if !le {
                break;
            }
            p = p + 1;
        }
        let ghost old_out = out@;
        proof {
            assert(p < old_out.len() ==> !text_le(nm[old_out[p as int] as int], nm[x as int]));
            assert forall|j: int| p <= j < old_out.len() implies text_le(nm[x as int], nm[old_out[j] as int])
                && nm[old_out[j] as int] != nm[x as int] by {
                text_le_total(nm[old_out[p as int] as int], nm[x as int]);
                if j > p {
                    text_le_transitive(nm[x as int], nm[old_out[p as int] as int], nm[old_out[j] as int]);
                    if nm[old_out[j] as int] == nm[x as int] {
                        assert(text_le(nm[old_out[p as int] as int], nm[old_out[j] as int]));
                    }
                } else {
                    if nm[old_out[j] as int] == nm[x as int] {
                        text_le_reflexive(nm[x as int]);
                    }
                }
            }
        }
        out.insert(p, x);
        proof {
            let ins = old_out.insert(p as int, x);
            assert(out@ == ins);
            assert(rows@.take(k + 1) =~= rows@.take(k as int).push(x));
            assert forall|i: int, j: int| 0 <= i < j < out@.len() implies text_le(nm[out@[i] as int], nm[out@[j] as int]) by {
                if j < p {
                    assert(out@[i] == old_out[i] && out@[j] == old_out[j]);
                } else if j == p {
                    assert(out@[i] == old_out[i]);
                } else if i < p {
                    assert(out@[i] == old_out[i] && out@[j] == old_out[j - 1]);
                    text_le_transitive(nm[old_out[i] as int], nm[x as int], nm[old_out[j - 1] as int]);
                } else if i == p {
                    assert(out@[j] == old_out[j - 1]);
                } else {
                    assert(out@[i] == old_out[i - 1] && out@[j] == old_out[j - 1]);
                }
            }
            assert forall|i: int, j: int| 0 <= i < j < out@.len() && nm[out@[i] as int] == nm[out@[j] as int] implies out@[i] < out@[j] by {
                if j < p {
                    assert(out@[i] == old_out[i] && out@[j] == old_out[j]);
                } else if j == p {
                    assert(out@[i] == old_out[i]);
                } else if i < p {
                    assert(out@[i] == old_out[i] && out@[j] == old_out[j - 1]);
                } else if i == p {
                    assert(out@[j] == old_out[j - 1]);
                } else {
                    assert(out@[i] == old_out[i - 1] && out@[j] == old_out[j - 1]);
                }
            }
            assert forall|i: int| 0 <= i < out@.len() implies out@[i] < names@.len() by {
                if i < p { assert(out@[i] == old_out[i]); } else if i > p { assert(out@[i] == old_out[i - 1]); }
            }
            if k + 1 < n {
                assert forall|i: int| 0 <= i < out@.len() implies out@[i] < rows@[k + 1] by {
                    if i < p { assert(out@[i] == old_out[i]); } else if i > p { assert(out@[i] == old_out[i - 1]); }
                }
            }
        }
    }
    proof { assert(rows@.take(n as int) =~= rows@); }
    out
}

/// The positions `0..n`, in order.
pub open spec fn positions(n: nat) -> Seq<usize> {
    Seq::new(n, |i: int| i as usize)
}

/// Positions in key order: every position's key is no greater than the next one's.
pub open spec fn sorted_by_key(keys: Seq<u64>, order: Seq<usize>) -> bool {
    forall|i: int, j: int| 0 <= i < j < order.len() ==> keys[order[i] as int] <= keys[order[j] as int]
}

/// Positions of equal key keep their order.
pub open spec fn stable_by_key(keys: Seq<u64>, order: Seq<usize>) -> bool {
    forall|i: int, j: int| 0 <= i < j < order.len() && keys[order[i] as int] == keys[order[j] as int] ==> order[i] < order[j]
}

/// The positions of `keys` ordered by key, equal keys keeping their order:
/// what `sort_by_key` does to the items.
pub fn sort_by_key(keys: &Vec<u64>) -> (r: Vec<usize>)
    ensures
        r@.to_multiset() == positions(keys@.len()).to_multiset(),
        r@.len() == keys@.len(),
        forall|i: int| 0 <= i < r@.len() ==> r@[i] < keys@.len(),
        sorted_by_key(keys@, r@),
        stable_by_key(keys@, r@),
{
    let mut out: Vec<usize> = Vec::new();
    let n = keys.len();
    proof {
        assert(positions(0) =~= Seq::<usize>::empty());
    }
    for k in 0..n
        invariant
            n == keys@.len(),
            out@.to_multiset() == positions(k as nat).to_multiset(),
            out@.len() == k,
            forall|i: int| 0 <= i < out@.len() ==> out@[i] < k,
            sorted_by_key(keys@, out@),
            stable_by_key(keys@, out@),
    {
        let x = keys[k];
        let mut p: usize = 0;
        while p < out.len() && keys[out[p]] <= x
            invariant
                out@.len() == k,
                k < n,
                n == keys@.len(),
                x == keys@[k as int],
                p <= out@.len(),
                forall|i: int| 0 <= i < out@.len() ==> out@[i] < k,
                forall|i: int| 0 <= i < p ==> keys@[out@[i] as int] <= x,
            decreases out@.len() - p,
        {
            p = p + 1;
        }
        let ghost old_out = out@;
        proof {
            assert forall|j: int| p <= j < old_out.len() implies x < keys@[old_out[j] as int] by {
                assert(p < old_out.len());
                assert(!(keys@[old_out[p as int] as int] <= x));
                if j > p {
                    assert(keys@[old_out[p as int] as int] <= keys@[old_out[j] as int]);
                }
            }
        }
        out.insert(p, k);
        proof {
            assert(out@ == old_out.insert(p as int, k));
            assert(positions((k + 1) as nat) =~= positions(k as nat).push(k));
            assert forall|i: int, j: int| 0 <= i < j < out@.len() implies keys@[out@[i] as int] <= keys@[out@[j] as int] by {
                if j < p {
                    assert(out@[i] == old_out[i] && out@[j] == old_out[j]);
                } else if j == p {
                    assert(out@[i] == old_out[i]);
                } else if i < p {
                    assert(out@[i] == old_out[i] && out@[j] == old_out[j - 1]);
                } else if i == p {
                    assert(out@[j] == old_out[j - 1]);
                } else {
                    assert(out@[i] == old_out[i - 1] && out@[j] == old_out[j - 1]);
                }
            }
            assert forall|i: int, j: int| 0 <= i < j < out@.len() && keys@[out@[i] as int] == keys@[out@[j] as int] implies out@[i] < out@[j] by {
                if j < p {
                    assert(out@[i] == old_out[i] && out@[j] == old_out[j]);
                } else if j == p {
                    assert(out@[i] == old_out[i]);
                } else if i < p {
                    assert(out@[i] == old_out[i] && out@[j] == old_out[j - 1]);
                } else if i == p {
                    assert(out@[j] == old_out[j - 1]);
                } else {
                    assert(out@[i] == old_out[i - 1] && out@[j] == old_out[j - 1]);
                }
            }
            assert forall|i: int| 0 <= i < out@.len() implies out@[i] < k + 1 by {
                if i < p { assert(out@[i] == old_out[i]); } else if i > p { assert(out@[i] == old_out[i - 1]); }
            }
        }
    }
    out
}

} // verus!
