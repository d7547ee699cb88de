//! Random permutations for description shuffling. The only trusted step is
//! the in-place shuffle of a vector of indices, whose contract says no more
//! than that the elements are rearranged; that a shuffled identity vector is
//! a permutation — every index below the length occurring exactly once — is
//! proved from the multiset of its elements, and inverting it is verified.
use vstd::prelude::*;

use rand::seq::SliceRandom;

verus! {

use vstd::seq_lib::group_to_multiset_ensures;
use vstd::multiset::group_multiset_axioms;

/// `s` is a permutation of `0 .. n`: it has length `n`, every element is an
/// index below `n`, no index appears twice, and every index appears.
pub open spec fn is_permutation(s: Seq<usize>, n: nat) -> bool {
    &&& s.len() == n
    &&& forall|i: int| 0 <= i < s.len() ==> (s[i] as nat) < n
    &&& forall|i: int, j: int| 0 <= i < j < s.len() ==> s[i] != s[j]
    &&& forall|v: int| 0 <= v < n ==> #[trigger] s.contains(v as usize)
}

/// The sequence `0, 1, .., n - 1`.
pub open spec fn identity_seq(n: nat) -> Seq<usize> {
    Seq::new(n, |i: int| i as usize)
}

/// Relies on `rand::seq::SliceRandom::shuffle`, driven by the
/// cryptographically secure `rand::rng()`: reorders the elements of the
/// vector in place, keeping exactly the same multiset of elements.
#[verifier::external_body]
fn shuffle_indices(v: &mut Vec<usize>)
    ensures
        final(v)@.to_multiset() == old(v)@.to_multiset(),
{
    v.as_mut_slice().shuffle(&mut rand::rng());
}

/// In the identity sequence every index below `n` occurs exactly once and
/// nothing else occurs.
proof fn lemma_identity_multiset_count(n: nat, x: usize)
    requires
        n <= usize::MAX,
    ensures
        identity_seq(n).to_multiset().count(x) == if (x as nat) < n {
            1nat
        } else {
            0nat
        },
    decreases n,
{
    broadcast use group_to_multiset_ensures;
    broadcast use group_multiset_axioms;

    if n == 0 {
        assert(identity_seq(0) =~= Seq::<usize>::empty());
        assert(!identity_seq(0).contains(x));
    } else {
        let m = (n - 1) as nat;
        lemma_identity_multiset_count(m, x);
        assert(identity_seq(n) =~= identity_seq(m).push(m as usize));
    }
}

/// A sequence whose elements form the same multiset as the identity sequence
/// is a permutation of `0 .. n`.
pub proof fn lemma_permutation_from_identity_multiset(s: Seq<usize>, n: nat)
    requires
        n <= usize::MAX,
        s.to_multiset() == identity_seq(n).to_multiset(),
    ensures
        is_permutation(s, n),
{
    broadcast use group_to_multiset_ensures;
    broadcast use group_multiset_axioms;

    assert forall|x: usize|
        s.to_multiset().count(x) == (if (x as nat) < n {
            1nat
        } else {
            0nat
        }) by {
        lemma_identity_multiset_count(n, x);
    }
    assert(s.len() == n) by {
        assert(s.len() == s.to_multiset().len());
        assert(identity_seq(n).len() == identity_seq(n).to_multiset().len());
    }
    assert forall|i: int| 0 <= i < s.len() implies (s[i] as nat) < n by {
        assert(s.contains(s[i]));
        assert(s.to_multiset().count(s[i]) > 0);
    }
    assert(forall|x: usize| s.to_multiset().contains(x) ==> s.to_multiset().count(x) == 1);
    s.lemma_multiset_has_no_duplicates_conv();
    assert forall|i: int, j: int| 0 <= i < j < s.len() implies s[i] != s[j] by {
        assert(s.no_duplicates());
    }
    assert forall|v: int| 0 <= v < n implies #[trigger] s.contains(v as usize) by {
        assert(s.to_multiset().count(v as usize) == 1);
    }
}

/// Draws a uniformly random permutation of `0 .. n`: the identity vector,
/// shuffled in place.
pub fn random_permutation(n: usize) -> (p: Vec<usize>)
    ensures
        is_permutation(p@, n as nat),
{
    let mut p: Vec<usize> = Vec::new();
    let mut i: usize = 0;
    while i < n
        invariant
            i <= n,
            p@.len() == i,
            forall|k: int| 0 <= k < i ==> p@[k] == k as usize,
        decreases n - i,
    {
        p.push(i);
        i = i + 1;
    }
    let ghost pre = p@;
    shuffle_indices(&mut p);
    proof {
        assert(pre =~= identity_seq(n as nat));
        lemma_permutation_from_identity_multiset(p@, n as nat);
    }
    p
}

/// Inverts a permutation: the result maps each value of `p` back to the
/// position it stands at, so `inv[p[j]] == j` for every position `j`, and
/// the inverse is itself a permutation of `0 .. n`.
pub fn invert_permutation(p: &Vec<usize>) -> (inv: Vec<usize>)
    requires
        is_permutation(p@, p@.len()),
    ensures
        inv@.len() == p@.len(),
        is_permutation(inv@, p@.len()),
        forall|j: int| 0 <= j < p@.len() ==> inv@[p@[j] as int] == j as usize,
        forall|o: int| 0 <= o < p@.len() ==> p@[inv@[o] as int] == o as usize,
{
    let n = p.len();
    let mut inv: Vec<usize> = Vec::new();
    let mut i: usize = 0;
    while i < n
        invariant
            i <= n,
            inv@.len() == i,
        decreases n - i,
    {
        inv.push(0);
        i = i + 1;
    }
    let mut j: usize = 0;
    while j < n
        invariant
            j <= n,
            n == p@.len(),
            inv@.len() == n,
            is_permutation(p@, n as nat),
            forall|k: int| 0 <= k < j ==> inv@[p@[k] as int] == k as usize,
        decreases n - j,
    {
        let target = p[j];
        inv[target] = j;
        j = j + 1;
    }
    proof {
        assert(p@.len() == n as nat);
        lemma_inverse_is_permutation(p@, inv@);
    }
    inv
}

/// A vector satisfying `inv[p[j]] == j` over a permutation `p` is the full
/// two-sided inverse of `p` and a permutation itself.
proof fn lemma_inverse_is_permutation(p: Seq<usize>, inv: Seq<usize>)
    requires
        p.len() <= usize::MAX,
        is_permutation(p, p.len()),
        inv.len() == p.len(),
        forall|j: int| 0 <= j < p.len() ==> inv[p[j] as int] == j as usize,
    ensures
        is_permutation(inv, p.len()),
        forall|o: int| 0 <= o < p.len() ==> p[inv[o] as int] == o as usize,
{
    let n = p.len();
    assert forall|o: int| 0 <= o < n implies p[inv[o] as int] == o as usize && (inv[o] as nat)
        < n by {
        assert(p.contains(o as usize));
        let j = choose|j: int| 0 <= j < p.len() && p[j] == o as usize;
        assert(inv[p[j] as int] == j as usize);
        assert(inv[o] == j as usize);
    }
    assert forall|i: int, j: int| 0 <= i < j < n implies inv[i] != inv[j] by {
        assert(p[inv[i] as int] == i as usize);
        assert(p[inv[j] as int] == j as usize);
    }
    assert forall|v: int| 0 <= v < n implies #[trigger] inv.contains(v as usize) by {
        assert(inv[p[v] as int] == v as usize);
        assert((p[v] as int) < inv.len());
    }
}

/// A vector reordered by a permutation of its positions holds exactly the
/// same multiset of elements.
pub proof fn lemma_reorder_keeps_multiset<T>(items: Seq<T>, p: Seq<usize>, out: Seq<T>)
    requires
        items.len() <= usize::MAX,
        is_permutation(p, items.len()),
        out.len() == items.len(),
        forall|j: int| 0 <= j < out.len() ==> out[j] == items[p[j] as int],
    ensures
        out.to_multiset() == items.to_multiset(),
    decreases items.len(),
{
    broadcast use group_to_multiset_ensures;
    broadcast use group_multiset_axioms;

    let n = items.len() as int;
    if n == 0 {
        assert(out =~= items);
    } else {
        let k = p[n - 1] as int;
        let items2 = items.remove(k);
        let p2 = Seq::new(
            (n - 1) as nat,
            |j: int|
                if (p[j] as int) > k {
                    (p[j] - 1) as usize
                } else {
                    p[j]
                },
        );
        let out2 = out.drop_last();
        assert(is_permutation(p2, items2.len())) by {
            assert forall|j: int| 0 <= j < p2.len() implies (p2[j] as nat) < items2.len() by {
                assert(p[j] != p[n - 1]);
            }
            assert forall|a: int, b: int| 0 <= a < b < p2.len() implies p2[a] != p2[b] by {
                assert(p[a] != p[b]);
                assert(p[a] != p[n - 1]);
                assert(p[b] != p[n - 1]);
            }
            assert forall|v: int| 0 <= v < items2.len() implies #[trigger] p2.contains(
                v as usize,
            ) by {
                if v < k {
                    assert(p.contains(v as usize));
                    let j = choose|j: int| 0 <= j < p.len() && p[j] == v as usize;
                    assert(j != n - 1);
                    assert(p2[j] == v as usize);
                } else {
                    assert(p.contains((v + 1) as usize));
                    let j = choose|j: int| 0 <= j < p.len() && p[j] == (v + 1) as usize;
                    assert(j != n - 1);
                    assert(p2[j] == v as usize);
                }
            }
        }
        assert forall|j: int| 0 <= j < out2.len() implies out2[j] == items2[p2[j] as int] by {
            assert(out2[j] == items[p[j] as int]);
            assert(p[j] != p[n - 1]);
        }
        lemma_reorder_keeps_multiset(items2, p2, out2);
        assert(out =~= out2.push(out[n - 1]));
        assert(out[n - 1] == items[k]);
        assert(out.to_multiset() =~= out2.to_multiset().insert(items[k]));
        assert(items2.to_multiset() =~= items.to_multiset().remove(items[k]));
        assert(items.contains(items[k]));
        assert(items.to_multiset().count(items[k]) > 0);
        assert(items.to_multiset().remove(items[k]).insert(items[k]) =~= items.to_multiset());
    }
}

/// Reorders `items` by a permutation `p` of their positions: element `j` of
/// the result is the element of `items` at position `p[j]`; the multiset of
/// elements is unchanged.
pub fn apply_permutation<T: Copy>(items: &Vec<T>, p: &Vec<usize>) -> (out: Vec<T>)
    requires
        is_permutation(p@, items@.len()),
    ensures
        out@.len() == items@.len(),
        forall|j: int| 0 <= j < out@.len() ==> out@[j] == items@[p@[j] as int],
        out@.to_multiset() == items@.to_multiset(),
{
    let n = items.len();
    let mut out: Vec<T> = Vec::new();
    let mut j: usize = 0;
    while j < n
        invariant
            j <= n,
            n == items@.len(),
            is_permutation(p@, n as nat),
            out@.len() == j,
            forall|k: int| 0 <= k < j ==> out@[k] == items@[p@[k] as int],
        decreases n - j,
    {
        let idx = p[j];
        out.push(items[idx]);
        j = j + 1;
    }
    proof {
        lemma_reorder_keeps_multiset(items@, p@, out@);
    }
    out
}

} // verus!
