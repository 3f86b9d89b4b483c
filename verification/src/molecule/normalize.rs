//! Normalisation of an enumerated molecular hash for one-time signing.
//!
//! Each value of the enumerated hash says how many times a key fragment is
//! hashed; normalising makes the values sum to zero so that every signature
//! leaks exactly half of the one-time key.

use vstd::prelude::*;

verus! {

/// The sum of a sequence of small integers.
pub open spec fn sum_i8(s: Seq<i8>) -> int
    decreases s.len(),
{
    if s.len() == 0 {
        0
    } else {
        sum_i8(s.drop_last()) + s.last() as int
    }
}

/// Every value lies in -8..=8.
pub open spec fn all_in_range(s: Seq<i8>) -> bool {
    forall|i: int| 0 <= i < s.len() ==> -8 <= #[trigger] s[i] <= 8
}

/// `v` after `k` full passes that raise each value by one (up to 8), and a
/// partial pass over the first `p` values.
pub open spec fn raised(v: Seq<i8>, k: int, p: int) -> Seq<i8> {
    Seq::new(
        v.len(),
        |i: int|
            {
                let t = v[i] + k + (if i < p { 1int } else { 0int });
                if t > 8 { 8i8 } else { t as i8 }
            },
    )
}

/// `v` after `k` full passes that lower each value by one (down to -8), and a
/// partial pass over the first `p` values.
pub open spec fn lowered(v: Seq<i8>, k: int, p: int) -> Seq<i8> {
    Seq::new(
        v.len(),
        |i: int|
            {
                let t = v[i] - k - (if i < p { 1int } else { 0int });
                if t < -8 { -8i8 } else { t as i8 }
            },
    )
}

/// Passes that raise when `up`, lower otherwise.
pub open spec fn shifted(v: Seq<i8>, k: int, p: int, up: bool) -> Seq<i8> {
    if up { raised(v, k, p) } else { lowered(v, k, p) }
}

/// `r` is `v` normalised: of the same length, in range, summing to zero, and
/// reached from `v` by whole passes and a partial one in the direction the sum
/// lacks (unchanged when `v` already sums to zero).
pub open spec fn normalized_from(v: Seq<i8>, r: Seq<i8>) -> bool {
    &&& r.len() == v.len()
    &&& sum_i8(r) == 0
    &&& all_in_range(r)
    &&& sum_i8(v) == 0 ==> r == v
    &&& sum_i8(v) < 0 ==> exists|k: int, p: int| 0 <= k && 0 <= p <= v.len() && r == #[trigger] raised(v, k, p)
    &&& sum_i8(v) > 0 ==> exists|k: int, p: int| 0 <= k && 0 <= p <= v.len() && r == #[trigger] lowered(v, k, p)
}

/// Normalising keeps the length, keeps every value in -8..=8 and makes the
/// sum zero; it moves values only in the direction the sum lacked (up when it
/// was negative, down when it was positive) and leaves a sum of zero as it is.
pub proof fn law_normalize(v: Seq<i8>, r: Seq<i8>)
    requires
        all_in_range(v),
        normalized_from(v, r),
    ensures
        r.len() == v.len(),
        sum_i8(r) == 0,
        all_in_range(r),
        sum_i8(v) == 0 ==> r == v,
        sum_i8(v) < 0 ==> forall|i: int| 0 <= i < v.len() ==> v[i] <= #[trigger] r[i],
        sum_i8(v) > 0 ==> forall|i: int| 0 <= i < v.len() ==> #[trigger] r[i] <= v[i],
{
    if sum_i8(v) < 0 {
        let (k, p) = choose|k: int, p: int| 0 <= k && 0 <= p <= v.len() && r == #[trigger] raised(v, k, p);
        assert forall|i: int| 0 <= i < v.len() implies v[i] <= #[trigger] r[i] by {
            assert(r[i] == raised(v, k, p)[i]);
            assert(-8 <= v[i] <= 8);
        }
    }
    if sum_i8(v) > 0 {
        let (k, p) = choose|k: int, p: int| 0 <= k && 0 <= p <= v.len() && r == #[trigger] lowered(v, k, p);
        assert forall|i: int| 0 <= i < v.len() implies #[trigger] r[i] <= v[i] by {
            assert(r[i] == lowered(v, k, p)[i]);
            assert(-8 <= v[i] <= 8);
        }
    }
}

/// Values pointwise no larger sum to no more, and to as much only when equal.
proof fn lemma_sum_le(a: Seq<i8>, b: Seq<i8>)
    requires
        a.len() == b.len(),
        forall|i: int| 0 <= i < a.len() ==> a[i] <= b[i],
    ensures
        sum_i8(a) <= sum_i8(b),
        sum_i8(a) == sum_i8(b) ==> a == b,
    decreases a.len(),
{
    if a.len() == 0 {
        assert(a =~= b);
    } else {
        let a1 = a.drop_last();
        let b1 = b.drop_last();
        assert forall|i: int| 0 <= i < a1.len() implies a1[i] <= b1[i] by {
            assert(a1[i] == a[i] && b1[i] == b[i]);
        }
        lemma_sum_le(a1, b1);
        assert(a.last() <= b.last());
        if sum_i8(a) == sum_i8(b) {
            assert forall|i: int| 0 <= i < a.len() implies a[i] == b[i] by {
                if i < a.len() - 1 {
                    assert(a1[i] == b1[i]);
                }
            }
            assert(a =~= b);
        }
    }
}

/// Passes are ordered: more passes, or a longer partial pass, raise no value
/// less and lower no value less.
proof fn lemma_passes_ordered(v: Seq<i8>, k1: int, p1: int, k2: int, p2: int)
    requires
        all_in_range(v),
        0 <= k1 && 0 <= k2,
        0 <= p1 <= v.len() && 0 <= p2 <= v.len(),
        k1 < k2 || (k1 == k2 && p1 <= p2),
    ensures
        forall|i: int| 0 <= i < v.len() ==> raised(v, k1, p1)[i] <= raised(v, k2, p2)[i],
        forall|i: int| 0 <= i < v.len() ==> lowered(v, k2, p2)[i] <= lowered(v, k1, p1)[i],
{
    assert forall|i: int| 0 <= i < v.len() implies raised(v, k1, p1)[i] <= raised(v, k2, p2)[i] by {
        assert(-8 <= v[i] <= 8);
    }
    assert forall|i: int| 0 <= i < v.len() implies lowered(v, k2, p2)[i] <= lowered(v, k1, p1)[i] by {
        assert(-8 <= v[i] <= 8);
    }
}

/// Normalising has one result: two normalisations of the same values agree.
pub proof fn law_normalized_unique(v: Seq<i8>, r1: Seq<i8>, r2: Seq<i8>)
    requires
        all_in_range(v),
        normalized_from(v, r1),
        normalized_from(v, r2),
    ensures
        r1 == r2,
{
    if sum_i8(v) < 0 {
        let (k1, p1) = choose|k: int, p: int| 0 <= k && 0 <= p <= v.len() && r1 == #[trigger] raised(v, k, p);
        let (k2, p2) = choose|k: int, p: int| 0 <= k && 0 <= p <= v.len() && r2 == #[trigger] raised(v, k, p);
        if k1 < k2 || (k1 == k2 && p1 <= p2) {
            lemma_passes_ordered(v, k1, p1, k2, p2);
            lemma_sum_le(r1, r2);
        } else {
            lemma_passes_ordered(v, k2, p2, k1, p1);
            lemma_sum_le(r2, r1);
        }
    } else if sum_i8(v) > 0 {
        let (k1, p1) = choose|k: int, p: int| 0 <= k && 0 <= p <= v.len() && r1 == #[trigger] lowered(v, k, p);
        let (k2, p2) = choose|k: int, p: int| 0 <= k && 0 <= p <= v.len() && r2 == #[trigger] lowered(v, k, p);
        if k1 < k2 || (k1 == k2 && p1 <= p2) {
            lemma_passes_ordered(v, k1, p1, k2, p2);
            lemma_sum_le(r2, r1);
        } else {
            lemma_passes_ordered(v, k2, p2, k1, p1);
            lemma_sum_le(r1, r2);
        }
    }
}

/// The sum after replacing one value.
pub proof fn lemma_sum_update(s: Seq<i8>, j: int, x: i8)
    requires
        0 <= j < s.len(),
    ensures
        sum_i8(s.update(j, x)) == sum_i8(s) - s[j] + x,
    decreases s.len(),
{
    let u = s.update(j, x);
    if j == s.len() - 1 {
        assert(u.drop_last() =~= s.drop_last());
    } else {
        lemma_sum_update(s.drop_last(), j, x);
        assert(u.drop_last() =~= s.drop_last().update(j, x));
    }
}

/// Values all at least 8 sum to at least 8 per value; values all at most -8
/// sum to at most -8 per value.
pub proof fn lemma_sum_bounds(s: Seq<i8>)
    ensures
        (forall|i: int| 0 <= i < s.len() ==> #[trigger] s[i] >= 8) ==> sum_i8(s) >= 8 * s.len(),
        (forall|i: int| 0 <= i < s.len() ==> #[trigger] s[i] <= -8) ==> sum_i8(s) <= -8 * s.len(),
        all_in_range(s) ==> -8 * s.len() <= sum_i8(s) <= 8 * s.len(),
    decreases s.len(),
{
    if s.len() > 0 {
        lemma_sum_bounds(s.drop_last());
        assert(forall|i: int| 0 <= i < s.drop_last().len() ==> s.drop_last()[i] == s[i]);
    }
}

/// One step of a pass.
proof fn lemma_step(v: Seq<i8>, k: int, j: int, up: bool)
    requires
        all_in_range(v),
        k >= 0,
        0 <= j < v.len(),
    ensures
        up && shifted(v, k, j, up)[j] < 8 ==> shifted(v, k, j + 1, up) == shifted(v, k, j, up).update(j, (shifted(v, k, j, up)[j] + 1) as i8),
        up && shifted(v, k, j, up)[j] >= 8 ==> shifted(v, k, j + 1, up) == shifted(v, k, j, up),
        !up && shifted(v, k, j, up)[j] > -8 ==> shifted(v, k, j + 1, up) == shifted(v, k, j, up).update(j, (shifted(v, k, j, up)[j] - 1) as i8),
        !up && shifted(v, k, j, up)[j] <= -8 ==> shifted(v, k, j + 1, up) == shifted(v, k, j, up),
{
    let a = shifted(v, k, j, up);
    let b = shifted(v, k, j + 1, up);
    if up {
        if a[j] < 8 {
            assert(b =~= a.update(j, (a[j] + 1) as i8));
        } else {
            assert(b =~= a);
        }
    } else {
        if a[j] > -8 {
            assert(b =~= a.update(j, (a[j] - 1) as i8));
        } else {
            assert(b =~= a);
        }
    }
}

/// A full pass is the start of the next one; passes keep values in range.
proof fn lemma_pass(v: Seq<i8>, k: int, p: int, up: bool)
    requires
        all_in_range(v),
        k >= 0,
        0 <= p <= v.len(),
    ensures
        shifted(v, k, v.len() as int, up) == shifted(v, k + 1, 0, up),
        shifted(v, k, p, up).len() == v.len(),
        all_in_range(shifted(v, k, p, up)),
        shifted(v, 0, 0, up) == v,
{
    assert(shifted(v, k, v.len() as int, up) =~= shifted(v, k + 1, 0, up));
    assert(shifted(v, 0, 0, up) =~= v);
    let s = shifted(v, k, p, up);
    assert forall|i: int| 0 <= i < s.len() implies -8 <= #[trigger] s[i] <= 8 by {
        assert(-8 <= v[i] <= 8);
    }
}

/// Sum of a vector of small integers.
fn sum_values(v: &Vec<i8>) -> (total: i32)
    requires
        all_in_range(v@),
        v@.len() * 8 <= i32::MAX,
    ensures
        total == sum_i8(v@),
{
    let mut total: i32 = 0;
    let mut i: usize = 0;
    while i < v.len()
        invariant
            i <= v@.len(),
            v@.len() * 8 <= i32::MAX,
            all_in_range(v@),
            total == sum_i8(v@.take(i as int)),
        decreases v@.len() - i,
    {
        proof {
            assert(v@.take(i + 1).drop_last() =~= v@.take(i as int));
            lemma_sum_bounds(v@.take(i as int));
            assert(all_in_range(v@.take(i as int)));
            assert(-8 <= v@[i as int] <= 8);
        }
        total = total + v[i] as i32;
        i = i + 1;
    }
    assert(v@.take(v@.len() as int) =~= v@);
    total
}

/// Make the values of an enumerated hash sum to zero. Starting from the
/// first value, pass over the values again and again, moving each by one
/// towards the side the sum lacks (raising while the sum is negative, lowering
/// while it is positive, never past 8 or -8), until the sum is zero.
pub fn normalize_values(mapped_hash_array: Vec<i8>) -> (r: Vec<i8>)
    requires
        all_in_range(mapped_hash_array@),
        mapped_hash_array@.len() * 8 <= i32::MAX,
    ensures
        normalized_from(mapped_hash_array@, r@),
{
    let mut arr = mapped_hash_array;
    let ghost v = arr@;
    let n = arr.len();
    let mut total: i32 = sum_values(&arr);
    if total == 0 {
        return arr;
    }
    let up = total < 0;
    let ghost mut k: int = 0;
    let ghost mut p: int = 0;
    proof {
        lemma_pass(v, 0, 0, up);
    }
    while total != 0
        invariant
            n == v.len(),
            all_in_range(v),
            k >= 0,
            0 <= p <= n,
            arr@ == shifted(v, k, p, up),
            p != 0 ==> total == 0,
            total == sum_i8(arr@),
            up ==> total <= 0,
            !up ==> total >= 0,
        decreases if up { -total } else { total as int },
    {
        let ghost start = total;
        let ghost a0 = arr@;
        proof {
            lemma_pass(v, k, 0, up);
            lemma_sum_bounds(a0);
        }
        proof {
            if up {
                assert(exists|i: int| 0 <= i < n && a0[i] < 8);
            } else {
                assert(exists|i: int| 0 <= i < n && a0[i] > -8);
            }
        }
        let ghost w: int = if up {
            choose|i: int| 0 <= i < n && a0[i] < 8
        } else {
            choose|i: int| 0 <= i < n && a0[i] > -8
        };
        let mut j: usize = 0;
        let mut done = false;
        while j < n
            invariant_except_break
                n == v.len(),
                all_in_range(v),
                k >= 0,
                0 <= w < n,
                up ==> a0[w] < 8,
                !up ==> a0[w] > -8,
                a0 == shifted(v, k, 0, up),
                j <= n,
                arr@ == shifted(v, k, j as int, up),
                total == sum_i8(arr@),
                up ==> start <= total < 0,
                !up ==> 0 < total <= start,
                j > w ==> total != start,
                !done,
            ensures
                all_in_range(v),
                total == sum_i8(arr@),
                done ==> (total == 0 && exists|q: int| 0 < q <= n && arr@ == shifted(v, k, q, up)),
                !done ==> (j == n && arr@ == shifted(v, k, n as int, up) && total != start),
                up ==> start <= total <= 0,
                !up ==> 0 <= total <= start,
            decreases n - j,
        {
            proof {
                lemma_step(v, k, j as int, up);
                lemma_pass(v, k, j as int, up);
                if j as int <= w {
                    assert(arr@[w] == a0[w]);
                }
            }
            let x = arr[j];
            let cond = if up { x < 8 } else { x > -8 };
            if cond {
                let y: i8 = if up { x + 1 } else { x - 1 };
                proof {
                    lemma_sum_update(arr@, j as int, y);
                }
                arr.set(j, y);
                if up {
                    total = total + 1;
                } else {
                    total = total - 1;
                }
                if total == 0 {
                    done = true;
                    assert(arr@ == shifted(v, k, j + 1, up));
                    break;
                }
            }
            j = j + 1;
        }
        proof {
            if done {
                let q = choose|q: int| 0 < q <= n && arr@ == shifted(v, k, q, up);
                p = q;
            } else {
                lemma_pass(v, k, n as int, up);
                k = k + 1;
                p = 0;
            }
        }
    }
    proof {
        lemma_pass(v, k, p, up);
        if up {
            assert(raised(v, k, p) == arr@);
        } else {
            assert(lowered(v, k, p) == arr@);
        }
    }
    arr
}

} // verus!
