//! Sequences seen as tables: selecting rows by a predicate, counting them,
//! and the facts about both that the store's proofs need.
use vstd::prelude::*;

verus! {

/// The rows of `s` that satisfy `p`, in their order.
pub open spec fn keep<A>(s: Seq<A>, p: spec_fn(A) -> bool) -> Seq<A>
    decreases s.len(),
{
    if s.len() == 0 {
        Seq::empty()
    } else if p(s.last()) {
        keep(s.drop_last(), p).push(s.last())
    } else {
        keep(s.drop_last(), p)
    }
}

/// The number of rows of `s` that satisfy `p`.
pub open spec fn count<A>(s: Seq<A>, p: spec_fn(A) -> bool) -> nat
    decreases s.len(),
{
    if s.len() == 0 {
        0
    } else if p(s.last()) {
        count(s.drop_last(), p) + 1
    } else {
        count(s.drop_last(), p)
    }
}

/// A window of `s`: at most `limit` rows after the first `offset` ones. A
/// negative limit means no limit, a negative offset means none.
pub open spec fn page<A>(s: Seq<A>, limit: int, offset: int) -> Seq<A> {
    let start = if offset < 0 {
        0
    } else if offset > s.len() {
        s.len() as int
    } else {
        offset
    };
    let end = if limit < 0 || start + limit > s.len() {
        s.len() as int
    } else {
        start + limit
    };
    s.subrange(start, end)
}

/// Selecting from one row more either appends that row or changes nothing.
pub proof fn lemma_keep_step<A>(s: Seq<A>, p: spec_fn(A) -> bool, i: int)
    requires
        0 <= i < s.len(),
    ensures
        keep(s.take(i + 1), p) == if p(s[i]) {
            keep(s.take(i), p).push(s[i])
        } else {
            keep(s.take(i), p)
        },
{
    assert(s.take(i + 1).drop_last() =~= s.take(i));
}

/// A selection holds exactly the rows of the table that satisfy `p`, and as
/// many of them as are counted.
pub proof fn lemma_keep_members<A>(s: Seq<A>, p: spec_fn(A) -> bool)
    ensures
        keep(s, p).len() == count(s, p),
        keep(s, p).len() <= s.len(),
        forall|x: A| #[trigger] keep(s, p).contains(x) <==> (s.contains(x) && p(x)),
    decreases s.len(),
{
    if s.len() > 0 {
        let front = s.drop_last();
        let last = s.last();
        let kept = keep(front, p);
        lemma_keep_members(front, p);
        assert forall|x: A| #[trigger] keep(s, p).contains(x) <==> (s.contains(x) && p(x)) by {
            if keep(s, p).contains(x) {
                let k = choose|k: int| 0 <= k < keep(s, p).len() && keep(s, p)[k] == x;
                if k < kept.len() {
                    assert(kept[k] == x);
                    assert(kept.contains(x));
                    assert(front.contains(x));
                    let j = choose|j: int| 0 <= j < front.len() && front[j] == x;
                    assert(s[j] == x);
                } else {
                    assert(p(last) && x == last);
                    assert(s[s.len() - 1] == x);
                }
            }
            if s.contains(x) && p(x) {
                let j = choose|j: int| 0 <= j < s.len() && s[j] == x;
                if j < front.len() {
                    assert(front[j] == x);
                    assert(front.contains(x));
                    assert(kept.contains(x));
                    let k = choose|k: int| 0 <= k < kept.len() && kept[k] == x;
                    if p(last) {
                        assert(kept.push(last)[k] == x);
                    }
                    assert(keep(s, p)[k] == x);
                } else {
                    assert(x == last);
                    assert(kept.push(last)[kept.len() as int] == x);
                    assert(keep(s, p)[kept.len() as int] == x);
                }
            }
        }
    } else {
        assert forall|x: A| #[trigger] keep(s, p).contains(x) <==> (s.contains(x) && p(x)) by {}
    }
}

/// Where every row satisfies `p`, the selection is the whole table.
pub proof fn lemma_keep_all<A>(s: Seq<A>, p: spec_fn(A) -> bool)
    requires
        forall|i: int| 0 <= i < s.len() ==> p(#[trigger] s[i]),
    ensures
        keep(s, p) == s,
    decreases s.len(),
{
    if s.len() > 0 {
        let front = s.drop_last();
        assert forall|i: int| 0 <= i < front.len() implies p(#[trigger] front[i]) by {
            assert(front[i] == s[i]);
        }
        lemma_keep_all(front, p);
        assert(p(s[s.len() - 1]));
        assert(front.push(s.last()) =~= s);
    } else {
        assert(keep(s, p) =~= s);
    }
}

/// Where no row satisfies `p`, the selection is empty.
pub proof fn lemma_keep_none<A>(s: Seq<A>, p: spec_fn(A) -> bool)
    requires
        forall|i: int| 0 <= i < s.len() ==> !p(#[trigger] s[i]),
    ensures
        keep(s, p) == Seq::<A>::empty(),
    decreases s.len(),
{
    if s.len() > 0 {
        let front = s.drop_last();
        assert forall|i: int| 0 <= i < front.len() implies !p(#[trigger] front[i]) by {
            assert(front[i] == s[i]);
        }
        lemma_keep_none(front, p);
        assert(!p(s[s.len() - 1]));
    }
}

/// Where row `i` is the only one that fails `p`, the selection is the table
/// without row `i`.
pub proof fn lemma_keep_all_but<A>(s: Seq<A>, p: spec_fn(A) -> bool, i: int)
    requires
        0 <= i < s.len(),
        !p(s[i]),
        forall|j: int| 0 <= j < s.len() && j != i ==> p(#[trigger] s[j]),
    ensures
        keep(s, p) == s.remove(i),
    decreases s.len(),
{
    let front = s.drop_last();
    if i == s.len() - 1 {
        assert forall|j: int| 0 <= j < front.len() implies p(#[trigger] front[j]) by {
            assert(front[j] == s[j]);
        }
        lemma_keep_all(front, p);
        assert(s.remove(i) =~= front);
    } else {
        assert forall|j: int| 0 <= j < front.len() && j != i implies p(#[trigger] front[j]) by {
            assert(front[j] == s[j]);
        }
        assert(front[i] == s[i]);
        lemma_keep_all_but(front, p, i);
        assert(p(s[s.len() - 1]));
        assert(front.remove(i).push(s.last()) =~= s.remove(i));
    }
}

/// Where the first `n` rows satisfy `p` and no later row does, `n` rows are
/// counted.
pub proof fn lemma_count_boundary<A>(s: Seq<A>, p: spec_fn(A) -> bool, n: int)
    requires
        0 <= n <= s.len(),
        forall|j: int| 0 <= j < n ==> p(#[trigger] s[j]),
        forall|j: int| n <= j < s.len() ==> !p(#[trigger] s[j]),
    ensures
        count(s, p) == n,
    decreases s.len(),
{
    if s.len() > 0 {
        let front = s.drop_last();
        if n == s.len() {
            assert forall|j: int| 0 <= j < n - 1 implies p(#[trigger] front[j]) by {
                assert(front[j] == s[j]);
            }
            lemma_count_boundary(front, p, n - 1);
            assert(p(s[s.len() - 1]));
        } else {
            assert forall|j: int| 0 <= j < n implies p(#[trigger] front[j]) by {
                assert(front[j] == s[j]);
            }
            assert forall|j: int| n <= j < front.len() implies !p(#[trigger] front[j]) by {
                assert(front[j] == s[j]);
            }
            lemma_count_boundary(front, p, n);
            assert(!p(s[s.len() - 1]));
        }
    }
}

/// A selection from a table without repeated rows has no repeated rows.
pub proof fn lemma_keep_no_duplicates<A>(s: Seq<A>, p: spec_fn(A) -> bool)
    requires
        s.no_duplicates(),
    ensures
        keep(s, p).no_duplicates(),
    decreases s.len(),
{
    if s.len() > 0 {
        let front = s.drop_last();
        assert(front.no_duplicates()) by {
            assert forall|i: int, j: int|
                0 <= i < front.len() && 0 <= j < front.len() && i != j implies front[i]
                != front[j] by {
                assert(front[i] == s[i] && front[j] == s[j]);
            }
        }
        lemma_keep_no_duplicates(front, p);
        lemma_keep_members(front, p);
        if p(s.last()) {
            let kept = keep(front, p);
            if kept.contains(s.last()) {
                let j = choose|j: int| 0 <= j < front.len() && front[j] == s.last();
                assert(s[j] == s[s.len() - 1]);
            }
            assert forall|i: int, j: int|
                0 <= i < kept.len() + 1 && 0 <= j < kept.len() + 1 && i != j implies kept.push(
                s.last(),
            )[i] != kept.push(s.last())[j] by {
                if i < kept.len() && j < kept.len() {
                } else if i < kept.len() {
                    assert(kept.contains(kept[i]));
                } else {
                    assert(kept.contains(kept[j]));
                }
            }
        }
    }
}

/// Extending a table by one row extends a window of it by that row exactly
/// when the row falls inside the window.
pub proof fn lemma_page_push<A>(s: Seq<A>, x: A, limit: int, offset: int)
    ensures
        page(s.push(x), limit, offset) == if offset <= s.len() && (limit < 0 || s.len() < (if offset
            < 0 {
            0
        } else {
            offset
        }) + limit) {
            page(s, limit, offset).push(x)
        } else {
            page(s, limit, offset)
        },
{
    let start = if offset < 0 {
        0
    } else {
        offset
    };
    if offset <= s.len() && (limit < 0 || s.len() < start + limit) {
        assert(page(s.push(x), limit, offset) =~= page(s, limit, offset).push(x));
    } else {
        assert(page(s.push(x), limit, offset) =~= page(s, limit, offset));
    }
}

/// Whether `rel` holds between every row and every later row.
pub open spec fn pairwise<A>(s: Seq<A>, rel: spec_fn(A, A) -> bool) -> bool {
    forall|i: int, j: int| 0 <= i < j < s.len() ==> #[trigger] rel(s[i], s[j])
}

/// A relation that holds between earlier and later rows of a table holds
/// between earlier and later rows of any selection from it.
pub proof fn lemma_keep_pairwise<A>(s: Seq<A>, p: spec_fn(A) -> bool, rel: spec_fn(A, A) -> bool)
    requires
        pairwise(s, rel),
    ensures
        pairwise(keep(s, p), rel),
    decreases s.len(),
{
    if s.len() > 0 {
        let front = s.drop_last();
        let kept = keep(front, p);
        assert(pairwise(front, rel)) by {
            assert forall|i: int, j: int| 0 <= i < j < front.len() implies #[trigger] rel(
                front[i],
                front[j],
            ) by {
                assert(rel(s[i], s[j]));
            }
        }
        lemma_keep_pairwise(front, p, rel);
        lemma_keep_members(front, p);
        if p(s.last()) {
            let all = kept.push(s.last());
            assert forall|i: int, j: int| 0 <= i < j < all.len() implies #[trigger] rel(
                all[i],
                all[j],
            ) by {
                if j < kept.len() {
                    assert(rel(kept[i], kept[j]));
                } else {
                    assert(kept.contains(kept[i]));
                    assert(front.contains(kept[i]));
                    let k = choose|k: int| 0 <= k < front.len() && front[k] == kept[i];
                    assert(rel(s[k], s[s.len() - 1]));
                }
            }
        }
    }
}

/// A row placed where the rows before it stand in `rel` to it, and it to the
/// rows after it, leaves a table in which `rel` holds between earlier and
/// later rows.
pub proof fn lemma_insert_pairwise<A>(s: Seq<A>, rel: spec_fn(A, A) -> bool, n: int, x: A)
    requires
        0 <= n <= s.len(),
        pairwise(s, rel),
        forall|k: int| 0 <= k < n ==> #[trigger] rel(s[k], x),
        forall|k: int| n <= k < s.len() ==> #[trigger] rel(x, s[k]),
    ensures
        pairwise(s.insert(n, x), rel),
{
    let t = s.insert(n, x);
    assert forall|i: int, j: int| 0 <= i < j < t.len() implies #[trigger] rel(t[i], t[j]) by {
        if j < n {
            assert(rel(s[i], s[j]));
        } else if j == n {
            assert(rel(s[i], x));
        } else if i < n {
            assert(rel(s[i], s[j - 1]));
        } else if i == n {
            assert(rel(x, s[j - 1]));
        } else {
            assert(rel(s[i - 1], s[j - 1]));
        }
    }
}

/// In a table where a row that satisfies `p` is preceded only by rows that
/// satisfy it, the rows that satisfy `p` are the first `count` ones.
pub proof fn lemma_count_prefix<A>(s: Seq<A>, p: spec_fn(A) -> bool)
    requires
        forall|i: int, j: int| 0 <= i < j < s.len() && p(#[trigger] s[j]) ==> p(#[trigger] s[i]),
    ensures
        count(s, p) <= s.len(),
        forall|k: int| 0 <= k < count(s, p) ==> p(#[trigger] s[k]),
        forall|k: int| count(s, p) <= k < s.len() ==> !p(#[trigger] s[k]),
    decreases s.len(),
{
    if s.len() > 0 {
        let front = s.drop_last();
        if p(s.last()) {
            assert forall|k: int| 0 <= k < s.len() implies p(#[trigger] s[k]) by {
                if k < s.len() - 1 {
                    assert(p(s[s.len() - 1]));
                }
            }
            lemma_count_boundary(s, p, s.len() as int);
        } else {
            assert forall|i: int, j: int|
                0 <= i < j < front.len() && p(#[trigger] front[j]) implies p(
                #[trigger] front[i],
            ) by {
                assert(front[i] == s[i] && front[j] == s[j]);
            }
            lemma_count_prefix(front, p);
            assert forall|k: int| 0 <= k < count(s, p) implies p(#[trigger] s[k]) by {
                assert(front[k] == s[k]);
            }
            assert forall|k: int| count(s, p) <= k < s.len() implies !p(#[trigger] s[k]) by {
                if k < front.len() {
                    assert(front[k] == s[k]);
                }
            }
        }
    }
}

/// The least index of a row that satisfies `p`, or the number of rows where
/// none does.
pub open spec fn first_index<A>(s: Seq<A>, p: spec_fn(A) -> bool) -> int
    decreases s.len(),
{
    if s.len() == 0 {
        0
    } else {
        let before = first_index(s.drop_last(), p);
        if before < s.len() - 1 || p(s.last()) {
            before
        } else {
            s.len() as int
        }
    }
}

/// `first_index` is the least index of a row that satisfies the predicate.
pub proof fn lemma_first_index<A>(s: Seq<A>, p: spec_fn(A) -> bool)
    ensures
        0 <= first_index(s, p) <= s.len(),
        forall|k: int| 0 <= k < first_index(s, p) ==> !p(#[trigger] s[k]),
        first_index(s, p) < s.len() ==> p(s[first_index(s, p)]),
    decreases s.len(),
{
    if s.len() > 0 {
        let front = s.drop_last();
        lemma_first_index(front, p);
        assert forall|k: int| 0 <= k < first_index(s, p) implies !p(#[trigger] s[k]) by {
            if k < front.len() {
                assert(front[k] == s[k]);
            }
        }
        if first_index(s, p) < s.len() - 1 {
            assert(front[first_index(front, p)] == s[first_index(s, p)]);
        }
    }
}

/// An index of a row that satisfies `p`, before which no row does, is the
/// first index; where no row satisfies `p`, the first index is the number of
/// rows.
pub proof fn lemma_first_index_is<A>(s: Seq<A>, p: spec_fn(A) -> bool, i: int)
    requires
        0 <= i <= s.len(),
        forall|k: int| 0 <= k < i ==> !p(#[trigger] s[k]),
        i < s.len() ==> p(s[i]),
    ensures
        first_index(s, p) == i,
{
    lemma_first_index(s, p);
    let f = first_index(s, p);
    if f < i {
        assert(!p(s[f]));
    } else if i < f {
        assert(!p(s[i]));
    }
}

} // verus!
