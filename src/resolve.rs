//! Resolution of an arbitrary duration onto the nearest supported period.
use crate::period::{
    catalog, lemma_catalog_ascending, nanos_of_period, seconds_of, supported_period, Period,
    CATALOG_LEN,
};
use crate::span::{duration_nanos, nanos_in};
use std::time::Duration;
use vstd::prelude::*;

verus! {

/// How far the span of `p` lies from `n` nanoseconds.
pub open spec fn distance(p: Period, n: int) -> int {
    if nanos_of_period(p) >= n {
        nanos_of_period(p) - n
    } else {
        n - nanos_of_period(p)
    }
}

/// `p` is to be chosen over `q` for a request of `n` nanoseconds: it lies closer,
/// or as close and is not the shorter of the two.
pub open spec fn preferred(p: Period, q: Period, n: int) -> bool {
    distance(p, n) < distance(q, n) || (distance(p, n) == distance(q, n) && nanos_of_period(q)
        <= nanos_of_period(p))
}

/// `p` is the catalog entry nearest to `n` nanoseconds, ties going to the longer entry.
pub open spec fn is_nearest(p: Period, n: int) -> bool {
    &&& catalog().contains(p)
    &&& forall|j: int| 0 <= j < catalog().len() ==> preferred(p, #[trigger] catalog()[j], n)
}

/// Some catalog entry spans exactly `n` nanoseconds.
pub open spec fn is_supported(n: int) -> bool {
    exists|j: int| 0 <= j < catalog().len() && nanos_of_period(#[trigger] catalog()[j]) == n
}

/// `r` is the outcome of resolving `n` nanoseconds: the nearest entry, as `Ok`
/// when it spans exactly `n` and as `Err` otherwise.
pub open spec fn resolves(n: int, r: Result<Period, Period>) -> bool {
    match r {
        Ok(p) => is_supported(n) && is_nearest(p, n),
        Err(p) => !is_supported(n) && is_nearest(p, n),
    }
}

/// Any two catalog entries are ordered by their position.
proof fn lemma_catalog_strictly_sorted()
    ensures
        forall|i: int, j: int|
            0 <= i < j < catalog().len() ==> nanos_of_period(#[trigger] catalog()[i])
                < nanos_of_period(#[trigger] catalog()[j]),
{
    lemma_catalog_ascending();
    assert forall|i: int, j: int| 0 <= i < j < catalog().len() implies seconds_of(
        #[trigger] catalog()[i],
    ) < seconds_of(#[trigger] catalog()[j]) by {
        lemma_ascending_from(i, j);
    }
}

proof fn lemma_ascending_from(i: int, j: int)
    requires
        0 <= i < j < catalog().len(),
    ensures
        seconds_of(catalog()[i]) < seconds_of(catalog()[j]),
    decreases j - i,
{
    lemma_catalog_ascending();
    if j > i + 1 {
        lemma_ascending_from(i, j - 1);
    }
}

/// At most one catalog entry is nearest to a request.
pub proof fn lemma_nearest_unique(p: Period, q: Period, n: int)
    requires
        is_nearest(p, n),
        is_nearest(q, n),
    ensures
        p == q,
{
    lemma_catalog_strictly_sorted();
    let a = choose|a: int| 0 <= a < catalog().len() && catalog()[a] == p;
    let b = choose|b: int| 0 <= b < catalog().len() && catalog()[b] == q;
    assert(preferred(p, catalog()[b], n));
    assert(preferred(q, catalog()[a], n));
    if a < b {
        assert(nanos_of_period(catalog()[a]) < nanos_of_period(catalog()[b]));
    } else if b < a {
        assert(nanos_of_period(catalog()[b]) < nanos_of_period(catalog()[a]));
    }
}

/// Resolving the span of a catalog entry gives back that very entry, as an
/// exact match.
pub proof fn lemma_exact_round_trip(i: int, r: Result<Period, Period>)
    requires
        0 <= i < catalog().len(),
        resolves(nanos_of_period(catalog()[i]), r),
    ensures
        r == Ok::<Period, Period>(catalog()[i]),
{
    lemma_catalog_strictly_sorted();
    let n = nanos_of_period(catalog()[i]);
    assert(is_supported(n));
    let p = r->Ok_0;
    assert(preferred(p, catalog()[i], n));
    let a = choose|a: int| 0 <= a < catalog().len() && catalog()[a] == p;
    if a < i {
        assert(nanos_of_period(catalog()[a]) < n);
    } else if i < a {
        assert(nanos_of_period(catalog()[i]) < nanos_of_period(catalog()[a]));
    }
}

/// A request shorter than every catalog entry resolves, as a mismatch, to the
/// shortest entry.
pub proof fn lemma_clamp_below(n: int, r: Result<Period, Period>)
    requires
        0 <= n < nanos_of_period(catalog()[0]),
        resolves(n, r),
    ensures
        r == Err::<Period, Period>(catalog()[0]),
{
    lemma_catalog_strictly_sorted();
    let first = catalog()[0];
    assert(!is_supported(n)) by {
        assert forall|j: int| 0 <= j < catalog().len() implies nanos_of_period(
            #[trigger] catalog()[j],
        ) != n by {
            if j > 0 {
                assert(nanos_of_period(catalog()[0]) < nanos_of_period(catalog()[j]));
            }
        }
    }
    assert(catalog().contains(first)) by {
        assert(catalog()[0] == first);
    }
    assert forall|j: int| 0 <= j < catalog().len() implies preferred(
        first,
        #[trigger] catalog()[j],
        n,
    ) by {
        if j > 0 {
            assert(nanos_of_period(catalog()[0]) < nanos_of_period(catalog()[j]));
        }
    }
    let p = r->Err_0;
    lemma_nearest_unique(p, first, n);
}

/// A request longer than every catalog entry resolves, as a mismatch, to the
/// longest entry.
pub proof fn lemma_clamp_above(n: int, r: Result<Period, Period>)
    requires
        n > nanos_of_period(catalog().last()),
        resolves(n, r),
    ensures
        r == Err::<Period, Period>(catalog().last()),
{
    lemma_catalog_strictly_sorted();
    let k = catalog().len() - 1;
    let last = catalog()[k];
    assert(!is_supported(n)) by {
        assert forall|j: int| 0 <= j < catalog().len() implies nanos_of_period(
            #[trigger] catalog()[j],
        ) != n by {
            if j < k {
                assert(nanos_of_period(catalog()[j]) < nanos_of_period(catalog()[k]));
            }
        }
    }
    assert(catalog().contains(last));
    assert forall|j: int| 0 <= j < catalog().len() implies preferred(
        last,
        #[trigger] catalog()[j],
        n,
    ) by {
        if j < k {
            assert(nanos_of_period(catalog()[j]) < nanos_of_period(catalog()[k]));
        }
    }
    let p = r->Err_0;
    lemma_nearest_unique(p, last, n);
}

/// A request exactly midway between two neighbouring catalog entries resolves,
/// as a mismatch, to the longer of the two.
pub proof fn lemma_midpoint_goes_up(i: int, n: int, r: Result<Period, Period>)
    requires
        1 <= i < catalog().len(),
        2 * n == nanos_of_period(catalog()[i - 1]) + nanos_of_period(catalog()[i]),
        resolves(n, r),
    ensures
        r == Err::<Period, Period>(catalog()[i]),
{
    lemma_catalog_strictly_sorted();
    let above = catalog()[i];
    assert(nanos_of_period(catalog()[i - 1]) < n < nanos_of_period(above));
    assert(!is_supported(n)) by {
        assert forall|j: int| 0 <= j < catalog().len() implies nanos_of_period(
            #[trigger] catalog()[j],
        ) != n by {
            if j < i - 1 {
                assert(nanos_of_period(catalog()[j]) < nanos_of_period(catalog()[i - 1]));
            } else if j > i {
                assert(nanos_of_period(catalog()[i]) < nanos_of_period(catalog()[j]));
            }
        }
    }
    assert(catalog().contains(above));
    assert forall|j: int| 0 <= j < catalog().len() implies preferred(
        above,
        #[trigger] catalog()[j],
        n,
    ) by {
        if j < i - 1 {
            assert(nanos_of_period(catalog()[j]) < nanos_of_period(catalog()[i - 1]));
        } else if j > i {
            assert(nanos_of_period(catalog()[i]) < nanos_of_period(catalog()[j]));
        }
    }
    let p = r->Err_0;
    lemma_nearest_unique(p, above, n);
}

/// Resolves a request of `n` nanoseconds onto the catalog. `Ok` holds the entry
/// that spans exactly `n`; `Err` the nearest entry when none does, ties going to
/// the longer one. A request cannot be negative: the count is unsigned, as is
/// `Duration`, so requests below the shortest entry clamp to it.
pub fn resolve_nanos(n: u128) -> (r: Result<Period, Period>)
    ensures
        resolves(n as int, r),
{
    proof {
        lemma_catalog_strictly_sorted();
    }
    let mut lo: usize = 0;
    let mut hi: usize = CATALOG_LEN;
    while lo < hi
        invariant
            0 <= lo <= hi <= CATALOG_LEN,
            forall|j: int| 0 <= j < lo ==> nanos_of_period(#[trigger] catalog()[j]) < n,
            forall|j: int| hi <= j < CATALOG_LEN ==> nanos_of_period(#[trigger] catalog()[j]) >= n,
            forall|i: int, j: int|
                0 <= i < j < catalog().len() ==> nanos_of_period(#[trigger] catalog()[i])
                    < nanos_of_period(#[trigger] catalog()[j]),
        decreases hi - lo,
    {
        let mid = lo + (hi - lo) / 2;
        if supported_period(mid).nanos() < n {
            lo = mid + 1;
        } else {
            hi = mid;
        }
    }
    let i = lo;
    if i < CATALOG_LEN {
        let at = supported_period(i);
        if at.nanos() == n {
            assert(catalog()[i as int] == at);
            return Ok(at);
        }
    }
    assert(!is_supported(n as int));
    if i == 0 {
        let first = supported_period(0);
        assert(catalog()[0] == first);
        Err(first)
    } else if i == CATALOG_LEN {
        let last = supported_period(CATALOG_LEN - 1);
        assert(catalog()[CATALOG_LEN - 1] == last);
        Err(last)
    } else {
        let below = supported_period(i - 1);
        let above = supported_period(i);
        let lower_dist = n - below.nanos();
        let higher_dist = above.nanos() - n;
        if lower_dist < higher_dist {
            assert(catalog()[i - 1] == below);
            Err(below)
        } else {
            assert(catalog()[i as int] == above);
            Err(above)
        }
    }
}


/// Returned when the requested period is not supported by the API
pub struct ExactError {
    /// The period that was requested by the user
    pub requested: Duration,
    /// The closest period what would have been used if [`Period::new`] was used
    pub closest: Period,
}

impl Period {
    /// Returns the period that is nearest to `duration`.
    /// If a period is natively supported that is the same as `duration`, `Ok(..)` is returned.
    /// Otherwise `Err(..)` is returned containing the period nearest to the requested duration.
    pub fn get_nearest(duration: Duration) -> (r: Result<Period, Period>)
        ensures
            resolves(duration_nanos(duration), r),
    {
        resolve_nanos(nanos_in(&duration))
    }

    /// The supported period that spans exactly `duration`, or the closest one
    /// together with the request when none does.
    pub fn new_exact(duration: Duration) -> (r: Result<Self, ExactError>)
        ensures
            resolves(
                duration_nanos(duration),
                match r {
                    Ok(p) => Ok(p),
                    Err(e) => Err(e.closest),
                },
            ),
            r matches Err(e) ==> e.requested == duration,
    {
        match Self::get_nearest(duration) {
            Ok(p) => Ok(p),
            Err(closest) => Err(ExactError { requested: duration, closest }),
        }
    }

    /// Creates a new period which represents the supported period that is closest to `duration`.
    pub fn new(duration: Duration) -> (r: Self)
        ensures
            is_nearest(r, duration_nanos(duration)),
    {
        match Self::new_exact(duration) {
            Ok(p) => p,
            Err(err) => err.closest,
        }
    }
}

} // verus!
