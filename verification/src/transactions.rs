use vstd::prelude::*;
use chrono::{DateTime, Utc};

verus! {

/// The instant a timestamp text stands for under chrono's `FromStr for DateTime<Utc>`
/// (relaxed RFC 3339), as seconds since the Unix epoch and nanoseconds within the second;
/// nothing if the text does not parse.
pub uninterp spec fn utc_parse_key(timestamp: Seq<char>) -> Option<(i64, u32)>;

/// Parses a timestamp with chrono's `FromStr for DateTime<Utc>` and gives `timestamp()` and
/// `timestamp_subsec_nanos()` of the instant, or nothing if it does not parse. Comparing
/// these pairs in order compares the instants; the parsing itself is only named here.
#[verifier::external_body]
fn parse_key(timestamp: &str) -> (r: Option<(i64, u32)>)
    ensures
        r == utc_parse_key(timestamp@),
{
    match timestamp.parse::<DateTime<Utc>>() {
        Ok(dt) => Some((dt.timestamp(), dt.timestamp_subsec_nanos())),
        Err(_) => None,
    }
}

/// The key of `DateTime::<Utc>::MIN_UTC`, chrono's earliest instant.
pub open spec fn earliest_key() -> (i64, u32) {
    (-8334601228800i64, 0u32)
}

/// `timestamp()` and `timestamp_subsec_nanos()` of `DateTime::<Utc>::MIN_UTC`, which chrono's
/// source defines as `NaiveDateTime::MIN` (the first day of its earliest year, at midnight).
#[verifier::external_body]
fn min_utc_key() -> (r: (i64, u32))
    ensures
        r == earliest_key(),
{
    (DateTime::<Utc>::MIN_UTC.timestamp(), DateTime::<Utc>::MIN_UTC.timestamp_subsec_nanos())
}

/// The sort key of a transaction's timestamp: the instant it stands for, or chrono's
/// earliest instant when it does not parse, so that such transactions come last.
pub open spec fn utc_sort_key(timestamp: Seq<char>) -> (i64, u32) {
    match utc_parse_key(timestamp) {
        Some(k) => k,
        None => earliest_key(),
    }
}

fn sort_key(timestamp: &str) -> (r: (i64, u32))
    ensures
        r == utc_sort_key(timestamp@),
{
    match parse_key(timestamp) {
        Some(k) => k,
        None => min_utc_key(),
    }
}

/// Whether instant `a` is later than instant `b`.
pub open spec fn later(a: (i64, u32), b: (i64, u32)) -> bool {
    a.0 > b.0 || (a.0 == b.0 && a.1 > b.1)
}

/// Whether transaction `i` is listed before transaction `j`: it is more recent, or equally
/// recent and earlier in the input (a stable newest-first order).
pub open spec fn listed_before(keys: Seq<(i64, u32)>, i: int, j: int) -> bool {
    later(keys[i], keys[j]) || (keys[i] == keys[j] && i < j)
}

/// The transactions that the list shows, given their sort keys: at most `limit` of them,
/// newest first, and none left out that would come before one shown.
pub open spec fn is_recent_listing(keys: Seq<(i64, u32)>, limit: nat, r: Seq<usize>) -> bool {
    &&& r.len() == if keys.len() < limit { keys.len() } else { limit }
    &&& forall|a: int| 0 <= a < r.len() ==> #[trigger] r[a] < keys.len()
    &&& forall|a: int, b: int| 0 <= a < b < r.len() ==> listed_before(keys, r[a] as int, r[b] as int)
    &&& forall|j: int, a: int|
            #![trigger r.contains(j as usize), r[a]]
            0 <= j < keys.len() && !r.contains(j as usize) && 0 <= a < r.len() ==> listed_before(keys, r[a] as int, j)
}

/// The sort keys of the given timestamps.
pub fn sort_keys(timestamps: &Vec<String>) -> (r: Vec<(i64, u32)>)
    ensures
        r@.len() == timestamps@.len(),
        forall|i: int| 0 <= i < r@.len() ==> r@[i] == utc_sort_key(#[trigger] timestamps@[i]@),
{
    let mut r: Vec<(i64, u32)> = Vec::new();
    let mut i: usize = 0;
    while i < timestamps.len()
        invariant
            0 <= i <= timestamps@.len(),
            r@.len() == i,
            forall|k: int| 0 <= k < i ==> r@[k] == utc_sort_key(#[trigger] timestamps@[k]@),
        decreases timestamps@.len() - i,
    {
        r.push(sort_key(timestamps[i].as_str()));
        i = i + 1;
    }
    r
}

fn is_later(a: (i64, u32), b: (i64, u32)) -> (r: bool)
    ensures
        r == later(a, b),
{
    a.0 > b.0 || (a.0 == b.0 && a.1 > b.1)
}

/// The positions of the transactions to list, newest first (equally recent ones in input
/// order), at most `limit` of them.
pub fn recent_order(keys: &Vec<(i64, u32)>, limit: usize) -> (r: Vec<usize>)
    ensures
        is_recent_listing(keys@, limit as nat, r@),
{
    let n = keys.len();
    let mut r: Vec<usize> = Vec::new();
    let mut i: usize = 0;
    while i < n
        invariant
            n == keys@.len(),
            0 <= i <= n,
            r@.len() == i,
            forall|a: int| 0 <= a < r@.len() ==> #[trigger] r@[a] < i,
            forall|k: int| 0 <= k < i ==> #[trigger] r@.contains(k as usize),
            forall|a: int, b: int| 0 <= a < b < r@.len() ==> listed_before(keys@, r@[a] as int, r@[b] as int),
        decreases n - i,
    {
        let mut p: usize = 0;
        while p < r.len() && !is_later(keys[i], keys[r[p]])
            invariant
                n == keys@.len(),
                i < n,
                r@.len() == i,
                forall|a: int| 0 <= a < r@.len() ==> #[trigger] r@[a] < i,
                0 <= p <= r@.len(),
                forall|a: int| 0 <= a < p ==> !later(keys@[i as int], keys@[#[trigger] r@[a] as int]),
            decreases r@.len() - p,
        {
            p = p + 1;
        }
        let ghost old_r = r@;
        r.insert(p, i);
        proof {
            assert(r@ == old_r.insert(p as int, i));
            assert forall|a: int, b: int| 0 <= a < b < r@.len() implies listed_before(keys@, r@[a] as int, r@[b] as int) by {
                if b < p {
                    assert(r@[a] == old_r[a] && r@[b] == old_r[b]);
                } else if b == p {
                    assert(r@[a] == old_r[a]);
                    assert(!later(keys@[i as int], keys@[old_r[a] as int]));
                } else if a == p {
                    assert(r@[b] == old_r[b - 1]);
                    assert(later(keys@[i as int], keys@[old_r[p as int] as int]));
                    if b - 1 > p {
                        assert(listed_before(keys@, old_r[p as int] as int, old_r[b - 1] as int));
                    }
                } else if a < p {
                    assert(r@[a] == old_r[a] && r@[b] == old_r[b - 1]);
                } else {
                    assert(r@[a] == old_r[a - 1] && r@[b] == old_r[b - 1]);
                }
            }
            assert forall|k: int| 0 <= k < i + 1 implies #[trigger] r@.contains(k as usize) by {
                if k == i {
                    assert(r@[p as int] == i);
                } else {
                    assert(old_r.contains(k as usize));
                    let q = choose|q: int| 0 <= q < old_r.len() && old_r[q] == k as usize;
                    if q < p {
                        assert(r@[q] == k as usize);
                    } else {
                        assert(r@[q + 1] == k as usize);
                    }
                }
            }
            assert forall|a: int| 0 <= a < r@.len() implies #[trigger] r@[a] < i + 1 by {
                if a < p {
                    assert(r@[a] == old_r[a]);
                } else if a > p {
                    assert(r@[a] == old_r[a - 1]);
                }
            }
        }
        i = i + 1;
    }
    let target = if n < limit { n } else { limit };
    let ghost full = r@;
    r.truncate(target);
    proof {
        assert(r@ == full.subrange(0, target as int));
        assert forall|j: int, a: int|
            #![trigger r@.contains(j as usize), r@[a]]
            0 <= j < n && !r@.contains(j as usize) && 0 <= a < r@.len() implies listed_before(keys@, r@[a] as int, j) by {
            assert(full.contains(j as usize));
            let q = choose|q: int| 0 <= q < full.len() && full[q] == j as usize;
            if q < target {
                assert(r@[q] == j as usize);
            }
            assert(r@[a] == full[a]);
        }
    }
    r
}

/// The sort keys of a list of timestamps.
pub open spec fn keys_of(timestamps: Seq<String>) -> Seq<(i64, u32)> {
    Seq::new(timestamps.len(), |i: int| utc_sort_key(timestamps[i]@))
}

/// The positions of the transactions that the history shows: the 100 most recent by
/// timestamp, newest first.
pub fn recent_transactions(timestamps: &Vec<String>) -> (r: Vec<usize>)
    ensures
        is_recent_listing(keys_of(timestamps@), 100, r@),
{
    let keys = sort_keys(timestamps);
    assert(keys@ =~= keys_of(timestamps@));
    recent_order(&keys, 100)
}

} // verus!
