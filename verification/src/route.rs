use vstd::prelude::*;
use vstd::string::StringSliceAdditionalSpecFns;
use crate::decimal::{is_digit, digits_value, lemma_digits_value_grows, decimal, lemma_decimal_roundtrip};
use crate::method::{Method, routed_method, range_equals, method_for_segment, route_name, is_routed, lemma_route_name, lemma_routed_method_iff, law_routed_calls};

verus! {

/// The protocol version segment, `/wasi_snapshot_preview1`.
pub open spec fn version_segment() -> Seq<u8> {
    seq![47u8, 119, 97, 115, 105, 95, 115, 110, 97, 112, 115, 104, 111, 116, 95, 112, 114, 101, 118, 105, 101, 119, 49]
}

/// The segment that asks for a new instance, `/init`.
pub open spec fn init_segment() -> Seq<u8> {
    seq![47u8, 105, 110, 105, 116]
}

/// The end of the run of ASCII digits that starts at `i`.
pub open spec fn digits_end(s: Seq<u8>, i: int) -> int
    decreases s.len() - i,
{
    if 0 <= i < s.len() && is_digit(s[i]) {
        digits_end(s, i + 1)
    } else {
        i
    }
}

/// The position of the first line feed at or after `i`, or the length of `s`.
pub open spec fn line_end(s: Seq<u8>, i: int) -> int
    decreases s.len() - i,
{
    if 0 <= i < s.len() && s[i] != 10 {
        line_end(s, i + 1)
    } else {
        i
    }
}

/// At `q` stand the version segment, a slash, and a byte other than a line feed.
pub open spec fn version_at(s: Seq<u8>, q: int) -> bool {
    &&& 0 <= q
    &&& q + 24 < s.len()
    &&& s.subrange(q, q + 23) == version_segment()
    &&& s[q + 23] == 47
    &&& s[q + 24] != 10
}

/// At `p` stand a slash, a run of digits (the instance index), and then the version as in `version_at`.
pub open spec fn indexed_at(s: Seq<u8>, p: int) -> bool {
    &&& 0 <= p
    &&& p + 1 < s.len()
    &&& s[p] == 47
    &&& is_digit(s[p + 1])
    &&& version_at(s, digits_end(s, p + 1))
}

/// The route pattern `(/(\d+))?/(wasi_snapshot_preview1)(/.+)` matches at `p`.
pub open spec fn match_at(s: Seq<u8>, p: int) -> bool {
    indexed_at(s, p) || version_at(s, p)
}

/// The leftmost position at or after `p` where the route pattern matches.
pub open spec fn first_match(s: Seq<u8>, p: int) -> Option<int>
    decreases s.len() - p,
{
    if p < 0 || p >= s.len() {
        None
    } else if match_at(s, p) {
        Some(p)
    } else {
        first_match(s, p + 1)
    }
}

/// The leftmost match is a match, and none lies before it.
pub proof fn lemma_first_match(s: Seq<u8>, i: int)
    requires
        0 <= i,
    ensures
        first_match(s, i) matches Some(p) ==> i <= p < s.len() && match_at(s, p)
            && forall|k: int| i <= k < p ==> !match_at(s, k),
        first_match(s, i) is None ==> forall|k: int| i <= k < s.len() ==> !match_at(s, k),
    decreases s.len() - i,
{
    if i < s.len() && !match_at(s, i) {
        lemma_first_match(s, i + 1);
    }
}

/// Where the version segment starts in a match at `p`.
pub open spec fn version_start(s: Seq<u8>, p: int) -> int {
    if indexed_at(s, p) {
        digits_end(s, p + 1)
    } else {
        p
    }
}

/// The call segment of a path (a slash and the rest of the line after the version),
/// or `None` where the route pattern matches nowhere.
pub open spec fn route_segment(s: Seq<u8>) -> Option<Seq<u8>> {
    match first_match(s, 0) {
        Some(p) => {
            let q: int = version_start(s, p);
            Some(s.subrange(q + 23, line_end(s, q + 24)))
        },
        None => None,
    }
}

/// The instance index that a run of digits names: its value, or 0 where it does not fit a `usize`.
pub open spec fn index_value(digits: Seq<u8>) -> nat {
    if digits_value(digits) <= usize::MAX {
        digits_value(digits)
    } else {
        0
    }
}

/// The instance index of a path: the digits before the version where there are any, else 0.
pub open spec fn route_index(s: Seq<u8>) -> nat {
    match first_match(s, 0) {
        Some(p) => if indexed_at(s, p) {
            index_value(s.subrange(p + 1, digits_end(s, p + 1)))
        } else {
            0
        },
        None => 0,
    }
}

/// What the protocol handler does with a request.
#[derive(Clone, Copy, Debug, PartialEq, Eq, Structural)]
pub enum Action {
    /// Create a new instance; it will be found under `index`.
    Init { index: usize },
    /// Serve `method` with the instance at `index`.
    Invoke { index: usize, method: Method },
    /// Answer with an empty body.
    Ignore,
}

/// The handler's decision for a request path while `count` instances exist.
pub open spec fn decide(path: Seq<u8>, count: usize) -> Action {
    match route_segment(path) {
        None => Action::Ignore,
        Some(seg) => if seg == init_segment() {
            Action::Init { index: count }
        } else if route_index(path) < count {
            match routed_method(seg) {
                Some(m) => Action::Invoke { index: route_index(path) as usize, method: m },
                None => Action::Ignore,
            }
        } else {
            Action::Ignore
        },
    }
}

/// The path under which a client asks instance `index` (or, without one, instance 0)
/// for the call segment `segment`: `[/index]/wasi_snapshot_preview1/segment`.
pub open spec fn request_path(index: Option<nat>, segment: Seq<u8>) -> Seq<u8> {
    match index {
        Some(n) => seq![47u8] + decimal(n) + version_segment() + segment,
        None => version_segment() + segment,
    }
}

/// A call segment as clients write them: a slash, at least one more byte, no line feed.
pub open spec fn plain_segment(t: Seq<u8>) -> bool {
    &&& t.len() >= 2
    &&& t[0] == 47
    &&& forall|i: int| 0 <= i < t.len() ==> #[trigger] t[i] != 10
}

proof fn lemma_digits_end(s: Seq<u8>, i: int, j: int)
    requires
        0 <= i <= j <= s.len(),
        forall|k: int| i <= k < j ==> is_digit(#[trigger] s[k]),
        j == s.len() || !is_digit(s[j]),
    ensures
        digits_end(s, i) == j,
    decreases j - i,
{
    if i < j {
        lemma_digits_end(s, i + 1, j);
    }
}

proof fn lemma_line_end(s: Seq<u8>, i: int)
    requires
        0 <= i <= s.len(),
        forall|k: int| i <= k < s.len() ==> #[trigger] s[k] != 10,
    ensures
        line_end(s, i) == s.len(),
    decreases s.len() - i,
{
    if i < s.len() {
        lemma_line_end(s, i + 1);
    }
}

/// A path written by `request_path` is matched at its start: its call segment is
/// the one written, and its index is the one written (0 where none is written).
pub proof fn lemma_request_path_parts(index: Option<nat>, t: Seq<u8>)
    requires
        plain_segment(t),
        index matches Some(n) ==> n <= usize::MAX,
    ensures
        route_segment(request_path(index, t)) == Some(t),
        route_index(request_path(index, t)) == match index {
            Some(n) => n,
            None => 0,
        },
{
    let v = version_segment();
    let s = request_path(index, t);
    match index {
        Some(n) => {
            let d = decimal(n);
            lemma_decimal_roundtrip(n);
            let q: int = 1 + d.len() as int;
            assert(s.len() == q + 23 + t.len());
            assert forall|k: int| 1 <= k < q implies is_digit(#[trigger] s[k]) by {
                assert(s[k] == d[k - 1]);
            }
            assert(s[q] == 47);
            lemma_digits_end(s, 1, q);
            assert(s.subrange(q, q + 23) =~= v);
            assert(s[q + 23] == t[0]);
            assert(s[q + 24] == t[1]);
            assert(version_at(s, q));
            assert(s[1] == d[0]);
            assert(indexed_at(s, 0));
            assert(first_match(s, 0) == Some(0int));
            assert forall|k: int| q + 24 <= k < s.len() implies #[trigger] s[k] != 10 by {
                assert(s[k] == t[k - q - 23]);
            }
            lemma_line_end(s, q + 24);
            assert(s.subrange(q + 23, s.len() as int) =~= t);
            assert(s.subrange(1, q) =~= d);
        },
        None => {
            assert(s.subrange(0, 23) =~= v);
            assert(s[23] == t[0]);
            assert(s[24] == t[1]);
            assert(version_at(s, 0));
            assert(first_match(s, 0) == Some(0int));
            assert(!is_digit(s[1]));
            assert(!indexed_at(s, 0));
            assert forall|k: int| 24 <= k < s.len() implies #[trigger] s[k] != 10 by {
                assert(s[k] == t[k - 23]);
            }
            lemma_line_end(s, 24);
            assert(s.subrange(23, s.len() as int) =~= t);
        },
    }
}

/// Facts about the path segments of the calls: each is a plain segment other than
/// `/init`, and each routed call is found again from its own segment.
pub proof fn lemma_route_segment(m: Method)
    ensures
        plain_segment(route_name(m)),
        route_name(m) != init_segment(),
        is_routed(m) ==> routed_method(route_name(m)) == Some(m),
{
    lemma_route_name(m);
    let t = route_name(m);
    assert(t[1] != 105 || t.len() != 5);
}

/// A request for a routed call on an existing instance reaches that call on that
/// instance, whether the path names the index or leaves it out (instance 0).
pub proof fn law_request_reaches_call(n: usize, m: Method, count: usize)
    requires
        is_routed(m),
        n < count,
    ensures
        decide(request_path(Some(n as nat), route_name(m)), count) == (Action::Invoke {
            index: n,
            method: m,
        }),
        decide(request_path(None, route_name(m)), count) == (Action::Invoke {
            index: 0,
            method: m,
        }),
{
    lemma_route_segment(m);
    lemma_request_path_parts(Some(n as nat), route_name(m));
    lemma_request_path_parts(None, route_name(m));
}

/// A request for a call that the handler does not serve (any call other than the
/// `fd_*` and `path_*` calls) is answered with an empty body, whatever the instance.
pub proof fn law_unrouted_call_ignored(index: Option<nat>, m: Method, count: usize)
    requires
        !is_routed(m),
        index matches Some(n) ==> n <= usize::MAX,
    ensures
        decide(request_path(index, route_name(m)), count) == Action::Ignore,
{
    lemma_route_segment(m);
    lemma_request_path_parts(index, route_name(m));
    if let Some(other) = routed_method(route_name(m)) {
        lemma_routed_method_iff(route_name(m), other);
        law_routed_calls(other);
        law_routed_calls(m);
    }
}

/// A request for an instance that does not exist is answered with an empty body.
pub proof fn law_missing_instance_ignored(n: usize, m: Method, count: usize)
    requires
        count <= n,
    ensures
        decide(request_path(Some(n as nat), route_name(m)), count) == Action::Ignore,
{
    lemma_route_segment(m);
    lemma_request_path_parts(Some(n as nat), route_name(m));
}

/// A request for `/init` always creates a new instance, numbered by the count of
/// those that exist, whatever index the path names.
pub proof fn law_init_creates_instance(index: Option<nat>, count: usize)
    requires
        index matches Some(n) ==> n <= usize::MAX,
    ensures
        decide(request_path(index, init_segment()), count) == (Action::Init { index: count }),
{
    lemma_request_path_parts(index, init_segment());
}

/// Creating more instances never turns away a request that an instance already served:
/// it reaches the same call on the same instance.
pub proof fn law_invoke_stable(path: Seq<u8>, count: usize, more: usize)
    requires
        count <= more,
        decide(path, count) is Invoke,
    ensures
        decide(path, more) == decide(path, count),
{
}

fn digits_end_from(s: &[u8], i: usize) -> (j: usize)
    requires
        i <= s@.len(),
    ensures
        j == digits_end(s@, i as int),
        i <= j <= s@.len(),
        forall|k: int| i <= k < j ==> is_digit(#[trigger] s@[k]),
{
    let mut j: usize = i;
    while j < s.len() && 48 <= s[j] && s[j] <= 57
        invariant
            i <= j <= s@.len(),
            digits_end(s@, i as int) == digits_end(s@, j as int),
            forall|k: int| i <= k < j ==> is_digit(#[trigger] s@[k]),
        decreases s@.len() - j,
    {
        j = j + 1;
    }
    j
}

fn line_end_from(s: &[u8], i: usize) -> (j: usize)
    requires
        i <= s@.len(),
    ensures
        j == line_end(s@, i as int),
        i <= j <= s@.len(),
{
    let mut j: usize = i;
    while j < s.len() && s[j] != 10
        invariant
            i <= j <= s@.len(),
            line_end(s@, i as int) == line_end(s@, j as int),
        decreases s@.len() - j,
    {
        j = j + 1;
    }
    j
}

fn version_at_pos(s: &[u8], q: usize) -> (r: bool)
    requires
        q <= s@.len(),
    ensures
        r == version_at(s@, q as int),
{
    if s.len() - q <= 24 {
        return false;
    }
    let lit: Vec<u8> = vec![47u8, 119, 97, 115, 105, 95, 115, 110, 97, 112, 115, 104, 111, 116, 95, 112, 114, 101, 118, 105, 101, 119, 49];
    assert(lit@ =~= version_segment());
    range_equals(s, q, q + 23, lit.as_slice()) && s[q + 23] == 47 && s[q + 24] != 10
}

/// Whether the indexed form matches at `p`, and where its digit run ends.
fn indexed_at_pos(s: &[u8], p: usize) -> (r: (bool, usize))
    requires
        p < s@.len(),
    ensures
        r.0 == indexed_at(s@, p as int),
        r.0 ==> r.1 == digits_end(s@, p + 1) && p + 1 < r.1 && r.1 + 24 < s@.len()
            && forall|k: int| p + 1 <= k < r.1 ==> is_digit(#[trigger] s@[k]),
{
    if s.len() - p > 1 && s[p] == 47 && 48 <= s[p + 1] && s[p + 1] <= 57 {
        let d: usize = digits_end_from(s, p + 1);
        (version_at_pos(s, d), d)
    } else {
        (false, 0)
    }
}

fn find_match(s: &[u8]) -> (r: Option<usize>)
    ensures
        r matches Some(p) ==> first_match(s@, 0) == Some(p as int) && p < s@.len(),
        r is None ==> first_match(s@, 0) is None,
{
    let mut p: usize = 0;
    while p < s.len()
        invariant
            p <= s@.len(),
            first_match(s@, 0) == first_match(s@, p as int),
        decreases s@.len() - p,
    {
        let (indexed, _) = indexed_at_pos(s, p);
        if indexed || version_at_pos(s, p) {
            return Some(p);
        }
        p = p + 1;
    }
    None
}

/// Reads the digits `s[start..end]` as an instance index: their value, or 0 where it overflows.
fn read_index(s: &[u8], start: usize, end: usize) -> (r: usize)
    requires
        start <= end <= s@.len(),
        forall|k: int| start <= k < end ==> is_digit(#[trigger] s@[k]),
    ensures
        r == index_value(s@.subrange(start as int, end as int)),
{
    let ghost d = s@.subrange(start as int, end as int);
    let mut acc: usize = 0;
    let mut overflow = false;
    let mut i: usize = start;
    while i < end
        invariant
            start <= i <= end <= s@.len(),
            d == s@.subrange(start as int, end as int),
            forall|k: int| start <= k < end ==> is_digit(#[trigger] s@[k]),
            !overflow ==> acc == digits_value(d.take(i - start)),
            overflow ==> digits_value(d.take(i - start)) > usize::MAX,
        decreases end - i,
    {
        proof {
            lemma_digits_value_grows(d, i - start);
            assert(d[i - start] == s@[i as int]);
        }
        let digit: usize = (s[i] - 48) as usize;
        if !overflow {
            match acc.checked_mul(10) {
                Some(t) => match t.checked_add(digit) {
                    Some(u) => {
                        acc = u;
                    },
                    None => {
                        overflow = true;
                    },
                },
                None => {
                    overflow = true;
                },
            }
        }
        i = i + 1;
    }
    assert(d.take(end - start) =~= d);
    if overflow {
        0
    } else {
        acc
    }
}

/// Decides what to do with a request for `path` while `count` instances exist.
pub fn decide_action(path: &str, count: usize) -> (a: Action)
    ensures
        a == decide(path.spec_bytes(), count),
{
    let s = path.as_bytes();
    match find_match(s) {
        None => Action::Ignore,
        Some(p) => {
            proof {
                lemma_first_match(s@, 0);
            }
            let (indexed, d) = indexed_at_pos(s, p);
            let q: usize = if indexed {
                d
            } else {
                p
            };
            assert(version_at(s@, q as int));
            let len: usize = s.len();
            assert(q + 24 < len);
            let e: usize = line_end_from(s, q + 24);
            let init: Vec<u8> = vec![47u8, 105, 110, 105, 116];
            assert(init@ =~= init_segment());
            if range_equals(s, q + 23, e, init.as_slice()) {
                Action::Init { index: count }
            } else {
                let index: usize = if indexed {
                    read_index(s, p + 1, d)
                } else {
                    0
                };
                if index < count {
                    match method_for_segment(s, q + 23, e) {
                        Some(m) => Action::Invoke { index, method: m },
                        None => Action::Ignore,
                    }
                } else {
                    Action::Ignore
                }
            }
        },
    }
}

} // verus!
