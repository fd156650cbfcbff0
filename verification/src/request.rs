use vstd::prelude::*;
use vstd::string::StringSliceAdditionalSpecFns;
use vstd::utf8::{valid_utf8, decode_utf8, encode_utf8_decode_utf8};
use crate::method::{IntKind, Method, fits_kind, signature, reads_request};

verus! {

#[verifier::external_type_specification]
#[verifier::external_body]
pub struct ExUtf8Error(std::str::Utf8Error);

#[verifier::external_type_specification]
#[verifier::external_body]
pub struct ExJsonError(serde_json::Error);

/// What serde_json makes of `text` read as a JSON array of numbers: `None` where it
/// rejects the text, else one entry per element, the integer it holds or `None` for
/// a number that is not an integer.
pub uninterp spec fn json_integer_array(text: Seq<char>) -> Option<Seq<Option<i128>>>;

/// `std::str::from_utf8`: succeeds exactly on valid UTF-8 and then views the same bytes as text.
#[verifier::external_body]
fn utf8_text(bytes: &[u8]) -> (r: Result<&str, std::str::Utf8Error>)
    ensures
        r is Ok <==> valid_utf8(bytes@),
        r matches Ok(t) ==> t.spec_bytes() == bytes@,
{
    std::str::from_utf8(bytes)
}

/// `serde_json::from_str::<Vec<serde_json::Number>>`, each number then taken by
/// `serde_json::Number::as_i128`. The contract names the result `json_integer_array`
/// and says nothing else of it.
#[verifier::external_body]
fn parse_integer_array(text: &str) -> (r: Result<Vec<Option<i128>>, serde_json::Error>)
    ensures
        r is Ok <==> json_integer_array(text@) is Some,
        r matches Ok(v) ==> json_integer_array(text@) == Some(v@),
{
    serde_json::from_str::<Vec<serde_json::Number>>(text).map(
        |numbers| numbers.iter().map(serde_json::Number::as_i128).collect(),
    )
}

/// Why the arguments of a request do not fit the call's declared argument types.
#[derive(Clone, Copy, Debug, PartialEq, Eq, Structural)]
pub enum ArgFault {
    /// The array holds `found` elements where the call takes `expected`.
    Length { expected: usize, found: usize },
    /// The element at `position` is a number but not an integer.
    NotInteger { position: usize },
    /// The element at `position` is the integer `value`, outside the range of `kind`.
    OutOfRange { position: usize, value: i128, kind: IntKind },
}

/// The first fault found reading `values` as arguments of kinds `kinds`, from index `i`
/// on: elements in order as far as both reach, then the count of elements.
pub open spec fn scan_arguments(kinds: Seq<IntKind>, values: Seq<Option<i128>>, i: int) -> Option<
    ArgFault,
>
    decreases kinds.len() - i,
{
    if i < 0 || i >= kinds.len() || i >= values.len() {
        if kinds.len() != values.len() {
            Some(ArgFault::Length { expected: kinds.len() as usize, found: values.len() as usize })
        } else {
            None
        }
    } else {
        match values[i] {
            None => Some(ArgFault::NotInteger { position: i as usize }),
            Some(v) => if !fits_kind(kinds[i], v as int) {
                Some(ArgFault::OutOfRange { position: i as usize, value: v, kind: kinds[i] })
            } else {
                scan_arguments(kinds, values, i + 1)
            },
        }
    }
}

/// The arguments that `values` give for a call taking `kinds`, or the first fault.
pub open spec fn checked_arguments(kinds: Seq<IntKind>, values: Seq<Option<i128>>) -> Result<
    Seq<i128>,
    ArgFault,
> {
    match scan_arguments(kinds, values, 0) {
        Some(f) => Err(f),
        None => Ok(values.map_values(|o: Option<i128>| o.unwrap())),
    }
}

/// Checks the parsed elements of a request against the argument kinds of its call.
pub fn check_arguments(kinds: &Vec<IntKind>, values: &Vec<Option<i128>>) -> (r: Result<
    Vec<i128>,
    ArgFault,
>)
    ensures
        r matches Ok(a) ==> checked_arguments(kinds@, values@) == Ok::<Seq<i128>, ArgFault>(a@),
        r matches Err(f) ==> checked_arguments(kinds@, values@) == Err::<Seq<i128>, ArgFault>(f),
{
    let mut out: Vec<i128> = Vec::new();
    let mut i: usize = 0;
    while i < kinds.len() && i < values.len()
        invariant
            0 <= i <= kinds@.len(),
            i <= values@.len(),
            scan_arguments(kinds@, values@, 0) == scan_arguments(kinds@, values@, i as int),
            out@ == values@.take(i as int).map_values(|o: Option<i128>| o.unwrap()),
        decreases kinds@.len() - i,
    {
        match values[i] {
            None => {
                return Err(ArgFault::NotInteger { position: i });
            },
            Some(v) => {
                if !kinds[i].admits(v) {
                    return Err(ArgFault::OutOfRange { position: i, value: v, kind: kinds[i] });
                }
                out.push(v);
                assert(values@.take(i + 1).map_values(|o: Option<i128>| o.unwrap()) =~= values@.take(
                    i as int,
                ).map_values(|o: Option<i128>| o.unwrap()).push(v));
            },
        }
        i = i + 1;
    }
    if kinds.len() != values.len() {
        return Err(ArgFault::Length { expected: kinds.len(), found: values.len() });
    }
    assert(values@.take(i as int) =~= values@);
    Ok(out)
}

/// Arguments that pass the check are one per declared kind, each within its kind's range.
pub proof fn lemma_checked_arguments_fit(kinds: Seq<IntKind>, values: Seq<Option<i128>>)
    ensures
        checked_arguments(kinds, values) matches Ok(a) ==> (a.len() == kinds.len() && forall|i: int|
            0 <= i < kinds.len() ==> fits_kind(kinds[i], #[trigger] a[i] as int) && values[i]
                == Some(a[i])),
{
    lemma_scan_none(kinds, values, 0);
}

/// The check passes exactly when there is one element per declared kind and each is
/// an integer within its kind's range.
pub proof fn lemma_checked_ok_iff(kinds: Seq<IntKind>, values: Seq<Option<i128>>)
    ensures
        checked_arguments(kinds, values) is Ok <==> (kinds.len() == values.len() && forall|i: int|
            0 <= i < kinds.len() ==> ((#[trigger] values[i]) matches Some(v) && fits_kind(kinds[i], v as int))),
{
    lemma_scan_none(kinds, values, 0);
    if kinds.len() == values.len() && forall|i: int|
        0 <= i < kinds.len() ==> ((#[trigger] values[i]) matches Some(v) && fits_kind(kinds[i], v as int)) {
        lemma_scan_passes(kinds, values, 0);
    }
}

proof fn lemma_scan_passes(kinds: Seq<IntKind>, values: Seq<Option<i128>>, i: int)
    requires
        0 <= i,
        kinds.len() == values.len(),
        forall|k: int| 0 <= k < kinds.len() ==> ((#[trigger] values[k]) matches Some(v) && fits_kind(kinds[k], v as int)),
    ensures
        scan_arguments(kinds, values, i) is None,
    decreases kinds.len() - i,
{
    if i < kinds.len() {
        assert(values[i] matches Some(v) && fits_kind(kinds[i], v as int));
        lemma_scan_passes(kinds, values, i + 1);
    }
}

proof fn lemma_scan_none(kinds: Seq<IntKind>, values: Seq<Option<i128>>, i: int)
    requires
        0 <= i,
    ensures
        scan_arguments(kinds, values, i) is None ==> kinds.len() == values.len() && forall|k: int|
            i <= k < kinds.len() ==> ((#[trigger] values[k]) matches Some(v) && fits_kind(kinds[k], v as int)),
    decreases kinds.len() - i,
{
    if i < kinds.len() && i < values.len() {
        lemma_scan_none(kinds, values, i + 1);
    }
}

/// Values that are all integers within the declared ranges, one per kind, pass the check unchanged.
pub proof fn lemma_fitting_values_pass(kinds: Seq<IntKind>, values: Seq<i128>)
    requires
        kinds.len() == values.len(),
        forall|i: int| 0 <= i < kinds.len() ==> fits_kind(kinds[i], #[trigger] values[i] as int),
    ensures
        checked_arguments(kinds, values.map_values(|v: i128| Some(v))) == Ok::<Seq<i128>, ArgFault>(values),
{
    let opts = values.map_values(|v: i128| Some(v));
    lemma_scan_fitting(kinds, values, 0);
    assert(opts.map_values(|o: Option<i128>| o.unwrap()) =~= values);
}

proof fn lemma_scan_fitting(kinds: Seq<IntKind>, values: Seq<i128>, i: int)
    requires
        0 <= i,
        kinds.len() == values.len(),
        forall|k: int| 0 <= k < kinds.len() ==> fits_kind(kinds[k], #[trigger] values[k] as int),
    ensures
        scan_arguments(kinds, values.map_values(|v: i128| Some(v)), i) is None,
    decreases kinds.len() - i,
{
    if i < kinds.len() {
        lemma_scan_fitting(kinds, values, i + 1);
    }
}

/// Why a request could not be decoded.
#[derive(Debug)]
pub enum RequestError {
    /// The body is not UTF-8.
    NotUtf8(std::str::Utf8Error),
    /// serde_json rejects the body as an array of numbers.
    Json(serde_json::Error),
    /// The numbers do not fit the call's arguments.
    Arguments(ArgFault),
}

/// The arguments that the request body `body` carries for `m`, or `None` where decoding fails.
pub open spec fn request_arguments(m: Method, body: Seq<u8>) -> Option<Seq<i128>> {
    if !reads_request(m) {
        Some(Seq::empty())
    } else if !valid_utf8(body) {
        None
    } else {
        match json_integer_array(decode_utf8(body)) {
            None => None,
            Some(vals) => match checked_arguments(signature(m), vals) {
                Ok(a) => Some(a),
                Err(_) => None,
            },
        }
    }
}

/// Decodes the body of a request for `method`: UTF-8 text holding a JSON array of
/// integers, one per argument of the call, each within the range that the call declares.
pub fn decode_request(method: Method, body: &[u8]) -> (r: Result<Vec<i128>, RequestError>)
    ensures
        r matches Ok(a) ==> request_arguments(method, body@) == Some(a@),
        r is Err ==> request_arguments(method, body@) is None,
        reads_request(method) ==> ((r matches Err(RequestError::NotUtf8(_))) <==> !valid_utf8(body@)),
        reads_request(method) && valid_utf8(body@) ==> ((r matches Err(RequestError::Json(_)))
            <==> json_integer_array(decode_utf8(body@)) is None),
        reads_request(method) && valid_utf8(body@) ==> (json_integer_array(decode_utf8(body@)) matches Some(vals)
            ==> (checked_arguments(signature(method), vals) matches Err(f) ==> (r matches Err(
            RequestError::Arguments(g)) && g == f))),
{
    if !method.reads_request() {
        return Ok(Vec::new());
    }
    let text = match utf8_text(body) {
        Ok(t) => t,
        Err(e) => {
            return Err(RequestError::NotUtf8(e));
        },
    };
    proof {
        encode_utf8_decode_utf8(text@);
    }
    let values = match parse_integer_array(text) {
        Ok(v) => v,
        Err(e) => {
            return Err(RequestError::Json(e));
        },
    };
    let kinds = method.arg_kinds();
    match check_arguments(&kinds, &values) {
        Ok(a) => Ok(a),
        Err(f) => Err(RequestError::Arguments(f)),
    }
}

} // verus!
