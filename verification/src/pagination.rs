//! The `start` and `end` bounds of a request: how they are read from the
//! query parameters, when they are refused, and which index range of a
//! collection they select.

use vstd::prelude::*;
use vstd::string::*;
use std::ops::Range;
use crate::query::QueryParams;
use crate::decimal::{
    decimal_text, is_usize_text, lemma_decimal_text_reads_back, parse_failure_text, parse_usize,
    to_decimal, usize_text_value,
};

verus! {

/// The bounds of a page: positions `start` up to, not including, `end`.
#[derive(Debug, Clone, Copy, PartialEq, Eq, Structural)]
pub struct Pagination {
    pub start: usize,
    pub end: usize,
}

/// Why a request's bounds were refused.
#[derive(Debug, Clone)]
pub enum Error {
    /// A bound is not the decimal text of a `usize`; holds the reader's
    /// message.
    ParseError(String),
    /// One bound was given without the other.
    MissingParameters,
    /// Both bounds were read, and `start` is greater than `end`; holds the
    /// bounds as read.
    StartGreaterThanEnd(Pagination),
}

/// An [`Error`] without the message of the reader.
#[derive(Debug, Clone, Copy, PartialEq, Eq, Structural)]
pub enum ErrorKind {
    ParseError,
    MissingParameters,
    StartGreaterThanEnd(Pagination),
}

/// The bounds that stand for "everything": from the first position on, with
/// no upper limit short of the largest `usize`.
pub open spec fn full_range() -> Pagination {
    Pagination { start: 0, end: usize::MAX }
}

/// The text given for the parameter `key`, if any.
pub open spec fn param(params: Map<Seq<char>, Seq<char>>, key: Seq<char>) -> Option<Seq<char>> {
    if params.contains_key(key) {
        Some(params[key])
    } else {
        None
    }
}

/// What the texts given for `start` and `end` resolve to.
///
/// With both given, each must be the decimal text of a `usize`, and the
/// first number may not exceed the second. With neither given the bounds
/// are [`full_range`]. One without the other is refused.
pub open spec fn resolve(start: Option<Seq<char>>, end: Option<Seq<char>>) -> Result<
    Pagination,
    ErrorKind,
> {
    match (start, end) {
        (Some(s), Some(e)) => {
            if !is_usize_text(s) || !is_usize_text(e) {
                Err(ErrorKind::ParseError)
            } else {
                let p = Pagination {
                    start: usize_text_value(s) as usize,
                    end: usize_text_value(e) as usize,
                };
                if p.start > p.end {
                    Err(ErrorKind::StartGreaterThanEnd(p))
                } else {
                    Ok(p)
                }
            }
        },
        (None, None) => Ok(full_range()),
        _ => Err(ErrorKind::MissingParameters),
    }
}

/// The lesser of two numbers.
pub open spec fn least(a: int, b: int) -> int {
    if a <= b {
        a
    } else {
        b
    }
}

/// The index range that `p` selects in a collection of `length` items:
/// both bounds, each cut down to `length`.
pub open spec fn effective_range(p: Pagination, length: int) -> (int, int) {
    (least(p.start as int, length), least(p.end as int, length))
}

/// The text of `p` as diagnostics show it.
pub open spec fn pagination_text(p: Pagination) -> Seq<char> {
    "Pagination { start: "@ + decimal_text(p.start as nat) + ", end: "@ + decimal_text(
        p.end as nat,
    ) + " }"@
}

/// The message that describes `e`.
pub open spec fn error_text(e: Error) -> Seq<char> {
    match e {
        Error::ParseError(detail) => "Cannot parse parameter: "@ + detail@,
        Error::MissingParameters => "Missing parameter"@,
        Error::StartGreaterThanEnd(p) => "Start greater end "@ + pagination_text(p),
    }
}

impl Pagination {
    /// The text of these bounds as diagnostics show it.
    pub fn describe(&self) -> (r: String)
        ensures
            r@ == pagination_text(*self),
    {
        let mut r = String::from_str("Pagination { start: ");
        r.append(to_decimal(self.start).as_str());
        r.append(", end: ");
        r.append(to_decimal(self.end).as_str());
        r.append(" }");
        r
    }
}

impl Error {
    /// This error without the reader's message.
    pub open spec fn kind_spec(&self) -> ErrorKind {
        match *self {
            Error::ParseError(_) => ErrorKind::ParseError,
            Error::MissingParameters => ErrorKind::MissingParameters,
            Error::StartGreaterThanEnd(p) => ErrorKind::StartGreaterThanEnd(p),
        }
    }

    /// This error without the reader's message.
    #[verifier::when_used_as_spec(kind_spec)]
    pub fn kind(&self) -> (k: ErrorKind)
        ensures
            k == self.kind_spec(),
    {
        match self {
            Error::ParseError(_) => ErrorKind::ParseError,
            Error::MissingParameters => ErrorKind::MissingParameters,
            Error::StartGreaterThanEnd(p) => ErrorKind::StartGreaterThanEnd(*p),
        }
    }

    /// The message that describes this error.
    pub fn message(&self) -> (r: String)
        ensures
            r@ == error_text(*self),
    {
        match self {
            Error::ParseError(detail) => {
                String::from_str("Cannot parse parameter: ").concat(detail.as_str())
            },
            Error::MissingParameters => String::from_str("Missing parameter"),
            Error::StartGreaterThanEnd(p) => {
                String::from_str("Start greater end ").concat(p.describe().as_str())
            },
        }
    }
}

/// What is decided once both bounds have been read: the bounds, if both
/// readings gave a number and the numbers are in order; else the refusal. An
/// unreadable bound is refused with its reader's message, that of `start`
/// before that of `end`.
pub open spec fn decide(start: Result<usize, String>, end: Result<usize, String>) -> Result<
    Pagination,
    Error,
> {
    match (start, end) {
        (Err(detail), _) => Err(Error::ParseError(detail)),
        (Ok(_), Err(detail)) => Err(Error::ParseError(detail)),
        (Ok(s), Ok(e)) => {
            let p = Pagination { start: s, end: e };
            if s > e {
                Err(Error::StartGreaterThanEnd(p))
            } else {
                Ok(p)
            }
        },
    }
}

/// Reads one bound: the number that `text` stands for, or the reader's
/// message if it stands for none.
pub fn read_bound(text: &str) -> (r: Result<usize, String>)
    ensures
        r is Ok <==> is_usize_text(text@),
        r is Ok ==> r->Ok_0 as nat == usize_text_value(text@),
{
    match parse_usize(text) {
        Ok(n) => Ok(n),
        Err(failure) => Err(parse_failure_text(&failure)),
    }
}

/// Decides on the bounds from what reading `start` and `end` gave.
pub fn pagination_from_readings(start: Result<usize, String>, end: Result<usize, String>) -> (r:
    Result<Pagination, Error>)
    ensures
        r == decide(start, end),
{
    let start = match start {
        Ok(n) => n,
        Err(detail) => {
            return Err(Error::ParseError(detail));
        },
    };
    let end = match end {
        Ok(n) => n,
        Err(detail) => {
            return Err(Error::ParseError(detail));
        },
    };
    let p = Pagination { start, end };
    if p.start > p.end {
        Err(Error::StartGreaterThanEnd(p))
    } else {
        Ok(p)
    }
}

/// Decides on the bounds from the texts given for `start` and `end`.
///
/// The result is what [`resolve`] says of the two texts. With both given,
/// both are read, and [`pagination_from_readings`] decides.
pub fn pagination_from_bounds(start: Option<&str>, end: Option<&str>) -> (r: Result<
    Pagination,
    Error,
>)
    ensures
        match r {
            Ok(p) => resolve(bound_text(start), bound_text(end)) == Ok::<Pagination, ErrorKind>(p),
            Err(e) => resolve(bound_text(start), bound_text(end)) == Err::<Pagination, ErrorKind>(
                e.kind(),
            ),
        },
{
    match (start, end) {
        (Some(s), Some(e)) => pagination_from_readings(read_bound(s), read_bound(e)),
        (None, None) => Ok(Pagination { start: 0, end: usize::MAX }),
        _ => Err(Error::MissingParameters),
    }
}

/// The text of an optional bound.
pub open spec fn bound_text(bound: Option<&str>) -> Option<Seq<char>> {
    match bound {
        Some(s) => Some(s@),
        None => None,
    }
}

/// Reads the bounds of a request from its query parameters.
///
/// Only the parameters `start` and `end` count. The result is what
/// [`resolve`] says of the texts given for them.
pub fn extract_pagination(params: QueryParams) -> (r: Result<Pagination, Error>)
    ensures
        match r {
            Ok(p) => resolve(param(params@, "start"@), param(params@, "end"@)) == Ok::<
                Pagination,
                ErrorKind,
            >(p),
            Err(e) => resolve(param(params@, "start"@), param(params@, "end"@)) == Err::<
                Pagination,
                ErrorKind,
            >(e.kind()),
        },
{
    pagination_from_bounds(params.get("start"), params.get("end"))
}

/// The index range that `p` selects in a collection of `length` items.
///
/// Each bound is cut down to `length`, so the range never reaches past the
/// collection, however large the bounds are.
pub fn valid_range(p: Pagination, length: usize) -> (r: Range<usize>)
    ensures
        (r.start as int, r.end as int) == effective_range(p, length as int),
        r.start <= length,
        r.end <= length,
        p.start <= p.end ==> r.start <= r.end,
{
    let start = if p.start <= length {
        p.start
    } else {
        length
    };
    let end = if p.end <= length {
        p.end
    } else {
        length
    };
    Range { start, end }
}

/// Two readable bounds in order resolve to the numbers they stand for, and
/// the range these select in a collection of any length is each bound cut
/// down to that length: it starts no later than it ends, and ends within
/// the collection.
pub proof fn lemma_ordered_bounds_select_within(start: Seq<char>, end: Seq<char>, length: usize)
    requires
        is_usize_text(start),
        is_usize_text(end),
        usize_text_value(start) <= usize_text_value(end),
    ensures
        resolve(Some(start), Some(end)) == Ok::<Pagination, ErrorKind>(
            Pagination {
                start: usize_text_value(start) as usize,
                end: usize_text_value(end) as usize,
            },
        ),
        effective_range(resolve(Some(start), Some(end))->Ok_0, length as int) == (
            least(usize_text_value(start) as int, length as int),
            least(usize_text_value(end) as int, length as int),
        ),
        0 <= effective_range(resolve(Some(start), Some(end))->Ok_0, length as int).0
            <= effective_range(resolve(Some(start), Some(end))->Ok_0, length as int).1 <= length,
{
}

/// The same of two numbers written out in decimal: with `s <= e`, their
/// texts resolve to `s` and `e`, and the range selected in a collection of
/// `length` items runs from the lesser of `s` and `length` to the lesser of
/// `e` and `length`.
pub proof fn lemma_written_bounds_select_within(s: usize, e: usize, length: usize)
    requires
        s <= e,
    ensures
        resolve(Some(decimal_text(s as nat)), Some(decimal_text(e as nat))) == Ok::<
            Pagination,
            ErrorKind,
        >(Pagination { start: s, end: e }),
        effective_range(Pagination { start: s, end: e }, length as int) == (
            least(s as int, length as int),
            least(e as int, length as int),
        ),
        0 <= least(s as int, length as int) <= least(e as int, length as int) <= length,
{
    lemma_decimal_text_reads_back(s as nat);
    lemma_decimal_text_reads_back(e as nat);
    lemma_ordered_bounds_select_within(decimal_text(s as nat), decimal_text(e as nat), length);
}

/// Two readable bounds of which the first stands for the greater number
/// are refused as out of order, and the refusal holds both numbers.
pub proof fn lemma_inverted_bounds_refused(start: Seq<char>, end: Seq<char>)
    requires
        is_usize_text(start),
        is_usize_text(end),
        usize_text_value(start) > usize_text_value(end),
    ensures
        resolve(Some(start), Some(end)) == Err::<Pagination, ErrorKind>(
            ErrorKind::StartGreaterThanEnd(
                Pagination {
                    start: usize_text_value(start) as usize,
                    end: usize_text_value(end) as usize,
                },
            ),
        ),
{
}

/// One bound without the other is refused as incomplete, whatever its text.
pub proof fn lemma_single_bound_refused(start: Option<Seq<char>>, end: Option<Seq<char>>)
    requires
        (start is Some) != (end is Some),
    ensures
        resolve(start, end) == Err::<Pagination, ErrorKind>(ErrorKind::MissingParameters),
{
}

/// No bounds at all resolve to the full range, which selects the whole of a
/// collection of any length.
pub proof fn lemma_no_bounds_select_all(length: usize)
    ensures
        resolve(None, None) == Ok::<Pagination, ErrorKind>(full_range()),
        effective_range(resolve(None, None)->Ok_0, length as int) == (0int, length as int),
{
}

/// Two bounds of which either is not the decimal text of a `usize` are
/// refused as unreadable.
pub proof fn lemma_unreadable_bound_refused(start: Seq<char>, end: Seq<char>)
    requires
        !is_usize_text(start) || !is_usize_text(end),
    ensures
        resolve(Some(start), Some(end)) == Err::<Pagination, ErrorKind>(ErrorKind::ParseError),
{
}

} // verus!
