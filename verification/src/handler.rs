//! What a request for questions is answered with: a page of the catalogue,
//! or, for a request that was turned away, a status and a message.

use vstd::prelude::*;
use vstd::string::*;
use vstd::slice::slice_subrange;
use crate::pagination::{
    effective_range, error_text, extract_pagination, param, resolve, valid_range, Error,
    ErrorKind, Pagination,
};
use crate::query::QueryParams;
use crate::store::{Question, Store};

verus! {

/// The status of a reply to a request whose bounds were refused.
pub const RANGE_NOT_SATISFIABLE: u16 = 416;

/// The status of a reply to a request that the cross-origin policy refused.
pub const FORBIDDEN: u16 = 403;

/// The status of a reply to a request that no route takes.
pub const NOT_FOUND: u16 = 404;

/// What is known of a request that was turned away: each reason that was
/// found for it. A request may have been turned away for more than one
/// reason, or for none that is known here.
#[derive(Debug, Clone)]
pub struct Rejection {
    /// Its bounds were refused, and why.
    pub invalid_range: Option<Error>,
    /// The cross-origin policy refused it; holds the policy's message.
    pub cors_forbidden: Option<String>,
}

/// The reply to a request that was turned away.
#[derive(Debug)]
pub struct ErrorReply {
    pub status: u16,
    pub body: String,
}

/// The records of `records` that `p` selects: those at the positions from
/// `p.start` up to, not including, `p.end`, as far as there are any.
pub open spec fn page_of(records: Seq<Question>, p: Pagination) -> Seq<Question> {
    let (from, to) = effective_range(p, records.len() as int);
    records.subrange(from, to)
}

/// What a request with the parameters `params` is answered with from a
/// catalogue of `records`: the page that its bounds select, or why the
/// bounds are refused.
pub open spec fn answer(params: Map<Seq<char>, Seq<char>>, records: Seq<Question>) -> Result<
    Seq<Question>,
    ErrorKind,
> {
    match resolve(param(params, "start"@), param(params, "end"@)) {
        Ok(p) => Ok(page_of(records, p)),
        Err(kind) => Err(kind),
    }
}

/// The status with which a rejection is answered. Refused bounds come
/// before the cross-origin policy; a rejection with neither reason is taken
/// for a request that no route takes.
pub open spec fn rejection_status(r: Rejection) -> u16 {
    if r.invalid_range is Some {
        RANGE_NOT_SATISFIABLE
    } else if r.cors_forbidden is Some {
        FORBIDDEN
    } else {
        NOT_FOUND
    }
}

/// The message with which a rejection is answered, by the same order of
/// reasons.
pub open spec fn rejection_body(r: Rejection) -> Seq<char> {
    if r.invalid_range is Some {
        error_text(r.invalid_range->0)
    } else if r.cors_forbidden is Some {
        r.cors_forbidden->0@
    } else {
        "Route not found"@
    }
}

/// The records of `records` that `p` selects.
pub fn select_page<'a>(records: &'a [Question], p: Pagination) -> (page: &'a [Question])
    requires
        p.start <= p.end,
    ensures
        page@ == page_of(records@, p),
        page@.len() <= records@.len(),
{
    let range = valid_range(p, records.len());
    slice_subrange(records, range.start, range.end)
}

/// Answers a request for questions: the page of the catalogue that the
/// request's parameters select, or the reason why their bounds are refused.
///
/// The page is a function of the parameters and the catalogue alone, so the
/// same request of the same catalogue is answered with the same records in
/// the same order.
pub fn get_questions<'a>(params: QueryParams, store: &'a Store) -> (r: Result<
    &'a [Question],
    Error,
>)
    ensures
        match r {
            Ok(page) => answer(params@, store@) == Ok::<Seq<Question>, ErrorKind>(page@),
            Err(e) => answer(params@, store@) == Err::<Seq<Question>, ErrorKind>(e.kind()),
        },
{
    let records = store.all_questions();
    match extract_pagination(params) {
        Ok(pagination) => Ok(select_page(records, pagination)),
        Err(e) => Err(e),
    }
}

/// Two requests that give the same texts for `start` and `end` are answered
/// alike from the same records, whatever else their parameters hold: with
/// the same records in the same order, or with the same refusal.
pub proof fn lemma_same_bounds_same_answer(
    first: Map<Seq<char>, Seq<char>>,
    second: Map<Seq<char>, Seq<char>>,
    records: Seq<Question>,
)
    requires
        param(first, "start"@) == param(second, "start"@),
        param(first, "end"@) == param(second, "end"@),
    ensures
        answer(first, records) == answer(second, records),
{
}

/// The reply to a request that was turned away: the status that goes with
/// the reason, and the message that describes it.
pub fn return_error(r: &Rejection) -> (reply: ErrorReply)
    ensures
        reply.status == rejection_status(*r),
        reply.body@ == rejection_body(*r),
{
    if let Some(e) = &r.invalid_range {
        ErrorReply { status: RANGE_NOT_SATISFIABLE, body: e.message() }
    } else if let Some(message) = &r.cors_forbidden {
        ErrorReply { status: FORBIDDEN, body: message.clone() }
    } else {
        ErrorReply { status: NOT_FOUND, body: String::from_str("Route not found") }
    }
}

} // verus!
