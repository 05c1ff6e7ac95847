//! A read-only catalogue of question records and the rules by which a
//! request selects a page of it.
//!
//! * [`decimal`]: decimal text and the machine integers it stands for.
//! * [`query`]: the query parameters of a request.
//! * [`pagination`]: the `start` / `end` bounds of a request, their
//!   validation, and the index range they select.
//! * [`store`]: the records and the catalogue that holds them.
//! * [`handler`]: a request's answer, and the reply that a failure becomes.

pub mod decimal;
pub mod query;
pub mod pagination;
pub mod store;
pub mod handler;
