//! A verified core for a rule-evaluation service.
//!
//! The library has three parts: a name-indexed store of rule documents
//! (`store`), a dispatcher that runs a stored or inline decision document
//! through an external rule engine (`dispatch`), and a mapper that turns
//! request bodies and dispatch outcomes into transport-level replies
//! (`mapper`), with the request shapes parsed behind named trusted items
//! (`requests`). Names used as store keys are checked against path escape
//! (`names`), and the JSON bodies the mapper builds itself are rendered by
//! a verified escaper (`jsontext`).

pub mod dispatch;
pub mod jsontext;
pub mod mapper;
pub mod names;
pub mod requests;
pub mod store;
