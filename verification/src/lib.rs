//! A verified SQL statement builder, with the verifiable parts of the
//! passenger data-access layer built on top of it.
//!
//! The builder accumulates the shape of one SELECT, INSERT, UPDATE, DELETE
//! or TRUNCATE statement through chained configuration calls and renders it
//! to literal SQL text on demand.  Every rendering function carries a
//! contract pinning the produced text down to the character.
//!
//! The builder splices values into the statement as literal text: text
//! values are wrapped in single quotes with no escaping of quotes inside
//! them, and raw WHERE fragments are appended verbatim.  Text holding a
//! quote character therefore produces a statement a driver may misread —
//! the classic injection hazard of literal splicing.  Callers must only
//! pass values and fragments they control; binding parameters at the
//! driver instead would remove the hazard, but would also change the
//! builder's output contract, which is literal text by design.

use vstd::prelude::*;

pub mod builder;
pub mod passenger;
pub mod text;
pub mod value;

pub use builder::QueryType;
pub use builder::SqlBuilder;
pub use passenger::Error;
pub use passenger::FetchError;
pub use passenger::PassengerDao;
pub use passenger::PassengerPatch;
pub use passenger::Status;
pub use passenger::UserCtx;
pub use passenger::handle_fetch_one_result;
pub use value::FormatSqlValue;

verus! {

} // verus!
