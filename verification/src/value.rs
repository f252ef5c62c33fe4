//! Rendering of in-memory values as SQL literal text.

use vstd::prelude::*;
use crate::text::{dec_int, i64_to_dec};

verus! {

/// A value that can appear as an INSERT/UPDATE literal or as the
/// right-hand side of a WHERE predicate.  The rendering is the exact text
/// spliced into the statement at the value's position.
pub trait FormatSqlValue {
    /// The literal text this value renders to.
    spec fn sql_literal(&self) -> Seq<char>;

    /// Renders this value as SQL literal text.
    fn format_sql_value(&self) -> (r: String)
        ensures
            r@ == self.sql_literal(),
    ;
}

/// The text literal for `s`: `s` wrapped in single quotes.
pub open spec fn quoted(s: Seq<char>) -> Seq<char> {
    seq!['\''] + s + seq!['\'']
}

/// Text renders wrapped in single quotes.  Quotes inside the value are
/// not escaped, so a value holding `'` produces text that a driver may
/// misread: callers must not pass such values.
impl FormatSqlValue for String {
    open spec fn sql_literal(&self) -> Seq<char> {
        quoted(self@)
    }

    fn format_sql_value(&self) -> (r: String) {
        let mut r = String::from_str("'");
        r.append(self.as_str());
        r.append("'");
        proof {
            reveal_strlit("'");
            assert(r@ =~= self.sql_literal());
        }
        r
    }
}

/// 64-bit integers render as their decimal digits, unquoted.
impl FormatSqlValue for i64 {
    open spec fn sql_literal(&self) -> Seq<char> {
        dec_int(*self as int)
    }

    fn format_sql_value(&self) -> (r: String) {
        i64_to_dec(*self)
    }
}

} // verus!
