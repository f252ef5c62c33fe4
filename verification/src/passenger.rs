//! The verifiable parts of the passenger data-access layer: the status
//! vocabulary, patch defaults, the SQL text of each statement the layer
//! issues, and the mapping of driver fetch outcomes onto domain errors.

use vstd::prelude::*;
use crate::builder::SqlBuilder;
use crate::text::{
    all_digits, dec_digits, digit_char, digit_val, digits_val, is_digit, parse_usize,
    parsed_usize, str_eq, substituted, u64_to_dec,
};
use crate::value::quoted;

verus! {

/// A passenger's lifecycle state.  Its textual form is `active`,
/// `inactive`, or `pending,<n>` for a pending state with a queue
/// position.
#[derive(Debug, PartialEq, Eq, Clone)]
pub enum Status {
    Active,
    Inactive,
    Pending(usize),
}

/// The textual form of a status.
pub open spec fn status_text(s: Status) -> Seq<char> {
    match s {
        Status::Active => "active"@,
        Status::Inactive => "inactive"@,
        Status::Pending(v) => "pending,"@ + dec_digits(v as nat),
    }
}

/// Whether `t` holds a comma at `i` and nowhere else.
pub open spec fn single_comma_at(t: Seq<char>, i: int) -> bool {
    &&& 0 <= i < t.len()
    &&& t[i] == ','
    &&& forall|j: int| 0 <= j < t.len() && t[j] == ',' ==> j == i
}

/// The status `t` parses to: `active` and `inactive` name their states;
/// otherwise `t` must split on a single comma into `pending` and a
/// number.  Anything else is rejected.
pub open spec fn parsed_status(t: Seq<char>) -> Result<Status, ()> {
    if t == "active"@ {
        Ok(Status::Active)
    } else if t == "inactive"@ {
        Ok(Status::Inactive)
    } else if exists|i: int| single_comma_at(t, i) {
        let i = choose|i: int| single_comma_at(t, i);
        if t.take(i) == "pending"@ {
            match parsed_usize(t.skip(i + 1)) {
                Some(v) => Ok(Status::Pending(v)),
                None => Err(()),
            }
        } else {
            Err(())
        }
    } else {
        Err(())
    }
}

impl Status {
    /// Parses the textual form of a status.
    pub fn parse(s: &str) -> (r: Result<Status, ()>)
        ensures
            r == parsed_status(s@),
    {
        if str_eq(s, "active") {
            return Ok(Status::Active);
        }
        if str_eq(s, "inactive") {
            return Ok(Status::Inactive);
        }
        let n = s.unicode_len();
        let mut first: usize = 0;
        let mut second: usize = 0;
        let mut has_first: bool = false;
        let mut has_second: bool = false;
        let mut i: usize = 0;
        while i < n
            invariant
                i <= n,
                n == s@.len(),
                has_second ==> has_first,
                has_first ==> first < i && s@[first as int] == ',',
                has_first ==> forall|j: int| 0 <= j < first ==> s@[j] != ',',
                !has_first ==> forall|j: int| 0 <= j < i ==> s@[j] != ',',
                has_first && !has_second ==> forall|j: int| first < j < i ==> s@[j] != ',',
                has_second ==> first < second < i && s@[second as int] == ',',
            decreases n - i,
        {
            if s.get_char(i) == ',' {
                if !has_first {
                    has_first = true;
                    first = i;
                } else if !has_second {
                    has_second = true;
                    second = i;
                }
            }
            i = i + 1;
        }
        if !has_first {
            proof {
                assert(!(exists|k: int| single_comma_at(s@, k))) by {
                    if exists|k: int| single_comma_at(s@, k) {
                        let k = choose|k: int| single_comma_at(s@, k);
                        assert(s@[k] == ',');
                    }
                }
            }
            return Err(());
        }
        if has_second {
            proof {
                assert(!(exists|k: int| single_comma_at(s@, k))) by {
                    if exists|k: int| single_comma_at(s@, k) {
                        let k = choose|k: int| single_comma_at(s@, k);
                        assert(first as int == k && second as int == k);
                    }
                }
            }
            return Err(());
        }
        proof {
            assert(single_comma_at(s@, first as int));
        }
        let ghost k = choose|k: int| single_comma_at(s@, k);
        proof {
            assert(k == first as int);
        }
        let head = s.substring_char(0, first);
        if str_eq(head, "pending") {
            proof {
                assert(s@.subrange(0, first as int) == s@.take(first as int));
            }
            let tail = s.substring_char(first + 1, n);
            proof {
                assert(s@.subrange(first + 1, n as int) =~= s@.skip(first + 1));
            }
            match parse_usize(tail) {
                Some(v) => Ok(Status::Pending(v)),
                None => Err(()),
            }
        } else {
            proof {
                assert(s@.subrange(0, first as int) == s@.take(first as int));
            }
            Err(())
        }
    }

    /// Renders this status in its textual form.
    pub fn to_text(&self) -> (r: String)
        ensures
            r@ == status_text(*self),
    {
        match self {
            Status::Active => String::from_str("active"),
            Status::Inactive => String::from_str("inactive"),
            Status::Pending(v) => {
                let mut r = String::from_str("pending,");
                r.append(u64_to_dec(*v as u64).as_str());
                r
            },
        }
    }
}

/// The digits of a number hold no comma, are not empty, and denote the
/// number itself.
proof fn lemma_dec_digits_shape(n: nat)
    ensures
        dec_digits(n).len() >= 1,
        all_digits(dec_digits(n)),
        digits_val(dec_digits(n)) == n,
        forall|i: int| 0 <= i < dec_digits(n).len() ==> dec_digits(n)[i] != ',',
    decreases n,
{
    if n < 10 {
        assert(seq![digit_char(n)].drop_last() =~= Seq::<char>::empty());
        assert(digits_val(Seq::<char>::empty()) == 0);
        assert(dec_digits(n).last() == digit_char(n));
        assert(digits_val(dec_digits(n)) == digit_val(digit_char(n)));
    } else {
        lemma_dec_digits_shape(n / 10);
        assert(dec_digits(n).drop_last() =~= dec_digits(n / 10));
        assert(dec_digits(n).last() == digit_char(n % 10));
        assert(digit_val(digit_char(n % 10)) == n % 10);
        assert forall|i: int| 0 <= i < dec_digits(n).len() implies is_digit(
            #[trigger] dec_digits(n)[i],
        ) by {
            if i < dec_digits(n).len() - 1 {
                assert(dec_digits(n)[i] == dec_digits(n / 10)[i]);
            }
        }
    }
}

/// A partial passenger record, as a caller submits it.  Absent fields
/// fall back to fixed defaults when the record is written.
#[derive(Default, Clone, Debug)]
pub struct PassengerPatch {
    pub uid: Option<String>,
    pub first_name: Option<String>,
    pub last_name: Option<String>,
    pub status: Option<String>,
}

/// The first name a patch supplies, `untitled` when absent.
pub open spec fn patch_first_name(p: PassengerPatch) -> Seq<char> {
    match p.first_name {
        Some(s) => s@,
        None => "untitled"@,
    }
}

/// The last name a patch supplies, `untitled` when absent.
pub open spec fn patch_last_name(p: PassengerPatch) -> Seq<char> {
    match p.last_name {
        Some(s) => s@,
        None => "untitled"@,
    }
}

/// The status a patch supplies, `new` when absent.
pub open spec fn patch_status(p: PassengerPatch) -> Seq<char> {
    match p.status {
        Some(s) => s@,
        None => "new"@,
    }
}

impl PassengerPatch {
    /// The first name to write, with its default filled in.
    pub fn get_first_name(&self) -> (r: String)
        ensures
            r@ == patch_first_name(*self),
    {
        match &self.first_name {
            Some(s) => s.clone(),
            None => String::from_str("untitled"),
        }
    }

    /// The last name to write, with its default filled in.
    pub fn get_last_name(&self) -> (r: String)
        ensures
            r@ == patch_last_name(*self),
    {
        match &self.last_name {
            Some(s) => s.clone(),
            None => String::from_str("untitled"),
        }
    }

    /// The status to write, with its default filled in.
    pub fn get_status(&self) -> (r: String)
        ensures
            r@ == patch_status(*self),
    {
        match &self.status {
            Some(s) => s.clone(),
            None => String::from_str("new"),
        }
    }
}

/// The authenticated caller's identity, as the request layer hands it
/// down.
#[derive(Debug)]
pub struct UserCtx {
    pub user_id: String,
}

impl UserCtx {
    /// The context a token names.  No real validation happens yet:
    /// the token itself is the user id.
    pub fn from_token(token: &str) -> (r: UserCtx)
        ensures
            r.user_id@ == token@,
    {
        UserCtx { user_id: token.to_owned() }
    }
}

/// A data-access failure.
#[derive(Debug)]
pub enum Error {
    /// No row matched: no entity of this kind has this id.
    EntityNotFound(&'static str, String),
    /// Any other driver failure, reduced to its message text.
    Database(String),
}

/// A driver-reported fetch failure, as the mapping layer distinguishes
/// it: the "no rows returned" marker, or any other failure with its
/// message text.
#[derive(Debug)]
pub enum FetchError {
    RowNotFound,
    Other(String),
}

/// Maps a driver-level "fetch one row" outcome onto the domain: a
/// missing row becomes an entity-not-found error for the given kind and
/// id, any other failure is passed along as a database error, and a
/// fetched row is handed through untouched.  The mapping is total: no
/// outcome makes it panic.
pub fn handle_fetch_one_result<T>(result: Result<T, FetchError>, typ: &'static str, id: String) -> (r:
    Result<T, Error>)
    ensures
        match result {
            Ok(row) => r == Ok::<T, Error>(row),
            Err(FetchError::RowNotFound) => r == Err::<T, Error>(Error::EntityNotFound(typ, id)),
            Err(FetchError::Other(m)) => r == Err::<T, Error>(Error::Database(m)),
        },
{
    match result {
        Ok(row) => Ok(row),
        Err(FetchError::RowNotFound) => Err(Error::EntityNotFound(typ, id)),
        Err(FetchError::Other(m)) => Err(Error::Database(m)),
    }
}

/// The passenger table's statement texts.  Everything that decides what
/// is executed stands here; the driver-level execution of these
/// statements lives with the caller.
pub struct PassengerDao;

/// The SELECT fetching one passenger by id.
pub open spec fn get_statement(id: Seq<char>) -> Seq<char> {
    "SELECT * FROM passenger WHERE id = "@ + quoted(id)
}

/// The SELECT listing every passenger in id order.
pub open spec fn list_statement() -> Seq<char> {
    "SELECT * FROM passenger ORDER BY id"@
}

/// The INSERT creating a passenger: every field a quoted text literal,
/// the affected row asked back.
pub open spec fn create_statement(
    uid: Seq<char>,
    first: Seq<char>,
    last: Seq<char>,
    status: Seq<char>,
) -> Seq<char> {
    "INSERT INTO passenger (uid, first_name, last_name, status) VALUES ("@ + quoted(uid) + ", "@
        + quoted(first) + ", "@ + quoted(last) + ", "@ + quoted(status) + ") RETURNING *"@
}

/// The UPDATE rewriting one passenger by id: every field a quoted text
/// literal, the affected row asked back.
pub open spec fn update_statement(
    uid: Seq<char>,
    first: Seq<char>,
    last: Seq<char>,
    status: Seq<char>,
    id: Seq<char>,
) -> Seq<char> {
    "UPDATE passenger SET uid = "@ + quoted(uid) + ", first_name = "@ + quoted(first)
        + ", last_name = "@ + quoted(last) + ", status = "@ + quoted(status) + "  WHERE id = "@
        + quoted(id) + " RETURNING *"@
}

/// The DELETE removing one passenger by id, the affected row asked
/// back.
pub open spec fn delete_statement(id: Seq<char>) -> Seq<char> {
    "DELETE FROM passenger  WHERE id = "@ + quoted(id) + " RETURNING *"@
}

/// Filling the `id = {}` template splices the rendered value after the
/// equals sign.
proof fn lemma_id_template(v: Seq<char>)
    ensures
        substituted("id = {}"@, v) == "id = "@ + v,
{
    reveal_strlit("id = {}");
    reveal_strlit("id = ");
    reveal_with_fuel(substituted, 9);
    assert(substituted("id = {}"@, v) =~= "id = "@ + v);
}

impl PassengerDao {
    /// The statement fetching the passenger with this id.
    pub fn get_sql(id: &String) -> (r: String)
        ensures
            r@ == get_statement(id@),
    {
        let sql = SqlBuilder::new().select_from("passenger").where_clause(
            "id = {}",
            id.clone(),
        ).build();
        proof {
            lemma_id_template(quoted(id@));
            reveal_with_fuel(crate::text::joined, 3);
            reveal_strlit("SELECT ");
            reveal_strlit("*");
            reveal_strlit(" FROM ");
            reveal_strlit("passenger");
            reveal_strlit(" WHERE ");
            reveal_strlit("id = ");
            reveal_strlit("SELECT * FROM passenger WHERE id = ");
            assert(sql@ =~= get_statement(id@));
        }
        sql
    }

    /// The statement creating a passenger owned by the calling user,
    /// with the patch's defaults filled in.
    pub fn create_sql(utx: &UserCtx, data: &PassengerPatch) -> (r: String)
        ensures
            r@ == create_statement(
                utx.user_id@,
                patch_first_name(*data),
                patch_last_name(*data),
                patch_status(*data),
            ),
    {
        let cols: Vec<&str> = vec!["uid", "first_name", "last_name", "status"];
        let uid = utx.user_id.clone();
        let first = data.get_first_name();
        let last = data.get_last_name();
        let status = data.get_status();
        let vals: Vec<&String> = vec![&uid, &first, &last, &status];
        let sql = SqlBuilder::new().insert_into("passenger").columns(cols.as_slice()).values(
            vals.as_slice(),
        ).build();
        proof {
            reveal_with_fuel(crate::text::joined, 6);
            reveal_strlit("INSERT INTO ");
            reveal_strlit("passenger");
            reveal_strlit(" (");
            reveal_strlit("uid");
            reveal_strlit("first_name");
            reveal_strlit("last_name");
            reveal_strlit("status");
            reveal_strlit(", ");
            reveal_strlit(") VALUES (");
            reveal_strlit(") RETURNING *");
            reveal_strlit("INSERT INTO passenger (uid, first_name, last_name, status) VALUES (");
            assert(sql@ =~= create_statement(
                utx.user_id@,
                patch_first_name(*data),
                patch_last_name(*data),
                patch_status(*data),
            ));
        }
        sql
    }

    /// The statement rewriting the passenger with this id from the
    /// calling user and the patch, defaults filled in.
    #[verifier::rlimit(100)]
    pub fn update_sql(utx: &UserCtx, id: &String, data: &PassengerPatch) -> (r: String)
        ensures
            r@ == update_statement(
                utx.user_id@,
                patch_first_name(*data),
                patch_last_name(*data),
                patch_status(*data),
                id@,
            ),
    {
        let cols: Vec<&str> = vec!["uid", "first_name", "last_name", "status"];
        let uid = utx.user_id.clone();
        let first = data.get_first_name();
        let last = data.get_last_name();
        let status = data.get_status();
        let vals: Vec<&String> = vec![&uid, &first, &last, &status];
        let sql = SqlBuilder::new().update("passenger").set_columns_and_values(
            cols.as_slice(),
            vals.as_slice(),
        ).where_clause("id = {}", id.clone()).build();
        proof {
            lemma_id_template(quoted(id@));
            reveal_with_fuel(crate::text::joined, 6);
            reveal_strlit("UPDATE ");
            reveal_strlit("passenger");
            reveal_strlit(" SET ");
            reveal_strlit("uid");
            reveal_strlit("first_name");
            reveal_strlit("last_name");
            reveal_strlit("status");
            reveal_strlit(" = ");
            reveal_strlit(", ");
            reveal_strlit(" ");
            reveal_strlit(" WHERE ");
            reveal_strlit("id = ");
            reveal_strlit(" RETURNING *");
            reveal_strlit("UPDATE passenger SET uid = ");
            reveal_strlit(", first_name = ");
            reveal_strlit(", last_name = ");
            reveal_strlit(", status = ");
            reveal_strlit("  WHERE id = ");
            assert(sql@ =~= update_statement(
                utx.user_id@,
                patch_first_name(*data),
                patch_last_name(*data),
                patch_status(*data),
                id@,
            ));
        }
        sql
    }

    /// The statement removing the passenger with this id.
    pub fn delete_sql(id: &String) -> (r: String)
        ensures
            r@ == delete_statement(id@),
    {
        let sql = SqlBuilder::new().delete_from("passenger").where_clause(
            "id = {}",
            id.clone(),
        ).build();
        proof {
            lemma_id_template(quoted(id@));
            reveal_with_fuel(crate::text::joined, 3);
            reveal_strlit("DELETE FROM ");
            reveal_strlit("passenger");
            reveal_strlit(" ");
            reveal_strlit(" WHERE ");
            reveal_strlit("id = ");
            reveal_strlit(" RETURNING *");
            reveal_strlit("DELETE FROM passenger  WHERE id = ");
            assert(sql@ =~= delete_statement(id@));
        }
        sql
    }

    /// The statement listing every passenger, ordered by id.
    pub fn list_sql() -> (r: String)
        ensures
            r@ == list_statement(),
    {
        let sql = SqlBuilder::new().select_from("passenger").order_by("id").build();
        proof {
            reveal_with_fuel(crate::text::joined, 2);
            reveal_strlit("SELECT ");
            reveal_strlit("*");
            reveal_strlit(" FROM ");
            reveal_strlit("passenger");
            reveal_strlit(" ORDER BY ");
            reveal_strlit("id");
            reveal_strlit("SELECT * FROM passenger ORDER BY id");
            assert(sql@ =~= list_statement());
        }
        sql
    }
}

/// The textual form of a status parses back to that status.
pub proof fn lemma_status_text_parses_back(s: Status)
    ensures
        parsed_status(status_text(s)) == Ok::<Status, ()>(s),
{
    reveal_strlit("active");
    reveal_strlit("inactive");
    reveal_strlit("pending");
    reveal_strlit("pending,");
    match s {
        Status::Active => {
        },
        Status::Inactive => {
            assert("inactive"@ != "active"@) by {
                assert("inactive"@.len() == 8);
                assert("active"@.len() == 6);
            }
        },
        Status::Pending(v) => {
            let t = status_text(s);
            lemma_dec_digits_shape(v as nat);
            assert(t.len() >= 9);
            assert(t != "active"@);
            assert(t != "inactive"@);
            assert(single_comma_at(t, 7)) by {
                assert(t[7] == ',');
                assert forall|j: int| 0 <= j < t.len() && t[j] == ',' implies j == 7 by {
                    if j < 8 {
                        assert(t[j] == "pending,"@[j]);
                    } else {
                        assert(t[j] == dec_digits(v as nat)[j - 8]);
                    }
                }
            }
            let i = choose|i: int| single_comma_at(t, i);
            assert(i == 7);
            assert(t.take(7) =~= "pending"@);
            assert(t.skip(8) =~= dec_digits(v as nat));
            assert(parsed_usize(t.skip(8)) == Some(v)) by {
                let body = dec_digits(v as nat);
                assert(body[0] != '+') by {
                    assert(is_digit(body[0]));
                }
                assert(digits_val(body) <= usize::MAX);
            }
        },
    }
}

} // verus!
