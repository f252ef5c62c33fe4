use sqlbuilder::Error;
use sqlbuilder::FetchError;
use sqlbuilder::PassengerDao;
use sqlbuilder::PassengerPatch;
use sqlbuilder::Status;
use sqlbuilder::UserCtx;
use sqlbuilder::handle_fetch_one_result;

#[test]
fn status_parse_named_states() {
    assert_eq!(Status::parse("active"), Ok(Status::Active));
    assert_eq!(Status::parse("inactive"), Ok(Status::Inactive));
}

#[test]
fn status_parse_pending() {
    assert_eq!(Status::parse("pending,42"), Ok(Status::Pending(42)));
    assert_eq!(Status::parse("pending,+7"), Ok(Status::Pending(7)));
    assert_eq!(Status::parse("pending,0"), Ok(Status::Pending(0)));
}

#[test]
fn status_parse_rejects() {
    assert_eq!(Status::parse(""), Err(()));
    assert_eq!(Status::parse("pending"), Err(()));
    assert_eq!(Status::parse("pending,"), Err(()));
    assert_eq!(Status::parse("pending,x"), Err(()));
    assert_eq!(Status::parse("pending,1,2"), Err(()));
    assert_eq!(Status::parse("done,1"), Err(()));
    assert_eq!(Status::parse("pending,99999999999999999999999999"), Err(()));
}

#[test]
fn status_text_round_trip() {
    assert_eq!(Status::Active.to_text(), "active");
    assert_eq!(Status::Inactive.to_text(), "inactive");
    assert_eq!(Status::Pending(125).to_text(), "pending,125");
    let s = Status::Pending(125);
    assert_eq!(Status::parse(&s.to_text()), Ok(s));
}

#[test]
fn patch_defaults() {
    let patch = PassengerPatch::default();
    assert_eq!(patch.get_first_name(), "untitled");
    assert_eq!(patch.get_last_name(), "untitled");
    assert_eq!(patch.get_status(), "new");
}

#[test]
fn patch_supplied_fields() {
    let patch = PassengerPatch {
        uid: None,
        first_name: Some(String::from("James")),
        last_name: Some(String::from("Kirk")),
        status: Some(String::from("active")),
    };
    assert_eq!(patch.get_first_name(), "James");
    assert_eq!(patch.get_last_name(), "Kirk");
    assert_eq!(patch.get_status(), "active");
}

#[test]
fn dao_create_sql() {
    let utx = UserCtx::from_token("123");
    let patch = PassengerPatch {
        uid: None,
        first_name: Some(String::from("James")),
        last_name: Some(String::from("Kirk")),
        status: None,
    };
    let sql = PassengerDao::create_sql(&utx, &patch);
    assert_eq!(
        sql,
        "INSERT INTO passenger (uid, first_name, last_name, status) \
         VALUES ('123', 'James', 'Kirk', 'new') RETURNING *"
    );
}

#[test]
fn dao_get_sql() {
    let id = String::from("4208b168-08b2-4c45-915d-c51f6f71213b");
    let sql = PassengerDao::get_sql(&id);
    assert_eq!(
        sql,
        "SELECT * FROM passenger WHERE id = '4208b168-08b2-4c45-915d-c51f6f71213b'"
    );
}

#[test]
fn dao_update_sql() {
    let utx = UserCtx::from_token("123");
    let patch = PassengerPatch::default();
    let id = String::from("abc");
    let sql = PassengerDao::update_sql(&utx, &id, &patch);
    assert_eq!(
        sql,
        "UPDATE passenger SET uid = '123', first_name = 'untitled', \
         last_name = 'untitled', status = 'new'  WHERE id = 'abc' RETURNING *"
    );
}

#[test]
fn dao_delete_sql() {
    let id = String::from("abc");
    let sql = PassengerDao::delete_sql(&id);
    assert_eq!(sql, "DELETE FROM passenger  WHERE id = 'abc' RETURNING *");
    assert!(sql.ends_with("RETURNING *"));
}

#[test]
fn dao_list_sql() {
    assert_eq!(PassengerDao::list_sql(), "SELECT * FROM passenger ORDER BY id");
}

#[test]
fn fetch_mapping_passes_rows_through() {
    let row = String::from("row");
    let r = handle_fetch_one_result(Ok(row.clone()), "passenger", String::from("id1"));
    match r {
        Ok(v) => assert_eq!(v, row),
        Err(_) => panic!("a fetched row must be handed through"),
    }
}

#[test]
fn fetch_mapping_missing_row_is_not_found() {
    let r: Result<String, Error> =
        handle_fetch_one_result(Err(FetchError::RowNotFound), "passenger", String::from("id1"));
    match r {
        Err(Error::EntityNotFound(kind, id)) => {
            assert_eq!(kind, "passenger");
            assert_eq!(id, "id1");
        }
        _ => panic!("a missing row must map to an entity-not-found error"),
    }
}

#[test]
fn fetch_mapping_other_failure_is_database_error() {
    let r: Result<String, Error> = handle_fetch_one_result(
        Err(FetchError::Other(String::from("connection reset"))),
        "passenger",
        String::from("id1"),
    );
    match r {
        Err(Error::Database(m)) => assert_eq!(m, "connection reset"),
        _ => panic!("another failure must map to a database error"),
    }
}

#[test]
fn mutating_render_against_empty_store_maps_to_not_found() {
    // A store with no matching row: executing the DELETE rendering
    // returns an empty result set, which the mapping must turn into a
    // not-found error rather than a crash.
    let store: Vec<(String, String)> = vec![(String::from("other-id"), String::from("row"))];
    let id = String::from("missing-id");
    let sql = PassengerDao::delete_sql(&id);
    assert!(sql.contains("WHERE id = 'missing-id'"));
    let fetched: Option<String> = store
        .iter()
        .find(|(k, _)| sql.contains(&format!("WHERE id = '{}'", k)))
        .map(|(_, v)| v.clone());
    let outcome: Result<String, FetchError> = match fetched {
        Some(v) => Ok(v),
        None => Err(FetchError::RowNotFound),
    };
    let r = handle_fetch_one_result(outcome, "passenger", id);
    match r {
        Err(Error::EntityNotFound(kind, id)) => {
            assert_eq!(kind, "passenger");
            assert_eq!(id, "missing-id");
        }
        _ => panic!("zero affected rows must map to an entity-not-found error"),
    }
}
