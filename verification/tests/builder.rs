use sqlbuilder::SqlBuilder;

#[test]
fn builder_select_star() {
    let sql = SqlBuilder::new().select_from("t").build();
    assert_eq!(sql, "SELECT * FROM t");
}

#[test]
fn builder_select_columns() {
    let sql = SqlBuilder::new().select_from("t").select_columns(&["a", "b"]).build();
    assert_eq!(sql, "SELECT a, b FROM t");
}

#[test]
fn builder_select_order_by() {
    let sql = SqlBuilder::new().select_from("t").order_by("o").build();
    assert_eq!(sql, "SELECT * FROM t ORDER BY o");
}

#[test]
fn builder_select_where_text_value() {
    let sql = SqlBuilder::new()
        .select_from("t")
        .where_clause("id = {}", String::from("abc"))
        .build();
    assert_eq!(sql, "SELECT * FROM t WHERE id = 'abc'");
}

#[test]
fn builder_select_where_and() {
    let sql = SqlBuilder::new()
        .select_from("t")
        .where_clause("a = {}", 1i64)
        .and("b > 2")
        .build();
    assert_eq!(sql, "SELECT * FROM t WHERE a = 1 AND b > 2");
}

#[test]
fn builder_insert_integers() {
    let sql = SqlBuilder::new()
        .insert_into("t")
        .columns(&["c0", "c1"])
        .values(&[&1i64, &2i64])
        .build();
    assert_eq!(sql, "INSERT INTO t (c0, c1) VALUES (1, 2) RETURNING *");
}

#[test]
fn builder_insert_texts() {
    let sql = SqlBuilder::new()
        .insert_into("t")
        .columns(&["c0", "c1", "c2"])
        .values(&[&String::from("x"), &String::from("y"), &String::from("z")])
        .build();
    assert_eq!(sql, "INSERT INTO t (c0, c1, c2) VALUES ('x', 'y', 'z') RETURNING *");
}

#[test]
fn builder_insert_empty_lists() {
    let sql = SqlBuilder::new().insert_into("t").build();
    assert_eq!(sql, "INSERT INTO t () VALUES () RETURNING *");
}

#[test]
fn builder_update_integers() {
    let sql = SqlBuilder::new()
        .update("t")
        .set_columns_and_values(&["a", "b"], &[&1i64, &2i64])
        .where_clause("id = {}", 5i64)
        .build();
    assert_eq!(sql, "UPDATE t SET a = 1, b = 2  WHERE id = 5 RETURNING *");
}

#[test]
fn builder_update_texts() {
    let sql = SqlBuilder::new()
        .update("t")
        .set_columns_and_values(&["a", "b"], &[&String::from("x"), &String::from("y")])
        .where_clause("id = {}", 5i64)
        .build();
    assert_eq!(sql, "UPDATE t SET a = 'x', b = 'y'  WHERE id = 5 RETURNING *");
}

#[test]
fn builder_delete_where() {
    let sql = SqlBuilder::new().delete_from("t").where_clause("id = {}", 7i64).build();
    assert_eq!(sql, "DELETE FROM t  WHERE id = 7 RETURNING *");
    assert!(sql.ends_with("RETURNING *"));
    assert_eq!(sql.matches(" WHERE ").count(), 1);
}

#[test]
fn builder_truncate() {
    let sql = SqlBuilder::new().truncate("t").build();
    assert_eq!(sql, "TRUNCATE t;");
}

#[test]
fn builder_build_twice_identical() {
    let b = SqlBuilder::new()
        .update("t")
        .set_columns_and_values(&["a"], &[&String::from("x")])
        .where_clause("id = {}", 5i64);
    let once = b.build();
    let twice = b.build();
    assert_eq!(once, twice);
}

#[test]
fn builder_negative_and_extreme_integers() {
    let sql = SqlBuilder::new()
        .insert_into("t")
        .columns(&["a", "b", "c"])
        .values(&[&-5i64, &i64::MIN, &i64::MAX])
        .build();
    assert_eq!(
        sql,
        "INSERT INTO t (a, b, c) VALUES (-5, -9223372036854775808, 9223372036854775807) RETURNING *"
    );
}

#[test]
fn builder_where_without_placeholder() {
    let sql = SqlBuilder::new().select_from("t").where_clause("id is null", 1i64).build();
    assert_eq!(sql, "SELECT * FROM t WHERE id is null");
}

#[test]
fn builder_where_fills_first_placeholder_only() {
    let sql = SqlBuilder::new().select_from("t").where_clause("a = {} or b = {}", 1i64).build();
    assert_eq!(sql, "SELECT * FROM t WHERE a = 1 or b = {}");
}
