use nexus::clock::Timestamp;
use nexus::sqlx::results::{missing, missing_one};
use nexus::sqlx::{Query, SqlValue, ToSqlValue};

#[test]
fn new_query_is_empty() {
    let q = Query::new();
    assert_eq!(q.sql, "");
    assert!(q.args.is_empty());
}

#[test]
fn push_appends_text() {
    let mut q = Query::new();
    q.push("SELECT 1").push(" FROM t");
    assert_eq!(q.sql, "SELECT 1 FROM t");
    assert_eq!(q.text(), "SELECT 1 FROM t");
}

#[test]
fn first_filter_is_where_then_and() {
    let mut q = Query::new();
    q.push("SELECT * FROM t").push_where("a = 1").push_where("b = 2").push_where("c = 3");
    assert_eq!(q.sql, "SELECT * FROM t WHERE a = 1 AND b = 2 AND c = 3");
    assert_eq!(q.n_where, 3);
}

#[test]
fn placeholders_are_numbered_in_order() {
    let mut q = Query::new();
    q.push("UPDATE t SET a = ")
        .push_var(5i32)
        .push(", b = ")
        .push_var("x".to_string())
        .push_where("id = ")
        .push_var(true);
    assert_eq!(q.sql, "UPDATE t SET a = ?1, b = ?2 WHERE id = ?3");
    assert_eq!(
        q.args,
        vec![SqlValue::Integer(5), SqlValue::Text("x".to_string()), SqlValue::Integer(1)]
    );
}

#[test]
fn push_list_binds_each_item() {
    let mut q = Query::new();
    q.push("SELECT * FROM t").push_where("id IN ").push_list(&[3i32, 4, 5]);
    assert_eq!(q.sql, "SELECT * FROM t WHERE id IN (?1, ?2, ?3)");
    assert_eq!(q.args, vec![SqlValue::Integer(3), SqlValue::Integer(4), SqlValue::Integer(5)]);
}

#[test]
fn push_list_continues_numbering() {
    let mut q = Query::new();
    q.push("x = ").push_var(1i32).push(" AND y IN ").push_list(&["a".to_string(), "b".to_string()]);
    assert_eq!(q.sql, "x = ?1 AND y IN (?2, ?3)");
    assert_eq!(q.args.len(), 3);
}

#[test]
fn push_list_of_nothing() {
    let mut q = Query::new();
    let empty: [i32; 0] = [];
    q.push("id IN ").push_list(&empty);
    assert_eq!(q.sql, "id IN ()");
    assert!(q.args.is_empty());
}

#[test]
fn optional_filters() {
    let mut q = Query::new();
    q.push("SELECT * FROM t");
    q.push_in_filter::<String>("owner IN ", &None);
    q.push_time_filter("created_at < ", &None);
    assert_eq!(q.sql, "SELECT * FROM t");
    q.push_in_filter("owner IN ", &Some(vec!["a".to_string()]));
    let t = Timestamp { secs: 10, nanos: 5 };
    q.push_time_filter("created_at < ", &Some(t));
    q.push_compare("n = ", 9i32);
    assert_eq!(q.sql, "SELECT * FROM t WHERE owner IN (?1) AND created_at < ?2 AND n = ?3");
    assert_eq!(
        q.args,
        vec![SqlValue::Text("a".to_string()), SqlValue::Time(t), SqlValue::Integer(9)]
    );
}

#[test]
fn values_bind_as_rusqlite_would() {
    assert_eq!(false.to_sql_value(), SqlValue::Integer(0));
    assert_eq!(true.to_sql_value(), SqlValue::Integer(1));
    assert_eq!((-3i32).to_sql_value(), SqlValue::Integer(-3));
    assert_eq!(None::<String>.to_sql_value(), SqlValue::Null);
    assert_eq!(Some(vec![1u8, 2]).to_sql_value(), SqlValue::Blob(vec![1, 2]));
    assert_eq!(SqlValue::Text("q".to_string()).to_sql_value(), SqlValue::Text("q".to_string()));
}

#[test]
fn missing_one_finds_absent() {
    assert_eq!(missing_one(3, &[1, 2, 3]), None);
    assert_eq!(missing_one(4, &[1, 2, 3]), Some(4));
    assert_eq!(missing_one(4, &[]), Some(4));
}

#[test]
fn missing_keeps_expected_order() {
    let expect = [5, 1, 4, 2];
    let got = missing(&expect, &[1, 2]);
    assert_eq!(got, vec![&5, &4]);
    assert!(missing(&expect, &[5, 4, 2, 1, 9]).is_empty());
    assert_eq!(missing(&expect, &[]), vec![&5, &1, &4, &2]);
}
