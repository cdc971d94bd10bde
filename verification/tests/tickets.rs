use nexus::cli::Format;
use nexus::clock::Timestamp;
use nexus::error::Error;
use nexus::sqlx::SqlValue;
use nexus::ticket::cmd::{
    abandon_ticket_query, abandoned_line, insert_roles_queries, replace_roles_queries, check_taken, check_updated, delete_roles_query,
    fetch_ticket_query, insert_role_query, insert_ticket_query, list_ticket_query, new_ticket,
    taken_line, take_ticket_query, ticket_record, ticket_roles_query, update_ticket_query,
    updated_ticket, with_inserted_id, AbandonTicketOptions, CreateTicketOptions,
    ListTicketOptions, TakeTicketOptions, UpdateTicketOptions,
};
use nexus::ticket::{format_id, format_ids, State, StateTextError, Ticket};

fn ts(secs: i64) -> Timestamp {
    Timestamp { secs, nanos: 0 }
}

fn no_filters() -> ListTicketOptions {
    ListTicketOptions {
        owner: None,
        role: None,
        state: None,
        mine: false,
        available: false,
        created_before: None,
        created_after: None,
        updated_before: None,
        updated_after: None,
    }
}

fn sample_ticket() -> Ticket {
    Ticket {
        id: 7,
        fence: 3,
        state: State::InProgress,
        roles: Some(vec!["tester".to_string()]),
        summary: "Check".to_string(),
        detail: None,
        data: None,
        owner_id: Some("agent-a".to_string()),
        references: None,
        created_at: ts(100),
        updated_at: ts(200),
    }
}

const SELECT: &str =
    "SELECT id, fence, state, summary, detail, data, owner_id, created_at, updated_at FROM ticket";

#[test]
fn state_names_round_trip() {
    for s in [State::Available, State::InProgress, State::Done] {
        assert_eq!(State::from_str(&s.name()), Ok(s));
        assert_eq!(State::from_text(s.name().as_bytes()), Ok(s));
    }
    assert_eq!(State::InProgress.name(), "in_progress");
}

#[test]
fn state_rejects_unknown_names() {
    assert_eq!(State::from_str("closed"), Err("Invalid state: closed".to_string()));
    assert_eq!(State::from_text(b"closed"), Err(StateTextError::InvalidType));
    assert_eq!(State::from_text(&[0xff, 0xfe]), Err(StateTextError::Utf8Error));
}

#[test]
fn format_id_writes_hash() {
    assert_eq!(format_id(3), "#3");
    assert_eq!(format_id(-5), "#-5");
    assert_eq!(nexus::note::format_id(12), "#12");
}

#[test]
fn format_ids_joins_with_commas() {
    assert_eq!(format_ids(&[]), "");
    assert_eq!(format_ids(&[1]), "#1");
    assert_eq!(format_ids(&[1, 2, 30]), "#1, #2, #30");
}

#[test]
fn ticket_text_line() {
    let t = sample_ticket();
    assert_eq!(t.fmt_text(), "#7. Check");
    assert_eq!(t.formatted(&Format::Text).text(), Some("#7. Check".to_string()));
    assert_eq!(t.formatted(&Format::JSON).text(), None);
    let s = t.summary();
    assert_eq!(s.fence, 3);
    assert_eq!(s.fmt_text(), "#7. Check");
    assert_eq!(s.formatted(&Format::Text).text(), Some("#7. Check".to_string()));
}

#[test]
fn new_ticket_is_available_and_unowned() {
    let create = CreateTicketOptions {
        role: Some(vec!["worker".to_string()]),
        summary: "Do it".to_string(),
        detail: None,
    };
    let t = ticket_record(&create, Some("more".to_string()), ts(1), ts(2));
    assert_eq!(t.id, 0);
    assert_eq!(t.fence, 0);
    assert_eq!(t.state, State::Available);
    assert_eq!(t.roles, Some(vec!["worker".to_string()]));
    assert_eq!(t.summary, "Do it");
    assert_eq!(t.detail, Some("more".to_string()));
    assert_eq!(t.owner_id, None);
    assert_eq!((t.created_at, t.updated_at), (ts(1), ts(2)));
    let now = new_ticket(&create, None).ok().unwrap();
    assert_eq!(now.state, State::Available);
    assert!(now.created_at.secs > 0);
    assert!(now.created_at.nanos < 1_000_000_000);
}

#[test]
fn insert_ticket_statement() {
    let t = sample_ticket();
    let q = insert_ticket_query(&t);
    assert_eq!(
        q.sql,
        "INSERT INTO ticket (state, summary, detail, data, owner_id, created_at, updated_at) VALUES (?1, ?2, ?3, ?4, ?5, ?6, ?7) RETURNING id"
    );
    assert_eq!(
        q.args,
        vec![
            SqlValue::Text("in_progress".to_string()),
            SqlValue::Text("Check".to_string()),
            SqlValue::Null,
            SqlValue::Null,
            SqlValue::Text("agent-a".to_string()),
            SqlValue::Time(ts(100)),
            SqlValue::Time(ts(200)),
        ]
    );
}

#[test]
fn inserted_id_is_required() {
    assert_eq!(with_inserted_id(sample_ticket(), Some(42)).map(|t| t.id), Ok(42));
    assert_eq!(
        with_inserted_id(sample_ticket(), None).map(|t| t.id),
        Err(Error::ArgumentError("No identifier returned".to_string()))
    );
}

#[test]
fn role_statements() {
    let q = insert_role_query(4, &"tester".to_string());
    assert_eq!(q.sql, "INSERT INTO ticket_role (ticket_id, role) VALUES (?1, ?2)");
    assert_eq!(q.args, vec![SqlValue::Integer(4), SqlValue::Text("tester".to_string())]);
    let q = delete_roles_query(4);
    assert_eq!(q.sql, "DELETE FROM ticket_role WHERE ticket_id = ?1");
    let q = ticket_roles_query(4);
    assert_eq!(q.sql, "SELECT role FROM ticket_role WHERE ticket_id = ?1");
    assert_eq!(q.args, vec![SqlValue::Integer(4)]);
}

#[test]
fn fetch_ticket_statement() {
    let q = fetch_ticket_query(9);
    assert_eq!(q.sql, format!("{} WHERE id = ?1", SELECT));
    assert_eq!(q.args, vec![SqlValue::Integer(9)]);
}

#[test]
fn list_without_filters() {
    let q = list_ticket_query("agent-a", &no_filters());
    assert_eq!(q.sql, format!("{} ORDER BY updated_at DESC", SELECT));
    assert!(q.args.is_empty());
}

#[test]
fn list_available_for_agent() {
    let mut list = no_filters();
    list.available = true;
    list.role = Some(vec!["tester".to_string()]);
    let q = list_ticket_query("agent-a", &list);
    assert_eq!(
        q.sql,
        format!(
            "{} WHERE id IN (SELECT ticket_id FROM ticket_role WHERE role IN (?1)) AND (owner_id IS NULL OR owner_id = ?2) AND state = ?3 ORDER BY updated_at DESC",
            SELECT
        )
    );
    assert_eq!(
        q.args,
        vec![
            SqlValue::Text("tester".to_string()),
            SqlValue::Text("agent-a".to_string()),
            SqlValue::Text("available".to_string()),
        ]
    );
}

#[test]
fn list_mine_and_available() {
    let mut list = no_filters();
    list.mine = true;
    list.available = true;
    let q = list_ticket_query("me", &list);
    assert_eq!(
        q.sql,
        format!("{} WHERE owner_id = ?1 AND state = ?2 ORDER BY updated_at DESC", SELECT)
    );
    list.available = false;
    let q = list_ticket_query("me", &list);
    assert_eq!(q.sql, format!("{} WHERE owner_id = ?1 ORDER BY updated_at DESC", SELECT));
}

#[test]
fn list_roles_selects_each_ticket_once() {
    let mut list = no_filters();
    list.role = Some(vec!["a".to_string(), "b".to_string()]);
    let q = list_ticket_query("agent-a", &list);
    assert_eq!(
        q.sql,
        format!(
            "{} WHERE id IN (SELECT ticket_id FROM ticket_role WHERE role IN (?1, ?2)) ORDER BY updated_at DESC",
            SELECT
        )
    );
    assert!(!q.sql.contains("JOIN"));
}

#[test]
fn list_with_every_filter() {
    let list = ListTicketOptions {
        owner: Some(vec!["a".to_string(), "b".to_string()]),
        role: None,
        state: Some(vec![State::Available, State::Done]),
        mine: false,
        available: false,
        created_before: Some(ts(1)),
        created_after: Some(ts(2)),
        updated_before: Some(ts(3)),
        updated_after: Some(ts(4)),
    };
    let q = list_ticket_query("agent-a", &list);
    assert_eq!(
        q.sql,
        format!(
            "{} WHERE owner_id IN (?1, ?2) AND state IN (?3, ?4) AND created_at < ?5 AND updated_at < ?6 AND created_at > ?7 AND updated_at > ?8 ORDER BY updated_at DESC",
            SELECT
        )
    );
    assert_eq!(q.args[2], SqlValue::Text("available".to_string()));
    assert_eq!(q.args[4], SqlValue::Time(ts(1)));
    assert_eq!(q.args[5], SqlValue::Time(ts(3)));
    assert_eq!(q.args[6], SqlValue::Time(ts(2)));
}

#[test]
fn update_advances_fence_and_keeps_the_rest() {
    let update = UpdateTicketOptions {
        id: 7,
        fence: 3,
        role: None,
        state: Some(State::Done),
        summary: None,
        detail: None,
    };
    let t = updated_ticket(sample_ticket(), &update, None, ts(300));
    assert_eq!(t.fence, 4);
    assert_eq!(t.state, State::Done);
    assert_eq!(t.summary, "Check");
    assert_eq!(t.roles, Some(vec!["tester".to_string()]));
    assert_eq!(t.owner_id, Some("agent-a".to_string()));
    assert_eq!(t.created_at, ts(100));
    assert_eq!(t.updated_at, ts(300));
}

#[test]
fn update_replaces_given_fields() {
    let update = UpdateTicketOptions {
        id: 7,
        fence: 10,
        role: Some(vec!["a".to_string(), "b".to_string()]),
        state: None,
        summary: Some("New".to_string()),
        detail: Some("ignored: detail comes read".to_string()),
    };
    let t = updated_ticket(sample_ticket(), &update, Some("text".to_string()), ts(5));
    assert_eq!(t.fence, 11);
    assert_eq!(t.state, State::InProgress);
    assert_eq!(t.summary, "New");
    assert_eq!(t.roles, Some(vec!["a".to_string(), "b".to_string()]));
    assert_eq!(t.detail, Some("text".to_string()));
}

#[test]
fn update_statement_checks_fence_and_owner() {
    let update = UpdateTicketOptions {
        id: 7,
        fence: 3,
        role: None,
        state: None,
        summary: None,
        detail: None,
    };
    let t = updated_ticket(sample_ticket(), &update, None, ts(300));
    let q = update_ticket_query(&t, &update, "agent-a");
    assert_eq!(
        q.sql,
        "UPDATE ticket SET  fence = ?1, state = ?2, summary = ?3, detail = ?4, updated_at = ?5 WHERE id = ?6 AND fence = ?7 AND (owner_id IS NULL OR owner_id = ?8) RETURNING id"
    );
    assert_eq!(
        q.args,
        vec![
            SqlValue::Integer(4),
            SqlValue::Text("in_progress".to_string()),
            SqlValue::Text("Check".to_string()),
            SqlValue::Null,
            SqlValue::Time(ts(300)),
            SqlValue::Integer(7),
            SqlValue::Integer(3),
            SqlValue::Text("agent-a".to_string()),
        ]
    );
}

#[test]
fn check_updated_reports_missing_ticket() {
    assert_eq!(check_updated(7, &[7]), Ok(()));
    assert_eq!(
        check_updated(7, &[]),
        Err(Error::CommandError("error: could not update: #7".to_string()))
    );
}

#[test]
fn take_statement() {
    let take = TakeTicketOptions { id: vec![1, 2], force: false };
    let q = take_ticket_query("agent-a", &take);
    assert_eq!(
        q.sql,
        "UPDATE ticket SET  owner_id = ?1, fence = fence + 1 WHERE id IN (?2, ?3) AND (owner_id IS NULL OR owner_id = ?4 OR ?5 = TRUE) RETURNING id, fence, state, summary, detail, data, owner_id, created_at, updated_at"
    );
    assert_eq!(
        q.args,
        vec![
            SqlValue::Text("agent-a".to_string()),
            SqlValue::Integer(1),
            SqlValue::Integer(2),
            SqlValue::Text("agent-a".to_string()),
            SqlValue::Integer(0),
        ]
    );
    let forced = TakeTicketOptions { id: vec![1], force: true };
    assert_eq!(take_ticket_query("x", &forced).args[3], SqlValue::Integer(1));
}

#[test]
fn take_lines_and_errors() {
    let take = TakeTicketOptions { id: vec![1, 2, 3], force: false };
    assert_eq!(taken_line("agent-a", &take), "agent-a owns ticket #1, #2, #3");
    assert_eq!(check_taken(&take, &[3, 2, 1]), Ok(()));
    assert_eq!(
        check_taken(&take, &[2]),
        Err(Error::CommandError("error: could not take: #1, #3".to_string()))
    );
}

#[test]
fn abandon_statement() {
    let q = abandon_ticket_query("agent-a", &AbandonTicketOptions { id: None });
    assert_eq!(
        q.sql,
        "UPDATE ticket SET  owner_id = NULL, fence = fence + 1 WHERE owner_id = ?1 RETURNING id, fence, state, summary, detail, data, owner_id, created_at, updated_at"
    );
    assert_eq!(q.args, vec![SqlValue::Text("agent-a".to_string())]);
    let q = abandon_ticket_query("agent-a", &AbandonTicketOptions { id: Some(vec![4, 5]) });
    assert_eq!(
        q.sql,
        "UPDATE ticket SET  owner_id = NULL, fence = fence + 1 WHERE owner_id = ?1 AND id IN (?2, ?3) RETURNING id, fence, state, summary, detail, data, owner_id, created_at, updated_at"
    );
    assert_eq!(abandoned_line(4), "#4 is abandoned");
}

#[test]
fn role_statements_for_new_ticket() {
    let qs = insert_roles_queries(3, &Some(vec!["a".to_string(), "b".to_string()]));
    assert_eq!(qs.len(), 2);
    assert_eq!(qs[1].sql, "INSERT INTO ticket_role (ticket_id, role) VALUES (?1, ?2)");
    assert_eq!(qs[1].args, vec![SqlValue::Integer(3), SqlValue::Text("b".to_string())]);
    assert!(insert_roles_queries(3, &None).is_empty());
}

#[test]
fn role_statements_replace_roles_of_updated_tickets() {
    let roles = Some(vec!["a".to_string(), "b".to_string()]);
    let qs = replace_roles_queries(&[7], &roles);
    let sql: Vec<&str> = qs.iter().map(|q| q.sql.as_str()).collect();
    assert_eq!(
        sql,
        vec![
            "DELETE FROM ticket_role WHERE ticket_id = ?1",
            "INSERT INTO ticket_role (ticket_id, role) VALUES (?1, ?2)",
            "INSERT INTO ticket_role (ticket_id, role) VALUES (?1, ?2)",
        ]
    );
    assert_eq!(qs[2].args, vec![SqlValue::Integer(7), SqlValue::Text("b".to_string())]);
    assert!(replace_roles_queries(&[], &roles).is_empty());
    assert!(replace_roles_queries(&[7], &None).is_empty());
    assert_eq!(replace_roles_queries(&[1, 2], &roles).len(), 6);
}
