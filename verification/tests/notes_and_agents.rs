use nexus::agent::cmd::created_line;
use nexus::agent::cmd::{AgentCommand, AgentOptions, CreateAgentOptions};
use nexus::command::{required_agent, Command};
use nexus::note::cmd::{DeleteNoteOptions, NoteCommand, NoteOptions};
use nexus::ticket::cmd::{FetchTicketOptions, TicketCommand, TicketOptions};
use nexus::agent::{agent_id, new_agent_id};
use nexus::cli::Format;
use nexus::clock::{from_epoch_reading, now, Timestamp};
use nexus::error::Error;
use nexus::note::cmd::{
    delete_note_query, deleted_line, fetch_note_query, insert_note_query, list_note_query,
    apply_note_update, new_note, note_record, update_note_query, updated_note, with_inserted_id, CreateNoteOptions,
    ListNoteOptions, UpdateNoteOptions,
};
use nexus::note::Note;
use nexus::options::Options;
use nexus::sqlx::SqlValue;

fn opts(agent: Option<&str>, verbose: bool) -> Options {
    Options {
        debug: false,
        verbose,
        project: None,
        database: None,
        format: Some(Format::Text),
        agent: agent.map(|a| a.to_string()),
    }
}

fn ts(secs: i64) -> Timestamp {
    Timestamp { secs, nanos: 0 }
}

fn sample_note() -> Note {
    Note {
        id: 2,
        creator_id: "agent-a".to_string(),
        commit_sha: Some("abc".to_string()),
        summary: "Remember".to_string(),
        detail: Some("detail".to_string()),
        data: None,
        created_at: ts(10),
        updated_at: ts(20),
    }
}

fn no_filters() -> ListNoteOptions {
    ListNoteOptions {
        creator: None,
        commit: None,
        created_before: None,
        created_after: None,
        updated_before: None,
        updated_after: None,
    }
}

#[test]
fn note_text_line() {
    let n = sample_note();
    assert_eq!(n.fmt_text(), "#2. Remember");
    assert_eq!(n.formatted(&Format::Text).text(), Some("#2. Remember".to_string()));
    assert_eq!(n.formatted(&Format::JSON).text(), None);
    let s = n.summary();
    assert_eq!(s.creator_id, "agent-a");
    assert_eq!(s.fmt_text(), "#2. Remember");
    assert_eq!(s.formatted(&Format::Text).text(), Some("#2. Remember".to_string()));
}

#[test]
fn new_note_records_its_creator() {
    let create = CreateNoteOptions {
        summary: "S".to_string(),
        detail: None,
        commit: Some("sha".to_string()),
    };
    let n = note_record("agent-a", &create, Some("body".to_string()), ts(1), ts(1));
    assert_eq!(n.creator_id, "agent-a");
    assert_eq!(n.commit_sha, Some("sha".to_string()));
    assert_eq!(n.detail, Some("body".to_string()));
    assert_eq!(n.id, 0);
    let n = new_note("agent-b", &create, None).ok().unwrap();
    assert_eq!(n.creator_id, "agent-b");
    assert!(n.updated_at.nanos < 1_000_000_000);
}

#[test]
fn insert_note_statement() {
    let q = insert_note_query(&sample_note());
    assert_eq!(
        q.sql,
        "INSERT INTO note (creator_id, commit_sha, summary, detail, data, created_at, updated_at) VALUES (?1, ?2, ?3, ?4, ?5, ?6, ?7) RETURNING id"
    );
    assert_eq!(q.args[0], SqlValue::Text("agent-a".to_string()));
    assert_eq!(q.args[4], SqlValue::Null);
    assert_eq!(q.args[6], SqlValue::Time(ts(20)));
    assert_eq!(with_inserted_id(sample_note(), Some(9)).map(|n| n.id), Ok(9));
    assert!(with_inserted_id(sample_note(), None).is_err());
}

#[test]
fn list_notes_chronologically() {
    let q = list_note_query(&opts(None, false), &no_filters());
    assert_eq!(
        q.sql,
        "SELECT id, creator_id, commit_sha, summary, NULL, data, created_at, updated_at FROM note ORDER BY created_at"
    );
    let q = list_note_query(&opts(None, true), &no_filters());
    assert_eq!(
        q.sql,
        "SELECT id, creator_id, commit_sha, summary, detail, data, created_at, updated_at FROM note ORDER BY created_at"
    );
}

#[test]
fn list_notes_with_filters() {
    let mut list = no_filters();
    list.creator = Some(vec!["a".to_string(), "b".to_string()]);
    list.commit = Some(vec!["c".to_string()]);
    list.updated_after = Some(ts(5));
    let q = list_note_query(&opts(None, false), &list);
    assert_eq!(
        q.sql,
        "SELECT id, creator_id, commit_sha, summary, NULL, data, created_at, updated_at FROM note WHERE creator_id IN (?1, ?2) AND commit_sha IN (?3) AND updated_at > ?4 ORDER BY created_at"
    );
    assert_eq!(q.args[3], SqlValue::Time(ts(5)));
}

#[test]
fn fetch_and_delete_statements() {
    let q = fetch_note_query(3);
    assert_eq!(
        q.sql,
        "SELECT id, creator_id, commit_sha, summary, detail, data, created_at, updated_at FROM note WHERE id = ?1"
    );
    let q = delete_note_query(3);
    assert_eq!(q.sql, "DELETE FROM note WHERE id = ?1");
    assert_eq!(q.args, vec![SqlValue::Integer(3)]);
    assert_eq!(deleted_line(1), "deleted 1 note");
    assert_eq!(deleted_line(0), "deleted 0 note");
}

#[test]
fn update_note_keeps_what_is_not_given() {
    let update = UpdateNoteOptions { id: 2, summary: None, detail: None, commit: None };
    let n = updated_note(sample_note(), &update, None, ts(99));
    assert_eq!(n.summary, "Remember");
    assert_eq!(n.commit_sha, Some("abc".to_string()));
    assert_eq!(n.detail, Some("detail".to_string()));
    assert_eq!(n.updated_at, ts(99));
    let update = UpdateNoteOptions {
        id: 2,
        summary: Some("New".to_string()),
        detail: None,
        commit: Some("def".to_string()),
    };
    let n = updated_note(sample_note(), &update, Some("d2".to_string()), ts(99));
    let later = apply_note_update(sample_note(), &update, None).ok().unwrap();
    assert_eq!(later.summary, "New");
    assert_eq!(later.detail, Some("detail".to_string()));
    assert_eq!(n.summary, "New");
    assert_eq!(n.commit_sha, Some("def".to_string()));
    assert_eq!(n.detail, Some("d2".to_string()));
    assert_eq!(n.created_at, ts(10));
}

#[test]
fn update_note_statement() {
    let q = update_note_query(&sample_note(), 2);
    assert_eq!(
        q.sql,
        "UPDATE note SET  commit_sha = ?1, summary = ?2, detail = ?3, updated_at = ?4 WHERE id = ?5"
    );
    assert_eq!(
        q.args,
        vec![
            SqlValue::Text("abc".to_string()),
            SqlValue::Text("Remember".to_string()),
            SqlValue::Text("detail".to_string()),
            SqlValue::Time(ts(20)),
            SqlValue::Integer(2),
        ]
    );
}

#[test]
fn agent_identifiers() {
    assert_eq!(agent_id(&Some("tester".to_string()), "XYZ"), "agent-tester-XYZ");
    assert_eq!(agent_id(&None, "XYZ"), "agent-XYZ");
    let id = new_agent_id(&Some("tester".to_string())).ok().unwrap();
    assert!(id.starts_with("agent-tester-"));
    assert_eq!(id.len(), "agent-tester-".len() + 16);
    assert!(id["agent-tester-".len()..].chars().all(|c| c.is_ascii_alphanumeric()));
    let bare = new_agent_id(&None).ok().unwrap();
    assert_eq!(bare.len(), "agent-".len() + 16);
    assert_ne!(new_agent_id(&None).ok().unwrap(), bare);
    assert_eq!(created_line("agent-x"), "role: agent-x");
}

fn with_command(agent: Option<&str>) -> Options {
    opts(agent, false)
}

#[test]
fn every_command_but_agent_needs_an_agent() {
    let agent_cmd = Command::Agent(AgentOptions {
        command: AgentCommand::Create(CreateAgentOptions { role: None }),
    });
    let ticket_cmd = Command::Ticket(TicketOptions {
        command: TicketCommand::Fetch(FetchTicketOptions { id: vec![1] }),
    });
    let note_cmd = Command::Note(NoteOptions {
        command: NoteCommand::Delete(DeleteNoteOptions { id: 1 }),
    });
    let none = with_command(None);
    let some = with_command(Some("agent-a"));
    assert_eq!(required_agent(&none, &agent_cmd), Ok(None));
    assert_eq!(required_agent(&some, &agent_cmd), Ok(None));
    assert_eq!(required_agent(&some, &ticket_cmd), Ok(Some("agent-a")));
    assert_eq!(required_agent(&some, &note_cmd), Ok(Some("agent-a")));
    let missing = Err(Error::ArgumentError(
        "an agent identifier is required: pass --agent or set NEXUS_AGENT".to_string(),
    ));
    assert_eq!(required_agent(&none, &ticket_cmd), missing);
    assert_eq!(required_agent(&none, &note_cmd), missing);
}

#[test]
fn database_path_defaults_to_project() {
    let mut o = opts(None, false);
    assert!(o.needs_project_discovery());
    assert_eq!(o.database_path("/repo"), "/repo/.nexus/data.db");
    assert_eq!(o.database_path("/repo/"), "/repo/.nexus/data.db");
    assert_eq!(o.database_path(""), ".nexus/data.db");
    o.project = Some("".to_string());
    assert_eq!(o.database_path("/repo"), ".nexus/data.db");
    o.project = Some("/proj/".to_string());
    assert_eq!(o.database_path("/repo"), "/proj/.nexus/data.db");
    o.project = Some("/proj".to_string());
    assert!(!o.needs_project_discovery());
    assert_eq!(o.database_path("/repo"), "/proj/.nexus/data.db");
    o.database = Some("/tmp/x.db".to_string());
    assert_eq!(o.database_path("/repo"), "/tmp/x.db");
}

#[test]
fn epoch_readings_become_timestamps() {
    assert_eq!(from_epoch_reading(None), None);
    assert_eq!(
        from_epoch_reading(Some((1431648000, 5))),
        Some(Timestamp { secs: 1431648000, nanos: 5 })
    );
    assert_eq!(from_epoch_reading(Some((0, 0))), Some(Timestamp { secs: 0, nanos: 0 }));
    assert_eq!(from_epoch_reading(Some((u64::MAX, 0))), None);
    assert_eq!(from_epoch_reading(Some((1u64 << 63, 0))), None);
    assert_eq!(from_epoch_reading(Some((1u64 << 62, 0))), None);
}

#[test]
fn the_clock_reads_after_the_epoch() {
    let t = now().expect("the clock reads a time after the epoch");
    assert!(t.secs > 1_600_000_000);
    assert!(t.nanos < 1_000_000_000);
}
