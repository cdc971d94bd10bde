use nexus::cli::{found_line, input_source, Format, Formatted, InputSource};
use nexus::error::Error;
use nexus::options::Options;
use nexus::text::{clone_opt_string, clone_strings, decimal_string, signed_decimal_string, str_eq};

fn options(agent: Option<&str>, format: Option<Format>) -> Options {
    Options {
        debug: false,
        verbose: false,
        project: None,
        database: None,
        format,
        agent: agent.map(|a| a.to_string()),
    }
}

#[test]
fn decimal_renders_digits() {
    assert_eq!(decimal_string(0), "0");
    assert_eq!(decimal_string(7), "7");
    assert_eq!(decimal_string(10), "10");
    assert_eq!(decimal_string(1234567890), "1234567890");
    assert_eq!(decimal_string(u64::MAX), "18446744073709551615");
}

#[test]
fn signed_decimal_renders_sign() {
    assert_eq!(signed_decimal_string(0), "0");
    assert_eq!(signed_decimal_string(42), "42");
    assert_eq!(signed_decimal_string(-42), "-42");
    assert_eq!(signed_decimal_string(i64::MIN), "-9223372036854775808");
}

#[test]
fn str_eq_compares_characters() {
    assert!(str_eq("text", "text"));
    assert!(!str_eq("text", "texts"));
    assert!(!str_eq("text", "json"));
    assert!(str_eq("", ""));
    assert!(str_eq("héllo", "héllo"));
}

#[test]
fn copies_are_equal() {
    let v = vec!["a".to_string(), "b".to_string()];
    assert_eq!(clone_strings(&v), v);
    assert_eq!(clone_opt_string(&Some("x".to_string())), Some("x".to_string()));
    assert_eq!(clone_opt_string(&None), None);
}

#[test]
fn format_parses_its_names() {
    assert_eq!(Format::from_str("text"), Ok(Format::Text));
    assert_eq!(Format::from_str("json"), Ok(Format::JSON));
    assert_eq!(Format::from_str("xml"), Err("Invalid format: xml".to_string()));
    assert_eq!(Format::from_str("Text"), Err("Invalid format: Text".to_string()));
}

#[test]
fn format_name_round_trip() {
    for f in [Format::Text, Format::JSON] {
        assert_eq!(Format::from_str(&f.name()), Ok(f));
    }
    assert_eq!(Format::Text.name(), "text");
    assert_eq!(Format::JSON.name(), "json");
}

#[test]
fn input_source_reads_dash_as_stdin() {
    assert_eq!(input_source(&None), None);
    assert_eq!(input_source(&Some("-".to_string())), Some(InputSource::Stdin));
    assert_eq!(
        input_source(&Some("notes.md".to_string())),
        Some(InputSource::File("notes.md".to_string()))
    );
}

#[test]
fn found_line_only_for_text() {
    assert_eq!(found_line(&Format::Text, 3), Some("3 found".to_string()));
    assert_eq!(found_line(&Format::Text, 0), Some("0 found".to_string()));
    assert_eq!(found_line(&Format::JSON, 3), None);
}

#[test]
fn formatted_pairs_value_and_format() {
    let v = 5;
    let f = Format::Text;
    let p = Formatted::new(&v, &f);
    assert_eq!(*p.value, 5);
    assert_eq!(*p.format, Format::Text);
}

#[test]
fn options_default_to_json() {
    assert_eq!(options(None, None).format(), Format::JSON);
    assert_eq!(options(None, Some(Format::Text)).format(), Format::Text);
}

#[test]
fn options_agent_is_required() {
    assert_eq!(options(Some("agent-x"), None).agent(), Ok("agent-x"));
    assert_eq!(
        options(None, None).agent(),
        Err(Error::ArgumentError(
            "an agent identifier is required: pass --agent or set NEXUS_AGENT".to_string()
        ))
    );
}

#[test]
fn error_message_is_carried() {
    assert_eq!(Error::IOError("disk".to_string()).message(), "disk");
    assert_eq!(Error::CommandError("nope".to_string()).message(), "nope");
    assert_eq!(Error::RusqliteError("locked".to_string()).message(), "locked");
}
