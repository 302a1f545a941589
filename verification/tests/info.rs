use merlin_matrix::config::{CredsConfig, DataConfig};
use merlin_matrix::error::ErrorMsg;
use merlin_matrix::contexts::context_set_not_found_reply;
use merlin_matrix::format::{fmt_signed, fmt_unsigned};
use merlin_matrix::org::Reply;
use merlin_matrix::info::{latency_measuring, latency_reply, uptime_reply, CmdPing, CmdUptime};

#[test]
fn decimal_rendering() {
    assert_eq!(fmt_unsigned(0), "0");
    assert_eq!(fmt_unsigned(7), "7");
    assert_eq!(fmt_unsigned(1024), "1024");
    assert_eq!(fmt_unsigned(u128::MAX), u128::MAX.to_string());
    assert_eq!(fmt_signed(-5), "-5");
    assert_eq!(fmt_signed(0), "0");
    assert_eq!(fmt_signed(i64::MIN), i64::MIN.to_string());
}

#[test]
fn html_escaping() {
    match context_set_not_found_reply("a > b && a < c") {
        Reply::Html(plain, html) => {
            assert_eq!(plain, "No context found with name a > b && a < c");
            assert_eq!(html, "No context found with name <code>a &gt; b &amp;&amp; a &lt; c</code>");
        }
        Reply::Plain(_) => panic!("expected an HTML reply"),
    }
    match context_set_not_found_reply("plain \"text\"") {
        Reply::Html(_, html) => {
            assert_eq!(html, "No context found with name <code>plain \"text\"</code>")
        }
        Reply::Plain(_) => panic!("expected an HTML reply"),
    }
}

#[test]
fn uptime_just_started() {
    let (plain, html) = uptime_reply(0);
    assert_eq!(plain, "Merlin has just started.");
    assert_eq!(html, "Merlin has just started.");
}

#[test]
fn uptime_shows_two_largest_units() {
    let (plain, html) = uptime_reply(90061);
    assert_eq!(plain, "Merlin has been up for 1 day and 1 hour.");
    assert_eq!(html, "Merlin has been up for <b>1 day and 1 hour</b>");
    let (plain, _) = uptime_reply(2 * 86400 + 5);
    assert_eq!(plain, "Merlin has been up for 2 days and 5 seconds.");
    let (plain, _) = uptime_reply(59);
    assert_eq!(plain, "Merlin has been up for 59 seconds.");
    let (plain, _) = uptime_reply(3600 + 120);
    assert_eq!(plain, "Merlin has been up for 1 hour and 2 minutes.");
    let (plain, _) = uptime_reply(1);
    assert_eq!(plain, "Merlin has been up for 1 second.");
}

#[test]
fn uptime_report_of_a_fresh_command() {
    let cmd = CmdUptime::new();
    let (plain, _) = cmd.report();
    assert!(plain.starts_with("Merlin has"));
    assert_eq!(cmd.permissions(), &["core.info.uptime", "core.info", "core", "*"]);
    assert!(cmd.default_permission());
}

#[test]
fn latency_messages() {
    assert_eq!(
        latency_measuring(),
        ("Latency: measuring".to_string(), "Latency: <i>measuring</i>".to_string())
    );
    assert_eq!(
        latency_reply(42),
        ("Latency: 42ms".to_string(), "Latency: <b>42ms</b>".to_string())
    );
    assert_eq!(CmdPing.permissions(), &["core.info.ping", "core.info", "core", "*"]);
    assert!(CmdPing.default_permission());
}

#[test]
fn default_configs() {
    let c = CredsConfig::default();
    assert_eq!(c.homeserver(), "https://example.com");
    assert_eq!(c.username(), "yourname");
    assert_eq!(c.password(), "XXX");
    let c = CredsConfig::new("https://m.org".to_string(), "me".to_string(), "pw".to_string());
    assert_eq!((c.homeserver(), c.username(), c.password()), ("https://m.org", "me", "pw"));
    assert_eq!(DataConfig::default().sqlite_db_path(), "./database.sqlite");
    assert_eq!(DataConfig::new("/tmp/x.db".to_string()).sqlite_db_path(), "/tmp/x.db");
}

#[test]
fn error_message_text() {
    assert_eq!(ErrorMsg("owner must exist".to_string()).text(), "ErrorMsg(\"owner must exist\")");
    assert_eq!(ErrorMsg("a\"b".to_string()).text(), "ErrorMsg(\"a\\\"b\")");
}
