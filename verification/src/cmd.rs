//! The text the `config` and `status` subcommands print.

use vstd::prelude::*;
use vstd::string::*;
use crate::config::AgentConfig;
use vstd::utf8::{valid_utf8, decode_utf8};

verus! {

/// The character of the decimal digit `d`.
pub open spec fn digit_char(d: nat) -> char {
    (48 + d) as char
}

/// The decimal representation of `n`, without leading zeros.
pub open spec fn decimal(n: nat) -> Seq<char>
    decreases n,
{
    if n < 10 {
        seq![digit_char(n)]
    } else {
        decimal(n / 10) + seq![digit_char(n % 10)]
    }
}

fn digit_str(d: u64) -> (s: &'static str)
    requires
        d < 10,
    ensures
        s@ == seq![digit_char(d as nat)],
{
    proof {
        reveal_strlit("0");
        reveal_strlit("1");
        reveal_strlit("2");
        reveal_strlit("3");
        reveal_strlit("4");
        reveal_strlit("5");
        reveal_strlit("6");
        reveal_strlit("7");
        reveal_strlit("8");
        reveal_strlit("9");
    }
    if d == 0 {
        "0"
    } else if d == 1 {
        "1"
    } else if d == 2 {
        "2"
    } else if d == 3 {
        "3"
    } else if d == 4 {
        "4"
    } else if d == 5 {
        "5"
    } else if d == 6 {
        "6"
    } else if d == 7 {
        "7"
    } else if d == 8 {
        "8"
    } else {
        "9"
    }
}

/// `n` written in decimal.
pub fn decimal_string(n: u64) -> (s: String)
    ensures
        s@ == decimal(n as nat),
    decreases n,
{
    if n < 10 {
        let mut s = String::new();
        s.append(digit_str(n));
        s
    } else {
        let mut s = decimal_string(n / 10);
        s.append(digit_str(n % 10));
        s
    }
}

/// The text that `String::from_utf8_lossy` makes of `bytes`: the bytes
/// decoded as UTF-8, each invalid sequence replaced by U+FFFD.
pub uninterp spec fn lossy_utf8(bytes: Seq<u8>) -> Seq<char>;

/// Calls `String::from_utf8_lossy`, the substitution that `Path::display`
/// performs on Unix paths. Claimed: the result is the named text, and, as the
/// documentation says, for valid UTF-8 it is exactly the decoded string. How
/// invalid sequences are replaced is left to the name.
#[verifier::external_body]
fn display_path(path: &[u8]) -> (s: String)
    ensures
        s@ == lossy_utf8(path@),
        valid_utf8(path@) ==> s@ == decode_utf8(path@),
{
    String::from_utf8_lossy(path).into_owned()
}

/// How the token is shown: never its value.
pub open spec fn token_display(token: Option<String>) -> Seq<char> {
    match token {
        Some(_) => "set (hidden)"@,
        None => "not set \u{2014} relay will reject if DEVICE_TOKEN is configured"@,
    }
}

/// Whether the config file was found.
pub open spec fn file_status(exists: bool) -> Seq<char> {
    if exists {
        "found"@
    } else {
        "not found \u{2014} using defaults"@
    }
}

/// The lines `config` prints for the resolved configuration `c`, where
/// `file_exists` says whether the config file is on disk.
pub open spec fn report_lines(c: AgentConfig, file_exists: bool) -> Seq<Seq<char>> {
    seq![
        Seq::<char>::empty(),
        "  relay_url           "@ + c.relay_url@,
        "  device_id           "@ + c.device_id@,
        "  hostname            "@ + c.hostname@,
        "  token               "@ + token_display(c.token),
        "  heartbeat_interval  "@ + decimal(c.heartbeat_interval as nat) + "s"@,
        "  log_level           "@ + c.log_level@,
        "  config              "@ + lossy_utf8(c.config_path@) + " ("@ + file_status(file_exists) + ")"@,
        Seq::<char>::empty(),
    ]
}

/// The report never reveals the token: two configurations that differ only in
/// the value of a token that is set print the same lines.
pub proof fn lemma_token_never_shown(c1: AgentConfig, c2: AgentConfig, file_exists: bool)
    requires
        c1.relay_url == c2.relay_url,
        c1.device_id == c2.device_id,
        c1.hostname == c2.hostname,
        c1.heartbeat_interval == c2.heartbeat_interval,
        c1.log_level == c2.log_level,
        c1.config_path == c2.config_path,
        c1.token is Some <==> c2.token is Some,
    ensures
        report_lines(c1, file_exists) == report_lines(c2, file_exists),
{
    assert(token_display(c1.token) == token_display(c2.token));
}

/// Each field is reported on its own line: the lines are a fixed label
/// followed by the field, so two configurations that differ in a field print
/// different lines for it.
pub proof fn lemma_report_tells_fields_apart(c1: AgentConfig, c2: AgentConfig, file_exists: bool)
    ensures
        c1.relay_url@ != c2.relay_url@ ==> report_lines(c1, file_exists)[1] != report_lines(c2, file_exists)[1],
        c1.device_id@ != c2.device_id@ ==> report_lines(c1, file_exists)[2] != report_lines(c2, file_exists)[2],
        c1.hostname@ != c2.hostname@ ==> report_lines(c1, file_exists)[3] != report_lines(c2, file_exists)[3],
        c1.log_level@ != c2.log_level@ ==> report_lines(c1, file_exists)[6] != report_lines(c2, file_exists)[6],
        report_lines(c1, file_exists)[2] == "  device_id           "@ + c1.device_id@,
{
    lemma_label_injective("  relay_url           "@, c1.relay_url@, c2.relay_url@);
    lemma_label_injective("  device_id           "@, c1.device_id@, c2.device_id@);
    lemma_label_injective("  hostname            "@, c1.hostname@, c2.hostname@);
    lemma_label_injective("  log_level           "@, c1.log_level@, c2.log_level@);
}

/// The same label followed by different values gives different lines.
proof fn lemma_label_injective(label: Seq<char>, a: Seq<char>, b: Seq<char>)
    ensures
        label + a == label + b ==> a == b,
{
    if label + a == label + b {
        assert(a =~= (label + a).subrange(label.len() as int, (label + a).len() as int));
        assert(b =~= (label + b).subrange(label.len() as int, (label + b).len() as int));
    }
}

fn line(label: &str, value: &str) -> (s: String)
    ensures
        s@ == label@ + value@,
{
    let mut s = String::new();
    s.append(label);
    s.append(value);
    s
}

/// The resolved configuration as the `config` subcommand prints it, one
/// string per line. The token's value is never shown.
pub fn show_config(config: &AgentConfig, file_exists: bool) -> (lines: Vec<String>)
    ensures
        lines@.len() == 9,
        forall|i: int| 0 <= i < 9 ==> #[trigger] lines@[i]@ == report_lines(*config, file_exists)[i],
        lines@[0]@.len() == 0,
        lines@[1]@ == "  relay_url           "@ + config.relay_url@,
        lines@[2]@ == "  device_id           "@ + config.device_id@,
        lines@[3]@ == "  hostname            "@ + config.hostname@,
        lines@[4]@ == "  token               "@ + (if config.token is Some {
            "set (hidden)"@
        } else {
            "not set \u{2014} relay will reject if DEVICE_TOKEN is configured"@
        }),
        lines@[5]@ == "  heartbeat_interval  "@ + decimal(config.heartbeat_interval as nat) + "s"@,
        lines@[6]@ == "  log_level           "@ + config.log_level@,
        lines@[7]@ == "  config              "@ + lossy_utf8(config.config_path@) + " ("@ + (if file_exists {
            "found"@
        } else {
            "not found \u{2014} using defaults"@
        }) + ")"@,
        lines@[8]@.len() == 0,
        valid_utf8(config.config_path@) ==> lines@[7]@ == "  config              "@ + decode_utf8(
            config.config_path@,
        ) + " ("@ + file_status(file_exists) + ")"@,
{
    let token_text = match &config.token {
        Some(_) => "set (hidden)",
        None => "not set \u{2014} relay will reject if DEVICE_TOKEN is configured",
    };
    let status_text = if file_exists {
        "found"
    } else {
        "not found \u{2014} using defaults"
    };
    let mut interval = decimal_string(config.heartbeat_interval);
    interval.append("s");
    let shown = display_path(config.config_path.as_slice());
    let mut path = line("  config              ", shown.as_str());
    path.append(" (");
    path.append(status_text);
    path.append(")");
    let mut lines: Vec<String> = Vec::new();
    lines.push(String::new());
    lines.push(line("  relay_url           ", config.relay_url.as_str()));
    lines.push(line("  device_id           ", config.device_id.as_str()));
    lines.push(line("  hostname            ", config.hostname.as_str()));
    lines.push(line("  token               ", token_text));
    lines.push(line("  heartbeat_interval  ", interval.as_str()));
    lines.push(line("  log_level           ", config.log_level.as_str()));
    lines.push(path);
    lines.push(String::new());
    let ghost expected = report_lines(*config, file_exists);
    assert(lines@[0]@ == expected[0]);
    assert(lines@[5]@ == expected[5]);
    assert(lines@[7]@ == expected[7]);
    lines
}

/// The first part of the `status` report, printed before the probe.
pub fn status_probe(url: &str) -> (s: String)
    ensures
        s@ == "Checking relay "@ + url@ + " ... "@,
{
    let mut s = line("Checking relay ", url);
    s.append(" ... ");
    s
}

/// The rest of the `status` report: the probe's outcome, with the error
/// message where the connection failed.
pub fn status_outcome(outcome: &Result<(), String>) -> (s: String)
    ensures
        s@ == (match outcome {
            Ok(_) => "[OK] reachable"@,
            Err(e) => "[FAIL] "@ + e@,
        }),
{
    match outcome {
        Ok(_) => "[OK] reachable".to_owned(),
        Err(e) => line("[FAIL] ", e.as_str()),
    }
}

} // verus!
