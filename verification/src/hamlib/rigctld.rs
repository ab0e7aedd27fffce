//! Control through a `rigctld` server.
use vstd::prelude::*;

use crate::common::config::ConfigRigctld;
use crate::hamlib::HamlibError;
use crate::text::{after_first_space, has_prefix, split_after_space, starts_with, trim, trim_text};

verus! {

/// A reply line of `rigctld` that reports the outcome of the commands: it
/// begins with `RPRT`. The lines before it are read and dropped.
pub open spec fn is_report(line: Seq<char>) -> bool {
    has_prefix(line, "RPRT"@)
}

/// The code of a report line: what follows the first space of the trimmed
/// line, or `(cannot decode)` where the line holds no space.
pub open spec fn report_code(line: Seq<char>) -> Seq<char> {
    match after_first_space(trim(line)) {
        Some(code) => code,
        None => "(cannot decode)"@,
    }
}

/// Whether a reply line is the report line.
pub fn is_report_line(line: &str) -> (b: bool)
    ensures
        b == is_report(line@),
{
    starts_with(line, "RPRT")
}

/// The code of a report line.
pub fn report_code_text(line: &str) -> (code: &str)
    ensures
        code@ == report_code(line@),
{
    let trimmed = trim_text(line);
    match split_after_space(trimmed) {
        Some(code) => code,
        None => "(cannot decode)",
    }
}

/// `r` is the outcome that the report line `line` states: success for
/// code `0`, otherwise a control error that names the code.
pub open spec fn report_outcome(line: Seq<char>, r: Result<(), HamlibError>) -> bool {
    match r {
        Ok(()) => report_code(line) == "0"@,
        Err(HamlibError::Control(m)) => report_code(line) != "0"@ && m@ == "rigctld returned error "@
            + report_code(line),
        Err(_) => false,
    }
}

/// The outcome that a report line states.
pub fn check_report(line: &str) -> (r: Result<(), HamlibError>)
    ensures
        report_outcome(line@, r),
{
    let code = report_code_text(line);
    proof {
        reveal_strlit("0");
    }
    if code.unicode_len() == 1 && code.get_char(0) == '0' {
        assert(code@ =~= "0"@);
        Ok(())
    } else {
        let mut m = String::from_str("rigctld returned error ");
        m.append(code);
        Err(HamlibError::Control(m))
    }
}

/// Sends commands by opening a connection to `rigctld` per batch.
#[derive(Debug)]
pub struct RigctldCommander {
    pub config: ConfigRigctld,
}

impl RigctldCommander {
    /// A commander for the `rigctld` that `config` describes.
    pub fn new(config: &ConfigRigctld) -> (c: RigctldCommander)
        ensures
            c.config == *config,
    {
        RigctldCommander { config: config.clone() }
    }
}

/// What one reply line decides: nothing yet for a line before the report
/// (reading goes on), the report's outcome for the report line.
pub fn reply_line(line: &str) -> (r: Option<Result<(), HamlibError>>)
    ensures
        r is None <==> !is_report(line@),
        r matches Some(o) ==> report_outcome(line@, o),
{
    if is_report_line(line) {
        Some(check_report(line))
    } else {
        None
    }
}

/// The code that a reply carries: that of its first report line, if it
/// has one.
pub open spec fn reply_code(lines: Seq<Seq<char>>) -> Option<Seq<char>>
    decreases lines.len(),
{
    if lines.len() == 0 {
        None
    } else if is_report(lines[0]) {
        Some(report_code(lines[0]))
    } else {
        reply_code(lines.drop_first())
    }
}

proof fn lemma_reply_code_at(lines: Seq<Seq<char>>, i: int)
    requires
        0 <= i < lines.len(),
        is_report(lines[i]),
        forall|j: int| 0 <= j < i ==> !is_report(#[trigger] lines[j]),
    ensures
        reply_code(lines) == Some(report_code(lines[i])),
    decreases i,
{
    if i > 0 {
        let t = lines.drop_first();
        assert forall|j: int| 0 <= j < i - 1 implies !is_report(#[trigger] t[j]) by {
            assert(t[j] == lines[j + 1]);
        }
        assert(!is_report(lines[0]));
        lemma_reply_code_at(t, i - 1);
    }
}

/// Reading a reply line by line with `reply_line` until it decides, as
/// every `rigctld` commander does (one connection per batch or one kept
/// open; both write `command_line(commands)` first), stops at the first
/// report line, and the outcome is that of the reply's code. So the same
/// commands and the same reply give the same outcome, through either
/// commander: success exactly for code `0`, otherwise the same error text.
pub proof fn lemma_reply_outcome(
    lines: Seq<Seq<char>>,
    i1: int,
    r1: Result<(), HamlibError>,
    i2: int,
    r2: Result<(), HamlibError>,
)
    requires
        0 <= i1 < lines.len(),
        0 <= i2 < lines.len(),
        is_report(lines[i1]),
        is_report(lines[i2]),
        forall|j: int| 0 <= j < i1 ==> !is_report(#[trigger] lines[j]),
        forall|j: int| 0 <= j < i2 ==> !is_report(#[trigger] lines[j]),
        report_outcome(lines[i1], r1),
        report_outcome(lines[i2], r2),
    ensures
        i1 == i2,
        reply_code(lines) == Some(report_code(lines[i1])),
        r1 is Ok <==> reply_code(lines) == Some("0"@),
        r1 is Ok <==> r2 is Ok,
        r1 matches Err(HamlibError::Control(m1)) ==> (r2 matches Err(HamlibError::Control(m2))
            && m1@ == m2@),
{
    if i1 < i2 {
        assert(!is_report(lines[i1]));
    }
    if i2 < i1 {
        assert(!is_report(lines[i2]));
    }
    lemma_reply_code_at(lines, i1);
}

} // verus!
