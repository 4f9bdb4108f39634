//! Output formats for anomaly reports, and the human console form.
use crate::event::{AnomalyReport, ReportView};
use crate::text::{decimal, u64_text};
use vstd::prelude::*;
use vstd::string::StringExecFns;

verus! {

/// How reports are written to the sink.
#[derive(Debug, Clone, Copy, PartialEq, Eq, Structural)]
pub enum OutputFormat {
    /// Pretty JSON, one object per block.
    Json,
    /// One JSON object per line.
    Jsonl,
    /// The human console form.
    Console,
}

/// The lowercase form of `s`, as the standard library folds case.
pub uninterp spec fn lower_of(s: Seq<char>) -> Seq<char>;

/// Relies on `str::to_lowercase`: the result depends on the characters alone.
#[verifier::external_body]
fn lowercase(s: &str) -> (r: String)
    ensures
        r@ == lower_of(s@),
{
    s.to_lowercase()
}

/// The format a lowercase name selects; line-delimited JSON by default.
pub open spec fn format_named(name: Seq<char>) -> OutputFormat {
    if name == "json"@ {
        OutputFormat::Json
    } else if name == "jsonl"@ {
        OutputFormat::Jsonl
    } else if name == "console"@ {
        OutputFormat::Console
    } else {
        OutputFormat::Jsonl
    }
}

impl OutputFormat {
    /// The format named by an already lowercase name.
    pub fn from_lowercase(name: &str) -> (r: OutputFormat)
        ensures
            r == format_named(name@),
    {
        let n = String::from_str(name);
        if n == String::from_str("json") {
            OutputFormat::Json
        } else if n == String::from_str("jsonl") {
            OutputFormat::Jsonl
        } else if n == String::from_str("console") {
            OutputFormat::Console
        } else {
            OutputFormat::Jsonl
        }
    }

    /// The format named by `s`, in any case; line-delimited JSON by default.
    pub fn from_str(s: &str) -> (r: OutputFormat)
        ensures
            r == format_named(lower_of(s@)),
    {
        let lower = lowercase(s);
        Self::from_lowercase(lower.as_str())
    }
}

/// The console form of a report, newline-terminated.
pub open spec fn console_text(r: ReportView) -> Seq<char> {
    "["@ + r.rule_name + "] "@ + r.description + " - User: "@ + r.user + ", IP: "@ + r.trusted_ip
        + " -> "@ + r.detected_ip + ", Severity: "@ + decimal(r.severity as nat) + "\n"@
}

/// `[rule] description - User: u, IP: trusted -> detected, Severity: s`
pub fn console_line(report: &AnomalyReport) -> (r: String)
    ensures
        r@ == console_text(report@),
{
    let mut s = String::from_str("[");
    s.append(report.rule_name.as_str());
    s.append("] ");
    s.append(report.description.as_str());
    s.append(" - User: ");
    s.append(report.user.as_str());
    s.append(", IP: ");
    s.append(report.trusted_ip.as_str());
    s.append(" -> ");
    s.append(report.detected_ip.as_str());
    s.append(", Severity: ");
    s.append(u64_text(report.severity as u64).as_str());
    s.append("\n");
    s
}

} // verus!
