//! The /health command.
//!
//! [`handle_health`] reads the flags and says which checks to run; the
//! application opens the vault and runs them, and [`finish_health`] turns what
//! it found into the lines to show.
use vstd::prelude::*;
use vstd::string::StringExecFns;
use crate::error::KeyringError;
use crate::sync::records::strings_view;
use crate::text::{decimal, push_decimal, str_eq};
use crate::tui::commands::{join_strings, joined, lines_view, push_line, push_line2, strs_view};

verus! {

/// How serious a health issue is.
#[derive(Debug, Clone, Copy, PartialEq, Eq, Structural)]
pub enum Severity {
    Critical,
    High,
    Medium,
    Low,
}

/// One problem found by the health checks.
#[derive(Debug)]
pub struct HealthIssue {
    pub severity: Severity,
    /// Names of the records concerned.
    pub record_names: Vec<String>,
    pub description: String,
}

/// Model of a health issue.
pub struct HealthIssueView {
    pub severity: Severity,
    pub record_names: Seq<Seq<char>>,
    pub description: Seq<char>,
}

impl View for HealthIssue {
    type V = HealthIssueView;

    open spec fn view(&self) -> HealthIssueView {
        HealthIssueView {
            severity: self.severity,
            record_names: strings_view(self.record_names@),
            description: self.description@,
        }
    }
}

/// The outcome of the health checks over the records of the vault.
#[derive(Debug)]
pub struct HealthReport {
    pub total_records: usize,
    pub weak_password_count: usize,
    pub duplicate_password_count: usize,
    pub compromised_password_count: usize,
    pub issues: Vec<HealthIssue>,
}

/// Model of a health report.
pub struct HealthReportView {
    pub total_records: nat,
    pub weak: nat,
    pub duplicates: nat,
    pub compromised: nat,
    pub issues: Seq<HealthIssueView>,
}

/// The issues of a list, each by its model.
pub open spec fn issues_view(v: Seq<HealthIssue>) -> Seq<HealthIssueView> {
    v.map_values(|i: HealthIssue| i@)
}

impl View for HealthReport {
    type V = HealthReportView;

    open spec fn view(&self) -> HealthReportView {
        HealthReportView {
            total_records: self.total_records as nat,
            weak: self.weak_password_count as nat,
            duplicates: self.duplicate_password_count as nat,
            compromised: self.compromised_password_count as nat,
            issues: issues_view(self.issues@),
        }
    }
}

impl HealthReport {
    /// A report is healthy when the checks found no issue.
    pub fn is_healthy(&self) -> (b: bool)
        ensures
            b == (self@.issues.len() == 0),
    {
        self.issues.len() == 0
    }
}

/// Which checks /health runs.
#[derive(Debug, Clone, Copy, PartialEq, Eq, Structural)]
pub struct HealthChecks {
    pub weak: bool,
    pub duplicates: bool,
    pub leaks: bool,
}

/// The checks after reading one more argument; unknown arguments are ignored.
pub open spec fn checks_after(c: HealthChecks, arg: Seq<char>) -> HealthChecks {
    if arg == "--weak"@ || arg == "-w"@ {
        HealthChecks { weak: true, ..c }
    } else if arg == "--duplicate"@ || arg == "-d"@ {
        HealthChecks { duplicates: true, ..c }
    } else if arg == "--leaks"@ || arg == "-l"@ {
        HealthChecks { leaks: true, ..c }
    } else if arg == "--all"@ || arg == "-a"@ {
        HealthChecks { weak: true, duplicates: true, leaks: true }
    } else {
        c
    }
}

/// The checks the arguments ask for, read left to right from none.
pub open spec fn health_checks(args: Seq<Seq<char>>) -> HealthChecks
    decreases args.len(),
{
    if args.len() == 0 {
        HealthChecks { weak: false, duplicates: false, leaks: false }
    } else {
        checks_after(health_checks(args.drop_last()), args.last())
    }
}

/// Whether any check is selected.
pub open spec fn any_check(c: HealthChecks) -> bool {
    c.weak || c.duplicates || c.leaks
}

/// Reads the /health flags: --weak (-w), --duplicate (-d), --leaks (-l) and
/// --all (-a); other arguments are ignored.
pub fn parse_health_flags(args: &Vec<&str>) -> (r: HealthChecks)
    ensures
        r == health_checks(strs_view(args@)),
{
    let mut c = HealthChecks { weak: false, duplicates: false, leaks: false };
    let mut i: usize = 0;
    while i < args.len()
        invariant
            i <= args@.len(),
            c == health_checks(strs_view(args@).take(i as int)),
        decreases args@.len() - i,
    {
        let a = args[i];
        assert(strs_view(args@).take(i + 1).drop_last() =~= strs_view(args@).take(i as int));
        assert(strs_view(args@).take(i + 1).last() == a@);
        if str_eq(a, "--weak") || str_eq(a, "-w") {
            c.weak = true;
        } else if str_eq(a, "--duplicate") || str_eq(a, "-d") {
            c.duplicates = true;
        } else if str_eq(a, "--leaks") || str_eq(a, "-l") {
            c.leaks = true;
        } else if str_eq(a, "--all") || str_eq(a, "-a") {
            c = HealthChecks { weak: true, duplicates: true, leaks: true };
        }
        i = i + 1;
    }
    assert(strs_view(args@).take(i as int) =~= strs_view(args@));
    c
}

/// The first lines of every /health reply.
pub open spec fn health_header() -> Seq<Seq<char>> {
    seq!["Password Health Check"@, ""@]
}

/// What /health shows when no check is selected.
pub open spec fn health_usage() -> Seq<Seq<char>> {
    seq![
        "No checks selected. Use one or more flags:"@,
        "  --weak, -w       Check for weak passwords"@,
        "  --duplicate, -d  Check for duplicate passwords"@,
        "  --leaks, -l      Check for compromised passwords (HIBP)"@,
        "  --all, -a        Run all checks"@,
        ""@,
        "Example: /health --all"@,
    ]
}

/// What /health does next: show lines, or run the checks and then show.
#[derive(Debug)]
pub enum HealthStep {
    /// Nothing to check; these are the lines to show.
    Done(Vec<String>),
    /// Run these checks; the lines so far come first.
    Run { lines: Vec<String>, checks: HealthChecks },
}

/// Starts /health: with no check selected it shows how to select one,
/// otherwise it asks for the selected checks to be run.
pub fn handle_health(args: Vec<&str>) -> (r: HealthStep)
    ensures
        ({
            let c = health_checks(strs_view(args@));
            if any_check(c) {
                r matches HealthStep::Run { lines, checks } && lines_view(lines@) == health_header() && checks == c
            } else {
                r matches HealthStep::Done(lines) && lines_view(lines@) == health_header() + health_usage()
            }
        }),
{
    let mut out: Vec<String> = Vec::new();
    push_line(&mut out, "Password Health Check");
    push_line(&mut out, "");
    let c = parse_health_flags(&args);
    if !c.weak && !c.duplicates && !c.leaks {
        push_line(&mut out, "No checks selected. Use one or more flags:");
        push_line(&mut out, "  --weak, -w       Check for weak passwords");
        push_line(&mut out, "  --duplicate, -d  Check for duplicate passwords");
        push_line(&mut out, "  --leaks, -l      Check for compromised passwords (HIBP)");
        push_line(&mut out, "  --all, -a        Run all checks");
        push_line(&mut out, "");
        push_line(&mut out, "Example: /health --all");
        assert(lines_view(out@) =~= health_header() + health_usage());
        return HealthStep::Done(out);
    }
    assert(lines_view(out@) =~= health_header());
    HealthStep::Run { lines: out, checks: c }
}

/// What the application found when it tried to run the checks.
#[derive(Debug)]
pub enum HealthOutcome {
    /// The vault's database file does not exist.
    VaultMissing,
    /// The keystore could not be unlocked.
    KeystoreLocked,
    /// The database could not be opened, with the reason.
    DatabaseOpenFailed(String),
    /// No connection to the database, with the reason.
    DatabaseConnectFailed(String),
    /// The database has no records table.
    NoRecordsTable,
    /// The checks ran over the records that are not deleted.
    Checked(HealthReport),
    /// Reading the configuration or the records failed.
    Failed(KeyringError),
}

/// Name of a severity.
pub open spec fn severity_name(s: Severity) -> Seq<char> {
    match s {
        Severity::Critical => "Critical"@,
        Severity::High => "High"@,
        Severity::Medium => "Medium"@,
        Severity::Low => "Low"@,
    }
}

/// Marker of a severity.
pub open spec fn severity_icon(s: Severity) -> Seq<char> {
    match s {
        Severity::Critical => "[!]"@,
        Severity::High => "[+]"@,
        Severity::Medium => "[*]"@,
        Severity::Low => "[.]"@,
    }
}

/// The line of one issue: its marker, the records concerned and what is wrong.
pub open spec fn issue_line(i: HealthIssueView) -> Seq<char> {
    "  "@ + severity_icon(i.severity) + " "@ + joined(i.record_names, ", "@) + " - "@ + i.description
}

/// The lines of the issues of severity `s`, in order.
pub open spec fn severity_lines(issues: Seq<HealthIssueView>, s: Severity) -> Seq<Seq<char>>
    decreases issues.len(),
{
    if issues.len() == 0 {
        Seq::empty()
    } else {
        severity_lines(issues.drop_last(), s) + if issues.last().severity == s {
            seq![issue_line(issues.last())]
        } else {
            Seq::empty()
        }
    }
}

/// The block of one severity: a heading, its issues and a blank line, or
/// nothing where no issue has that severity.
pub open spec fn severity_block(issues: Seq<HealthIssueView>, s: Severity) -> Seq<Seq<char>> {
    let ls = severity_lines(issues, s);
    if ls.len() == 0 {
        Seq::empty()
    } else {
        seq![severity_name(s) + " Issues:"@] + ls + seq![""@]
    }
}

/// Advice for each kind of problem the report counts.
pub open spec fn recommendations(r: HealthReportView) -> Seq<Seq<char>> {
    (if r.weak > 0 {
        seq!["  - Update weak passwords to improve security"@, "    Use: /new to create strong passwords"@]
    } else {
        Seq::empty()
    }) + (if r.duplicates > 0 {
        seq!["  - Use unique passwords for each account"@]
    } else {
        Seq::empty()
    }) + (if r.compromised > 0 {
        seq!["  - Change compromised passwords immediately!"@, "    These passwords have been found in data breaches."@]
    } else {
        Seq::empty()
    })
}

/// The summary of a report: the number of records checked and the counts of
/// the checks that ran.
pub open spec fn report_summary(r: HealthReportView, c: HealthChecks) -> Seq<Seq<char>> {
    seq![
        "--------------------------------------------------"@,
        "Total records checked: "@ + decimal(r.total_records),
        ""@,
    ] + (if c.weak {
        seq!["Weak passwords:       "@ + decimal(r.weak)]
    } else {
        Seq::empty()
    }) + (if c.duplicates {
        seq!["Duplicate passwords:  "@ + decimal(r.duplicates)]
    } else {
        Seq::empty()
    }) + (if c.leaks {
        seq!["Compromised:          "@ + decimal(r.compromised)]
    } else {
        Seq::empty()
    }) + seq![""@]
}

/// The issues of a report by severity, most serious first, followed by
/// advice; or that all is well where there is no issue.
pub open spec fn report_body(r: HealthReportView) -> Seq<Seq<char>> {
    if r.issues.len() == 0 {
        seq!["All passwords are healthy!"@]
    } else {
        severity_block(r.issues, Severity::Critical) + severity_block(r.issues, Severity::High) + severity_block(
            r.issues,
            Severity::Medium,
        ) + severity_block(r.issues, Severity::Low) + seq!["Recommendations:"@] + recommendations(r)
    }
}

/// The lines of a report: its summary, then its body.
pub open spec fn report_lines(r: HealthReportView, c: HealthChecks) -> Seq<Seq<char>> {
    report_summary(r, c) + report_body(r)
}

fn push_count(out: &mut Vec<String>, prefix: &str, n: usize)
    ensures
        lines_view(final(out)@) == lines_view(old(out)@).push(prefix@ + decimal(n as nat)),
{
    let mut s = String::from_str(prefix);
    push_decimal(&mut s, n);
    let ghost before = out@;
    out.push(s);
    assert(lines_view(out@) =~= lines_view(before).push(prefix@ + decimal(n as nat)));
}

fn append_lines(out: &mut Vec<String>, more: Vec<String>)
    ensures
        lines_view(final(out)@) == lines_view(old(out)@) + lines_view(more@),
{
    let mut m = more;
    let ghost a = out@;
    let ghost b = m@;
    out.append(&mut m);
    assert(lines_view(out@) =~= lines_view(a) + lines_view(b));
}

fn severity_heading(s: Severity) -> (r: &'static str)
    ensures
        r@ == severity_name(s) + " Issues:"@,
{
    proof {
        reveal_strlit("Critical");
        reveal_strlit("High");
        reveal_strlit("Medium");
        reveal_strlit("Low");
        reveal_strlit(" Issues:");
    }
    match s {
        Severity::Critical => {
            proof { reveal_strlit("Critical Issues:"); }
            "Critical Issues:"
        },
        Severity::High => {
            proof { reveal_strlit("High Issues:"); }
            "High Issues:"
        },
        Severity::Medium => {
            proof { reveal_strlit("Medium Issues:"); }
            "Medium Issues:"
        },
        Severity::Low => {
            proof { reveal_strlit("Low Issues:"); }
            "Low Issues:"
        },
    }
}

fn severity_marker(s: Severity) -> (r: &'static str)
    ensures
        r@ == severity_icon(s),
{
    match s {
        Severity::Critical => "[!]",
        Severity::High => "[+]",
        Severity::Medium => "[*]",
        Severity::Low => "[.]",
    }
}

fn issue_text(i: &HealthIssue) -> (r: String)
    ensures
        r@ == issue_line(i@),
{
    let mut s = String::from_str("  ");
    s.append(severity_marker(i.severity));
    s.append(" ");
    let names = join_strings(i.record_names.as_slice(), ", ");
    s.append(names.as_str());
    s.append(" - ");
    s.append(i.description.as_str());
    s
}

fn push_severity_block(out: &mut Vec<String>, issues: &Vec<HealthIssue>, s: Severity)
    ensures
        lines_view(final(out)@) == lines_view(old(out)@) + severity_block(issues_view(issues@), s),
{
    let ghost iv = issues_view(issues@);
    let mut block: Vec<String> = Vec::new();
    let mut i: usize = 0;
    while i < issues.len()
        invariant
            i <= issues@.len(),
            iv == issues_view(issues@),
            lines_view(block@) == severity_lines(iv.take(i as int), s),
        decreases issues@.len() - i,
    {
        assert(iv.take(i + 1).drop_last() =~= iv.take(i as int));
        assert(iv.take(i + 1).last() == issues@[i as int]@);
        if issues[i].severity == s {
            let line = issue_text(&issues[i]);
            let ghost before = block@;
            block.push(line);
            assert(lines_view(block@) =~= lines_view(before).push(issue_line(issues@[i as int]@)));
        }
        i = i + 1;
        assert(lines_view(block@) =~= severity_lines(iv.take(i as int), s));
    }
    assert(iv.take(i as int) =~= iv);
    if block.len() > 0 {
        push_line(out, severity_heading(s));
        append_lines(out, block);
        push_line(out, "");
    }
}

fn push_summary(out: &mut Vec<String>, report: &HealthReport, c: HealthChecks)
    ensures
        lines_view(final(out)@) == lines_view(old(out)@) + report_summary(report@, c),
{
    let ghost start = lines_view(out@);
    push_line(out, "--------------------------------------------------");
    push_count(out, "Total records checked: ", report.total_records);
    push_line(out, "");
    if c.weak {
        push_count(out, "Weak passwords:       ", report.weak_password_count);
    }
    if c.duplicates {
        push_count(out, "Duplicate passwords:  ", report.duplicate_password_count);
    }
    if c.leaks {
        push_count(out, "Compromised:          ", report.compromised_password_count);
    }
    push_line(out, "");
    assert(lines_view(out@) =~= start + report_summary(report@, c));
}

fn push_recommendations(out: &mut Vec<String>, report: &HealthReport)
    ensures
        lines_view(final(out)@) == lines_view(old(out)@) + recommendations(report@),
{
    let ghost start = lines_view(out@);
    if report.weak_password_count > 0 {
        push_line(out, "  - Update weak passwords to improve security");
        push_line(out, "    Use: /new to create strong passwords");
    }
    if report.duplicate_password_count > 0 {
        push_line(out, "  - Use unique passwords for each account");
    }
    if report.compromised_password_count > 0 {
        push_line(out, "  - Change compromised passwords immediately!");
        push_line(out, "    These passwords have been found in data breaches.");
    }
    assert(lines_view(out@) =~= start + recommendations(report@));
}

fn push_body(out: &mut Vec<String>, report: &HealthReport)
    ensures
        lines_view(final(out)@) == lines_view(old(out)@) + report_body(report@),
{
    let ghost start = lines_view(out@);
    if report.is_healthy() {
        push_line(out, "All passwords are healthy!");
        assert(lines_view(out@) =~= start + report_body(report@));
        return;
    }
    let ghost iv = report@.issues;
    push_severity_block(out, &report.issues, Severity::Critical);
    push_severity_block(out, &report.issues, Severity::High);
    push_severity_block(out, &report.issues, Severity::Medium);
    push_severity_block(out, &report.issues, Severity::Low);
    push_line(out, "Recommendations:");
    push_recommendations(out, report);
    assert(lines_view(out@) =~= start + report_body(report@));
}

/// The lines of a health report for the checks that ran.
pub fn format_health_report(report: &HealthReport, show_weak: bool, show_dupes: bool, show_leaks: bool) -> (r: Vec<String>)
    ensures
        lines_view(r@) == report_lines(report@, HealthChecks { weak: show_weak, duplicates: show_dupes, leaks: show_leaks }),
{
    let mut out: Vec<String> = Vec::new();
    let c = HealthChecks { weak: show_weak, duplicates: show_dupes, leaks: show_leaks };
    push_summary(&mut out, report, c);
    push_body(&mut out, report);
    assert(lines_view(out@) =~= report_lines(report@, c));
    out
}

/// The lines /health shows after the checks were tried, the lines so far
/// first; a failure to read the configuration or the records is an error.
pub open spec fn outcome_lines(o: HealthOutcome, c: HealthChecks) -> Seq<Seq<char>> {
    match o {
        HealthOutcome::VaultMissing => seq!["Vault not initialized."@, "   Run 'ok init' first."@],
        HealthOutcome::KeystoreLocked => seq![
            "Error: Unable to unlock keystore."@,
            "       Make sure you have initialized your vault."@,
        ],
        HealthOutcome::DatabaseOpenFailed(e) => seq!["Error: Unable to open database: "@ + e@],
        HealthOutcome::DatabaseConnectFailed(e) => seq!["Error: Unable to connect to database: "@ + e@],
        HealthOutcome::NoRecordsTable => seq!["No records found."@],
        HealthOutcome::Checked(report) => if report.total_records == 0 {
            seq!["No passwords found in vault."@]
        } else {
            seq!["Checking "@ + decimal(report.total_records as nat) + " records..."@] + report_lines(report@, c)
        },
        HealthOutcome::Failed(_) => Seq::empty(),
    }
}

/// Finishes /health with what the application found: the lines so far, then
/// those of the outcome; an error where reading failed.
pub fn finish_health(lines: Vec<String>, checks: HealthChecks, outcome: HealthOutcome) -> (r: Result<
    Vec<String>,
    KeyringError,
>)
    ensures
        match outcome {
            HealthOutcome::Failed(e) => r == Err::<Vec<String>, KeyringError>(e),
            _ => r is Ok && lines_view(r->Ok_0@) == lines_view(lines@) + outcome_lines(outcome, checks),
        },
{
    let mut out = lines;
    let ghost start = lines_view(out@);
    match outcome {
        HealthOutcome::VaultMissing => {
            push_line(&mut out, "Vault not initialized.");
            push_line(&mut out, "   Run 'ok init' first.");
        },
        HealthOutcome::KeystoreLocked => {
            push_line(&mut out, "Error: Unable to unlock keystore.");
            push_line(&mut out, "       Make sure you have initialized your vault.");
        },
        HealthOutcome::DatabaseOpenFailed(e) => {
            push_line2(&mut out, "Error: Unable to open database: ", e.as_str());
        },
        HealthOutcome::DatabaseConnectFailed(e) => {
            push_line2(&mut out, "Error: Unable to connect to database: ", e.as_str());
        },
        HealthOutcome::NoRecordsTable => {
            push_line(&mut out, "No records found.");
        },
        HealthOutcome::Checked(report) => {
            if report.total_records == 0 {
                push_line(&mut out, "No passwords found in vault.");
            } else {
                let mut s = String::from_str("Checking ");
                push_decimal(&mut s, report.total_records);
                s.append(" records...");
                let ghost before = out@;
                out.push(s);
                assert(lines_view(out@) =~= lines_view(before).push(
                    "Checking "@ + decimal(report.total_records as nat) + " records..."@,
                ));
                let more = format_health_report(&report, checks.weak, checks.duplicates, checks.leaks);
                append_lines(&mut out, more);
            }
        },
        HealthOutcome::Failed(e) => {
            return Err(e);
        },
    }
    assert(lines_view(out@) =~= start + outcome_lines(outcome, checks));
    Ok(out)
}

} // verus!
