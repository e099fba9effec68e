//! The command runner's rules: which commands are run, and how what a
//! command left behind is turned into the text that the user reads.

use vstd::prelude::*;
use vstd::string::StringExecFns;
use crate::controller::{Action, Event, EventView};
use crate::text::{
    chars_of, copy_range, decimal, lemma_last_line, lemma_trim_end_last, line_views, lines,
    push_decimal, split_lines, string_of, trim, trim_bounds, trim_start,
};

verus! {

/// What an external process left behind when it ended.
#[derive(Debug, Clone, PartialEq, Eq)]
pub struct ExternalCommandResult {
    /// Whether the process reported success.
    pub success: bool,
    /// What it wrote to its standard output.
    pub stdout: String,
    /// What it wrote to its standard error.
    pub stderr: String,
    /// Its exit code; none where a signal ended it.
    pub exit_code: Option<i32>,
}

/// An `ExternalCommandResult` as a mathematical value.
pub struct CommandResultView {
    pub success: bool,
    pub stdout: Seq<char>,
    pub stderr: Seq<char>,
    pub exit_code: Option<i32>,
}

impl View for ExternalCommandResult {
    type V = CommandResultView;

    open spec fn view(&self) -> CommandResultView {
        CommandResultView {
            success: self.success,
            stdout: self.stdout@,
            stderr: self.stderr@,
            exit_code: self.exit_code,
        }
    }
}

/// How the attempt to run a command ended.
#[derive(Debug, Clone, PartialEq, Eq)]
pub enum Outcome {
    /// The process could not be started.
    LaunchFailed,
    /// The process ran and ended.
    Exited(ExternalCommandResult),
}

/// An `Outcome` as a mathematical value.
pub enum OutcomeView {
    LaunchFailed,
    Exited(CommandResultView),
}

impl View for Outcome {
    type V = OutcomeView;

    open spec fn view(&self) -> OutcomeView {
        match self {
            Outcome::LaunchFailed => OutcomeView::LaunchFailed,
            Outcome::Exited(result) => OutcomeView::Exited(result@),
        }
    }
}

/// How the package manager is spoken to: its name, the command that lends
/// an upgrade its rights, and the exit code by which a check tells that it
/// found updates.
#[derive(Debug, Clone, PartialEq, Eq)]
pub struct Policy {
    /// The package manager's program.
    pub manager: String,
    /// The program that runs the upgrade with elevated rights.
    pub elevation: String,
    /// The exit code of a check that found updates.
    pub updates_found_code: i32,
}

/// A `Policy` as a mathematical value.
pub struct PolicyView {
    pub manager: Seq<char>,
    pub elevation: Seq<char>,
    pub updates_found_code: i32,
}

impl View for Policy {
    type V = PolicyView;

    open spec fn view(&self) -> PolicyView {
        PolicyView {
            manager: self.manager@,
            elevation: self.elevation@,
            updates_found_code: self.updates_found_code,
        }
    }
}

/// A command to run: a program and its arguments.
#[derive(Debug, Clone, PartialEq, Eq)]
pub struct Invocation {
    pub program: String,
    pub arguments: Vec<String>,
}

/// An `Invocation` as a mathematical value.
pub struct InvocationView {
    pub program: Seq<char>,
    pub arguments: Seq<Seq<char>>,
}

impl View for Invocation {
    type V = InvocationView;

    open spec fn view(&self) -> InvocationView {
        InvocationView {
            program: self.program@,
            arguments: Seq::new(self.arguments@.len(), |i: int| self.arguments@[i]@),
        }
    }
}

/// The policy for `dnf`, with `pkexec` to elevate: a check that finds
/// updates exits with 100.
pub open spec fn dnf_policy() -> PolicyView {
    PolicyView { manager: "dnf"@, elevation: "pkexec"@, updates_found_code: 100 }
}

/// The command that carries out `action` under `policy`. A check runs the
/// package manager itself, without elevation; an upgrade runs it through
/// the elevation program and tells it to ask nothing.
pub open spec fn invocation_of(policy: PolicyView, action: Action) -> InvocationView {
    match action {
        Action::CheckForUpdates => InvocationView {
            program: policy.manager,
            arguments: seq!["check-update"@],
        },
        Action::PerformUpgrade => InvocationView {
            program: policy.elevation,
            arguments: seq![policy.manager, "upgrade"@, "-y"@],
        },
    }
}

/// A name for what `String::from_utf8_lossy` makes of `bytes`.
pub uninterp spec fn utf8_lossy(bytes: Seq<u8>) -> Seq<char>;

/// `String::from_utf8_lossy` of the standard library, its result as an owned
/// string: the text that `bytes` encode, each malformed stretch replaced by
/// U+FFFD. The contract names the result and says no more of it.
#[verifier::external_body]
fn decode_lossy(bytes: &[u8]) -> (text: String)
    ensures
        text@ == utf8_lossy(bytes@),
{
    String::from_utf8_lossy(bytes).into_owned()
}

impl ExternalCommandResult {
    /// The result of a process as the operating system hands it over, its
    /// output decoded to text.
    pub fn from_raw(success: bool, exit_code: Option<i32>, stdout: &[u8], stderr: &[u8]) -> (result:
        ExternalCommandResult)
        ensures
            result@ == (CommandResultView {
                success,
                stdout: utf8_lossy(stdout@),
                stderr: utf8_lossy(stderr@),
                exit_code,
            }),
    {
        ExternalCommandResult {
            success,
            stdout: decode_lossy(stdout),
            stderr: decode_lossy(stderr),
            exit_code,
        }
    }
}

impl Policy {
    /// The policy for `dnf`, with `pkexec` to elevate.
    pub fn dnf() -> (policy: Policy)
        ensures
            policy@ == dnf_policy(),
    {
        Policy {
            manager: String::from_str("dnf"),
            elevation: String::from_str("pkexec"),
            updates_found_code: 100,
        }
    }

    /// The command that carries out `action`.
    pub fn invocation(&self, action: Action) -> (command: Invocation)
        ensures
            command@ == invocation_of(self@, action),
    {
        match action {
            Action::CheckForUpdates => {
                let mut arguments: Vec<String> = Vec::new();
                arguments.push(String::from_str("check-update"));
                let command = Invocation { program: self.manager.clone(), arguments };
                assert(command@.arguments == invocation_of(self@, action).arguments);
                command
            },
            Action::PerformUpgrade => {
                let mut arguments: Vec<String> = Vec::new();
                arguments.push(self.manager.clone());
                arguments.push(String::from_str("upgrade"));
                arguments.push(String::from_str("-y"));
                let command = Invocation { program: self.elevation.clone(), arguments };
                assert(command@.arguments == invocation_of(self@, action).arguments);
                command
            },
        }
    }
}

/// What a check's exit status says.
#[derive(Debug, Clone, Copy, PartialEq, Eq, Structural)]
pub enum CheckStatus {
    /// Updates are available.
    UpdatesFound,
    /// The check succeeded and found nothing.
    NoUpdates,
    /// The check itself failed.
    Failed,
}

/// What the exit status of `result` says, where the package manager exits
/// with `code` to tell that it found updates.
pub open spec fn check_status(code: i32, result: CommandResultView) -> CheckStatus {
    if result.exit_code == Some(code) {
        CheckStatus::UpdatesFound
    } else if result.success {
        CheckStatus::NoUpdates
    } else {
        CheckStatus::Failed
    }
}

/// The number of rows before the first empty row; `rows.len()` where none
/// is empty.
pub open spec fn first_blank(rows: Seq<Seq<char>>) -> nat
    decreases rows.len(),
{
    if rows.len() == 0 || rows.first().len() == 0 {
        0
    } else {
        1 + first_blank(rows.drop_first())
    }
}

/// `rows` without their header. The header is what stands before the first
/// empty row, together with that row; rows of which none is empty have no
/// header.
pub open spec fn without_header(rows: Seq<Seq<char>>) -> Seq<Seq<char>> {
    let k = first_blank(rows);
    if k >= rows.len() {
        rows
    } else {
        rows.skip(k as int + 1)
    }
}

/// The rows of `rows` that are not empty, in order.
pub open spec fn nonempty(rows: Seq<Seq<char>>) -> Seq<Seq<char>>
    decreases rows.len(),
{
    if rows.len() == 0 {
        Seq::empty()
    } else if rows.last().len() > 0 {
        nonempty(rows.drop_last()).push(rows.last())
    } else {
        nonempty(rows.drop_last())
    }
}

/// `rows` as one text, a line feed before each row.
pub open spec fn listing(rows: Seq<Seq<char>>) -> Seq<char>
    decreases rows.len(),
{
    if rows.len() == 0 {
        Seq::empty()
    } else {
        listing(rows.drop_last()).push('\n') + rows.last()
    }
}

/// The lines of a check's output that each name a package: the lines of the
/// trimmed output, without the header and without empty lines.
pub open spec fn package_lines(stdout: Seq<char>) -> Seq<Seq<char>> {
    nonempty(without_header(lines(trim(stdout))))
}

/// What is shown when a check finds nothing.
pub open spec fn no_packages_message() -> Seq<char> {
    "No packages available"@
}

/// What is shown when the check could not be started.
pub open spec fn check_not_started_message() -> Seq<char> {
    "Failed to fetch updates. Is DNF installed?"@
}

/// What is shown when the upgrade could not be started.
pub open spec fn upgrade_not_started_message() -> Seq<char> {
    "Failed to upgrade packages. Is DNF installed?"@
}

/// The summary of a check that found the packages named by `rows`.
pub open spec fn updates_text(rows: Seq<Seq<char>>) -> Seq<char> {
    if rows.len() == 0 {
        no_packages_message()
    } else {
        decimal(rows.len()) + " packages available for update:"@ + listing(rows)
    }
}

/// The summary of a check that ended with `result`, where the package
/// manager exits with `code` to tell that it found updates.
pub open spec fn check_result_text(code: i32, result: CommandResultView) -> Seq<char> {
    match check_status(code, result) {
        CheckStatus::UpdatesFound => updates_text(package_lines(result.stdout)),
        CheckStatus::NoUpdates => no_packages_message(),
        CheckStatus::Failed => "Failed to fetch updates:\n"@ + result.stderr,
    }
}

/// The summary of a check whose run ended as `outcome` says.
pub open spec fn check_text(code: i32, outcome: OutcomeView) -> Seq<char> {
    match outcome {
        OutcomeView::LaunchFailed => check_not_started_message(),
        OutcomeView::Exited(result) => check_result_text(code, result),
    }
}

/// The message of an upgrade that ended with `result`.
pub open spec fn upgrade_result_text(result: CommandResultView) -> Seq<char> {
    if result.success {
        decimal(nonempty(lines(trim(result.stdout))).len()) + " packages upgraded."@
    } else {
        trim(result.stderr)
    }
}

/// The message of an upgrade whose run ended as `outcome` says.
pub open spec fn upgrade_text(outcome: OutcomeView) -> Seq<char> {
    match outcome {
        OutcomeView::LaunchFailed => upgrade_not_started_message(),
        OutcomeView::Exited(result) => upgrade_result_text(result),
    }
}

/// `first_blank(rows)` is the place of the first empty row of `rows`.
pub proof fn lemma_first_blank(rows: Seq<Seq<char>>, k: int)
    requires
        0 <= k <= rows.len(),
        forall|i: int| 0 <= i < k ==> rows[i].len() > 0,
        k == rows.len() || rows[k].len() == 0,
    ensures
        first_blank(rows) == k,
    decreases k,
{
    if k > 0 {
        lemma_first_blank(rows.drop_first(), k - 1);
    }
}

/// `first_blank(rows)` is a place in `rows` or their number; the row there
/// is empty.
pub proof fn lemma_first_blank_bounds(rows: Seq<Seq<char>>)
    ensures
        first_blank(rows) <= rows.len(),
        first_blank(rows) < rows.len() ==> rows[first_blank(rows) as int].len() == 0,
    decreases rows.len(),
{
    if !(rows.len() == 0 || rows.first().len() == 0) {
        lemma_first_blank_bounds(rows.drop_first());
    }
}

/// A check's output names a package exactly when something is left of it
/// after trimming.
pub proof fn lemma_packages_iff_output(stdout: Seq<char>)
    ensures
        package_lines(stdout).len() > 0 <==> trim(stdout).len() > 0,
{
    let text = trim(stdout);
    let rows = lines(text);
    if text.len() > 0 {
        lemma_trim_end_last(trim_start(stdout));
        lemma_last_line(text);
        lemma_first_blank_bounds(rows);
        let body = without_header(rows);
        assert(body.len() > 0 && body.last() == rows.last());
    }
}

/// Equal results get equal summaries: the summary of a check depends on the
/// exit code that tells of updates and on the outcome, and on nothing else.
pub proof fn lemma_check_text_is_determined(code: i32, first: OutcomeView, second: OutcomeView)
    requires
        first == second,
    ensures
        check_text(code, first) == check_text(code, second),
{
}

/// The place in `rows` at which the rows after the header begin.
pub fn body_start(rows: &Vec<Vec<char>>) -> (from: usize)
    ensures
        from <= rows.len(),
        line_views(rows@).skip(from as int) == without_header(line_views(rows@)),
{
    let ghost all = line_views(rows@);
    let mut k: usize = 0;
    while k < rows.len() && rows[k].len() > 0
        invariant
            k <= rows.len(),
            all == line_views(rows@),
            forall|i: int| 0 <= i < k ==> all[i].len() > 0,
        decreases rows.len() - k,
    {
        k += 1;
    }
    proof {
        lemma_first_blank(all, k as int);
    }
    if k < rows.len() {
        k + 1
    } else {
        assert(all.skip(0) == all);
        0
    }
}

/// Counts the rows of `rows` from place `from` on that are not empty, and
/// lists them.
pub fn list_nonempty(rows: &Vec<Vec<char>>, from: usize) -> (r: (usize, Vec<char>))
    requires
        from <= rows.len(),
    ensures
        r.0 == nonempty(line_views(rows@).skip(from as int)).len(),
        r.1@ == listing(nonempty(line_views(rows@).skip(from as int))),
{
    let ghost body = line_views(rows@).skip(from as int);
    let mut count: usize = 0;
    let mut list: Vec<char> = Vec::new();
    let mut i: usize = from;
    assert(body.take(0) == Seq::<Seq<char>>::empty());
    while i < rows.len()
        invariant
            from <= i <= rows.len(),
            body == line_views(rows@).skip(from as int),
            count <= i - from,
            count == nonempty(body.take(i - from)).len(),
            list@ == listing(nonempty(body.take(i - from))),
        decreases rows.len() - i,
    {
        assert(body.take(i - from + 1).drop_last() == body.take(i - from));
        assert(body.take(i - from + 1).last() == rows@[i as int]@);
        if rows[i].len() > 0 {
            let ghost kept = nonempty(body.take(i - from + 1));
            assert(kept.drop_last() == nonempty(body.take(i - from)));
            count += 1;
            list.push('\n');
            let mut row = copy_range(&rows[i], 0, rows[i].len());
            assert(row@ == rows@[i as int]@);
            list.append(&mut row);
        }
        i += 1;
    }
    assert(body.take(rows.len() - from) == body);
    (count, list)
}

/// The summary of a check that ended with `result`, where the package
/// manager exits with `code` to tell that it found updates.
pub fn classify_check(policy: &Policy, result: &ExternalCommandResult) -> (text: String)
    ensures
        text@ == check_result_text(policy.updates_found_code, result@),
        result.exit_code == Some(policy.updates_found_code) && trim(result.stdout@).len() > 0 ==> {
            let rows = package_lines(result.stdout@);
            &&& rows.len() > 0
            &&& text@ == decimal(rows.len()) + " packages available for update:"@ + listing(rows)
        },
        result.exit_code == Some(policy.updates_found_code) && trim(result.stdout@).len() == 0
            ==> text@ == no_packages_message(),
        result.exit_code != Some(policy.updates_found_code) && result.success ==> text@
            == no_packages_message(),
        result.exit_code != Some(policy.updates_found_code) && !result.success ==> text@
            == "Failed to fetch updates:\n"@ + result.stderr@,
{
    proof {
        lemma_packages_iff_output(result.stdout@);
    }
    if result.exit_code == Some(policy.updates_found_code) {
        let stdout = chars_of(result.stdout.as_str());
        let (from, to) = trim_bounds(&stdout);
        let rows = split_lines(&stdout, from, to);
        let start = body_start(&rows);
        let (count, mut list) = list_nonempty(&rows, start);
        if count == 0 {
            String::from_str("No packages available")
        } else {
            let mut out: Vec<char> = Vec::new();
            push_decimal(&mut out, count);
            let mut words = chars_of(" packages available for update:");
            out.append(&mut words);
            out.append(&mut list);
            string_of(&out)
        }
    } else if result.success {
        String::from_str("No packages available")
    } else {
        let mut text = String::from_str("Failed to fetch updates:\n");
        text.append(result.stderr.as_str());
        text
    }
}

/// The message of an upgrade that ended with `result`.
pub fn classify_upgrade(result: &ExternalCommandResult) -> (text: String)
    ensures
        text@ == upgrade_result_text(result@),
        result.success ==> text@ == decimal(nonempty(lines(trim(result.stdout@))).len())
            + " packages upgraded."@,
        !result.success ==> text@ == trim(result.stderr@),
{
    if result.success {
        let stdout = chars_of(result.stdout.as_str());
        let (from, to) = trim_bounds(&stdout);
        let rows = split_lines(&stdout, from, to);
        assert(line_views(rows@).skip(0) == line_views(rows@));
        let (count, _) = list_nonempty(&rows, 0);
        let mut out: Vec<char> = Vec::new();
        push_decimal(&mut out, count);
        let mut words = chars_of(" packages upgraded.");
        out.append(&mut words);
        string_of(&out)
    } else {
        let stderr = chars_of(result.stderr.as_str());
        let (from, to) = trim_bounds(&stderr);
        string_of(&copy_range(&stderr, from, to))
    }
}

/// The summary of a check whose run ended as `outcome` says.
pub fn check_summary(policy: &Policy, outcome: &Outcome) -> (text: String)
    ensures
        text@ == check_text(policy.updates_found_code, outcome@),
{
    match outcome {
        Outcome::LaunchFailed => String::from_str("Failed to fetch updates. Is DNF installed?"),
        Outcome::Exited(result) => classify_check(policy, result),
    }
}

/// The message of an upgrade whose run ended as `outcome` says.
pub fn upgrade_summary(outcome: &Outcome) -> (text: String)
    ensures
        text@ == upgrade_text(outcome@),
{
    match outcome {
        Outcome::LaunchFailed => String::from_str("Failed to upgrade packages. Is DNF installed?"),
        Outcome::Exited(result) => classify_upgrade(result),
    }
}

/// The event by which the end of `action` comes back to the controller,
/// its run having ended as `outcome` says.
pub open spec fn completion_of(code: i32, action: Action, outcome: OutcomeView) -> EventView {
    match action {
        Action::CheckForUpdates => EventView::CheckCompleted(check_text(code, outcome)),
        Action::PerformUpgrade => EventView::UpgradeCompleted(upgrade_text(outcome)),
    }
}

/// The event by which the end of `action` comes back to the controller,
/// its run having ended as `outcome` says.
pub fn completion(policy: &Policy, action: Action, outcome: &Outcome) -> (event: Event)
    ensures
        event@ == completion_of(policy.updates_found_code, action, outcome@),
{
    match action {
        Action::CheckForUpdates => Event::CheckCompleted(check_summary(policy, outcome)),
        Action::PerformUpgrade => Event::UpgradeCompleted(upgrade_summary(outcome)),
    }
}

} // verus!
