//! Judging one command run against one file, and saying what went wrong.

use crate::arguments::CommandKind;
use crate::world::framed;
use crate::world::WriterWorld;
use bstr::ByteSlice;
use vstd::prelude::*;
use vstd::string::StrSliceExecFns;
use vstd::string::StringExecFns;
use vstd::string::StringSliceAdditionalSpecFns;

verus! {

/// How a process ended: its exit code where it has one, and the
/// platform's own words for it.
#[derive(Debug, Clone, PartialEq, Eq)]
pub struct ExitStatus {
    pub code: Option<i32>,
    pub text: String,
}

impl ExitStatus {
    /// A process succeeded when it exited by itself with code zero.
    pub open spec fn is_success(&self) -> bool {
        self.code == Some(0i32)
    }

    /// Whether the process exited by itself with code zero.
    pub fn success(&self) -> (ok: bool)
        ensures
            ok == self.is_success(),
    {
        match self.code {
            Some(code) => code == 0,
            None => false,
        }
    }
}

/// What a finished process left behind.
#[derive(Debug, Clone, PartialEq, Eq)]
pub struct Output {
    pub status: ExitStatus,
    pub stdout: Vec<u8>,
    pub stderr: Vec<u8>,
}

/// Why one command failed on one file.
#[derive(Debug, Clone, PartialEq, Eq)]
pub enum CheckError {
    /// No command interpreter is known on this machine.
    NoShell(),
    /// Feeding the process or collecting its output failed.
    PipeIoError(String),
    /// The command interpreter could not be started.
    SpawnError(String),
    /// The process did not exit with status zero.
    StatusFailure { status: ExitStatus, command: Vec<u8>, output: Vec<u8> },
    /// The process exited with status zero but did not reproduce its input.
    DiffCheckFailure { command: Vec<u8>, output: Vec<u8> },
}

/// The template with every occurrence of a non-empty needle replaced,
/// scanning from the left and never matching inside a replacement or
/// across the end of an earlier match.
pub open spec fn replaced(hay: Seq<u8>, needle: Seq<u8>, with: Seq<u8>) -> Seq<u8>
    decreases hay.len(),
{
    if needle.len() == 0 || hay.len() < needle.len() {
        hay
    } else if hay.subrange(0, needle.len() as int) == needle {
        with + replaced(hay.skip(needle.len() as int), needle, with)
    } else {
        seq![hay[0]] + replaced(hay.skip(1), needle, with)
    }
}

/// Whether the needle occurs in the haystack at the given offset.
pub open spec fn occurs_at(hay: Seq<u8>, needle: Seq<u8>, at: int) -> bool {
    0 <= at && at + needle.len() <= hay.len() && hay.subrange(at, at + needle.len()) == needle
}

/// `bstr::ByteSlice::replace` on byte slices. Trusted: for a non-empty
/// needle the result is the haystack with each leftmost, non-overlapping
/// occurrence of the needle replaced.
#[verifier::external_body]
fn replace_bytes(hay: &[u8], needle: &[u8], with: &[u8]) -> (out: Vec<u8>)
    requires
        needle@.len() > 0,
    ensures
        out@ == replaced(hay@, needle@, with@),
{
    hay.replace(needle, with)
}

/// Expands a command template for one file: every occurrence of the
/// placeholder becomes the path, byte for byte, with no quoting.
pub fn expand_command_string(command: &[u8], placeholder: &[u8], path: &[u8]) -> (out: Vec<u8>)
    requires
        placeholder@.len() > 0,
    ensures
        out@ == replaced(command@, placeholder@, path@),
{
    replace_bytes(command, placeholder, path)
}

/// A template in which the placeholder does not occur expands to itself,
/// whatever the path.
pub proof fn lemma_expand_without_placeholder(command: Seq<u8>, placeholder: Seq<u8>, path: Seq<u8>)
    requires
        placeholder.len() > 0,
        forall|at: int| !occurs_at(command, placeholder, at),
    ensures
        replaced(command, placeholder, path) == command,
    decreases command.len(),
{
    if command.len() >= placeholder.len() {
        assert(!occurs_at(command, placeholder, 0));
        let rest = command.skip(1);
        assert forall|at: int| !occurs_at(rest, placeholder, at) by {
            if occurs_at(rest, placeholder, at) {
                assert(rest.subrange(at, at + placeholder.len()) == command.subrange(
                    at + 1,
                    at + 1 + placeholder.len(),
                ));
                assert(occurs_at(command, placeholder, at + 1));
            }
        }
        lemma_expand_without_placeholder(rest, placeholder, path);
    }
}

/// A template that is nothing but the placeholder expands to the path.
pub proof fn lemma_expand_placeholder_alone(placeholder: Seq<u8>, path: Seq<u8>)
    requires
        placeholder.len() > 0,
    ensures
        replaced(placeholder, placeholder, path) == path,
{
    assert(placeholder.subrange(0, placeholder.len() as int) == placeholder);
    assert(replaced(placeholder.skip(placeholder.len() as int), placeholder, path)
        == placeholder.skip(placeholder.len() as int));
}

/// Whether two byte strings are the same.
pub fn same_bytes(left: &[u8], right: &[u8]) -> (same: bool)
    ensures
        same == (left@ == right@),
{
    if left.len() != right.len() {
        return false;
    }
    let mut at: usize = 0;
    while at < left.len()
        invariant
            at <= left.len(),
            left.len() == right.len(),
            forall|k: int| 0 <= k < at ==> left@[k] == right@[k],
        decreases left.len() - at,
    {
        if left[at] != right[at] {
            return false;
        }
        at += 1;
    }
    assert(left@ =~= right@);
    true
}

/// The judgement on a finished command: a status other than zero fails
/// whatever the kind; a diff check also fails when the output differs from
/// the content it was fed.
pub open spec fn verdict(
    kind: CommandKind,
    contents: Seq<u8>,
    command: Vec<u8>,
    output: Output,
) -> Result<(), CheckError> {
    if !output.status.is_success() {
        Err(CheckError::StatusFailure { status: output.status, command, output: output.stderr })
    } else if kind == CommandKind::Diff && output.stdout@ != contents {
        Err(CheckError::DiffCheckFailure { command, output: output.stderr })
    } else {
        Ok(())
    }
}

/// Judges a finished command. Of what the process printed only its error
/// stream is kept in a failure.
pub fn run_check(kind: CommandKind, contents: &[u8], command: Vec<u8>, output: Output) -> (res:
    Result<(), CheckError>)
    ensures
        res == verdict(kind, contents@, command, output),
{
    if !output.status.success() {
        return Err(
            CheckError::StatusFailure { status: output.status, command, output: output.stderr },
        );
    }
    match kind {
        CommandKind::Diff => {
            if !same_bytes(output.stdout.as_slice(), contents) {
                return Err(CheckError::DiffCheckFailure { command, output: output.stderr });
            }
            Ok(())
        },
        CommandKind::Status => Ok(()),
    }
}

/// A status check passes on every content once the process has exited
/// with status zero, whatever it printed.
pub proof fn lemma_status_zero_passes(contents: Seq<u8>, command: Vec<u8>, output: Output)
    requires
        output.status.is_success(),
    ensures
        verdict(CommandKind::Status, contents, command, output) == Ok::<(), CheckError>(()),
{
}

/// A diff check on a process that exited with status zero passes when the
/// process printed the content unchanged, and fails as a mismatch, keeping
/// the error stream, when it printed anything else.
pub proof fn lemma_diff_passes_iff_output_unchanged(
    contents: Seq<u8>,
    command: Vec<u8>,
    output: Output,
)
    requires
        output.status.is_success(),
    ensures
        output.stdout@ == contents ==> verdict(CommandKind::Diff, contents, command, output) == Ok::<
            (),
            CheckError,
        >(()),
        output.stdout@ != contents ==> verdict(CommandKind::Diff, contents, command, output) == Err::<
            (),
            CheckError,
        >(CheckError::DiffCheckFailure { command, output: output.stderr }),
{
}

/// A status other than zero fails the check whatever its kind and whatever
/// was printed.
pub proof fn lemma_nonzero_status_fails(
    kind: CommandKind,
    contents: Seq<u8>,
    command: Vec<u8>,
    output: Output,
)
    requires
        !output.status.is_success(),
    ensures
        verdict(kind, contents, command, output) == Err::<(), CheckError>(
            CheckError::StatusFailure { status: output.status, command, output: output.stderr },
        ),
{
}

/// Whether the output stream of a command is collected: only a diff check
/// reads it.
pub fn captures_stdout(kind: CommandKind) -> (captured: bool)
    ensures
        captured == (kind == CommandKind::Diff),
{
    match kind {
        CommandKind::Diff => true,
        CommandKind::Status => false,
    }
}

/// What running a command came to, from the two halves that ran side by
/// side: feeding the input and collecting the output. A failure to collect
/// is reported before a failure to feed.
pub open spec fn gathered(fed: Result<(), String>, collected: Result<Output, String>) -> Result<
    Output,
    CheckError,
> {
    match collected {
        Err(cause) => Err(CheckError::PipeIoError(cause)),
        Ok(output) => match fed {
            Err(cause) => Err(CheckError::PipeIoError(cause)),
            Ok(()) => Ok(output),
        },
    }
}

/// Joins the results of feeding a process and of collecting its output.
pub fn run_command(fed: Result<(), String>, collected: Result<Output, String>) -> (res: Result<
    Output,
    CheckError,
>)
    ensures
        res == gathered(fed, collected),
{
    match collected {
        Err(cause) => Err(CheckError::PipeIoError(cause)),
        Ok(output) => match fed {
            Err(cause) => Err(CheckError::PipeIoError(cause)),
            Ok(()) => Ok(output),
        },
    }
}

/// The interpreter a command string is handed to, and the flag that makes
/// it run a string.
#[derive(Debug, Clone, PartialEq, Eq)]
pub struct Shell {
    pub program: Vec<u8>,
    pub flag: Vec<u8>,
}

/// The interpreter for a platform. Elsewhere than on Windows it is
/// `/bin/sh`. On Windows the configured interpreter comes first, then the
/// one that ships with the system, and without either there is none.
pub open spec fn shell_program(
    windows: bool,
    configured: Option<Vec<u8>>,
    system: Option<Vec<u8>>,
) -> Option<Seq<u8>> {
    if !windows {
        Some("/bin/sh".spec_bytes())
    } else {
        match configured {
            Some(program) => Some(program@),
            None => match system {
                Some(program) => Some(program@),
                None => None,
            },
        }
    }
}

/// The flag with which the interpreter of a platform runs a string.
pub open spec fn shell_flag(windows: bool) -> Seq<u8> {
    if windows {
        "/c".spec_bytes()
    } else {
        "-c".spec_bytes()
    }
}

/// Picks the interpreter that runs the commands.
pub fn shell(windows: bool, configured: Option<Vec<u8>>, system: Option<Vec<u8>>) -> (res: Result<
    Shell,
    CheckError,
>)
    ensures
        match res {
            Ok(shell) => shell_program(windows, configured, system) == Some(shell.program@)
                && shell.flag@ == shell_flag(windows),
            Err(error) => shell_program(windows, configured, system).is_none() && error
                == CheckError::NoShell(),
        },
{
    if windows {
        let program = match configured {
            Some(program) => program,
            None => match system {
                Some(program) => program,
                None => {
                    return Err(CheckError::NoShell());
                },
            },
        };
        Ok(Shell { program, flag: "/c".as_bytes_vec() })
    } else {
        Ok(Shell { program: "/bin/sh".as_bytes_vec(), flag: "-c".as_bytes_vec() })
    }
}

/// Bytes read as text, with whatever is not valid UTF-8 replaced as
/// `String::from_utf8_lossy` replaces it.
pub uninterp spec fn lossy_text(bytes: Seq<u8>) -> Seq<char>;

/// `String::from_utf8_lossy`, made into an owned string. Trusted: the
/// result depends on the bytes alone.
#[verifier::external_body]
pub(crate) fn to_text_lossy(bytes: &[u8]) -> (text: String)
    ensures
        text@ == lossy_text(bytes@),
{
    String::from_utf8_lossy(bytes).into_owned()
}

/// A path as the standard library's `Debug` shows it: quoted and escaped.
pub uninterp spec fn quoted_path(path: Seq<u8>) -> Seq<char>;

/// `bstr::ByteSlice::to_path_lossy`, shown with `Debug`. Trusted: the
/// result depends on the bytes alone.
#[verifier::external_body]
pub(crate) fn quote_path(path: &[u8]) -> (text: String)
    ensures
        text@ == quoted_path(path@),
{
    format!("{:?}", path.to_path_lossy())
}

impl CheckError {
    /// The one line that says what went wrong, with the command that
    /// failed between backquotes.
    pub open spec fn message(&self) -> Seq<char> {
        match self {
            CheckError::NoShell() => "could not find a valid shell to execute command with"@,
            CheckError::PipeIoError(cause) => "writing to/from a child process failed ("@ + cause@
                + ")"@,
            CheckError::SpawnError(cause) => "spawning a child process failed ("@ + cause@ + ")"@,
            CheckError::StatusFailure { status, command, output } => "command failed `"@
                + lossy_text(command@) + "` ("@ + status.text@ + ")"@,
            CheckError::DiffCheckFailure { command, output } =>
                "command output did not match expected source `"@ + lossy_text(command@) + "`"@,
        }
    }

    /// What the process wrote to its error stream, where the failure
    /// keeps it.
    pub open spec fn captured(&self) -> Seq<u8> {
        match self {
            CheckError::StatusFailure { status, command, output } => output@,
            CheckError::DiffCheckFailure { command, output } => output@,
            _ => Seq::empty(),
        }
    }

    /// What a failure adds to the diagnostic stream: its message as a
    /// cause line, then the captured error stream as it is.
    pub open spec fn report(&self) -> Seq<u8> {
        framed("\x1b[0;33m > ", self.message()) + self.captured()
    }

    /// Says in one line what went wrong.
    pub fn error_message(&self) -> (text: String)
        ensures
            text@ == self.message(),
    {
        match self {
            CheckError::NoShell() => String::from_str(
                "could not find a valid shell to execute command with",
            ),
            CheckError::PipeIoError(cause) => {
                let mut text = String::from_str("writing to/from a child process failed (");
                text.append(cause.as_str());
                text.append(")");
                text
            },
            CheckError::SpawnError(cause) => {
                let mut text = String::from_str("spawning a child process failed (");
                text.append(cause.as_str());
                text.append(")");
                text
            },
            CheckError::StatusFailure { status, command, output } => {
                let mut text = String::from_str("command failed `");
                let shown = to_text_lossy(command.as_slice());
                text.append(shown.as_str());
                text.append("` (");
                text.append(status.text.as_str());
                text.append(")");
                text
            },
            CheckError::DiffCheckFailure { command, output } => {
                let mut text = String::from_str("command output did not match expected source `");
                let shown = to_text_lossy(command.as_slice());
                text.append(shown.as_str());
                text.append("`");
                text
            },
        }
    }

    /// Writes the failure to the diagnostic stream: the cause, then the
    /// captured error stream unless it is empty.
    pub fn write_error_message(&self, world: &mut WriterWorld)
        ensures
            final(world).err() == old(world).err() + self.report(),
            final(world).out() == old(world).out(),
    {
        let text = self.error_message();
        world.check_failed_info(text.as_str());
        match self {
            CheckError::StatusFailure { status, command, output } => {
                if output.len() > 0 {
                    world.stderr_raw_bytes(output.as_slice());
                }
            },
            CheckError::DiffCheckFailure { command, output } => {
                if output.len() > 0 {
                    world.stderr_raw_bytes(output.as_slice());
                }
            },
            _ => {},
        }
    }
}

/// The failures among the outcomes of a file's commands, in the order in
/// which the commands finished.
pub open spec fn failures_of(outcomes: Seq<Result<(), CheckError>>) -> Seq<CheckError>
    decreases outcomes.len(),
{
    if outcomes.len() == 0 {
        Seq::empty()
    } else {
        let earlier = failures_of(outcomes.drop_last());
        match outcomes.last() {
            Ok(_) => earlier,
            Err(error) => earlier.push(error),
        }
    }
}

/// What a list of failures adds to the diagnostic stream, one after the
/// other.
pub open spec fn causes(errors: Seq<CheckError>) -> Seq<u8>
    decreases errors.len(),
{
    if errors.len() == 0 {
        Seq::empty()
    } else {
        causes(errors.drop_last()) + errors.last().report()
    }
}

/// The line that opens the report on a failed file.
pub open spec fn failure_header(path: Seq<u8>) -> Seq<u8> {
    framed("\x1b[0;31m", "check(s) failed for path "@ + quoted_path(path))
}

/// The report on a failed file: the path once, each failure in turn, and
/// an empty line.
pub open spec fn failure_report(path: Seq<u8>, errors: Seq<CheckError>) -> Seq<u8> {
    failure_header(path) + causes(errors) + seq![10u8]
}

/// What the outcomes of a file's commands add to the diagnostic stream:
/// nothing when every command passed.
pub open spec fn file_report(path: Seq<u8>, outcomes: Seq<Result<(), CheckError>>) -> Seq<u8> {
    if failures_of(outcomes).len() == 0 {
        Seq::empty()
    } else {
        failure_report(path, failures_of(outcomes))
    }
}

/// A file passes when none of its commands failed.
pub open spec fn file_passes(outcomes: Seq<Result<(), CheckError>>) -> bool {
    failures_of(outcomes).len() == 0
}

/// What is run against every file: the commands, and the placeholder that
/// stands for the file's path in them.
pub struct Processor {
    placeholder: Vec<u8>,
    commands: Vec<(Vec<u8>, CommandKind)>,
}

impl Processor {
    /// The placeholder.
    pub closed spec fn placeholder(&self) -> Seq<u8> {
        self.placeholder@
    }

    /// The commands, each a template with its kind, as configured.
    pub closed spec fn commands(&self) -> Seq<(Vec<u8>, CommandKind)> {
        self.commands@
    }

    /// The placeholder is not empty.
    pub open spec fn wf(&self) -> bool {
        self.placeholder().len() > 0
    }

    /// A processor for the given commands.
    pub fn new(placeholder: Vec<u8>, commands: Vec<(Vec<u8>, CommandKind)>) -> (processor: Self)
        requires
            placeholder@.len() > 0,
        ensures
            processor.wf(),
            processor.placeholder() == placeholder@,
            processor.commands() == commands@,
    {
        Processor { placeholder, commands }
    }

    /// How many commands run against each file.
    pub fn command_count(&self) -> (count: usize)
        ensures
            count == self.commands().len(),
    {
        self.commands.len()
    }

    /// The kind of the command at `index`.
    pub fn kind(&self, index: usize) -> (kind: CommandKind)
        requires
            index < self.commands().len(),
        ensures
            kind == self.commands()[index as int].1,
    {
        self.commands[index].1
    }

    /// The command at `index` as it is run for the file at `path`.
    pub fn command_for(&self, index: usize, path: &[u8]) -> (command: Vec<u8>)
        requires
            self.wf(),
            index < self.commands().len(),
        ensures
            command@ == replaced(self.commands()[index as int].0@, self.placeholder(), path@),
    {
        expand_command_string(self.commands[index].0.as_slice(), self.placeholder.as_slice(), path)
    }

    /// Sums up one file from the outcomes of its commands, given in the
    /// order in which they finished. A file with a failure is reported on
    /// the diagnostic stream; one without leaves both streams alone.
    pub fn process(
        &self,
        path: &[u8],
        outcomes: &Vec<Result<(), CheckError>>,
        world: &mut WriterWorld,
    ) -> (passed: bool)
        ensures
            passed == file_passes(outcomes@),
            final(world).err() == old(world).err() + file_report(path@, outcomes@),
            final(world).out() == old(world).out(),
    {
        let mut failed = false;
        let mut at: usize = 0;
        while at < outcomes.len()
            invariant
                at <= outcomes.len(),
                failed == (failures_of(outcomes@.take(at as int)).len() > 0),
            decreases outcomes.len() - at,
        {
            assert(outcomes@.take(at + 1).drop_last() == outcomes@.take(at as int));
            if outcomes[at].is_err() {
                failed = true;
            }
            at += 1;
        }
        assert(outcomes@.take(at as int) == outcomes@);
        if !failed {
            return true;
        }
        let mut header = String::from_str("check(s) failed for path ");
        let shown = quote_path(path);
        header.append(shown.as_str());
        world.check_failed(header.as_str());
        let mut at: usize = 0;
        while at < outcomes.len()
            invariant
                at <= outcomes.len(),
                world.err() == old(world).err() + failure_header(path@) + causes(
                    failures_of(outcomes@.take(at as int)),
                ),
                world.out() == old(world).out(),
            decreases outcomes.len() - at,
        {
            assert(outcomes@.take(at + 1).drop_last() == outcomes@.take(at as int));
            let ghost before = failures_of(outcomes@.take(at as int));
            match &outcomes[at] {
                Ok(_) => {},
                Err(error) => {
                    error.write_error_message(world);
                    assert(before.push(*error).drop_last() == before);
                },
            }
            at += 1;
        }
        let newline: [u8; 1] = [10];
        world.stderr_raw_bytes(newline.as_slice());
        false
    }
}

proof fn lemma_cause_within(errors: Seq<CheckError>, at: int) -> (around: (Seq<u8>, Seq<u8>))
    requires
        0 <= at < errors.len(),
    ensures
        causes(errors) == around.0 + errors[at].report() + around.1,
    decreases errors.len(),
{
    if at == errors.len() - 1 {
        let around = (causes(errors.drop_last()), Seq::<u8>::empty());
        around
    } else {
        let inner = lemma_cause_within(errors.drop_last(), at);
        let around = (inner.0, inner.1 + errors.last().report());
        around
    }
}

proof fn lemma_failure_kept(outcomes: Seq<Result<(), CheckError>>, at: int, error: CheckError) -> (kept:
    int)
    requires
        0 <= at < outcomes.len(),
        outcomes[at] == Err::<(), CheckError>(error),
    ensures
        0 <= kept < failures_of(outcomes).len(),
        failures_of(outcomes)[kept] == error,
    decreases outcomes.len(),
{
    let earlier = failures_of(outcomes.drop_last());
    if at == outcomes.len() - 1 {
        earlier.len() as int
    } else {
        let kept = lemma_failure_kept(outcomes.drop_last(), at, error);
        kept
    }
}

/// Every command that failed on a file is in the report on the file: the
/// report holds, whole and in one piece, what that failure writes.
pub proof fn lemma_report_holds_every_failure(
    path: Seq<u8>,
    outcomes: Seq<Result<(), CheckError>>,
    at: int,
    error: CheckError,
)
    requires
        0 <= at < outcomes.len(),
        outcomes[at] == Err::<(), CheckError>(error),
    ensures
        !file_passes(outcomes),
        exists|before: Seq<u8>, after: Seq<u8>|
            file_report(path, outcomes) == before + error.report() + after,
{
    let kept = lemma_failure_kept(outcomes, at, error);
    let around = lemma_cause_within(failures_of(outcomes), kept);
    let before = failure_header(path) + around.0;
    let after = around.1 + seq![10u8];
    assert(file_report(path, outcomes) =~= before + error.report() + after);
}

/// A file whose commands all passed leaves the diagnostic stream alone.
pub proof fn lemma_passing_file_is_silent(path: Seq<u8>, outcomes: Seq<Result<(), CheckError>>)
    requires
        forall|at: int| 0 <= at < outcomes.len() ==> outcomes[at].is_ok(),
    ensures
        file_passes(outcomes),
        file_report(path, outcomes) == Seq::<u8>::empty(),
    decreases outcomes.len(),
{
    if outcomes.len() > 0 {
        assert(forall|at: int|
            0 <= at < outcomes.drop_last().len() ==> outcomes.drop_last()[at] == outcomes[at]);
        lemma_passing_file_is_silent(path, outcomes.drop_last());
    }
}

} // verus!
