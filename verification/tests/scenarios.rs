//! Whole runs, from the command line to the exit status, against a
//! repository and a shell that live in memory.

use git2::Delta;
use precommit::arguments::parse_args;
use precommit::arguments::Action;
use precommit::check::captures_stdout;
use precommit::check::run_check as judge;
use precommit::check::run_command;
use precommit::check::shell;
use precommit::check::ExitStatus;
use precommit::check::Output;
use precommit::repo::FileDelta;
use precommit::repo::Object;
use precommit::repo::Repo;
use precommit::run::list_files;
use precommit::run::run;
use precommit::run::run_check;
use precommit::Error;
use precommit::WriterWorld;

const LOG: &str = "\"/work\"/output.log";

struct Expectations {
    code: i32,
    stdout: Vec<u8>,
    stderr: Vec<u8>,
}

fn contains(haystack: &[u8], needle: &[u8]) -> bool {
    haystack.windows(needle.len()).any(|window| window == needle)
}

impl Expectations {
    fn is_failure(&self, status_code: i32) -> &Self {
        assert_eq!(self.code, status_code);
        self
    }

    fn is_success(&self) -> &Self {
        assert_eq!(self.code, 0);
        self
    }

    fn stdout_equals(&self, stdout: &[u8]) -> &Self {
        assert_eq!(self.stdout, stdout);
        self
    }

    fn stderr_equals(&self, stderr: &[u8]) -> &Self {
        assert_eq!(self.stderr, stderr);
        self
    }

    fn stderr_contains(&self, stderr: &str) -> &Self {
        assert!(contains(&self.stderr, stderr.as_bytes()));
        self
    }

    fn stderr_not_contains(&self, stderr: &str) -> &Self {
        assert!(!contains(&self.stderr, stderr.as_bytes()));
        self
    }
}

/// A working directory with an index, and the one file that the commands
/// of these tests write to.
struct Dir {
    repository: bool,
    below: String,
    working: Vec<(String, String)>,
    staged: Vec<(String, String)>,
    committed: Vec<(String, String)>,
    log: String,
}

fn dir() -> Dir {
    Dir { repository: false, below: String::new(), working: Vec::new(), staged: Vec::new(), committed: Vec::new(), log: String::new() }
}

impl Dir {
    fn git_init(&mut self) {
        self.repository = true;
    }

    /// Writes a file in the working directory.
    fn file(&mut self, path: &str, contents: &str) {
        self.working.retain(|(known, _)| known != path);
        self.working.push((path.to_string(), contents.to_string()));
    }

    /// Adds a file to the index as it is in the working directory.
    fn git_add(&mut self, path: &str) {
        let (_, contents) =
            self.working.iter().find(|(known, _)| known == path).expect("the file exists").clone();
        self.staged.retain(|(known, _)| known != path);
        self.staged.push((path.to_string(), contents));
    }

    /// Moves to a directory below the working directory.
    fn subdir(&mut self, path: &str) -> &mut Self {
        self.below = path.to_string();
        self
    }

    fn git_commit(&mut self) {
        self.committed = self.staged.clone();
    }

    fn read_log(&self) -> String {
        self.log.clone()
    }

    /// Where the working directory lies.
    fn path(&self) -> &'static str {
        "/work"
    }

    /// The differences between the last commit and the index, as the
    /// repository reports them, sorted by path, and the objects behind
    /// them.
    fn deltas(&self) -> (Vec<FileDelta>, Vec<Object>) {
        let mut staged = self.staged.clone();
        staged.sort();
        let mut deltas = Vec::new();
        let mut objects = Vec::new();
        for (at, (path, contents)) in staged.iter().enumerate() {
            let before = self.committed.iter().find(|(known, _)| known == path);
            let status = match before {
                None => Delta::Added,
                Some((_, old)) if old != contents => Delta::Modified,
                Some(_) => continue,
            };
            let id = format!("{:040x}", at + 1);
            deltas.push(FileDelta { status, path: Some(path.as_bytes().to_vec()), id: id.clone() });
            objects.push(Object { id, contents: Ok(contents.as_bytes().to_vec()) });
        }
        (deltas, objects)
    }

    /// A shell that knows the commands of these tests, started in the
    /// given directory.
    fn sh(&mut self, cwd: &[u8], command: &str, stdin: &[u8], captured: bool) -> Output {
        let cwd = String::from_utf8(cwd.to_vec()).unwrap();
        let cwd = if cwd.len() > 1 { cwd.trim_end_matches('/') } else { cwd.as_str() };
        let mut stdout = Vec::new();
        let mut stderr = Vec::new();
        let mut code = 0;
        for part in command.split(';') {
            let part = part.trim();
            let (part, to_stderr) = match part.strip_prefix(">&2 ") {
                Some(rest) => (rest, true),
                None => (part, false),
            };
            let (part, target) = match part.split_once(" >> ") {
                Some((left, file)) => (left, Some((file, true))),
                None => match part.split_once(" > ") {
                    Some((left, file)) => (left, Some((file, false))),
                    None => (part, None),
                },
            };
            let mut printed = Vec::new();
            if part == "false" {
                code = 1;
            } else if part == "exit 0" {
                code = 0;
            } else if part == "exit 1" {
                code = 1;
            } else if part == "cat" {
                printed.extend_from_slice(stdin);
            } else if let Some(file) = part.strip_prefix("tee ") {
                assert_eq!(file, LOG);
                self.log = String::from_utf8(stdin.to_vec()).unwrap();
                printed.extend_from_slice(stdin);
            } else if let Some(words) = part.strip_prefix("echo ") {
                let words = if words == "$PWD" { cwd } else { words.trim_matches('\'') };
                printed.extend_from_slice(words.as_bytes());
                printed.push(b'\n');
            } else {
                panic!("the shell of these tests does not know {:?}", part);
            }
            match target {
                Some((file, appends)) => {
                    assert_eq!(file, LOG);
                    if !appends {
                        self.log.clear();
                    }
                    self.log.push_str(&String::from_utf8(printed).unwrap());
                },
                None if to_stderr => stderr.extend_from_slice(&printed),
                None => stdout.extend_from_slice(&printed),
            }
        }
        if !captured {
            stdout.clear();
        }
        Output {
            status: ExitStatus { code: Some(code), text: format!("exit status: {}", code) },
            stdout,
            stderr,
        }
    }

    fn try_run(&mut self, action: Action, world: &mut WriterWorld) -> Result<(), Error> {
        if !self.repository {
            return Err(Error::Git {
                message: "could not find repository".to_string(),
                code: "NotFound".to_string(),
                class: "Repository".to_string(),
            });
        }
        let here = format!("/work/{}", self.below);
        let root = here.strip_suffix(self.below.as_str()).expect("the repository lies above");
        let (deltas, objects) = self.deltas();
        let repo = Repo::new(Some(root.as_bytes().to_vec()), deltas, objects);
        match action {
            Action::ListFiles(()) => {
                let changed = repo.fetch_changed_paths(world);
                list_files(&changed, world);
                Ok(())
            },
            Action::Check(check) => {
                let mut run = run_check(check, &repo, world)?;
                let cwd = repo.root_dir()?.clone();
                while !run.is_done() {
                    let at = run.start_next().expect("a slot is free while nothing runs");
                    let path = run.file(at).path.clone();
                    let contents = run.file(at).contents.clone();
                    for index in 0..run.commands().command_count() {
                        let kind = run.commands().kind(index);
                        let command = run.commands().command_for(index, &path);
                        let outcome = match shell(false, None, None) {
                            Err(error) => Err(error),
                            Ok(shell) => {
                                assert_eq!(shell.program, b"/bin/sh");
                                assert_eq!(shell.flag, b"-c");
                                let text = String::from_utf8(command.clone()).unwrap();
                                let output =
                                    self.sh(&cwd, &text, &contents, captures_stdout(kind));
                                match run_command(Ok(()), Ok(output)) {
                                    Ok(output) => judge(kind, &contents, command, output),
                                    Err(error) => Err(error),
                                }
                            },
                        };
                        run.check_finished(at, outcome, world);
                    }
                }
                run.result().into_result()
            },
        }
    }

    fn exec_self(&mut self, args: &[&str]) -> Expectations {
        let mut line = vec![b"precommit".to_vec()];
        line.extend(args.iter().map(|arg| arg.as_bytes().to_vec()));
        let action = parse_args(line, 4).expect("the command line is in order");
        let mut world = WriterWorld::new(Vec::new(), Vec::new());
        let outcome = self.try_run(action, &mut world);
        let code = run(outcome, &mut world);
        let (stdout, stderr) = world.outputs();
        Expectations { code, stdout, stderr }
    }
}

#[test]
fn check_diffs_command_output_against_existing_contents() {
    let mut dir = dir();
    dir.git_init();
    dir.file("test", "contents");
    dir.git_add("test");

    let command = format!("tee {}", LOG);
    dir.exec_self(&["check", "-d", &command]).is_success();

    assert_eq!(dir.read_log(), "contents");
}

#[test]
fn check_diffs_errors_if_diff_is_not_identical() {
    let mut dir = dir();
    dir.git_init();
    dir.file("test.txt", "contents");
    dir.git_add("test.txt");

    dir.exec_self(&["check", "-d", "echo 'hello'"]).is_failure(1).stderr_contains("test.txt");
}

#[test]
fn diff_commands_can_emit_to_stderr_without_failing() {
    let mut dir = dir();
    dir.git_init();
    dir.file("test.txt", "contents");
    dir.git_add("test.txt");

    dir.exec_self(&["check", "-d", "cat; >&2 echo 'this is spurious text'"]).is_success();
}

#[test]
fn diff_commands_fail_if_the_command_returns_nonzero() {
    let mut dir = dir();
    dir.git_init();
    dir.file("test.txt", "contents");
    dir.git_add("test.txt");

    dir.exec_self(&["check", "-d", "false"]).is_failure(1).stderr_contains("exit status: 1");
}

#[test]
fn check_passes_file_contents_to_file_stdin() {
    let mut dir = dir();
    dir.git_init();
    dir.file("test", "contents");
    dir.git_add("test");

    let command = format!("cat > {}", LOG);
    dir.exec_self(&["check", "-s", &command]).is_success();

    assert_eq!(dir.read_log(), "contents");
}

#[test]
fn check_ignores_files_that_are_not_in_index() {
    let mut dir = dir();
    dir.git_init();
    dir.file("added", "contents of added file\n");
    dir.git_add("added");
    dir.file("dirty", "this contents is not present\n");

    let command = format!("cat >> {}", LOG);
    dir.exec_self(&["check", "-s", &command]).is_success();

    assert_eq!(dir.read_log(), "contents of added file\n");
}

#[test]
fn check_passes_contents_of_file_as_seen_in_index() {
    let mut dir = dir();
    dir.git_init();
    dir.file("file", "contents as seen in the index\n");
    dir.git_add("file");
    dir.file("file", "changed in working directory\n");

    let command = format!("cat >> {}", LOG);
    dir.exec_self(&["check", "-s", &command]).is_success();

    assert_eq!(dir.read_log(), "contents as seen in the index\n");
}

#[test]
fn check_raises_an_error_if_no_repository_exists() {
    let mut dir = dir();

    dir.exec_self(&["check"]).is_failure(50).stdout_equals(b"");
}

#[test]
fn check_does_nothing_if_no_files_are_to_be_added() {
    let mut dir = dir();
    dir.git_init();

    dir.exec_self(&["check", "-s", "false"]).is_success().stdout_equals(b"");
}

#[test]
fn check_runs_check_command_for_each_file_to_be_added() {
    let mut dir = dir();
    dir.git_init();
    dir.file("test1", "contents1");
    dir.git_add("test1");
    dir.file("test2", "contents2");
    dir.git_add("test2");

    let command = format!("echo 'check run' >> {}", LOG);
    dir.exec_self(&["check", "-s", &command]).is_success();

    assert_eq!(dir.read_log(), "check run\ncheck run\n");
}

#[test]
fn check_runs_check_command_in_working_directory_of_git_folder() {
    let mut dir = dir();
    dir.git_init();
    dir.file("test", "contents");
    dir.git_add("test");

    let command = format!("echo $PWD > {}", LOG);
    dir.exec_self(&["check", "-s", &command]).is_success();

    assert_eq!(dir.read_log(), format!("{}\n", dir.path()));
}

#[test]
fn finds_correct_git_folder_when_run_in_subfolder_of_working_directory() {
    let mut dir = dir();
    dir.git_init();
    dir.file("test", "contents");
    dir.git_add("test");

    let command = format!("echo $PWD > {}", LOG);
    dir.subdir("subdirectory").exec_self(&["check", "-s", &command]).is_success();

    assert_eq!(dir.read_log(), format!("{}\n", dir.path()));
}

#[test]
fn passes_the_correct_file_name_to_the_command_being_run() {
    let mut dir = dir();
    dir.git_init();
    dir.file("test", "contents");
    dir.git_add("test");
    dir.file("subdirectory/test", "contents");
    dir.git_add("subdirectory/test");

    let command = format!("echo {{}} >> {}", LOG);
    dir.subdir("subdirectory").exec_self(&["check", "-s", &command]).is_success();

    let result = dir.read_log();
    let mut lines: Vec<&str> = result.lines().collect();
    lines.sort();
    assert_eq!(lines, vec!["subdirectory/test", "test"]);
}

#[test]
fn the_command_name_replacement_string_can_be_changed_using_a_flag() {
    let mut dir = dir();
    dir.git_init();
    dir.file("test", "contents");
    dir.git_add("test");

    let command = format!("echo flamingo >> {}", LOG);
    dir.subdir("subdirectory").exec_self(&["check", "-Iflamingo", "-s", &command]).is_success();

    assert_eq!(dir.read_log(), "test\n");
}

#[test]
fn if_the_command_fails_the_command_output_is_shown_and_the_command_fails() {
    let mut dir = dir();
    dir.git_init();
    dir.file("test", "contents");
    dir.git_add("test");

    dir.subdir("subdirectory").exec_self(&["check", "-s", ">&2 echo 'print this message'; false"])
        .is_failure(1)
        .stderr_contains("exit status: 1")
        .stderr_contains("print this message");
}

#[test]
fn if_multiple_commands_fail_all_the_command_outputs_are_shown() {
    let mut dir = dir();
    dir.git_init();
    dir.file("test", "contents");
    dir.git_add("test");

    dir.subdir("subdirectory").exec_self(&[
        "check",
        "-s",
        ">&2 echo 'message 1'; false",
        "-s",
        ">&2 echo 'message 2'; false",
    ])
    .is_failure(1)
    .stderr_contains("message 1")
    .stderr_contains("message 2");
}

#[test]
fn if_multiple_files_fail_all_the_command_outputs_are_shown() {
    let mut dir = dir();
    dir.git_init();
    dir.file("test1", "contents");
    dir.git_add("test1");
    dir.file("test2", "contents");
    dir.git_add("test2");

    dir.subdir("subdirectory").exec_self(&["check", "-s", ">&2 echo 'error in file {}'; false"])
        .is_failure(1)
        .stderr_contains("error in file test1")
        .stderr_contains("error in file test2");
}

#[test]
fn what_a_command_prints_to_its_output_is_not_shown() {
    let mut dir = dir();
    dir.git_init();
    dir.file("test", "contents of the file");
    dir.git_add("test");

    dir.subdir("subdirectory")
        .exec_self(&["check", "-d", "cat; false", "-s", "echo 'print to stdout'; exit 1"])
        .is_failure(1)
        .stderr_contains("`cat; false` (exit status: 1)")
        .stderr_not_contains("contents of the file")
        .stderr_not_contains("print to stdout\n");
}

#[test]
fn check_status_is_fed_the_file_in_the_index() {
    let mut dir = dir();
    dir.git_init();
    dir.file("test", "contents");
    dir.git_add("test");

    let command = format!("cat > {}", LOG);
    dir.exec_self(&["check", "-s", &command]).is_success();

    assert_eq!(dir.read_log(), "contents");
}

#[test]
fn listing_contents_of_a_non_git_project_produces_an_error() {
    let mut dir = dir();

    dir.exec_self(&["list"]).is_failure(50).stdout_equals(b"");
}

#[test]
fn listing_contents_of_an_empty_project_produces_no_output() {
    let mut dir = dir();
    dir.git_init();

    dir.exec_self(&["list"]).is_success().stdout_equals(b"").stderr_equals(b"");
}

#[test]
fn listing_contents_of_a_project_with_no_commits_and_unstaged_files_produces_no_output() {
    let mut dir = dir();
    dir.git_init();
    dir.file("test", "assorted file contents");

    dir.exec_self(&["list"]).is_success().stdout_equals(b"");
}

#[test]
fn listing_contents_of_a_project_with_no_commits_and_staged_files_lists_only_staged_files() {
    let mut dir = dir();
    dir.git_init();
    dir.file("test", "assorted file contents");
    dir.file("test2", "other file contents");
    dir.git_add("test");

    dir.exec_self(&["list"]).is_success().stdout_equals(b"test\n");
}

#[test]
fn lists_all_files_even_from_files_in_deep_folders() {
    let mut dir = dir();
    dir.git_init();
    dir.file("nested/deep/within/test", "assorted file contents");
    dir.git_add("nested/deep/within/test");
    dir.file("nested/deep/within/test2", "other file contents");
    dir.git_add("nested/deep/within/test2");

    dir.exec_self(&["list"])
        .is_success()
        .stdout_equals(b"nested/deep/within/test\nnested/deep/within/test2\n");
}

#[test]
fn files_added_before_a_commit_are_not_listed() {
    let mut dir = dir();
    dir.git_init();
    dir.file("test", "assorted file contents");
    dir.git_add("test");
    dir.file("test2", "other file contents");
    dir.git_add("test2");
    dir.git_commit();

    dir.exec_self(&["list"]).is_success().stdout_equals(b"");
}

#[test]
fn files_added_after_a_commit_are_listed() {
    let mut dir = dir();
    dir.git_init();
    dir.git_commit();
    dir.file("test", "assorted file contents");
    dir.git_add("test");
    dir.file("test2", "other file contents");
    dir.git_add("test2");

    dir.exec_self(&["list"]).is_success().stdout_equals(b"test\ntest2\n");
}
