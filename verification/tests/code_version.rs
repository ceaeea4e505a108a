use devimint::code_version::CodeVersion;
use devimint::code_version::GitRun;
use devimint::code_version::RunGit;
use devimint::code_version::set_code_version_inner;
use devimint::set_code_version;

const RERUN_ENV: &str = "cargo:rerun-if-env-changed=FEDIMINT_BUILD_FORCE_GIT_HASH";

fn exited(success: bool, stdout: &[u8], stderr: &[u8]) -> GitRun {
    GitRun::Exited { success, stdout: stdout.to_vec(), stderr: stderr.to_vec() }
}

/// Goes through a detection; gives its last step and the files that were looked for.
fn detect(forced: Option<&str>, files: &[&str], git: GitRun) -> (CodeVersion, Vec<String>) {
    let mut probed = vec![];
    let mut git = Some(git);
    let mut step = set_code_version_inner();
    loop {
        step = match step {
            CodeVersion::ReadForced(s) => s.read(forced.map(|s| s.to_owned())),
            CodeVersion::Probe(s) => {
                let path = s.path().to_owned();
                let found = files.contains(&path.as_str());
                probed.push(path);
                assert!(!s.printed().stdout.is_empty());
                s.probed(found)
            }
            CodeVersion::RunGit(s) => {
                let command = s.command();
                assert_eq!(command.program, "git");
                assert_eq!(command.args, vec!["rev-parse".to_owned(), "HEAD".to_owned()]);
                s.ran(git.take().unwrap())
            }
            end => return (end, probed),
        };
    }
}

#[test]
fn forced_hash_is_taken() {
    let (end, probed) = detect(Some(" abc "), &["./.git/HEAD"], exited(true, b"def\n", b""));
    assert!(probed.is_empty());
    match end {
        CodeVersion::Done(printed) => {
            assert_eq!(
                printed.stdout,
                vec![
                    RERUN_ENV.to_owned(),
                    "cargo:rustc-env=FEDIMINT_BUILD_CODE_VERSION= abc ".to_owned(),
                ]
            );
            assert_eq!(
                printed.stderr,
                vec!["Forced hash via FEDIMINT_BUILD_FORCE_GIT_HASH to  abc ".to_owned()]
            );
        }
        _ => panic!("a forced hash is found"),
    }
}

#[test]
fn files_are_looked_for_in_order() {
    let (_, probed) = detect(None, &[], exited(true, b"", b""));
    assert_eq!(
        probed,
        vec![
            "./.git/HEAD",
            "./HEAD",
            "../.git/HEAD",
            "../HEAD",
            "../../.git/HEAD",
            "../../HEAD",
            "../../../.git/HEAD",
            "../../../HEAD",
            "../../../../.git/HEAD",
            "../../../../HEAD",
            "../../../../../.git/HEAD",
            "../../../../../HEAD",
        ]
    );
}

#[test]
fn hash_comes_from_git_without_white_space() {
    let files = ["../../HEAD", "../.git/HEAD", "../../../../../HEAD"];
    let (end, _) = detect(None, &files, exited(true, b"\t0123abc\r\n", b"warning"));
    match end {
        CodeVersion::Done(printed) => {
            assert_eq!(
                printed.stdout,
                vec![
                    RERUN_ENV.to_owned(),
                    "cargo:rerun-if-changed=../.git/HEAD".to_owned(),
                    "cargo:rerun-if-changed=../../HEAD".to_owned(),
                    "cargo:rerun-if-changed=../../../../../HEAD".to_owned(),
                    "cargo:rustc-env=FEDIMINT_BUILD_CODE_VERSION=0123abc".to_owned(),
                ]
            );
            assert!(printed.stderr.is_empty());
        }
        _ => panic!("git gave a hash"),
    }
}

#[test]
fn white_space_is_unicode_s() {
    let git = exited(true, "\u{a0}\u{2028}a b\u{3000}\u{85}".as_bytes(), b"");
    match detect(None, &[], git).0 {
        CodeVersion::Done(printed) => {
            assert_eq!(printed.stdout[1], "cargo:rustc-env=FEDIMINT_BUILD_CODE_VERSION=a b");
        }
        _ => panic!("git gave a hash"),
    }
    let git = exited(true, "\u{200b}a".as_bytes(), b"");
    match detect(None, &[], git).0 {
        CodeVersion::Done(printed) => {
            assert_eq!(printed.stdout[1], "cargo:rustc-env=FEDIMINT_BUILD_CODE_VERSION=\u{200b}a");
        }
        _ => panic!("git gave a hash"),
    }
}

fn failure(git: GitRun) -> String {
    match detect(None, &["./HEAD"], git).0 {
        CodeVersion::Failed(printed, e) => {
            assert_eq!(
                printed.stdout,
                vec![RERUN_ENV.to_owned(), "cargo:rerun-if-changed=./HEAD".to_owned()]
            );
            e
        }
        _ => panic!("git gave no hash"),
    }
}

#[test]
fn failed_runs_of_git_are_told_apart() {
    assert_eq!(
        failure(GitRun::NotExecuted("No such file or directory (os error 2)".to_owned())),
        "Failed to execute `git` command: No such file or directory (os error 2)"
    );
    assert_eq!(
        failure(exited(false, b"out", b"fatal: not a git repository\n")),
        "`git` command failed: stderr: fatal: not a git repository\n; stdout: out"
    );
    assert_eq!(
        failure(exited(false, b"a\xffb", b"")),
        "`git` command failed: stderr: ; stdout: a\u{fffd}b"
    );
    assert_eq!(
        failure(exited(true, b"ab\xff", b"")),
        "Invalid UTF-8 sequence detected: invalid utf-8 sequence of 1 bytes from index 2"
    );
}

fn run_git() -> RunGit {
    match set_code_version_inner() {
        CodeVersion::ReadForced(s) => RunGit { printed: s.printed },
        _ => unreachable!(),
    }
}

#[test]
fn output_of_git_is_read_once_decoded() {
    assert!(matches!(
        run_git().succeeded(Ok(" h ".to_owned())),
        CodeVersion::Done(p) if p.stdout[1] == "cargo:rustc-env=FEDIMINT_BUILD_CODE_VERSION=h"
    ));
    assert!(matches!(
        run_git().succeeded(Err("why".to_owned())),
        CodeVersion::Failed(_, e) if e == "Invalid UTF-8 sequence detected: why"
    ));
    assert!(matches!(
        run_git().failed("e", "o"),
        CodeVersion::Failed(_, e) if e == "`git` command failed: stderr: e; stdout: o"
    ));
}

#[test]
fn failed_detection_stops_the_build() {
    assert_eq!(set_code_version(Ok(())), Ok(()));
    assert_eq!(
        set_code_version(Err("no git".to_owned())),
        Err(
            "Failed to detect git hash version: no git. Set FEDIMINT_BUILD_FORCE_GIT_HASH to skip this check"
                .to_owned()
        )
    );
}
