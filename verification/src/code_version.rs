//! The build-time detection of the code version: the git hash that cargo hands to the
//! compiled crate.
use vstd::prelude::*;
use vstd::utf8::*;

use crate::command::Command;
use crate::text;

verus! {

/// Env variable to set to force git hash during build process
pub const FORCE_GIT_HASH_ENV: &'static str = "FEDIMINT_BUILD_FORCE_GIT_HASH";

/// Env variable the cargo will set during crate build to pass the detected git
/// hash to the binary itself.
pub const GIT_HASH_ENV: &'static str = "FEDIMINT_BUILD_CODE_VERSION";

/// The number of files whose change may mean that the git hash has changed.
pub const CANDIDATES: usize = 12;

/// What has been said so far: lines for cargo on the standard output, remarks for the reader
/// on the standard error.
pub struct Printed {
    pub stdout: Vec<String>,
    pub stderr: Vec<String>,
}

/// The texts of [`Printed`].
#[verifier::ext_equal]
pub struct PrintedView {
    pub stdout: Seq<Seq<char>>,
    pub stderr: Seq<Seq<char>>,
}

impl View for Printed {
    type V = PrintedView;

    open spec fn view(&self) -> PrintedView {
        PrintedView {
            stdout: crate::command::texts(self.stdout@),
            stderr: crate::command::texts(self.stderr@),
        }
    }
}

impl PrintedView {
    /// With one more line for cargo.
    pub open spec fn out(self, line: Seq<char>) -> Self {
        PrintedView { stdout: self.stdout.push(line), ..self }
    }

    /// With one more remark.
    pub open spec fn remark(self, line: Seq<char>) -> Self {
        PrintedView { stderr: self.stderr.push(line), ..self }
    }
}

/// How the run of `git` ended.
pub enum GitRun {
    /// It could not be executed, for the reason in the text.
    NotExecuted(String),
    /// It ended, and wrote these bytes.
    Exited { success: bool, stdout: Vec<u8>, stderr: Vec<u8> },
}

/// The detection, at the work that is to be done next.
pub enum CodeVersion {
    /// Read the variable that forces a hash.
    ReadForced(ReadForced),
    /// See whether a file exists.
    Probe(Probe),
    /// Ask git for the hash.
    RunGit(RunGit),
    /// The hash has been handed to cargo.
    Done(Printed),
    /// No hash was found, for the reason in the text.
    Failed(Printed, String),
}

/// [`CodeVersion`] by its texts.
pub enum CodeVersionView {
    ReadForced(PrintedView),
    Probe(PrintedView, int),
    RunGit(PrintedView),
    Done(PrintedView),
    Failed(PrintedView, Seq<char>),
}

impl View for CodeVersion {
    type V = CodeVersionView;

    open spec fn view(&self) -> CodeVersionView {
        match self {
            CodeVersion::ReadForced(step) => CodeVersionView::ReadForced(step.printed@),
            CodeVersion::Probe(step) => CodeVersionView::Probe(step.said(), step.place()),
            CodeVersion::RunGit(step) => CodeVersionView::RunGit(step.printed@),
            CodeVersion::Done(printed) => CodeVersionView::Done(printed@),
            CodeVersion::Failed(printed, e) => CodeVersionView::Failed(printed@, e@),
        }
    }
}

/// The variable [`FORCE_GIT_HASH_ENV`] is to be read.
pub struct ReadForced {
    pub printed: Printed,
}

/// It is to be seen whether the file at `path` exists.
pub struct Probe {
    printed: Printed,
    place: usize,
    path: String,
}

/// `git rev-parse HEAD` is to be run.
pub struct RunGit {
    pub printed: Printed,
}

/// The directory, as seen from the crate being built, in which the `k`-th look is taken.
pub open spec fn base(k: int) -> Seq<char> {
    if k == 0 {
        "."@
    } else if k == 1 {
        ".."@
    } else if k == 2 {
        "../.."@
    } else if k == 3 {
        "../../.."@
    } else if k == 4 {
        "../../../.."@
    } else {
        "../../../../.."@
    }
}

/// The files that are looked for, in order: in each directory the head of a repository there,
/// then that of a `git workdir`.
pub open spec fn candidate(place: int) -> Seq<char> {
    base(place / 2) + (if place % 2 == 0 {
        "/.git/HEAD"@
    } else {
        "/HEAD"@
    })
}

/// The line that makes cargo run again when the forcing variable changes.
pub open spec fn rerun_if_forced_changes() -> Seq<char> {
    "cargo:rerun-if-env-changed="@ + FORCE_GIT_HASH_ENV@
}

/// The line that makes cargo run again when a file changes.
pub open spec fn rerun_if_changed(path: Seq<char>) -> Seq<char> {
    "cargo:rerun-if-changed="@ + path
}

/// The line that hands a hash to the crate.
pub open spec fn code_version_line(hash: Seq<char>) -> Seq<char> {
    "cargo:rustc-env="@ + GIT_HASH_ENV@ + "="@ + hash
}

/// The remark that a hash was forced.
pub open spec fn forced_remark(hash: Seq<char>) -> Seq<char> {
    "Forced hash via "@ + FORCE_GIT_HASH_ENV@ + " to "@ + hash
}

/// What has been said when the detection begins.
pub open spec fn first_said() -> PrintedView {
    PrintedView { stdout: seq![rerun_if_forced_changes()], stderr: seq![] }
}

/// The step at a place in the list of candidates: behind its end git is asked.
pub open spec fn at_place(said: PrintedView, place: int) -> CodeVersionView {
    if place < CANDIDATES {
        CodeVersionView::Probe(said, place)
    } else {
        CodeVersionView::RunGit(said)
    }
}

/// The step after the forcing variable was read.
pub open spec fn after_forced(said: PrintedView, forced: Option<Seq<char>>) -> CodeVersionView {
    match forced {
        Some(hash) => CodeVersionView::Done(
            said.remark(forced_remark(hash)).out(code_version_line(hash)),
        ),
        None => at_place(said, 0),
    }
}

/// The step after a candidate was looked for.
pub open spec fn after_probe(said: PrintedView, place: int, found: bool) -> CodeVersionView {
    at_place(
        if found {
            said.out(rerun_if_changed(candidate(place)))
        } else {
            said
        },
        place + 1,
    )
}

/// The step after git was run.
pub open spec fn after_git(said: PrintedView, git: GitRun) -> CodeVersionView {
    match git {
        GitRun::NotExecuted(e) => CodeVersionView::Failed(
            said,
            "Failed to execute `git` command: "@ + e@,
        ),
        GitRun::Exited { success, stdout, stderr } => if !success {
            CodeVersionView::Failed(
                said,
                "`git` command failed: stderr: "@ + text::utf8_lossy(stderr@) + "; stdout: "@
                    + text::utf8_lossy(stdout@),
            )
        } else if valid_utf8(stdout@) {
            CodeVersionView::Done(said.out(code_version_line(text::trim(decode_utf8(stdout@)))))
        } else {
            CodeVersionView::Failed(
                said,
                "Invalid UTF-8 sequence detected: "@ + text::utf8_error_text(stdout@),
            )
        },
    }
}

impl Printed {
    /// Adds a line for cargo.
    fn out(self, line: String) -> (r: Self)
        ensures
            r@ == self@.out(line@),
    {
        let mut this = self;
        let ghost before = this.stdout@;
        this.stdout.push(line);
        assert(crate::command::texts(this.stdout@) =~= crate::command::texts(before).push(line@));
        this
    }

    /// Adds a remark.
    fn remark(self, line: String) -> (r: Self)
        ensures
            r@ == self@.remark(line@),
    {
        let mut this = self;
        let ghost before = this.stderr@;
        this.stderr.push(line);
        assert(crate::command::texts(this.stderr@) =~= crate::command::texts(before).push(line@));
        this
    }
}

/// The detection at its beginning.
pub fn set_code_version_inner() -> (r: CodeVersion)
    ensures
        r@ == CodeVersionView::ReadForced(first_said()),
{
    let printed = Printed { stdout: Vec::new(), stderr: Vec::new() };
    assert(printed@ =~= (PrintedView { stdout: seq![], stderr: seq![] }));
    let printed = printed.out(text::join2("cargo:rerun-if-env-changed=", FORCE_GIT_HASH_ENV));
    assert(printed@ =~= first_said());
    CodeVersion::ReadForced(ReadForced { printed })
}

/// What the build comes to: on a failed detection the message to stop it with.
pub fn set_code_version(outcome: Result<(), String>) -> (r: Result<(), String>)
    ensures
        match outcome {
            Ok(_) => r is Ok,
            Err(e) => r matches Err(message) && message@ == "Failed to detect git hash version: "@
                + e@ + ". Set "@ + FORCE_GIT_HASH_ENV@ + " to skip this check"@,
        },
{
    match outcome {
        Ok(()) => Ok(()),
        Err(e) => Err(
            text::join3("Failed to detect git hash version: ", e.as_str(), ". Set ").concat(
                FORCE_GIT_HASH_ENV,
            ).concat(" to skip this check"),
        ),
    }
}

impl ReadForced {
    /// Takes the value of the variable, if it has one.
    pub fn read(self, forced: Option<String>) -> (r: CodeVersion)
        ensures
            r@ == after_forced(
                self.printed@,
                match forced {
                    Some(hash) => Some(hash@),
                    None => None,
                },
            ),
    {
        match forced {
            Some(hash) => {
                let remark = text::join3("Forced hash via ", FORCE_GIT_HASH_ENV, " to ").concat(
                    hash.as_str(),
                );
                let line = text::join3("cargo:rustc-env=", GIT_HASH_ENV, "=").concat(hash.as_str());
                CodeVersion::Done(self.printed.remark(remark).out(line))
            },
            None => Probe::at(self.printed, 0),
        }
    }
}

impl Probe {
    #[verifier::type_invariant]
    closed spec fn inv(self) -> bool {
        self.place < CANDIDATES && self.path@ == candidate(self.place as int)
    }

    /// What has been said so far.
    pub closed spec fn said(self) -> PrintedView {
        self.printed@
    }

    /// The place of the file in the list of candidates.
    pub closed spec fn place(self) -> int {
        self.place as int
    }

    /// The file that is to be looked for.
    pub fn path(&self) -> (r: &str)
        ensures
            r@ == candidate(self.place()),
    {
        proof {
            use_type_invariant(self);
        }
        self.path.as_str()
    }

    /// What has been said so far.
    pub fn printed(&self) -> (r: &Printed)
        ensures
            r@ == self.said(),
    {
        &self.printed
    }

    /// The step at a place in the list of candidates.
    fn at(printed: Printed, place: usize) -> (r: CodeVersion)
        requires
            place <= CANDIDATES,
        ensures
            r@ == at_place(printed@, place as int),
    {
        if place < CANDIDATES {
            let dir = match place / 2 {
                0 => ".",
                1 => "..",
                2 => "../..",
                3 => "../../..",
                4 => "../../../..",
                _ => "../../../../..",
            };
            let path = if place % 2 == 0 {
                text::join2(dir, "/.git/HEAD")
            } else {
                text::join2(dir, "/HEAD")
            };
            CodeVersion::Probe(Probe { printed, place, path })
        } else {
            CodeVersion::RunGit(RunGit { printed })
        }
    }

    /// Takes whether the file was found.
    pub fn probed(self, found: bool) -> (r: CodeVersion)
        ensures
            r@ == after_probe(self.said(), self.place(), found),
    {
        proof {
            use_type_invariant(&self);
        }
        let printed = if found {
            let line = text::join2("cargo:rerun-if-changed=", self.path.as_str());
            self.printed.out(line)
        } else {
            self.printed
        };
        Probe::at(printed, self.place + 1)
    }
}

impl RunGit {
    /// The command to run.
    pub fn command(&self) -> (r: Command)
        ensures
            r@ == crate::command::plain_command("git"@, seq!["rev-parse"@, "HEAD"@]),
    {
        let r = Command::new("git").arg("rev-parse".to_owned()).arg("HEAD".to_owned());
        assert(r@.args =~= seq!["rev-parse"@, "HEAD"@]);
        r
    }

    /// Takes how the run ended.
    pub fn ran(self, git: GitRun) -> (r: CodeVersion)
        ensures
            r@ == after_git(self.printed@, git),
            git matches GitRun::Exited { success, stdout, stderr } ==> !success && valid_utf8(
                stdout@,
            ) && valid_utf8(stderr@) ==> r@ == CodeVersionView::Failed(
                self.printed@,
                "`git` command failed: stderr: "@ + decode_utf8(stderr@) + "; stdout: "@
                    + decode_utf8(stdout@),
            ),
    {
        match git {
            GitRun::NotExecuted(e) => CodeVersion::Failed(
                self.printed,
                text::join2("Failed to execute `git` command: ", e.as_str()),
            ),
            GitRun::Exited { success, stdout, stderr } => {
                if success {
                    self.succeeded(text::string_from_utf8(stdout))
                } else {
                    let stderr = text::string_from_utf8_lossy(&stderr);
                    let stdout = text::string_from_utf8_lossy(&stdout);
                    self.failed(stderr.as_str(), stdout.as_str())
                }
            },
        }
    }

    /// Takes what a successful run wrote, or why it is not a text.
    pub fn succeeded(self, output: Result<String, String>) -> (r: CodeVersion)
        ensures
            r@ == (match output {
                Ok(output) => CodeVersionView::Done(
                    self.printed@.out(code_version_line(text::trim(output@))),
                ),
                Err(e) => CodeVersionView::Failed(
                    self.printed@,
                    "Invalid UTF-8 sequence detected: "@ + e@,
                ),
            }),
    {
        match output {
            Ok(output) => {
                let hash = output.as_str().trim();
                let line = text::join3("cargo:rustc-env=", GIT_HASH_ENV, "=").concat(hash);
                CodeVersion::Done(self.printed.out(line))
            },
            Err(e) => CodeVersion::Failed(
                self.printed,
                text::join2("Invalid UTF-8 sequence detected: ", e.as_str()),
            ),
        }
    }

    /// Takes what a run wrote that did not succeed.
    pub fn failed(self, stderr: &str, stdout: &str) -> (r: CodeVersion)
        ensures
            r@ == CodeVersionView::Failed(
                self.printed@,
                "`git` command failed: stderr: "@ + stderr@ + "; stdout: "@ + stdout@,
            ),
    {
        CodeVersion::Failed(
            self.printed,
            text::join3("`git` command failed: stderr: ", stderr, "; stdout: ").concat(stdout),
        )
    }
}

/// The work that is left at a step, at most.
pub open spec fn work_left(step: CodeVersionView) -> int {
    match step {
        CodeVersionView::ReadForced(_) => CANDIDATES + 2,
        CodeVersionView::Probe(_, place) => if place < CANDIDATES {
            CANDIDATES + 1 - place
        } else {
            1
        },
        _ => 0,
    }
}

/// How a detection ends that has come to `step`, where the forcing variable has the value
/// `forced`, the files in `found` are there, and the run of git ends as `git` says.
pub open spec fn end_of(
    step: CodeVersionView,
    forced: Option<Seq<char>>,
    found: spec_fn(Seq<char>) -> bool,
    git: GitRun,
) -> CodeVersionView
    decreases work_left(step),
{
    match step {
        CodeVersionView::ReadForced(said) => end_of(
            after_forced(said, forced),
            forced,
            found,
            git,
        ),
        CodeVersionView::Probe(said, place) => end_of(
            after_probe(said, place, found(candidate(place))),
            forced,
            found,
            git,
        ),
        CodeVersionView::RunGit(said) => after_git(said, git),
        _ => step,
    }
}

/// The candidates before a place, in order.
pub open spec fn candidates_before(place: int) -> Seq<Seq<char>> {
    Seq::new(place as nat, |i: int| candidate(i))
}

/// The lines by which cargo learns of the candidates before a place that are there.
pub open spec fn rerun_lines(found: spec_fn(Seq<char>) -> bool, place: int) -> Seq<Seq<char>> {
    candidates_before(place).filter(found).map_values(|path: Seq<char>| rerun_if_changed(path))
}

/// What has been said when the candidates before a place have been looked for.
pub open spec fn said_before(found: spec_fn(Seq<char>) -> bool, place: int) -> PrintedView {
    PrintedView {
        stdout: seq![rerun_if_forced_changes()] + rerun_lines(found, place),
        stderr: seq![],
    }
}

/// Whether a line hands a hash to the crate.
pub open spec fn hands_over_hash(line: Seq<char>) -> bool {
    "cargo:rustc-env="@.is_prefix_of(line)
}

/// A forced hash is handed over as it is, whatever files there are and whatever git would say.
pub proof fn law_forced_hash_is_taken(
    hash: Seq<char>,
    found: spec_fn(Seq<char>) -> bool,
    git: GitRun,
)
    ensures
        end_of(CodeVersionView::ReadForced(first_said()), Some(hash), found, git)
            == CodeVersionView::Done(
            PrintedView {
                stdout: seq![rerun_if_forced_changes(), code_version_line(hash)],
                stderr: seq![forced_remark(hash)],
            },
        ),
{
    reveal_with_fuel(end_of, 2);
    assert(first_said().remark(forced_remark(hash)).out(code_version_line(hash)) =~= (PrintedView {
        stdout: seq![rerun_if_forced_changes(), code_version_line(hash)],
        stderr: seq![forced_remark(hash)],
    }));
}

proof fn lemma_said_before_next(found: spec_fn(Seq<char>) -> bool, place: int)
    requires
        0 <= place < CANDIDATES,
    ensures
        after_probe(said_before(found, place), place, found(candidate(place))) == at_place(
            said_before(found, place + 1),
            place + 1,
        ),
{
    reveal(Seq::filter);
    let now = candidates_before(place);
    let next = candidates_before(place + 1);
    assert(next.drop_last() =~= now);
    assert(next.last() == candidate(place));
    let said = said_before(found, place);
    if found(candidate(place)) {
        assert(rerun_lines(found, place + 1) =~= rerun_lines(found, place).push(
            rerun_if_changed(candidate(place)),
        ));
        assert(said.out(rerun_if_changed(candidate(place))) =~= said_before(found, place + 1));
    } else {
        assert(said =~= said_before(found, place + 1));
    }
}

proof fn lemma_end_of_probes(found: spec_fn(Seq<char>) -> bool, git: GitRun, place: int)
    requires
        0 <= place <= CANDIDATES,
    ensures
        end_of(at_place(said_before(found, place), place), None, found, git) == after_git(
            said_before(found, CANDIDATES as int),
            git,
        ),
    decreases CANDIDATES - place,
{
    reveal_with_fuel(end_of, 2);
    if place < CANDIDATES {
        lemma_said_before_next(found, place);
        lemma_end_of_probes(found, git, place + 1);
    }
}

/// Without a forced hash cargo is told, in order, of each candidate that is there and of no
/// other, and git decides the rest.
pub proof fn law_unforced_hash_comes_from_git(found: spec_fn(Seq<char>) -> bool, git: GitRun)
    ensures
        end_of(CodeVersionView::ReadForced(first_said()), None, found, git) == after_git(
            said_before(found, CANDIDATES as int),
            git,
        ),
{
    reveal_with_fuel(end_of, 2);
    reveal(Seq::filter);
    assert(rerun_lines(found, 0) =~= seq![]);
    assert(said_before(found, 0) =~= first_said());
    lemma_end_of_probes(found, git, 0);
}

proof fn lemma_rerun_lines_hand_over_nothing(found: spec_fn(Seq<char>) -> bool, i: int)
    requires
        0 <= i < said_before(found, CANDIDATES as int).stdout.len(),
    ensures
        !hands_over_hash(said_before(found, CANDIDATES as int).stdout[i]),
{
    reveal_strlit("cargo:rustc-env=");
    reveal_strlit("cargo:rerun-if-env-changed=");
    reveal_strlit("cargo:rerun-if-changed=");
    let line = said_before(found, CANDIDATES as int).stdout[i];
    assert(line[7] == 'e');
    if hands_over_hash(line) {
        assert("cargo:rustc-env="@[7] == 'u');
        assert("cargo:rustc-env="@[7] == line[7]);
    }
}

/// A detection that succeeds hands over one hash, in the last line it says to cargo; one that
/// fails hands over none.
pub proof fn law_one_hash_is_handed_over(
    forced: Option<Seq<char>>,
    found: spec_fn(Seq<char>) -> bool,
    git: GitRun,
)
    ensures
        match end_of(CodeVersionView::ReadForced(first_said()), forced, found, git) {
            CodeVersionView::Done(said) => {
                &&& said.stdout.len() > 0
                &&& forall|i: int|
                    0 <= i < said.stdout.len() ==> (hands_over_hash(#[trigger] said.stdout[i])
                        <==> i == said.stdout.len() - 1)
            },
            CodeVersionView::Failed(said, _) => forall|i: int|
                0 <= i < said.stdout.len() ==> !hands_over_hash(#[trigger] said.stdout[i]),
            _ => false,
        },
{
    let all = said_before(found, CANDIDATES as int);
    assert forall|i: int| 0 <= i < all.stdout.len() implies !hands_over_hash(
        #[trigger] all.stdout[i],
    ) by {
        lemma_rerun_lines_hand_over_nothing(found, i);
    }
    assert(all.stdout[0] == rerun_if_forced_changes());
    assert forall|hash: Seq<char>| hands_over_hash(#[trigger] code_version_line(hash)) by {
        let line = code_version_line(hash);
        assert(line.subrange(0, "cargo:rustc-env="@.len() as int) =~= "cargo:rustc-env="@);
    }
    match forced {
        Some(hash) => {
            law_forced_hash_is_taken(hash, found, git);
        },
        None => {
            law_unforced_hash_comes_from_git(found, git);
        },
    }
}

/// What has been said is what is held, line for line.
pub proof fn law_said_what_is_held(printed: Printed)
    ensures
        printed@.stdout.len() == printed.stdout@.len(),
        printed@.stderr.len() == printed.stderr@.len(),
        forall|i: int| 0 <= i < printed.stdout@.len() ==> #[trigger] printed@.stdout[i]
            == printed.stdout@[i]@,
        forall|i: int| 0 <= i < printed.stderr@.len() ==> #[trigger] printed@.stderr[i]
            == printed.stderr@[i]@,
{
}

/// One more line, or one more remark, stands behind all that was said before and changes none of
/// it.
pub proof fn law_more_is_said_behind(said: PrintedView, line: Seq<char>)
    ensures
        said.out(line).stdout == said.stdout + seq![line],
        said.out(line).stderr == said.stderr,
        said.remark(line).stderr == said.stderr + seq![line],
        said.remark(line).stdout == said.stdout,
{
    assert(said.stdout.push(line) =~= said.stdout + seq![line]);
    assert(said.stderr.push(line) =~= said.stderr + seq![line]);
}

/// The line that hands over a hash is a fixed beginning and then all of the hash, whatever its
/// length; so two hashes are handed over by one line only if they are the same.
pub proof fn law_hash_is_handed_over_whole(hash: Seq<char>, other: Seq<char>)
    ensures
        code_version_line(hash) == "cargo:rustc-env=FEDIMINT_BUILD_CODE_VERSION="@ + hash,
        code_version_line(hash).skip(
            "cargo:rustc-env=FEDIMINT_BUILD_CODE_VERSION="@.len() as int,
        ) == hash,
        code_version_line(hash) == code_version_line(other) ==> hash == other,
{
    let start = "cargo:rustc-env=FEDIMINT_BUILD_CODE_VERSION="@;
    reveal_strlit("cargo:rustc-env=FEDIMINT_BUILD_CODE_VERSION=");
    reveal_strlit("cargo:rustc-env=");
    reveal_strlit("FEDIMINT_BUILD_CODE_VERSION");
    reveal_strlit("=");
    assert("cargo:rustc-env="@ + "FEDIMINT_BUILD_CODE_VERSION"@ + "="@ =~= start);
    assert(code_version_line(hash) =~= start + hash);
    assert(code_version_line(other) =~= start + other);
    assert((start + hash).skip(start.len() as int) =~= hash);
    assert((start + other).skip(start.len() as int) =~= other);
}

/// A detection begins by telling cargo of the forcing variable, and says nothing else.
pub proof fn law_detection_begins_with_the_variable(step: ReadForced)
    requires
        call_ensures(set_code_version_inner, (), CodeVersion::ReadForced(step)),
    ensures
        step.printed.stdout@.len() == 1,
        step.printed.stdout@[0]@
            == "cargo:rerun-if-env-changed=FEDIMINT_BUILD_FORCE_GIT_HASH"@,
        step.printed.stderr@.len() == 0,
{
    reveal_strlit("cargo:rerun-if-env-changed=FEDIMINT_BUILD_FORCE_GIT_HASH");
    reveal_strlit("cargo:rerun-if-env-changed=");
    reveal_strlit("FEDIMINT_BUILD_FORCE_GIT_HASH");
    law_said_what_is_held(step.printed);
    assert(CodeVersion::ReadForced(step)@ == CodeVersionView::ReadForced(step.printed@));
    assert(step.printed@.stdout[0] == step.printed.stdout@[0]@);
    assert("cargo:rerun-if-env-changed="@ + "FEDIMINT_BUILD_FORCE_GIT_HASH"@
        =~= "cargo:rerun-if-env-changed=FEDIMINT_BUILD_FORCE_GIT_HASH"@);
}

/// A forced hash, of any length, ends the detection: cargo is handed all of it behind what was
/// said before, and the reader is told of all of it.
pub proof fn law_forced_hash_is_handed_over_whole(step: ReadForced, hash: String, next: CodeVersion)
    requires
        call_ensures(ReadForced::read, (step, Some(hash)), next),
    ensures
        next matches CodeVersion::Done(printed) && {
            &&& printed@.stdout == step.printed@.stdout + seq![
                "cargo:rustc-env=FEDIMINT_BUILD_CODE_VERSION="@ + hash@,
            ]
            &&& printed@.stderr == step.printed@.stderr + seq![
                "Forced hash via FEDIMINT_BUILD_FORCE_GIT_HASH to "@ + hash@,
            ]
        },
{
    let remark = "Forced hash via FEDIMINT_BUILD_FORCE_GIT_HASH to "@;
    reveal_strlit("Forced hash via FEDIMINT_BUILD_FORCE_GIT_HASH to ");
    reveal_strlit("Forced hash via ");
    reveal_strlit("FEDIMINT_BUILD_FORCE_GIT_HASH");
    reveal_strlit(" to ");
    assert("Forced hash via "@ + "FEDIMINT_BUILD_FORCE_GIT_HASH"@ + " to "@ =~= remark);
    assert(forced_remark(hash@) =~= remark + hash@);
    law_hash_is_handed_over_whole(hash@, hash@);
    let said = step.printed@.remark(forced_remark(hash@));
    law_more_is_said_behind(step.printed@, forced_remark(hash@));
    law_more_is_said_behind(said, code_version_line(hash@));
}

/// Without a forced hash nothing is said, and the first of the files is looked for.
pub proof fn law_files_are_looked_for_without_a_forced_hash(step: ReadForced, next: CodeVersion)
    requires
        call_ensures(ReadForced::read, (step, None), next),
    ensures
        next matches CodeVersion::Probe(probe) && probe.place() == 0 && probe.said()
            == step.printed@,
{
}

/// The files that are looked for, by their places.
pub proof fn law_candidates_are_these()
    ensures
        candidate(0) == "./.git/HEAD"@,
        candidate(1) == "./HEAD"@,
        candidate(2) == "../.git/HEAD"@,
        candidate(3) == "../HEAD"@,
        candidate(4) == "../../.git/HEAD"@,
        candidate(5) == "../../HEAD"@,
        candidate(6) == "../../../.git/HEAD"@,
        candidate(7) == "../../../HEAD"@,
        candidate(8) == "../../../../.git/HEAD"@,
        candidate(9) == "../../../../HEAD"@,
        candidate(10) == "../../../../../.git/HEAD"@,
        candidate(11) == "../../../../../HEAD"@,
{
    reveal_strlit(".");
    reveal_strlit("..");
    reveal_strlit("../..");
    reveal_strlit("/HEAD");
    reveal_strlit("./HEAD");
    reveal_strlit("../HEAD");
    reveal_strlit("../../..");
    reveal_strlit("../../HEAD");
    reveal_strlit("/.git/HEAD");
    reveal_strlit("../../../..");
    reveal_strlit("./.git/HEAD");
    reveal_strlit("../.git/HEAD");
    reveal_strlit("../../../HEAD");
    reveal_strlit("../../../../..");
    reveal_strlit("../../.git/HEAD");
    reveal_strlit("../../../../HEAD");
    reveal_strlit("../../../.git/HEAD");
    reveal_strlit("../../../../../HEAD");
    reveal_strlit("../../../../.git/HEAD");
    reveal_strlit("../../../../../.git/HEAD");
    assert(candidate(0) =~= "./.git/HEAD"@);
    assert(candidate(1) =~= "./HEAD"@);
    assert(candidate(2) =~= "../.git/HEAD"@);
    assert(candidate(3) =~= "../HEAD"@);
    assert(candidate(4) =~= "../../.git/HEAD"@);
    assert(candidate(5) =~= "../../HEAD"@);
    assert(candidate(6) =~= "../../../.git/HEAD"@);
    assert(candidate(7) =~= "../../../HEAD"@);
    assert(candidate(8) =~= "../../../../.git/HEAD"@);
    assert(candidate(9) =~= "../../../../HEAD"@);
    assert(candidate(10) =~= "../../../../../.git/HEAD"@);
    assert(candidate(11) =~= "../../../../../HEAD"@);
}

/// A file that is found is told to cargo by the whole of the path at which it was looked for, behind
/// what was said before; one that is not found is not told. Either way the next file is looked
/// for, and behind the twelfth git is asked.
pub proof fn law_found_file_is_told_by_its_path(
    step: Probe,
    path: &str,
    found: bool,
    next: CodeVersion,
)
    requires
        call_ensures(Probe::path, (&step,), path),
        call_ensures(Probe::probed, (step, found), next),
    ensures
        path@ == candidate(step.place()),
        step.place() < 11 ==> (next matches CodeVersion::Probe(probe) && probe.place()
            == step.place() + 1),
        step.place() >= 11 ==> next is RunGit,
        ({
            let said = match next {
                CodeVersion::Probe(probe) => probe.said(),
                CodeVersion::RunGit(git) => git.printed@,
                _ => step.said(),
            };
            &&& said.stderr == step.said().stderr
            &&& found ==> said.stdout == step.said().stdout + seq![
                "cargo:rerun-if-changed="@ + path@,
            ]
            &&& !found ==> said.stdout == step.said().stdout
        }),
{
    law_more_is_said_behind(step.said(), rerun_if_changed(path@));
}

/// What git wrote on success, between any white space before and behind it, is handed over whole,
/// whatever its length: behind all that was said before, with no remark.
pub proof fn law_git_hash_is_handed_over_whole(
    step: RunGit,
    output: String,
    before: Seq<char>,
    hash: Seq<char>,
    after: Seq<char>,
    next: CodeVersion,
)
    requires
        call_ensures(RunGit::succeeded, (step, Ok(output)), next),
        output@ == before + hash + after,
        forall|i: int| 0 <= i < before.len() ==> text::is_white_space(#[trigger] before[i]),
        forall|i: int| 0 <= i < after.len() ==> text::is_white_space(#[trigger] after[i]),
        hash.len() > 0,
        !text::is_white_space(hash.first()),
        !text::is_white_space(hash.last()),
    ensures
        next matches CodeVersion::Done(printed) && {
            &&& printed@.stdout == step.printed@.stdout + seq![
                "cargo:rustc-env=FEDIMINT_BUILD_CODE_VERSION="@ + hash,
            ]
            &&& printed@.stderr == step.printed@.stderr
        },
{
    text::law_trim_leaves_the_word(before, hash, after);
    law_hash_is_handed_over_whole(hash, hash);
    law_more_is_said_behind(step.printed@, code_version_line(hash));
}

/// A run of git that wrote a text and succeeded goes on with all of that text; every other run fails
/// with what is known of it, all of it, and tells cargo nothing more.
pub proof fn law_run_of_git_decides(
    step: RunGit,
    git: GitRun,
    next: CodeVersion,
    output: String,
    succeeded: CodeVersion,
)
    requires
        call_ensures(RunGit::ran, (step, git), next),
        call_ensures(RunGit::succeeded, (step, Ok(output)), succeeded),
    ensures
        next is Done <==> (git matches GitRun::Exited { success, stdout, stderr } && success
            && valid_utf8(stdout@)),
        !(next is Done) ==> (next matches CodeVersion::Failed(printed, _) && printed@
            == step.printed@),
        git matches GitRun::Exited { success, stdout, stderr } ==> {
            &&& success && valid_utf8(stdout@) && output@ == decode_utf8(stdout@) ==> next@
                == succeeded@
            &&& success && !valid_utf8(stdout@) ==> next->Failed_1@
                == "Invalid UTF-8 sequence detected: "@ + text::utf8_error_text(stdout@)
            &&& !success ==> next->Failed_1@ == "`git` command failed: stderr: "@
                + text::utf8_lossy(stderr@) + "; stdout: "@ + text::utf8_lossy(stdout@)
        },
        git matches GitRun::NotExecuted(e) ==> next->Failed_1@
            == "Failed to execute `git` command: "@ + e@,
{
}

/// A failed detection stops the build with all of its reason and with the way around it; one that
/// did not fail lets it go on.
pub proof fn law_failure_stops_the_build(outcome: Result<(), String>, r: Result<(), String>)
    requires
        call_ensures(set_code_version, (outcome,), r),
    ensures
        r is Ok <==> outcome is Ok,
        outcome matches Err(e) ==> r->Err_0@ == "Failed to detect git hash version: "@ + e@
            + ". Set FEDIMINT_BUILD_FORCE_GIT_HASH to skip this check"@,
{
    reveal_strlit(". Set FEDIMINT_BUILD_FORCE_GIT_HASH to skip this check");
    reveal_strlit(". Set ");
    reveal_strlit("FEDIMINT_BUILD_FORCE_GIT_HASH");
    reveal_strlit(" to skip this check");
    if outcome is Err {
        assert(". Set "@ + "FEDIMINT_BUILD_FORCE_GIT_HASH"@ + " to skip this check"@
            =~= ". Set FEDIMINT_BUILD_FORCE_GIT_HASH to skip this check"@);
        assert(r->Err_0@ =~= "Failed to detect git hash version: "@ + outcome->Err_0@
            + ". Set FEDIMINT_BUILD_FORCE_GIT_HASH to skip this check"@);
    }
}

} // verus!
