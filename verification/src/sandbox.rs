//! What is handed to the sandbox for one half of a round, and how its
//! answer is read.
//!
//! The sandbox runs a script named `run`. The script imports the two
//! programs as modules, calls the one under test with the other's function
//! and the other's past, and tells the outcome by its exit code. The modules
//! carry random names, so that no program can guess the name of the other
//! or of the script's own parts.
use vstd::prelude::*;

verus! {

/// The exit code by which the script tells that the program defected.
pub const EXIT_DEFECT: i64 = 100;

/// The exit code by which the script tells that the program cooperated.
pub const EXIT_COOPERATE: i64 = 101;

/// What an exit code of the script means: defection, cooperation, or, for
/// any other code and for none, a failed run.
pub open spec fn defected_of(exit_code: Option<i64>) -> Option<bool> {
    if exit_code == Some(EXIT_DEFECT) {
        Some(true)
    } else if exit_code == Some(EXIT_COOPERATE) {
        Some(false)
    } else {
        None
    }
}

/// Reads the outcome of a run from its exit code.
pub fn interpret_exit_code(exit_code: Option<i64>) -> (defected: Option<bool>)
    ensures
        defected == defected_of(exit_code),
{
    match exit_code {
        Some(100) => Some(true),
        Some(101) => Some(false),
        _ => None,
    }
}

/// Whether `c` may stand in the random part of a module name: an ASCII
/// letter, an ASCII digit or an underscore.
pub open spec fn is_name_char(c: char) -> bool {
    ||| 'a' <= c <= 'z'
    ||| 'A' <= c <= 'Z'
    ||| '0' <= c <= '9'
    ||| c == '_'
}

/// Whether `token` may be the random part of a module name.
pub open spec fn is_token(token: Seq<char>) -> bool {
    forall|i: int| 0 <= i < token.len() ==> is_name_char(#[trigger] token[i])
}

/// The longest random part that a module name may carry.
pub const MAX_TOKEN_LENGTH: usize = 64;

/// The longest name that a file may carry into the sandbox.
pub const MAX_NAME_LENGTH: usize = 100;

/// Whether `c` may stand in the name of a file: an ASCII letter, an ASCII
/// digit, an underscore or a dot.
pub open spec fn is_plain_char(c: char) -> bool {
    is_name_char(c) || c == '.'
}

/// Whether `name` may be the name of a file that is handed to the sandbox:
/// a name of one part, of at most `MAX_NAME_LENGTH` characters, each a
/// letter, a digit, an underscore or a dot, and not all of them dots. Such
/// a name means the same file on every system, and no directory.
pub open spec fn is_plain_name(name: Seq<char>) -> bool {
    &&& 0 < name.len() <= MAX_NAME_LENGTH
    &&& forall|i: int| 0 <= i < name.len() ==> is_plain_char(#[trigger] name[i])
    &&& exists|i: int| 0 <= i < name.len() && #[trigger] name[i] != '.'
}

/// The module name with the random part `token`.
pub open spec fn module_name(token: Seq<char>) -> Seq<char> {
    "mod_"@ + token
}

/// Whether `name` is an identifier: a letter or an underscore, followed by
/// letters, digits and underscores.
pub open spec fn is_identifier(name: Seq<char>) -> bool {
    &&& name.len() > 0
    &&& !('0' <= name[0] <= '9')
    &&& forall|i: int| 0 <= i < name.len() ==> is_name_char(#[trigger] name[i])
}

/// The name of the file that holds the module `module`.
pub open spec fn file_name(module: Seq<char>) -> Seq<char> {
    module + ".py"@
}

/// How the script writes one past outcome.
pub open spec fn outcome_word(outcome: Option<bool>) -> Seq<char> {
    match outcome {
        None => "None"@,
        Some(true) => "True"@,
        Some(false) => "False"@,
    }
}

/// How the script writes a past: the words of its outcomes, with a comma
/// between two of them.
pub open spec fn history_words(history: Seq<Option<bool>>) -> Seq<char>
    decreases history.len(),
{
    if history.len() == 0 {
        Seq::empty()
    } else if history.len() == 1 {
        outcome_word(history[0])
    } else {
        history_words(history.drop_last()) + ","@ + outcome_word(history.last())
    }
}

/// The script that plays one half of a round: the program in the module
/// `submission` decides, knowing the function of the module `opponent` and
/// what the opponent did in the rounds before.
pub open spec fn driver_script(
    submission: Seq<char>,
    opponent: Seq<char>,
    opponent_history: Seq<Option<bool>>,
) -> Seq<char> {
    "#!/usr/bin/env python3\nimport "@ + submission + " as Sub\nimport "@ + opponent
        + " as Opp\nopp_defection_history = ["@ + history_words(opponent_history)
        + "]\ndefected = Sub.should_defect(Opp.should_defect, opp_defection_history)\nexit(100 if defected else 101)"@
}

/// A named text file.
#[derive(Clone, Debug, PartialEq, Eq)]
pub struct SandboxFile {
    pub name: String,
    pub content: String,
}

/// What a file holds, as mathematical values.
pub struct SandboxFileView {
    pub name: Seq<char>,
    pub content: Seq<char>,
}

impl View for SandboxFile {
    type V = SandboxFileView;

    open spec fn view(&self) -> SandboxFileView {
        SandboxFileView { name: self.name@, content: self.content@ }
    }
}

/// What the files of a list hold, as mathematical values.
pub open spec fn file_views(files: Seq<SandboxFile>) -> Seq<SandboxFileView> {
    Seq::new(files.len(), |i: int| files[i]@)
}

/// The files for one half of a round: the script, then the program under
/// test, then the other program.
pub open spec fn bundle(
    submission: Seq<char>,
    opponent: Seq<char>,
    submission_code: Seq<char>,
    opponent_code: Seq<char>,
    opponent_history: Seq<Option<bool>>,
) -> Seq<SandboxFileView> {
    seq![
        SandboxFileView {
            name: "run"@,
            content: driver_script(submission, opponent, opponent_history),
        },
        SandboxFileView { name: file_name(submission), content: submission_code },
        SandboxFileView { name: file_name(opponent), content: opponent_code },
    ]
}

/// The names of the two modules of one half of a round. Both are
/// identifiers of bounded length, and they differ.
pub struct ModuleNames {
    submission: String,
    opponent: String,
}

/// The names of the two modules, as mathematical values.
pub struct ModuleNamesView {
    pub submission: Seq<char>,
    pub opponent: Seq<char>,
}

impl View for ModuleNames {
    type V = ModuleNamesView;

    closed spec fn view(&self) -> ModuleNamesView {
        ModuleNamesView { submission: self.submission@, opponent: self.opponent@ }
    }
}

/// Whether every character of `token` may stand in a module name.
fn check_token(token: &str) -> (b: bool)
    ensures
        b == is_token(token@),
{
    let n = token.unicode_len();
    let mut i: usize = 0;
    while i < n
        invariant
            i <= n,
            n == token@.len(),
            forall|k: int| 0 <= k < i ==> is_name_char(#[trigger] token@[k]),
        decreases n - i,
    {
        let c = token.get_char(i);
        let ok = ('a' <= c && c <= 'z') || ('A' <= c && c <= 'Z') || ('0' <= c && c <= '9') || c
            == '_';
        if !ok {
            return false;
        }
        i += 1;
    }
    true
}

impl ModuleNames {
    /// The invariant of a pair of module names.
    pub open spec fn wf(&self) -> bool {
        &&& is_identifier(self@.submission)
        &&& is_identifier(self@.opponent)
        &&& self@.submission.len() <= 4 + MAX_TOKEN_LENGTH
        &&& self@.opponent.len() <= 4 + MAX_TOKEN_LENGTH
        &&& self@.submission != self@.opponent
    }

    /// The names made of two random parts: `mod_` followed by the part.
    ///
    /// Returns `None` where a part holds anything but ASCII letters, ASCII
    /// digits and underscores, where a part is longer than
    /// `MAX_TOKEN_LENGTH`, and where the two parts are the same. The caller
    /// then draws again.
    pub fn new(submission_token: &str, opponent_token: &str) -> (r: Option<ModuleNames>)
        ensures
            r is Some <==> is_token(submission_token@) && is_token(opponent_token@)
                && submission_token@.len() <= MAX_TOKEN_LENGTH && opponent_token@.len()
                <= MAX_TOKEN_LENGTH && submission_token@ != opponent_token@,
            r matches Some(names) ==> names.wf() && names@.submission == module_name(
                submission_token@,
            ) && names@.opponent == module_name(opponent_token@),
    {
        if !check_token(submission_token) || !check_token(opponent_token) {
            return None;
        }
        if submission_token.unicode_len() > MAX_TOKEN_LENGTH || opponent_token.unicode_len()
            > MAX_TOKEN_LENGTH {
            return None;
        }
        let submission = String::from_str("mod_").concat(submission_token);
        let opponent = String::from_str("mod_").concat(opponent_token);
        proof {
            reveal_strlit("mod_");
            lemma_module_names_differ(submission_token@, opponent_token@);
        }
        if submission == opponent {
            return None;
        }
        Some(ModuleNames { submission, opponent })
    }

    /// The name of the module that holds the program under test.
    pub fn submission(&self) -> (name: &String)
        ensures
            name@ == self@.submission,
    {
        &self.submission
    }

    /// The name of the module that holds the other program.
    pub fn opponent(&self) -> (name: &String)
        ensures
            name@ == self@.opponent,
    {
        &self.opponent
    }
}

/// Two module names are the same only where their random parts are.
pub proof fn lemma_module_names_differ(a: Seq<char>, b: Seq<char>)
    ensures
        module_name(a) == module_name(b) <==> a == b,
{
    if module_name(a) == module_name(b) {
        let prefix = "mod_"@;
        assert(a == module_name(a).skip(prefix.len() as int));
        assert(b == module_name(b).skip(prefix.len() as int));
    }
}

/// Writes a past as the script holds it.
pub fn write_history(history: &Vec<Option<bool>>) -> (words: String)
    ensures
        words@ == history_words(history@),
{
    let mut words = String::new();
    let mut i: usize = 0;
    while i < history.len()
        invariant
            i <= history.len(),
            words@ == history_words(history@.take(i as int)),
        decreases history.len() - i,
    {
        proof {
            let next = history@.take(i + 1);
            assert(next.drop_last() == history@.take(i as int));
            assert(next.last() == history@[i as int]);
            if i == 0 {
                assert(next[0] == history@[0]);
            }
        }
        if i > 0 {
            words.append(",");
        }
        match history[i] {
            None => words.append("None"),
            Some(true) => words.append("True"),
            Some(false) => words.append("False"),
        }
        i += 1;
    }
    proof {
        assert(history@.take(i as int) == history@);
    }
    words
}

/// Writes the script that plays one half of a round.
pub fn write_driver_script(submission: &str, opponent: &str, opponent_history: &Vec<Option<bool>>) -> (script:
    String)
    ensures
        script@ == driver_script(submission@, opponent@, opponent_history@),
{
    let words = write_history(opponent_history);
    let mut script = String::from_str("#!/usr/bin/env python3\nimport ");
    script.append(submission);
    script.append(" as Sub\nimport ");
    script.append(opponent);
    script.append(" as Opp\nopp_defection_history = [");
    script.append(words.as_str());
    script.append(
        "]\ndefected = Sub.should_defect(Opp.should_defect, opp_defection_history)\nexit(100 if defected else 101)",
    );
    script
}

/// Makes the files for one half of a round, in which the program
/// `submission_code` decides against the program `opponent_code`, knowing
/// what the opponent did in the rounds before.
pub fn sandbox_files(
    names: &ModuleNames,
    submission_code: &str,
    opponent_code: &str,
    opponent_history: &Vec<Option<bool>>,
) -> (files: Vec<SandboxFile>)
    ensures
        file_views(files@) == bundle(
            names@.submission,
            names@.opponent,
            submission_code@,
            opponent_code@,
            opponent_history@,
        ),
{
    let script = write_driver_script(
        names.submission.as_str(),
        names.opponent.as_str(),
        opponent_history,
    );
    let mut files: Vec<SandboxFile> = Vec::new();
    files.push(SandboxFile { name: String::from_str("run"), content: script });
    files.push(
        SandboxFile {
            name: names.submission.clone().concat(".py"),
            content: String::from_str(submission_code),
        },
    );
    files.push(
        SandboxFile {
            name: names.opponent.clone().concat(".py"),
            content: String::from_str(opponent_code),
        },
    );
    files
}

/// Whether the files of a list carry names that differ from each other.
pub open spec fn distinct_names(files: Seq<SandboxFileView>) -> bool {
    forall|i: int, j: int|
        0 <= i < j < files.len() ==> (#[trigger] files[i]).name != (#[trigger] files[j]).name
}

/// Whether a list of files can be handed to the sandbox: every name is a
/// plain name, and no name occurs twice.
pub open spec fn well_named(files: Seq<SandboxFileView>) -> bool {
    &&& forall|i: int| 0 <= i < files.len() ==> is_plain_name((#[trigger] files[i]).name)
    &&& distinct_names(files)
}

/// The file of a module carries a plain name.
proof fn lemma_file_name_is_plain(module: Seq<char>)
    requires
        is_identifier(module),
        module.len() <= 4 + MAX_TOKEN_LENGTH,
    ensures
        is_plain_name(file_name(module)),
        file_name(module).len() == module.len() + 3,
        file_name(module)[module.len() as int] == '.',
{
    reveal_strlit(".py");
    let name = file_name(module);
    assert forall|i: int| 0 <= i < name.len() implies is_plain_char(#[trigger] name[i]) by {
        if i < module.len() {
            assert(is_name_char(module[i]));
        }
    }
    assert(name[0] == module[0]);
    assert(is_name_char(module[0]));
}

/// The three files of one half of a round can be handed to the sandbox:
/// they carry three plain names that differ from each other.
pub proof fn lemma_bundle_is_well_named(
    names: ModuleNames,
    submission_code: Seq<char>,
    opponent_code: Seq<char>,
    opponent_history: Seq<Option<bool>>,
)
    requires
        names.wf(),
    ensures
        bundle(names@.submission, names@.opponent, submission_code, opponent_code, opponent_history).len()
            == 3,
        well_named(
            bundle(
                names@.submission,
                names@.opponent,
                submission_code,
                opponent_code,
                opponent_history,
            ),
        ),
{
    reveal_strlit("run");
    let a = names@.submission;
    let b = names@.opponent;
    let files = bundle(a, b, submission_code, opponent_code, opponent_history);
    lemma_file_name_is_plain(a);
    lemma_file_name_is_plain(b);
    if file_name(a) == file_name(b) {
        assert(a == file_name(a).take(a.len() as int));
        assert(b == file_name(b).take(b.len() as int));
    }
    assert("run"@.len() == 3);
    assert("run"@[0] == 'r' && "run"@[1] == 'u' && "run"@[2] == 'n');
    assert(is_plain_name("run"@)) by {
        assert("run"@[0] != '.');
    }
    assert(files[0].name == "run"@);
    assert(files[1].name == file_name(a));
    assert(files[2].name == file_name(b));
}

} // verus!
