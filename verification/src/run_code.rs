//! The protocol of the sandbox service: the files of a run travel as a tar
//! archive in base64, and the output of the run comes back in base64.
use crate::handlers::report_base64_err;
use crate::handlers::report_io_err;
use crate::response::AppError;
use crate::sandbox::bundle;
use crate::sandbox::file_views;
use crate::sandbox::is_plain_name;
use crate::sandbox::lemma_bundle_is_well_named;
use crate::sandbox::sandbox_files;
use crate::sandbox::well_named;
use crate::sandbox::ModuleNames;
use crate::sandbox::SandboxFile;
use crate::sandbox::SandboxFileView;
use crate::sandbox::MAX_NAME_LENGTH;
use vstd::prelude::*;
use vstd::utf8::encode_utf8;

verus! {

/// The permissions under which every file enters the archive: anyone may
/// read, write and execute it.
pub const FILE_MODE: u32 = 0o777;

/// The highest permissions that the header of an entry can hold: seven
/// octal digits.
pub const MAX_MODE: u32 = 0o7777777;

/// A failure: the error that the client is told, and what the log is told
/// of its cause.
#[derive(Clone, Debug, PartialEq, Eq)]
pub struct Failure {
    pub error: AppError,
    pub detail: String,
}

/// A request to the sandbox: the archive of the files in base64, and the
/// time that the run may take, in milliseconds.
#[derive(Clone, Debug, PartialEq, Eq)]
pub struct RunCodeRequest {
    pub base_64_tar_gz: String,
    pub max_time_ms: u64,
}

/// The answer of the sandbox: what the run wrote, in base64, and the code
/// with which it ended, if it ended by itself.
#[derive(Clone, Debug, PartialEq, Eq)]
pub struct RunCodeResponse {
    pub stdout: String,
    pub stderr: String,
    pub exit_code: Option<i64>,
}

/// The outcome of a run: what it wrote, as text, and the code with which it
/// ended, if it ended by itself.
#[derive(Clone, Debug, PartialEq, Eq)]
pub struct SubmissionSummary {
    pub stdout: String,
    pub stderr: String,
    pub exit_code: Option<i64>,
}

/// What an answer or an outcome holds, as mathematical values.
pub struct OutputView {
    pub stdout: Seq<char>,
    pub stderr: Seq<char>,
    pub exit_code: Option<i64>,
}

impl View for RunCodeResponse {
    type V = OutputView;

    open spec fn view(&self) -> OutputView {
        OutputView { stdout: self.stdout@, stderr: self.stderr@, exit_code: self.exit_code }
    }
}

impl View for SubmissionSummary {
    type V = OutputView;

    open spec fn view(&self) -> OutputView {
        OutputView { stdout: self.stdout@, stderr: self.stderr@, exit_code: self.exit_code }
    }
}

/// A tar archive under construction: a `tar::Builder` that writes into a
/// vector of bytes.
#[verifier::external_body]
pub struct Archive {
    builder: tar::Builder<Vec<u8>>,
}

/// The entries that were appended to an archive under construction, in
/// their order: the path, the permissions and the content of each.
pub uninterp spec fn archive_entries(archive: Archive) -> Seq<(Seq<char>, u32, Seq<u8>)>;

/// The bytes of the finished archive that holds `entries`, as
/// `tar::Builder::into_inner` returns them.
pub uninterp spec fn archive_bytes(entries: Seq<(Seq<char>, u32, Seq<u8>)>) -> Seq<u8>;

/// The size of a block of an archive. The header of an entry takes one
/// block, its content as many as it needs, and the end of the archive two.
pub const BLOCK_SIZE: usize = 512;

/// The room that content of `len` bytes takes in an archive: whole blocks.
pub open spec fn padded(len: int) -> int {
    (len + BLOCK_SIZE - 1) / (BLOCK_SIZE as int) * BLOCK_SIZE
}

/// The length of the finished archive that holds `entries`: for each entry
/// the block of its header and the blocks of its content, and two blocks at
/// the end.
pub open spec fn archive_length(entries: Seq<(Seq<char>, u32, Seq<u8>)>) -> int
    decreases entries.len(),
{
    if entries.len() == 0 {
        2 * BLOCK_SIZE
    } else {
        archive_length(entries.drop_last()) + BLOCK_SIZE + padded(entries.last().2.len() as int)
    }
}

/// The text that `base64::encode` returns for `bytes`.
pub uninterp spec fn base64_text(bytes: Seq<u8>) -> Seq<char>;

/// The bytes that `base64::decode` returns for `text`, or `None` where it
/// returns an error.
pub uninterp spec fn base64_bytes(text: Seq<char>) -> Option<Seq<u8>>;

/// The text that `String::from_utf8_lossy` returns for `bytes`.
pub uninterp spec fn lossy_text(bytes: Seq<u8>) -> Seq<char>;

/// Calls `tar::Builder::new` with an empty vector to write to. The archive
/// holds no entry yet.
#[verifier::external_body]
fn archive_new() -> (archive: Archive)
    ensures
        archive_entries(archive) == Seq::<(Seq<char>, u32, Seq<u8>)>::empty(),
{
    Archive { builder: tar::Builder::new(Vec::new()) }
}

/// Calls `tar::Builder::append_data` with a new GNU header that carries the
/// permissions `mode` and the size `size`.
///
/// The path must be a plain name: tar takes a path of one ordinary part
/// that fits the name field of the header, and stores it as it is. The
/// permissions must fit the seven octal digits of their field, and `size`
/// must be the length of `data`, as the archive is not valid otherwise.
/// Writing into a vector does not fail. So the call succeeds, and the
/// archive holds one entry more, with the path, the permissions and the
/// content that were given.
#[verifier::external_body]
fn archive_append(
    archive: &mut Archive,
    path: &str,
    mode: u32,
    size: u64,
    data: &[u8],
) -> (r: Result<(), std::io::Error>)
    requires
        is_plain_name(path@),
        mode <= MAX_MODE,
        size == data@.len(),
    ensures
        r is Ok && archive_entries(*final(archive)) == archive_entries(*old(archive)).push(
            (path@, mode, data@),
        ),
{
    let mut header = tar::Header::new_gnu();
    header.set_mode(mode);
    header.set_size(size);
    archive.builder.append_data(&mut header, path, data)
}

/// Calls `tar::Builder::into_inner`, which writes the end of the archive
/// and hands the vector out. Writing into a vector does not fail, so the
/// call succeeds, and it returns the bytes of the archive with the entries
/// that were appended. Each entry under a plain name was written as one
/// block of header and its content filled up to whole blocks, and the end
/// is two blocks, which gives the length.
#[verifier::external_body]
fn archive_finish(archive: Archive) -> (r: Result<Vec<u8>, std::io::Error>)
    ensures
        r is Ok,
        r matches Ok(bytes) ==> bytes@ == archive_bytes(archive_entries(archive)),
        r matches Ok(bytes) ==> bytes@.len() == archive_length(archive_entries(archive)),
{
    archive.builder.into_inner()
}

/// Calls `base64::encode`. It returns the text that stands for `bytes` in
/// the standard alphabet with padding. The length of that text, four
/// characters for every three bytes begun, must not exceed what a vector
/// can hold; the call panics otherwise.
#[verifier::external_body]
fn base64_encode(bytes: &[u8]) -> (text: String)
    requires
        (bytes@.len() / 3) * 4 + 4 <= isize::MAX,
    ensures
        text@ == base64_text(bytes@),
{
    base64::encode(bytes)
}

/// Calls `base64::decode`. It returns the bytes that `text` stands for in
/// the standard alphabet with padding, or an error where `text` stands for
/// none. The length of `text` in bytes, and seven more, must not exceed
/// what a vector can hold; the call panics otherwise.
#[verifier::external_body]
fn base64_decode(text: &str) -> (r: Result<Vec<u8>, base64::DecodeError>)
    requires
        encode_utf8(text@).len() + 7 <= isize::MAX,
    ensures
        match r {
            Ok(bytes) => base64_bytes(text@) == Some(bytes@),
            Err(_) => base64_bytes(text@) is None,
        },
{
    base64::decode(text)
}

/// Calls `String::from_utf8_lossy`. It returns `bytes` read as UTF-8, with
/// the replacement character in place of what is not UTF-8.
#[verifier::external_body]
fn utf8_lossy(bytes: &[u8]) -> (text: String)
    ensures
        text@ == lossy_text(bytes@),
{
    String::from_utf8_lossy(bytes).into_owned()
}

/// Writes out what a `std::io::Error` says of itself, for the log. Nothing
/// is claimed of the text.
#[verifier::external_body]
fn io_error_text(e: &std::io::Error) -> (text: String) {
    format!("{}", e)
}

/// Writes out what a `base64::DecodeError` says of itself, for the log.
/// Nothing is claimed of the text.
#[verifier::external_body]
fn decode_error_text(e: &base64::DecodeError) -> (text: String) {
    format!("{}", e)
}

/// The entry under which a file enters the archive: its name as the path,
/// the permissions of every file, and its content in UTF-8.
pub open spec fn entry_of(file: SandboxFileView) -> (Seq<char>, u32, Seq<u8>) {
    (file.name, FILE_MODE, encode_utf8(file.content))
}

/// The entries of the archive of `files`: one for each file, in their
/// order.
pub open spec fn entries_of(files: Seq<SandboxFileView>) -> Seq<(Seq<char>, u32, Seq<u8>)> {
    Seq::new(files.len(), |i: int| entry_of(files[i]))
}

/// An internal error whose cause is a decision of this library.
fn refusal(detail: &str) -> (f: Failure)
    ensures
        f.error == AppError::InternalServerError,
        f.detail@ == detail@,
{
    Failure { error: AppError::InternalServerError, detail: String::from_str(detail) }
}

/// What becomes of the outcome of reading or writing: a value passes, a
/// failure is reported as an internal error, with what it says of itself
/// for the log.
pub fn io_outcome<T>(outcome: Result<T, std::io::Error>) -> (r: Result<T, Failure>)
    ensures
        match outcome {
            Ok(value) => r == Ok::<T, Failure>(value),
            Err(_) => r matches Err(f) && f.error == AppError::InternalServerError,
        },
{
    match outcome {
        Ok(value) => Ok(value),
        Err(e) => {
            let detail = io_error_text(&e);
            Err(Failure { error: report_io_err(e), detail })
        },
    }
}

/// Whether `name` is a plain name.
fn check_plain_name(name: &str) -> (b: bool)
    ensures
        b == is_plain_name(name@),
{
    let n = name.unicode_len();
    if n == 0 || n > MAX_NAME_LENGTH {
        return false;
    }
    let mut other_than_dot = false;
    let mut i: usize = 0;
    while i < n
        invariant
            i <= n,
            n == name@.len(),
            forall|k: int| 0 <= k < i ==> crate::sandbox::is_plain_char(#[trigger] name@[k]),
            other_than_dot <==> exists|k: int| 0 <= k < i && #[trigger] name@[k] != '.',
        decreases n - i,
    {
        let c = name.get_char(i);
        let ok = ('a' <= c && c <= 'z') || ('A' <= c && c <= 'Z') || ('0' <= c && c <= '9') || c
            == '_' || c == '.';
        if !ok {
            return false;
        }
        if c != '.' {
            other_than_dot = true;
        }
        i += 1;
    }
    other_than_dot
}

/// Whether the files of a list carry plain names that differ from each
/// other.
fn check_well_named(files: &Vec<SandboxFile>) -> (b: bool)
    ensures
        b == well_named(file_views(files@)),
{
    let ghost views = file_views(files@);
    let mut j: usize = 0;
    while j < files.len()
        invariant
            j <= files.len(),
            views == file_views(files@),
            forall|k: int| 0 <= k < j ==> is_plain_name((#[trigger] views[k]).name),
            forall|a: int, b: int|
                0 <= a < b < j ==> (#[trigger] views[a]).name != (#[trigger] views[b]).name,
        decreases files.len() - j,
    {
        if !check_plain_name(files[j].name.as_str()) {
            assert(!is_plain_name(views[j as int].name));
            return false;
        }
        let mut i: usize = 0;
        while i < j
            invariant
                i <= j < files.len(),
                views == file_views(files@),
                forall|a: int| 0 <= a < i ==> (#[trigger] views[a]).name != views[j as int].name,
            decreases j - i,
        {
            if files[i].name == files[j].name {
                assert(views[i as int].name == views[j as int].name);
                return false;
            }
            i += 1;
        }
        j += 1;
    }
    true
}

/// Packs `files` into a tar archive, in their order, each with the
/// permissions `FILE_MODE`.
///
/// The files must carry plain names that differ from each other. A list
/// that does not is refused with an internal error.
pub fn archive_files(files: &Vec<SandboxFile>) -> (r: Result<Vec<u8>, Failure>)
    ensures
        r is Ok <==> well_named(file_views(files@)),
        r matches Ok(bytes) ==> bytes@ == archive_bytes(entries_of(file_views(files@)))
            && bytes@.len() == archive_length(entries_of(file_views(files@))),
        r matches Err(f) ==> f.error == AppError::InternalServerError,
{
    if !check_well_named(files) {
        return Err(refusal("the files of a run must carry plain names that differ"));
    }
    let ghost views = file_views(files@);
    let mut archive = archive_new();
    let mut i: usize = 0;
    while i < files.len()
        invariant
            i <= files.len(),
            views == file_views(files@),
            well_named(views),
            archive_entries(archive) == entries_of(views).take(i as int),
        decreases files.len() - i,
    {
        let file = &files[i];
        let data = file.content.as_str().as_bytes();
        let size = data.len() as u64;
        proof {
            let all = entries_of(views);
            assert(all.take(i + 1) == all.take(i as int).push(all[i as int]));
            assert(is_plain_name(views[i as int].name));
        }
        match io_outcome(archive_append(&mut archive, file.name.as_str(), FILE_MODE, size, data)) {
            Err(e) => {
                return Err(e);
            },
            Ok(_) => {},
        }
        i += 1;
    }
    proof {
        assert(entries_of(views).take(i as int) == entries_of(views));
    }
    io_outcome(archive_finish(archive))
}

/// Whether the base64 text of `len` bytes can be as long as it must be: four
/// characters for every three bytes begun.
pub open spec fn fits_base64(len: int) -> bool {
    0 <= len && (len / 3) * 4 + 4 <= isize::MAX
}

/// Writes `bytes` in base64. Bytes whose text would be longer than any
/// text can be are refused with an internal error.
pub fn encode_archive(bytes: &Vec<u8>) -> (r: Result<String, Failure>)
    ensures
        r is Ok <==> fits_base64(bytes@.len() as int),
        r matches Ok(text) ==> text@ == base64_text(bytes@),
        r matches Err(f) ==> f.error == AppError::InternalServerError,
{
    if bytes.len() / 3 > (isize::MAX as usize - 4) / 4 {
        return Err(refusal("the archive of a run is too long to be written in base64"));
    }
    Ok(base64_encode(bytes.as_slice()))
}

/// Whether a request can be made for `files`: they carry plain names that
/// differ from each other, and their archive is not too long for base64.
pub open spec fn can_request(files: Seq<SandboxFileView>) -> bool {
    well_named(files) && fits_base64(archive_length(entries_of(files)))
}

/// Makes the request that has the sandbox run `files` for at most
/// `max_time_ms` milliseconds: the archive of the files, in base64.
///
/// A list of files for which no request can be made is refused with an
/// internal error.
pub fn run_code_request(files: &Vec<SandboxFile>, max_time_ms: u64) -> (r: Result<
    RunCodeRequest,
    Failure,
>)
    ensures
        r is Ok <==> can_request(file_views(files@)),
        r matches Ok(request) ==> request.max_time_ms == max_time_ms && request.base_64_tar_gz@
            == base64_text(archive_bytes(entries_of(file_views(files@)))),
        r matches Err(f) ==> f.error == AppError::InternalServerError,
{
    let bytes = match archive_files(files) {
        Ok(bytes) => bytes,
        Err(e) => {
            return Err(e);
        },
    };
    match encode_archive(&bytes) {
        Ok(text) => Ok(RunCodeRequest { base_64_tar_gz: text, max_time_ms }),
        Err(e) => Err(e),
    }
}

/// Makes the request for one half of a round, in which the program
/// `submission_code` decides against the program `opponent_code`, knowing
/// what the opponent did in the rounds before.
///
/// The request is made unless the archive of the three files is too long
/// for base64.
pub fn round_request(
    names: &ModuleNames,
    submission_code: &str,
    opponent_code: &str,
    opponent_history: &Vec<Option<bool>>,
    max_time_ms: u64,
) -> (r: Result<RunCodeRequest, Failure>)
    requires
        names.wf(),
    ensures
        ({
            let files = bundle(
                names@.submission,
                names@.opponent,
                submission_code@,
                opponent_code@,
                opponent_history@,
            );
            &&& r is Ok <==> fits_base64(archive_length(entries_of(files)))
            &&& r matches Ok(request) ==> request.max_time_ms == max_time_ms
                && request.base_64_tar_gz@ == base64_text(archive_bytes(entries_of(files)))
            &&& r matches Err(f) ==> f.error == AppError::InternalServerError
        }),
{
    let files = sandbox_files(names, submission_code, opponent_code, opponent_history);
    proof {
        lemma_bundle_is_well_named(*names, submission_code@, opponent_code@, opponent_history@);
    }
    run_code_request(&files, max_time_ms)
}

/// What becomes of output that was decoded from base64: the bytes are read
/// as text, a failure is reported as an internal error, with what it says
/// of itself for the log.
pub fn decoded_text(decoded: Result<Vec<u8>, base64::DecodeError>) -> (r: Result<String, Failure>)
    ensures
        match decoded {
            Ok(bytes) => r matches Ok(text) && text@ == lossy_text(bytes@),
            Err(_) => r matches Err(f) && f.error == AppError::InternalServerError,
        },
{
    match decoded {
        Ok(bytes) => Ok(utf8_lossy(bytes.as_slice())),
        Err(e) => {
            let detail = decode_error_text(&e);
            Err(Failure { error: report_base64_err(e), detail })
        },
    }
}

/// The text that output in base64 stands for, or `None` where it is not
/// base64, or longer than can be decoded.
pub open spec fn output_text(text: Seq<char>) -> Option<Seq<char>> {
    if encode_utf8(text).len() + 7 > isize::MAX {
        None
    } else {
        match base64_bytes(text) {
            Some(bytes) => Some(lossy_text(bytes)),
            None => None,
        }
    }
}

/// Reads output that the sandbox sent in base64. Output that is not base64
/// is reported as an internal error.
pub fn decode_output(text: &str) -> (r: Result<String, Failure>)
    ensures
        match output_text(text@) {
            Some(decoded) => r matches Ok(s) && s@ == decoded,
            None => r matches Err(f) && f.error == AppError::InternalServerError,
        },
{
    if text.as_bytes().len() > isize::MAX as usize - 7 {
        return Err(refusal("the output of a run is too long to be read from base64"));
    }
    decoded_text(base64_decode(text))
}

/// Reads the answer of the sandbox: what the run wrote, as text, and its
/// exit code. An answer whose output is not base64 is reported as an
/// internal error.
pub fn summarize(response: &RunCodeResponse) -> (r: Result<SubmissionSummary, Failure>)
    ensures
        match (output_text(response@.stdout), output_text(response@.stderr)) {
            (Some(stdout), Some(stderr)) => r matches Ok(summary) && summary@ == (OutputView {
                stdout,
                stderr,
                exit_code: response.exit_code,
            }),
            _ => r matches Err(f) && f.error == AppError::InternalServerError,
        },
{
    let stdout = match decode_output(response.stdout.as_str()) {
        Ok(text) => text,
        Err(e) => {
            return Err(e);
        },
    };
    let stderr = match decode_output(response.stderr.as_str()) {
        Ok(text) => text,
        Err(e) => {
            return Err(e);
        },
    };
    Ok(SubmissionSummary { stdout, stderr, exit_code: response.exit_code })
}

} // verus!
