//! Resolution: turning a declaration into final bytes, a content type and an
//! entity tag.
//!
//! Reading the source and running a command are left to the caller. A
//! resolution that waits for either says what it waits for, and goes on when
//! it is handed the outcome.

use crate::digest::{etag_of, mk_etag};
use crate::file::{ByteString, Command, CommandView, File, FileView, StaticFile, StaticFileView};
use crate::file::{commands_view, sass_program};
use crate::mime::{ContentType, content_type_for, content_type_of, css_type};
use crate::text::{debug_format, debug_text, from_utf8_lossy, lossy_text};
use vstd::prelude::*;
use vstd::slice::slice_to_vec;
use vstd::string::{StringExecFns, StringSliceAdditionalSpecFns};
use vstd::utf8::valid_utf8;

verus! {

/// What came of reading a source file.
#[derive(Debug)]
pub enum SourceRead {
    /// The whole content of the file.
    Found(Vec<u8>),
    /// There is no such file.
    Missing,
    /// The file is there, and reading it failed.
    Unreadable,
}

/// The model of what came of reading a source.
pub enum SourceReadView {
    Found(Seq<u8>),
    Missing,
    Unreadable,
}

impl View for SourceRead {
    type V = SourceReadView;

    open spec fn view(&self) -> SourceReadView {
        match self {
            SourceRead::Found(bytes) => SourceReadView::Found(bytes@),
            SourceRead::Missing => SourceReadView::Missing,
            SourceRead::Unreadable => SourceReadView::Unreadable,
        }
    }
}

/// What came of running one command to its end: whether it exited with
/// status zero, and all that it wrote to its output and error streams.
#[derive(Debug)]
pub struct Exit {
    pub success: bool,
    pub stdout: Vec<u8>,
    pub stderr: Vec<u8>,
}

/// The model of what came of running a command.
pub struct ExitView {
    pub success: bool,
    pub stdout: Seq<u8>,
    pub stderr: Seq<u8>,
}

impl View for Exit {
    type V = ExitView;

    open spec fn view(&self) -> ExitView {
        ExitView { success: self.success, stdout: self.stdout@, stderr: self.stderr@ }
    }
}

/// Why a resolution failed.
#[derive(Debug)]
pub enum ResolveError {
    /// The source file, named here, does not exist.
    AssetNotFound(String),
    /// The source file, named here, could not be read, or was to be read as
    /// text and is not UTF-8.
    ReadError(String),
    /// The command named first exited with a status other than zero; the
    /// bytes are all that it wrote to its error stream.
    TransformFailure(String, Vec<u8>),
}

/// The model of a failed resolution.
pub enum ResolveErrorView {
    AssetNotFound(Seq<char>),
    ReadError(Seq<char>),
    TransformFailure(Seq<char>, Seq<u8>),
}

impl View for ResolveError {
    type V = ResolveErrorView;

    open spec fn view(&self) -> ResolveErrorView {
        match self {
            ResolveError::AssetNotFound(path) => ResolveErrorView::AssetNotFound(path@),
            ResolveError::ReadError(path) => ResolveErrorView::ReadError(path@),
            ResolveError::TransformFailure(command, stderr) => ResolveErrorView::TransformFailure(
                command@,
                stderr@,
            ),
        }
    }
}

/// The words for a failed command, around the text of its error stream.
pub open spec fn failure_text(command: Seq<char>, stderr: Seq<char>) -> Seq<char> {
    command + " failed: "@ + stderr
}

/// What a failure reads like.
pub open spec fn resolve_error_text(error: ResolveErrorView) -> Seq<char> {
    match error {
        ResolveErrorView::AssetNotFound(path) => debug_text(path) + " doesn't exist"@,
        ResolveErrorView::ReadError(path) => debug_text(path) + " couldn't be read"@,
        ResolveErrorView::TransformFailure(command, stderr) => failure_text(
            command,
            lossy_text(stderr),
        ),
    }
}

/// Writes the words for a failed command around the text of its error
/// stream.
pub fn format_failure(command: &str, stderr: &str) -> (text: String)
    ensures
        text@ == failure_text(command@, stderr@),
{
    let mut text: String = String::from_str(command);
    text.append(" failed: ");
    text.append(stderr);
    text
}

impl ResolveError {
    /// The failure in words. A failed command is named, and what it wrote
    /// to its error stream follows.
    pub fn message(&self) -> (text: String)
        ensures
            text@ == resolve_error_text(self@),
    {
        match self {
            ResolveError::AssetNotFound(path) => {
                let mut text: String = debug_format(path.as_str());
                text.append(" doesn't exist");
                text
            },
            ResolveError::ReadError(path) => {
                let mut text: String = debug_format(path.as_str());
                text.append(" couldn't be read");
                text
            },
            ResolveError::TransformFailure(command, stderr) => format_failure(
                command.as_str(),
                from_utf8_lossy(stderr.as_slice()).as_str(),
            ),
        }
    }
}

/// `std::str::from_utf8`, asked only whether it succeeds: it does on the
/// byte sequences that are valid UTF-8, and on no others.
#[verifier::external_body]
pub(crate) fn is_utf8(bytes: &[u8]) -> (valid: bool)
    ensures
        valid == valid_utf8(bytes@),
{
    std::str::from_utf8(bytes).is_ok()
}

/// The line that is put before the source of every transformed asset. It
/// tells the stylesheet under which prefix the assets are served.
pub open spec fn preamble() -> Seq<u8> {
    "$static_prefix: '/s/';\n".spec_bytes()
}

/// The asset with the given name, bytes and content type, and with the
/// entity tag of those bytes.
pub open spec fn asset(name: Seq<char>, bytes: Seq<u8>, mime: (Seq<char>, Seq<char>))
    -> StaticFileView {
    StaticFileView { name: name, bytes: bytes, mime: mime, etag: etag_of(bytes) }
}

/// A resolution that waits for one command to exit: the command at `stage`
/// of `chain`, run on `input`.
pub struct PendingRunView {
    pub name: Seq<char>,
    pub chain: Seq<CommandView>,
    pub stage: int,
    pub input: Seq<u8>,
}

impl PendingRunView {
    /// The stage is one of the chain.
    pub open spec fn wf(self) -> bool {
        0 <= self.stage < self.chain.len()
    }

    /// The command that is waited for.
    pub open spec fn command(self) -> CommandView {
        self.chain[self.stage]
    }
}

/// The model of where a resolution stands.
pub enum StepView {
    Run(PendingRunView),
    Done(StaticFileView),
    Failed(ResolveErrorView),
}

/// Where a resolution stands once the source has been read.
///
/// A missing source fails it with `AssetNotFound`, an unreadable one with
/// `ReadError`. A plain asset is then done: its bytes are the source, its
/// content type follows from the extension of its logical path. Any other
/// source is read as text, so one that is not UTF-8 is a `ReadError`; the
/// preamble goes before it, and the result is the input of the first
/// command, or the finished stylesheet where the chain is empty.
pub open spec fn after_source(file: FileView, read: SourceReadView) -> StepView {
    match read {
        SourceReadView::Missing => StepView::Failed(ResolveErrorView::AssetNotFound(file.source())),
        SourceReadView::Unreadable => StepView::Failed(ResolveErrorView::ReadError(file.source())),
        SourceReadView::Found(bytes) => if file.is_plain() {
            StepView::Done(asset(file.name(), bytes, content_type_of(file.name())))
        } else if !valid_utf8(bytes) {
            StepView::Failed(ResolveErrorView::ReadError(file.source()))
        } else if file.chain().len() == 0 {
            StepView::Done(asset(file.name(), preamble() + bytes, css_type()))
        } else {
            StepView::Run(
                PendingRunView {
                    name: file.name(),
                    chain: file.chain(),
                    stage: 0,
                    input: preamble() + bytes,
                },
            )
        },
    }
}

/// What one command's exit means for the data that went through it: its
/// output on success, and otherwise a `TransformFailure` that names the
/// command and carries its error stream untouched.
pub open spec fn transformed(command: CommandView, exit: ExitView) -> Result<
    Seq<u8>,
    ResolveErrorView,
> {
    if exit.success {
        Ok(exit.stdout)
    } else {
        Err(ResolveErrorView::TransformFailure(command.executable, exit.stderr))
    }
}

/// Where a resolution stands once the command it waited for has exited.
///
/// A failed command fails the whole chain. The output of a successful one is
/// the input of the next command, or, after the last, the finished
/// stylesheet.
pub open spec fn after_exit(run: PendingRunView, exit: ExitView) -> StepView {
    match transformed(run.command(), exit) {
        Err(error) => StepView::Failed(error),
        Ok(output) => if run.stage + 1 < run.chain.len() {
            StepView::Run(
                PendingRunView {
                    name: run.name,
                    chain: run.chain,
                    stage: run.stage + 1,
                    input: output,
                },
            )
        } else {
            StepView::Done(asset(run.name, output, css_type()))
        },
    }
}

/// A resolution that waits for its source to be read.
#[derive(Debug)]
pub struct PendingRead {
    file: File,
}

/// A resolution that waits for one command of its chain to exit.
#[derive(Debug)]
pub struct PendingRun {
    name: String,
    chain: Vec<Command>,
    stage: usize,
    input: Vec<u8>,
}

/// Where a resolution stands.
#[derive(Debug)]
pub enum Step {
    /// A command has to be run before the resolution can go on.
    Run(PendingRun),
    /// The asset is resolved.
    Done(StaticFile),
    /// The resolution failed.
    Failed(ResolveError),
}

impl View for PendingRun {
    type V = PendingRunView;

    closed spec fn view(&self) -> PendingRunView {
        PendingRunView {
            name: self.name@,
            chain: commands_view(self.chain@),
            stage: self.stage as int,
            input: self.input@,
        }
    }
}

impl View for Step {
    type V = StepView;

    open spec fn view(&self) -> StepView {
        match self {
            Step::Run(run) => StepView::Run(run@),
            Step::Done(file) => StepView::Done(file@),
            Step::Failed(error) => StepView::Failed(error@),
        }
    }
}

/// Applies the outcome of one command to the data that went through it.
pub fn command_output(command: &Command, exit: Exit) -> (output: Result<Vec<u8>, ResolveError>)
    ensures
        match output {
            Ok(bytes) => transformed(command@, exit@) == Ok::<Seq<u8>, ResolveErrorView>(bytes@),
            Err(error) => transformed(command@, exit@) == Err::<Seq<u8>, ResolveErrorView>(
                error@,
            ),
        },
{
    if exit.success {
        Ok(exit.stdout)
    } else {
        Err(ResolveError::TransformFailure(command.executable.clone(), exit.stderr))
    }
}

/// Builds the resolved asset for `bytes`: the entity tag is computed from
/// the bytes.
pub fn finish(name: String, bytes: Vec<u8>, mime: ContentType) -> (file: StaticFile)
    ensures
        file@ == asset(name@, bytes@, mime@),
{
    let etag: String = mk_etag(bytes.as_slice());
    StaticFile { name: name, bytes: ByteString::Dynamic(bytes), mime: mime, etag: etag }
}

impl PendingRead {
    /// The declaration that is being resolved.
    pub closed spec fn file(&self) -> FileView {
        self.file@
    }

    /// The path of the file that has to be read.
    pub fn source_path(&self) -> (path: &'static str)
        ensures
            path@ == self.file().source(),
    {
        self.file.source_path()
    }

    /// Goes on with what came of reading the source.
    pub fn supply(self, read: SourceRead) -> (step: Step)
        ensures
            step@ == after_source(self.file(), read@),
            step matches Step::Run(run) ==> run@.wf(),
    {
        let source: String = String::from_str(self.file.source_path());
        let bytes: Vec<u8> = match read {
            SourceRead::Missing => {
                return Step::Failed(ResolveError::AssetNotFound(source));
            },
            SourceRead::Unreadable => {
                return Step::Failed(ResolveError::ReadError(source));
            },
            SourceRead::Found(bytes) => bytes,
        };
        let name: String = String::from_str(self.file.logical_path());
        let chain: Vec<Command> = match self.file {
            File::Plain(logical_path, _) => {
                let mime: ContentType = content_type_for(logical_path);
                return Step::Done(finish(name, bytes, mime));
            },
            File::Sass(_, _, args) => {
                let mut chain: Vec<Command> = Vec::new();
                proof {
                    reveal_strlit("sass");
                    assert("sass"@ =~= sass_program());
                }
                chain.push(Command::new(String::from_str("sass"), args));
                assert(commands_view(chain@) =~= self.file().chain());
                chain
            },
            File::Pipeline(_, _, chain) => chain,
        };
        if !is_utf8(bytes.as_slice()) {
            return Step::Failed(ResolveError::ReadError(source));
        }
        let mut bytes: Vec<u8> = bytes;
        let mut input: Vec<u8> = slice_to_vec("$static_prefix: '/s/';\n".as_bytes());
        input.append(&mut bytes);
        if chain.len() == 0 {
            Step::Done(finish(name, input, ContentType::css()))
        } else {
            Step::Run(PendingRun { name: name, chain: chain, stage: 0, input: input })
        }
    }
}

impl PendingRun {
    #[verifier::type_invariant]
    spec fn in_chain(&self) -> bool {
        self.stage < self.chain@.len()
    }

    /// The command that has to be run.
    pub fn command(&self) -> (command: &Command)
        ensures
            self@.wf(),
            command@ == self@.command(),
    {
        proof {
            use_type_invariant(self);
        }
        &self.chain[self.stage]
    }

    /// What the command is to read from its input stream.
    pub fn stdin(&self) -> (bytes: &[u8])
        ensures
            bytes@ == self@.input,
    {
        self.input.as_slice()
    }

    /// Goes on with what came of running the command.
    pub fn supply(self, exit: Exit) -> (step: Step)
        ensures
            self@.wf(),
            step@ == after_exit(self@, exit@),
            step matches Step::Run(run) ==> run@.wf(),
    {
        proof {
            use_type_invariant(&self);
        }
        let stages: usize = self.chain.len();
        match command_output(&self.chain[self.stage], exit) {
            Err(error) => Step::Failed(error),
            Ok(output) => {
                if self.stage + 1 < stages {
                    Step::Run(
                        PendingRun {
                            name: self.name,
                            chain: self.chain,
                            stage: self.stage + 1,
                            input: output,
                        },
                    )
                } else {
                    Step::Done(finish(self.name, output, ContentType::css()))
                }
            },
        }
    }
}

impl File {
    /// Begins the resolution of the declaration. Nothing is read or run
    /// yet: the resolution waits for the source.
    pub fn resolve(self) -> (pending: PendingRead)
        ensures
            pending.file() == self@,
    {
        PendingRead { file: self }
    }
}

} // verus!
