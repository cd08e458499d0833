//! Asset declarations and resolved assets.

use crate::digest::etag_of;
use crate::mime::ContentType;
use vstd::prelude::*;
use vstd::string::StringExecFns;

verus! {

/// The bytes of an asset: borrowed from the program image, or owned.
#[derive(Debug)]
pub enum ByteString {
    Static(&'static [u8]),
    Dynamic(Vec<u8>),
}

impl View for ByteString {
    type V = Seq<u8>;

    open spec fn view(&self) -> Seq<u8> {
        match self {
            ByteString::Static(s) => s@,
            ByteString::Dynamic(v) => v@,
        }
    }
}

impl ByteString {
    /// The bytes, whichever way they are held.
    pub fn as_ref(&self) -> (bytes: &[u8])
        ensures
            bytes@ == self@,
    {
        match self {
            ByteString::Static(s) => s,
            ByteString::Dynamic(v) => v.as_slice(),
        }
    }
}

impl Clone for ByteString {
    fn clone(&self) -> (copy: ByteString)
        ensures
            copy@ == self@,
    {
        match self {
            ByteString::Static(s) => ByteString::Static(s),
            ByteString::Dynamic(v) => {
                let copy: Vec<u8> = v.clone();
                assert(copy@ =~= v@);
                ByteString::Dynamic(copy)
            },
        }
    }
}

/// A resolved asset: the logical path, the final bytes, their content type
/// and the entity tag of the bytes.
#[derive(Debug)]
pub struct StaticFile {
    pub name: String,
    pub bytes: ByteString,
    pub mime: ContentType,
    pub etag: String,
}

/// The model of a resolved asset.
pub struct StaticFileView {
    pub name: Seq<char>,
    pub bytes: Seq<u8>,
    pub mime: (Seq<char>, Seq<char>),
    pub etag: Seq<char>,
}

impl View for StaticFile {
    type V = StaticFileView;

    open spec fn view(&self) -> StaticFileView {
        StaticFileView {
            name: self.name@,
            bytes: self.bytes@,
            mime: self.mime@,
            etag: self.etag@,
        }
    }
}

impl StaticFileView {
    /// Whether the entity tag is the one that the bytes call for.
    pub open spec fn tagged(self) -> bool {
        self.etag == etag_of(self.bytes)
    }
}

impl Clone for StaticFile {
    fn clone(&self) -> (copy: StaticFile)
        ensures
            copy@ == self@,
    {
        StaticFile {
            name: self.name.clone(),
            bytes: self.bytes.clone(),
            mime: self.mime.clone(),
            etag: self.etag.clone(),
        }
    }
}

/// A string that is written out as an owned-string expression.
pub struct StringTok<'a>(pub &'a String);

/// One external command of a transformation chain: the executable, found on
/// the search path, and its arguments.
#[derive(Debug)]
pub struct Command {
    pub executable: String,
    pub args: Vec<String>,
}

/// The model of a command.
pub struct CommandView {
    pub executable: Seq<char>,
    pub args: Seq<Seq<char>>,
}

/// The texts of a sequence of strings.
pub open spec fn strings_view(v: Seq<String>) -> Seq<Seq<char>> {
    Seq::new(v.len(), |i: int| v[i]@)
}

/// The models of a sequence of commands.
pub open spec fn commands_view(v: Seq<Command>) -> Seq<CommandView> {
    Seq::new(v.len(), |i: int| v[i]@)
}

impl View for Command {
    type V = CommandView;

    open spec fn view(&self) -> CommandView {
        CommandView { executable: self.executable@, args: strings_view(self.args@) }
    }
}

/// A copy of a list of strings.
fn clone_strings(v: &Vec<String>) -> (copy: Vec<String>)
    ensures
        strings_view(copy@) == strings_view(v@),
{
    let mut copy: Vec<String> = Vec::new();
    let mut i: usize = 0;
    while i < v.len()
        invariant
            i <= v@.len(),
            copy@.len() == i,
            forall|k: int| 0 <= k < i ==> copy@[k]@ == v@[k]@,
        decreases v@.len() - i,
    {
        copy.push(v[i].clone());
        i += 1;
    }
    assert(strings_view(copy@) =~= strings_view(v@));
    copy
}

impl Command {
    pub fn new(executable: String, args: Vec<String>) -> (command: Command)
        ensures
            command@ == (CommandView { executable: executable@, args: strings_view(args@) }),
    {
        Command { executable, args }
    }
}

impl Clone for Command {
    fn clone(&self) -> (copy: Command)
        ensures
            copy@ == self@,
    {
        Command { executable: self.executable.clone(), args: clone_strings(&self.args) }
    }
}

/// A copy of a chain of commands.
fn clone_commands(v: &Vec<Command>) -> (copy: Vec<Command>)
    ensures
        commands_view(copy@) == commands_view(v@),
{
    let mut copy: Vec<Command> = Vec::new();
    let mut i: usize = 0;
    while i < v.len()
        invariant
            i <= v@.len(),
            copy@.len() == i,
            forall|k: int| 0 <= k < i ==> copy@[k]@ == v@[k]@,
        decreases v@.len() - i,
    {
        copy.push(v[i].clone());
        i += 1;
    }
    assert(commands_view(copy@) =~= commands_view(v@));
    copy
}

/// A declared asset: the logical path under which it is served, the path of
/// its source on disk, and how the source becomes the asset.
#[derive(Debug)]
pub enum File {
    /// Served as it is on disk.
    Plain(&'static str, &'static str),
    /// Compiled by `sass`, run with the given arguments.
    Sass(&'static str, &'static str, Vec<String>),
    /// Sent through a chain of commands, each fed the output of the one
    /// before it.
    Pipeline(&'static str, &'static str, Vec<Command>),
}

/// The model of a declaration.
pub enum FileView {
    Plain(Seq<char>, Seq<char>),
    Sass(Seq<char>, Seq<char>, Seq<Seq<char>>),
    Pipeline(Seq<char>, Seq<char>, Seq<CommandView>),
}

impl View for File {
    type V = FileView;

    open spec fn view(&self) -> FileView {
        match self {
            File::Plain(name, source) => FileView::Plain(name@, source@),
            File::Sass(name, source, args) => FileView::Sass(
                name@,
                source@,
                strings_view(args@),
            ),
            File::Pipeline(name, source, chain) => FileView::Pipeline(
                name@,
                source@,
                commands_view(chain@),
            ),
        }
    }
}

/// The name of the stylesheet compiler.
pub open spec fn sass_program() -> Seq<char> {
    seq!['s', 'a', 's', 's']
}

impl FileView {
    /// The logical path.
    pub open spec fn name(self) -> Seq<char> {
        match self {
            FileView::Plain(name, _) => name,
            FileView::Sass(name, _, _) => name,
            FileView::Pipeline(name, _, _) => name,
        }
    }

    /// The path of the source on disk.
    pub open spec fn source(self) -> Seq<char> {
        match self {
            FileView::Plain(_, source) => source,
            FileView::Sass(_, source, _) => source,
            FileView::Pipeline(_, source, _) => source,
        }
    }

    /// Whether the source is served untransformed.
    pub open spec fn is_plain(self) -> bool {
        self is Plain
    }

    /// The commands that the source is sent through, in order.
    pub open spec fn chain(self) -> Seq<CommandView> {
        match self {
            FileView::Plain(_, _) => Seq::empty(),
            FileView::Sass(_, _, args) => seq![
                CommandView { executable: sass_program(), args: args },
            ],
            FileView::Pipeline(_, _, chain) => chain,
        }
    }
}

/// Does no transformations.
pub fn plain(a: &'static str, b: &'static str) -> (file: File)
    ensures
        file@ == FileView::Plain(a@, b@),
{
    File::Plain(a, b)
}

/// Runs `sass` with no special arguments.
pub fn sass(a: &'static str, b: &'static str) -> (file: File)
    ensures
        file@ == FileView::Sass(a@, b@, Seq::empty()),
{
    let file = sass_args(a, b, Vec::new());
    assert(strings_view(Seq::<String>::empty()) =~= Seq::<Seq<char>>::empty());
    file
}

/// Runs `sass`, adding the provided arguments.
pub fn sass_args(a: &'static str, b: &'static str, args: Vec<String>) -> (file: File)
    ensures
        file@ == FileView::Sass(a@, b@, strings_view(args@)),
{
    File::Sass(a, b, args)
}

/// Sends the source through `chain`, first command first.
pub fn pipeline(a: &'static str, b: &'static str, chain: Vec<Command>) -> (file: File)
    ensures
        file@ == FileView::Pipeline(a@, b@, commands_view(chain@)),
{
    File::Pipeline(a, b, chain)
}

impl File {
    /// The logical path, as an owned string.
    pub fn filename(self) -> (name: String)
        ensures
            name@ == self@.name(),
    {
        String::from_str(self.logical_path())
    }

    /// The logical path.
    pub fn logical_path(&self) -> (name: &'static str)
        ensures
            name@ == self@.name(),
    {
        match self {
            File::Plain(name, _) => name,
            File::Sass(name, _, _) => name,
            File::Pipeline(name, _, _) => name,
        }
    }

    /// The path of the source on disk.
    pub fn source_path(&self) -> (source: &'static str)
        ensures
            source@ == self@.source(),
    {
        match self {
            File::Plain(_, source) => source,
            File::Sass(_, source, _) => source,
            File::Pipeline(_, source, _) => source,
        }
    }
}

impl Clone for File {
    fn clone(&self) -> (copy: File)
        ensures
            copy@ == self@,
    {
        match self {
            File::Plain(name, source) => File::Plain(name, source),
            File::Sass(name, source, args) => File::Sass(name, source, clone_strings(args)),
            File::Pipeline(name, source, chain) => File::Pipeline(
                name,
                source,
                clone_commands(chain),
            ),
        }
    }
}

} // verus!
