//! Program text written as plain strings: items go by their short names,
//! which the generated unit imports.
//!
//! The text is put together in two layers. The templates at the bottom place
//! texts that are already quoted between fixed pieces of program text. Above
//! them, the `as_literal` methods quote the strings of a value and hand them
//! to the templates.

use crate::file::{ByteString, Command, CommandView, File, FileView, StaticFile, StaticFileView};
use crate::file::{commands_view, strings_view};
use crate::registry::{Producer, ProducerView, producers_view};
use crate::text::{debug_format, debug_text, escaped_bytes, push_escaped_bytes};
use vstd::prelude::*;
use vstd::string::StringExecFns;

verus! {

/// An owned-string expression around a quoted string.
pub open spec fn string_expr(quoted: Seq<char>) -> Seq<char> {
    "String::from("@ + quoted + ")"@
}

/// An item of a list, with the comma and the space that follow it.
pub open spec fn list_item(item: Seq<char>) -> Seq<char> {
    item + ", "@
}

/// An expression that builds a command from the expression of its
/// executable and the items of its arguments.
pub open spec fn command_expr(executable: Seq<char>, args: Seq<char>) -> Seq<char> {
    "Command::new("@ + executable + ", vec!["@ + args + "])"@
}

/// An expression that builds a plain declaration from two quoted paths.
pub open spec fn plain_expr(name: Seq<char>, source: Seq<char>) -> Seq<char> {
    "File::Plain("@ + name + ", "@ + source + ")"@
}

/// An expression that builds a stylesheet declaration from two quoted paths
/// and the items of its arguments.
pub open spec fn sass_expr(name: Seq<char>, source: Seq<char>, args: Seq<char>) -> Seq<char> {
    "File::Sass("@ + name + ", "@ + source + ", vec!["@ + args + "])"@
}

/// An expression that builds a pipeline declaration from two quoted paths
/// and the items of its chain.
pub open spec fn pipeline_expr(name: Seq<char>, source: Seq<char>, chain: Seq<char>) -> Seq<char> {
    "File::Pipeline("@ + name + ", "@ + source + ", vec!["@ + chain + "])"@
}

/// A borrowed byte-string literal in which every byte is escaped.
pub open spec fn byte_string_literal(bytes: Seq<u8>) -> Seq<char> {
    "ByteString::Static(b\""@ + escaped_bytes(bytes) + "\")"@
}

/// An expression that builds a resolved asset from its quoted name, the
/// literal of its bytes, the quoted halves of its content type and its
/// quoted entity tag.
pub open spec fn static_file_expr(
    name: Seq<char>,
    bytes: Seq<char>,
    ttype: Seq<char>,
    subtype: Seq<char>,
    etag: Seq<char>,
) -> Seq<char> {
    "StaticFile { name: String::from("@ + name + "), bytes: "@ + bytes
        + ", mime: ContentType::new("@ + ttype + ", "@ + subtype + "), etag: String::from("@ + etag
        + ") }"@
}

/// An expression that builds a lazy producer around a declaration.
pub open spec fn lazy_expr(file: Seq<char>) -> Seq<char> {
    "Producer::Lazy("@ + file + ")"@
}

/// An expression that builds an embedded producer around a resolved asset.
pub open spec fn embedded_expr(asset: Seq<char>) -> Seq<char> {
    "Producer::Embedded("@ + asset + ")"@
}

/// The statement that registers a producer under a quoted logical path.
pub open spec fn loader_stmt(name: Seq<char>, producer: Seq<char>) -> Seq<char> {
    "\n        m.push((String::from("@ + name + "), "@ + producer + "));"@
}

/// How the generated unit begins: its imports, and the head of the one
/// function that it exposes, which does nothing on a populated registry.
pub open spec fn module_head() -> Seq<char> {
    "
    #![allow(unused_imports)]
    use static_files::file::ByteString;
    use static_files::file::Command;
    use static_files::file::File;
    use static_files::file::StaticFile;
    use static_files::mime::ContentType;
    use static_files::registry::Producer;
    use static_files::registry::Registry;

    pub fn load_files(registry: &mut Registry) -> bool {
        if registry.is_populated() {
            return false;
        }
        let mut m: Vec<(String, Producer)> = Vec::new();
"@
}

/// How the generated unit ends: the registry is populated.
pub open spec fn module_tail() -> Seq<char> {
    "
        registry.populate(m)
    }
"@
}

/// The generated unit around its registering statements.
pub open spec fn module_expr(loaders: Seq<char>) -> Seq<char> {
    module_head() + loaders + module_tail()
}

/// An owned-string expression for a string.
pub open spec fn string_literal_text(s: Seq<char>) -> Seq<char> {
    string_expr(debug_text(s))
}

/// The items of a list of owned strings.
pub open spec fn string_items_text(items: Seq<Seq<char>>) -> Seq<char>
    decreases items.len(),
{
    if items.len() == 0 {
        Seq::empty()
    } else {
        string_items_text(items.drop_last()) + list_item(string_literal_text(items.last()))
    }
}

/// An expression that builds a command.
pub open spec fn command_literal(command: CommandView) -> Seq<char> {
    command_expr(string_literal_text(command.executable), string_items_text(command.args))
}

/// The items of a list of commands.
pub open spec fn command_items_text(chain: Seq<CommandView>) -> Seq<char>
    decreases chain.len(),
{
    if chain.len() == 0 {
        Seq::empty()
    } else {
        command_items_text(chain.drop_last()) + list_item(command_literal(chain.last()))
    }
}

/// An expression that builds a declaration.
pub open spec fn file_literal(file: FileView) -> Seq<char> {
    match file {
        FileView::Sass(name, source, args) => sass_expr(
            debug_text(name),
            debug_text(source),
            string_items_text(args),
        ),
        FileView::Pipeline(name, source, chain) => pipeline_expr(
            debug_text(name),
            debug_text(source),
            command_items_text(chain),
        ),
        FileView::Plain(name, source) => plain_expr(debug_text(name), debug_text(source)),
    }
}

/// An expression that builds a resolved asset.
pub open spec fn static_file_literal(asset: StaticFileView) -> Seq<char> {
    static_file_expr(
        debug_text(asset.name),
        byte_string_literal(asset.bytes),
        debug_text(asset.mime.0),
        debug_text(asset.mime.1),
        debug_text(asset.etag),
    )
}

/// An expression that builds a producer.
pub open spec fn producer_literal(producer: ProducerView) -> Seq<char> {
    match producer {
        ProducerView::Lazy(file) => lazy_expr(file_literal(file)),
        ProducerView::Embedded(asset) => embedded_expr(static_file_literal(asset)),
    }
}

/// The statement that registers one producer under its logical path.
pub open spec fn loader_text(producer: ProducerView) -> Seq<char> {
    loader_stmt(debug_text(producer.name()), producer_literal(producer))
}

/// The registering statements of a list of producers.
pub open spec fn loaders_text(producers: Seq<ProducerView>) -> Seq<char>
    decreases producers.len(),
{
    if producers.len() == 0 {
        Seq::empty()
    } else {
        loaders_text(producers.drop_last()) + loader_text(producers.last())
    }
}

/// The generated unit for a list of producers.
pub open spec fn module_text(producers: Seq<ProducerView>) -> Seq<char> {
    module_expr(loaders_text(producers))
}

/// Writes an owned-string expression around a quoted string.
pub fn format_string_expr(quoted: &str) -> (text: String)
    ensures
        text@ == string_expr(quoted@),
{
    let mut text: String = String::from_str("String::from(");
    text.append(quoted);
    text.append(")");
    text
}

/// Writes an expression that builds a command.
pub fn format_command_expr(executable: &str, args: &str) -> (text: String)
    ensures
        text@ == command_expr(executable@, args@),
{
    let mut text: String = String::from_str("Command::new(");
    text.append(executable);
    text.append(", vec![");
    text.append(args);
    text.append("])");
    text
}

/// Writes an expression that builds a plain declaration.
pub fn format_plain_expr(name: &str, source: &str) -> (text: String)
    ensures
        text@ == plain_expr(name@, source@),
{
    let mut text: String = String::from_str("File::Plain(");
    text.append(name);
    text.append(", ");
    text.append(source);
    text.append(")");
    text
}

/// Writes an expression that builds a stylesheet declaration.
pub fn format_sass_expr(name: &str, source: &str, args: &str) -> (text: String)
    ensures
        text@ == sass_expr(name@, source@, args@),
{
    let mut text: String = String::from_str("File::Sass(");
    text.append(name);
    text.append(", ");
    text.append(source);
    text.append(", vec![");
    text.append(args);
    text.append("])");
    text
}

/// Writes an expression that builds a pipeline declaration.
pub fn format_pipeline_expr(name: &str, source: &str, chain: &str) -> (text: String)
    ensures
        text@ == pipeline_expr(name@, source@, chain@),
{
    let mut text: String = String::from_str("File::Pipeline(");
    text.append(name);
    text.append(", ");
    text.append(source);
    text.append(", vec![");
    text.append(chain);
    text.append("])");
    text
}

/// Writes an expression that builds a resolved asset.
pub fn format_static_file_expr(name: &str, bytes: &str, ttype: &str, subtype: &str, etag: &str)
    -> (text: String)
    ensures
        text@ == static_file_expr(name@, bytes@, ttype@, subtype@, etag@),
{
    let mut text: String = String::from_str("StaticFile { name: String::from(");
    text.append(name);
    text.append("), bytes: ");
    text.append(bytes);
    text.append(", mime: ContentType::new(");
    text.append(ttype);
    text.append(", ");
    text.append(subtype);
    text.append("), etag: String::from(");
    text.append(etag);
    text.append(") }");
    text
}

/// Writes the statement that registers a producer under a quoted logical
/// path.
pub fn format_loader_stmt(name: &str, producer: &str) -> (text: String)
    ensures
        text@ == loader_stmt(name@, producer@),
{
    let mut text: String = String::from_str("\n        m.push((String::from(");
    text.append(name);
    text.append("), ");
    text.append(producer);
    text.append("));");
    text
}

/// Writes the generated unit around its registering statements.
pub fn format_module_expr(loaders: &str) -> (text: String)
    ensures
        text@ == module_expr(loaders@),
{
    let mut text: String = String::from_str(
        "
    #![allow(unused_imports)]
    use static_files::file::ByteString;
    use static_files::file::Command;
    use static_files::file::File;
    use static_files::file::StaticFile;
    use static_files::mime::ContentType;
    use static_files::registry::Producer;
    use static_files::registry::Registry;

    pub fn load_files(registry: &mut Registry) -> bool {
        if registry.is_populated() {
            return false;
        }
        let mut m: Vec<(String, Producer)> = Vec::new();
",
    );
    text.append(loaders);
    text.append("
        registry.populate(m)
    }
");
    text
}

/// The items of a list of owned strings.
fn string_items(items: &Vec<String>) -> (text: String)
    ensures
        text@ == string_items_text(strings_view(items@)),
{
    let ghost model = strings_view(items@);
    let mut text: String = String::new();
    let mut i: usize = 0;
    while i < items.len()
        invariant
            i <= items@.len(),
            model == strings_view(items@),
            text@ == string_items_text(model.take(i as int)),
        decreases items@.len() - i,
    {
        let quoted: String = debug_format(items[i].as_str());
        text.append(format_string_expr(quoted.as_str()).as_str());
        text.append(", ");
        proof {
            assert(model.take(i as int + 1).drop_last() =~= model.take(i as int));
            assert(text@ =~= string_items_text(model.take(i as int + 1)));
        }
        i += 1;
    }
    proof {
        assert(model.take(items@.len() as int) =~= model);
    }
    text
}

impl Command {
    /// An expression that builds the command.
    pub fn as_literal(&self) -> (text: String)
        ensures
            text@ == command_literal(self@),
    {
        let quoted: String = debug_format(self.executable.as_str());
        let executable: String = format_string_expr(quoted.as_str());
        format_command_expr(executable.as_str(), string_items(&self.args).as_str())
    }
}

/// The items of a list of commands.
fn command_items(chain: &Vec<Command>) -> (text: String)
    ensures
        text@ == command_items_text(commands_view(chain@)),
{
    let ghost model = commands_view(chain@);
    let mut text: String = String::new();
    let mut i: usize = 0;
    while i < chain.len()
        invariant
            i <= chain@.len(),
            model == commands_view(chain@),
            text@ == command_items_text(model.take(i as int)),
        decreases chain@.len() - i,
    {
        text.append(chain[i].as_literal().as_str());
        text.append(", ");
        proof {
            assert(model.take(i as int + 1).drop_last() =~= model.take(i as int));
            assert(text@ =~= command_items_text(model.take(i as int + 1)));
        }
        i += 1;
    }
    proof {
        assert(model.take(chain@.len() as int) =~= model);
    }
    text
}

impl File {
    /// An expression that builds the declaration.
    pub fn as_literal(&self) -> (text: String)
        ensures
            text@ == file_literal(self@),
    {
        match self {
            File::Sass(p, f, args) => format_sass_expr(
                debug_format(p).as_str(),
                debug_format(f).as_str(),
                string_items(args).as_str(),
            ),
            File::Pipeline(p, f, chain) => format_pipeline_expr(
                debug_format(p).as_str(),
                debug_format(f).as_str(),
                command_items(chain).as_str(),
            ),
            File::Plain(p, f) => format_plain_expr(
                debug_format(p).as_str(),
                debug_format(f).as_str(),
            ),
        }
    }
}

impl ByteString {
    /// A borrowed byte-string literal that holds the bytes, each of them
    /// escaped.
    pub fn as_literal(&self) -> (text: String)
        ensures
            text@ == byte_string_literal(self@),
    {
        let mut s: String = String::new();
        s.append("ByteString::Static(b\"");
        push_escaped_bytes(&mut s, self.as_ref());
        s.append("\")");
        assert(s@ =~= byte_string_literal(self@));
        s
    }
}

impl StaticFile {
    /// An expression that builds the resolved asset.
    pub fn as_literal(&self) -> (text: String)
        ensures
            text@ == static_file_literal(self@),
    {
        format_static_file_expr(
            debug_format(self.name.as_str()).as_str(),
            self.bytes.as_literal().as_str(),
            debug_format(self.mime.ttype.as_str()).as_str(),
            debug_format(self.mime.subtype.as_str()).as_str(),
            debug_format(self.etag.as_str()).as_str(),
        )
    }
}

impl Producer {
    /// An expression that builds the producer.
    pub fn as_literal(&self) -> (text: String)
        ensures
            text@ == producer_literal(self@),
    {
        match self {
            Producer::Lazy(file) => {
                let mut text: String = String::from_str("Producer::Lazy(");
                text.append(file.as_literal().as_str());
                text.append(")");
                text
            },
            Producer::Embedded(asset) => {
                let mut text: String = String::from_str("Producer::Embedded(");
                text.append(asset.as_literal().as_str());
                text.append(")");
                text
            },
        }
    }
}

/// Generates the program unit that populates a registry with `producers`,
/// as plain text: a lazy producer is written as its declaration, to be
/// resolved on every request, and an embedded one as the literal bytes,
/// content type and entity tag of its asset. The producers are registered in
/// the order given.
pub fn generate_file(producers: &Vec<Producer>) -> (source: String)
    ensures
        source@ == module_text(producers_view(producers@)),
{
    let ghost model = producers_view(producers@);
    let mut loaders: String = String::new();
    let mut i: usize = 0;
    while i < producers.len()
        invariant
            i <= producers@.len(),
            model == producers_view(producers@),
            loaders@ == loaders_text(model.take(i as int)),
        decreases producers@.len() - i,
    {
        let name: String = debug_format(producers[i].name());
        let loader: String = format_loader_stmt(
            name.as_str(),
            producers[i].as_literal().as_str(),
        );
        loaders.append(loader.as_str());
        proof {
            assert(model.take(i as int + 1).drop_last() =~= model.take(i as int));
        }
        i += 1;
    }
    proof {
        assert(model.take(producers@.len() as int) =~= model);
    }
    format_module_expr(loaders.as_str())
}

} // verus!
