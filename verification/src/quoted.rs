//! Program text written through a token buffer: every item is named by its
//! full path, so the text needs no imports around it.

use crate::file::{ByteString, Command, CommandView, File, FileView, StaticFile};
use crate::file::{StaticFileView, StringTok, commands_view, strings_view};
use crate::registry::{Producer, ProducerView, producers_view};
use crate::text::{debug_format, debug_text, escaped_bytes, push_escaped_bytes};
use crate::tokens::{append, append_literal, lemma_spaced_all_concat, lemma_spaced_all_push};
use crate::tokens::{spaced_all, string_literal, tokens_text};
use vstd::prelude::*;
use vstd::string::StringExecFns;

verus! {

/// The tokens of an owned-string expression.
pub open spec fn string_tok_tokens(s: Seq<char>) -> Seq<Seq<char>> {
    seq!["String::from("@, string_literal(s), ")"@]
}

/// The tokens of the items of a list of owned strings, a comma behind each.
pub open spec fn string_items_tokens(items: Seq<Seq<char>>) -> Seq<Seq<char>>
    decreases items.len(),
{
    if items.len() == 0 {
        Seq::empty()
    } else {
        string_items_tokens(items.drop_last()) + string_tok_tokens(items.last()).push(","@)
    }
}

/// The tokens of a bracketed list of owned strings.
pub open spec fn string_list_tokens(items: Seq<Seq<char>>) -> Seq<Seq<char>> {
    seq!["["@] + string_items_tokens(items) + seq!["]"@]
}

/// The tokens of an expression that builds a command.
pub open spec fn command_tokens(command: CommandView) -> Seq<Seq<char>> {
    seq!["::static_files::file::Command::new("@] + string_tok_tokens(command.executable) + seq![
        ", vec!"@,
    ] + string_list_tokens(command.args) + seq![")"@]
}

/// The tokens of the items of a list of commands, a comma behind each.
pub open spec fn command_items_tokens(chain: Seq<CommandView>) -> Seq<Seq<char>>
    decreases chain.len(),
{
    if chain.len() == 0 {
        Seq::empty()
    } else {
        command_items_tokens(chain.drop_last()) + command_tokens(chain.last()).push(","@)
    }
}

/// The tokens of a bracketed list of commands.
pub open spec fn command_list_tokens(chain: Seq<CommandView>) -> Seq<Seq<char>> {
    seq!["["@] + command_items_tokens(chain) + seq!["]"@]
}

/// The tokens of an expression that builds a declaration.
pub open spec fn file_tokens(file: FileView) -> Seq<Seq<char>> {
    match file {
        FileView::Plain(name, source) => seq![
            "::static_files::file::File::Plain("@,
            string_literal(name),
            ","@,
            string_literal(source),
            ")"@,
        ],
        FileView::Sass(name, source, args) => seq![
            "::static_files::file::File::Sass("@,
            string_literal(name),
            ","@,
            string_literal(source),
            ", vec!"@,
        ] + string_list_tokens(args) + seq![")"@],
        FileView::Pipeline(name, source, chain) => seq![
            "::static_files::file::File::Pipeline("@,
            string_literal(name),
            ","@,
            string_literal(source),
            ", vec!"@,
        ] + command_list_tokens(chain) + seq![")"@],
    }
}

/// The single token of a byte string: a borrowed byte-string literal in which
/// every byte is escaped.
pub open spec fn byte_string_token(bytes: Seq<u8>) -> Seq<char> {
    "::static_files::file::ByteString::Static(b\""@ + escaped_bytes(bytes) + "\")"@
}

/// The content-type field of a resolved asset, around the quoted halves of
/// the content type.
pub open spec fn mime_field(ttype: Seq<char>, subtype: Seq<char>) -> Seq<char> {
    ", mime: ::static_files::mime::ContentType::new("@ + ttype + ", "@ + subtype + ")"@
}

/// The single token of the content-type field of a resolved asset.
pub open spec fn mime_token(mime: (Seq<char>, Seq<char>)) -> Seq<char> {
    mime_field(debug_text(mime.0), debug_text(mime.1))
}

/// The tokens of an expression that builds a resolved asset.
pub open spec fn static_file_tokens(asset: StaticFileView) -> Seq<Seq<char>> {
    seq!["::static_files::file::StaticFile { name: "@] + string_tok_tokens(asset.name) + seq![
        ", bytes: "@,
        byte_string_token(asset.bytes),
        mime_token(asset.mime),
        ", etag: "@,
    ] + string_tok_tokens(asset.etag) + seq![" }"@]
}

/// The tokens of an expression that builds a producer.
pub open spec fn producer_tokens(producer: ProducerView) -> Seq<Seq<char>> {
    match producer {
        ProducerView::Lazy(file) => seq!["::static_files::registry::Producer::Lazy("@]
            + file_tokens(file) + seq![")"@],
        ProducerView::Embedded(asset) => seq!["::static_files::registry::Producer::Embedded("@]
            + static_file_tokens(asset) + seq![")"@],
    }
}

/// The tokens of the statement that registers one producer under its
/// logical path.
pub open spec fn loader_tokens(producer: ProducerView) -> Seq<Seq<char>> {
    seq!["m.push(("@] + string_tok_tokens(producer.name()) + seq![","@] + producer_tokens(producer)
        + seq!["));"@]
}

/// The tokens of the registering statements of a list of producers.
pub open spec fn loaders_tokens(producers: Seq<ProducerView>) -> Seq<Seq<char>>
    decreases producers.len(),
{
    if producers.len() == 0 {
        Seq::empty()
    } else {
        loaders_tokens(producers.drop_last()) + loader_tokens(producers.last())
    }
}

/// The tokens of the generated program unit: one function that populates a
/// registry with the producers, and does nothing on a populated one.
pub open spec fn module_tokens(producers: Seq<ProducerView>) -> Seq<Seq<char>> {
    seq![
        "pub fn load_files(registry: &mut ::static_files::registry::Registry) -> bool {"@,
        "if registry.is_populated() { return false; }"@,
        "let mut m: Vec<(String, ::static_files::registry::Producer)> = Vec::new();"@,
    ] + loaders_tokens(producers) + seq!["registry.populate(m)"@, "}"@]
}

/// Appends one token to a buffer that holds `start` and the run `done`.
fn put(
    tokens: &mut quote::Tokens,
    token: &str,
    Ghost(start): Ghost<Seq<char>>,
    Ghost(done): Ghost<Seq<Seq<char>>>,
)
    requires
        tokens_text(*old(tokens)) == spaced_all(start, done),
    ensures
        tokens_text(*final(tokens)) == spaced_all(start, done.push(token@)),
{
    proof {
        lemma_spaced_all_push(start, done, token@);
    }
    append(tokens, token);
}

/// Appends a string literal to a buffer that holds `start` and the run `done`.
fn put_literal(
    tokens: &mut quote::Tokens,
    s: &str,
    Ghost(start): Ghost<Seq<char>>,
    Ghost(done): Ghost<Seq<Seq<char>>>,
)
    requires
        tokens_text(*old(tokens)) == spaced_all(start, done),
    ensures
        tokens_text(*final(tokens)) == spaced_all(start, done.push(string_literal(s@))),
{
    proof {
        lemma_spaced_all_push(start, done, string_literal(s@));
    }
    append_literal(tokens, s);
}

impl<'a> StringTok<'a> {
    /// Writes the string as an owned-string expression.
    pub fn to_tokens(&self, tokens: &mut quote::Tokens)
        ensures
            tokens_text(*final(tokens)) == spaced_all(
                tokens_text(*old(tokens)),
                string_tok_tokens(self.0@),
            ),
    {
        let ghost start = tokens_text(*tokens);
        let ghost done = Seq::<Seq<char>>::empty();
        put(tokens, "String::from(", Ghost(start), Ghost(done));
        let ghost done = done.push("String::from("@);
        put_literal(tokens, self.0.as_str(), Ghost(start), Ghost(done));
        let ghost done = done.push(string_literal(self.0@));
        put(tokens, ")", Ghost(start), Ghost(done));
        assert(done.push(")"@) =~= string_tok_tokens(self.0@));
    }
}

/// Writes a bracketed list of owned-string expressions.
fn string_list_to_tokens(items: &Vec<String>, tokens: &mut quote::Tokens)
    ensures
        tokens_text(*final(tokens)) == spaced_all(
            tokens_text(*old(tokens)),
            string_list_tokens(strings_view(items@)),
        ),
{
    let ghost start = tokens_text(*tokens);
    let ghost model = strings_view(items@);
    put(tokens, "[", Ghost(start), Ghost(Seq::empty()));
    let mut i: usize = 0;
    while i < items.len()
        invariant
            i <= items@.len(),
            model == strings_view(items@),
            tokens_text(*tokens) == spaced_all(
                start,
                seq!["["@] + string_items_tokens(model.take(i as int)),
            ),
        decreases items@.len() - i,
    {
        let ghost done = seq!["["@] + string_items_tokens(model.take(i as int));
        StringTok(&items[i]).to_tokens(tokens);
        proof {
            lemma_spaced_all_concat(start, done, string_tok_tokens(model[i as int]));
        }
        let ghost done = done + string_tok_tokens(model[i as int]);
        put(tokens, ",", Ghost(start), Ghost(done));
        proof {
            assert(model.take(i as int + 1).drop_last() =~= model.take(i as int));
            assert(done.push(","@) =~= seq!["["@] + string_items_tokens(
                model.take(i as int + 1),
            ));
        }
        i += 1;
    }
    let ghost done = seq!["["@] + string_items_tokens(model);
    proof {
        assert(model.take(items@.len() as int) =~= model);
    }
    put(tokens, "]", Ghost(start), Ghost(done));
    assert(done.push("]"@) =~= string_list_tokens(model));
}

impl Command {
    /// Writes an expression that builds the command.
    pub fn to_tokens(&self, tokens: &mut quote::Tokens)
        ensures
            tokens_text(*final(tokens)) == spaced_all(
                tokens_text(*old(tokens)),
                command_tokens(self@),
            ),
    {
        let ghost start = tokens_text(*tokens);
        let ghost done = Seq::<Seq<char>>::empty();
        put(tokens, "::static_files::file::Command::new(", Ghost(start), Ghost(done));
        let ghost done = done.push("::static_files::file::Command::new("@);
        StringTok(&self.executable).to_tokens(tokens);
        proof {
            lemma_spaced_all_concat(start, done, string_tok_tokens(self.executable@));
        }
        let ghost done = done + string_tok_tokens(self.executable@);
        put(tokens, ", vec!", Ghost(start), Ghost(done));
        let ghost done = done.push(", vec!"@);
        string_list_to_tokens(&self.args, tokens);
        proof {
            lemma_spaced_all_concat(start, done, string_list_tokens(self@.args));
        }
        let ghost done = done + string_list_tokens(self@.args);
        put(tokens, ")", Ghost(start), Ghost(done));
        assert(done.push(")"@) =~= command_tokens(self@));
    }
}

/// Writes a bracketed list of expressions that build commands.
fn command_list_to_tokens(chain: &Vec<Command>, tokens: &mut quote::Tokens)
    ensures
        tokens_text(*final(tokens)) == spaced_all(
            tokens_text(*old(tokens)),
            command_list_tokens(commands_view(chain@)),
        ),
{
    let ghost start = tokens_text(*tokens);
    let ghost model = commands_view(chain@);
    put(tokens, "[", Ghost(start), Ghost(Seq::empty()));
    let mut i: usize = 0;
    while i < chain.len()
        invariant
            i <= chain@.len(),
            model == commands_view(chain@),
            tokens_text(*tokens) == spaced_all(
                start,
                seq!["["@] + command_items_tokens(model.take(i as int)),
            ),
        decreases chain@.len() - i,
    {
        let ghost done = seq!["["@] + command_items_tokens(model.take(i as int));
        chain[i].to_tokens(tokens);
        proof {
            lemma_spaced_all_concat(start, done, command_tokens(model[i as int]));
        }
        let ghost done = done + command_tokens(model[i as int]);
        put(tokens, ",", Ghost(start), Ghost(done));
        proof {
            assert(model.take(i as int + 1).drop_last() =~= model.take(i as int));
            assert(done.push(","@) =~= seq!["["@] + command_items_tokens(
                model.take(i as int + 1),
            ));
        }
        i += 1;
    }
    let ghost done = seq!["["@] + command_items_tokens(model);
    proof {
        assert(model.take(chain@.len() as int) =~= model);
    }
    put(tokens, "]", Ghost(start), Ghost(done));
    assert(done.push("]"@) =~= command_list_tokens(model));
}

impl File {
    /// Writes an expression that builds the declaration.
    pub fn to_tokens(&self, tokens: &mut quote::Tokens)
        ensures
            tokens_text(*final(tokens)) == spaced_all(
                tokens_text(*old(tokens)),
                file_tokens(self@),
            ),
    {
        let ghost start = tokens_text(*tokens);
        let ghost done = Seq::<Seq<char>>::empty();
        match self {
            File::Sass(p, f, args) => {
                put(tokens, "::static_files::file::File::Sass(", Ghost(start), Ghost(done));
                let ghost done = done.push("::static_files::file::File::Sass("@);
                put_literal(tokens, p, Ghost(start), Ghost(done));
                let ghost done = done.push(string_literal(p@));
                put(tokens, ",", Ghost(start), Ghost(done));
                let ghost done = done.push(","@);
                put_literal(tokens, f, Ghost(start), Ghost(done));
                let ghost done = done.push(string_literal(f@));
                put(tokens, ", vec!", Ghost(start), Ghost(done));
                let ghost done = done.push(", vec!"@);
                string_list_to_tokens(args, tokens);
                proof {
                    lemma_spaced_all_concat(start, done, string_list_tokens(strings_view(args@)));
                }
                let ghost done = done + string_list_tokens(strings_view(args@));
                put(tokens, ")", Ghost(start), Ghost(done));
                assert(done.push(")"@) =~= file_tokens(self@));
            },
            File::Pipeline(p, f, chain) => {
                put(tokens, "::static_files::file::File::Pipeline(", Ghost(start), Ghost(done));
                let ghost done = done.push("::static_files::file::File::Pipeline("@);
                put_literal(tokens, p, Ghost(start), Ghost(done));
                let ghost done = done.push(string_literal(p@));
                put(tokens, ",", Ghost(start), Ghost(done));
                let ghost done = done.push(","@);
                put_literal(tokens, f, Ghost(start), Ghost(done));
                let ghost done = done.push(string_literal(f@));
                put(tokens, ", vec!", Ghost(start), Ghost(done));
                let ghost done = done.push(", vec!"@);
                command_list_to_tokens(chain, tokens);
                proof {
                    lemma_spaced_all_concat(
                        start,
                        done,
                        command_list_tokens(commands_view(chain@)),
                    );
                }
                let ghost done = done + command_list_tokens(commands_view(chain@));
                put(tokens, ")", Ghost(start), Ghost(done));
                assert(done.push(")"@) =~= file_tokens(self@));
            },
            File::Plain(p, f) => {
                put(tokens, "::static_files::file::File::Plain(", Ghost(start), Ghost(done));
                let ghost done = done.push("::static_files::file::File::Plain("@);
                put_literal(tokens, p, Ghost(start), Ghost(done));
                let ghost done = done.push(string_literal(p@));
                put(tokens, ",", Ghost(start), Ghost(done));
                let ghost done = done.push(","@);
                put_literal(tokens, f, Ghost(start), Ghost(done));
                let ghost done = done.push(string_literal(f@));
                put(tokens, ")", Ghost(start), Ghost(done));
                assert(done.push(")"@) =~= file_tokens(self@));
            },
        }
    }
}

impl ByteString {
    /// Writes the bytes as one token: a borrowed byte-string literal.
    pub fn to_tokens(&self, tokens: &mut quote::Tokens)
        ensures
            tokens_text(*final(tokens)) == spaced_all(
                tokens_text(*old(tokens)),
                seq![byte_string_token(self@)],
            ),
    {
        let ghost start = tokens_text(*tokens);
        let mut s: String = String::new();
        s.append("::static_files::file::ByteString::Static(b\"");
        push_escaped_bytes(&mut s, self.as_ref());
        s.append("\")");
        assert(s@ =~= byte_string_token(self@));
        put(tokens, s.as_str(), Ghost(start), Ghost(Seq::empty()));
        assert(Seq::<Seq<char>>::empty().push(s@) =~= seq![byte_string_token(self@)]);
    }
}

/// Writes the content-type field of a resolved asset around the quoted
/// halves of the content type.
pub fn format_mime_field(ttype: &str, subtype: &str) -> (text: String)
    ensures
        text@ == mime_field(ttype@, subtype@),
{
    let mut text: String = String::from_str(", mime: ::static_files::mime::ContentType::new(");
    text.append(ttype);
    text.append(", ");
    text.append(subtype);
    text.append(")");
    text
}

impl StaticFile {
    /// Writes an expression that builds the resolved asset.
    pub fn to_tokens(&self, tokens: &mut quote::Tokens)
        ensures
            tokens_text(*final(tokens)) == spaced_all(
                tokens_text(*old(tokens)),
                static_file_tokens(self@),
            ),
    {
        let ghost start = tokens_text(*tokens);
        let ghost done = Seq::<Seq<char>>::empty();
        put(tokens, "::static_files::file::StaticFile { name: ", Ghost(start), Ghost(done));
        let ghost done = done.push("::static_files::file::StaticFile { name: "@);
        StringTok(&self.name).to_tokens(tokens);
        proof {
            lemma_spaced_all_concat(start, done, string_tok_tokens(self.name@));
        }
        let ghost done = done + string_tok_tokens(self.name@);
        put(tokens, ", bytes: ", Ghost(start), Ghost(done));
        let ghost done = done.push(", bytes: "@);
        self.bytes.to_tokens(tokens);
        proof {
            lemma_spaced_all_concat(start, done, seq![byte_string_token(self.bytes@)]);
        }
        let ghost done = done + seq![byte_string_token(self.bytes@)];
        let mime: String = format_mime_field(
            debug_format(self.mime.ttype.as_str()).as_str(),
            debug_format(self.mime.subtype.as_str()).as_str(),
        );
        put(tokens, mime.as_str(), Ghost(start), Ghost(done));
        let ghost done = done.push(mime_token(self.mime@));
        put(tokens, ", etag: ", Ghost(start), Ghost(done));
        let ghost done = done.push(", etag: "@);
        StringTok(&self.etag).to_tokens(tokens);
        proof {
            lemma_spaced_all_concat(start, done, string_tok_tokens(self.etag@));
        }
        let ghost done = done + string_tok_tokens(self.etag@);
        put(tokens, " }", Ghost(start), Ghost(done));
        assert(done.push(" }"@) =~= static_file_tokens(self@));
    }
}

impl Producer {
    /// Writes an expression that builds the producer.
    pub fn to_tokens(&self, tokens: &mut quote::Tokens)
        ensures
            tokens_text(*final(tokens)) == spaced_all(
                tokens_text(*old(tokens)),
                producer_tokens(self@),
            ),
    {
        let ghost start = tokens_text(*tokens);
        let ghost done = Seq::<Seq<char>>::empty();
        match self {
            Producer::Lazy(file) => {
                put(tokens, "::static_files::registry::Producer::Lazy(", Ghost(start), Ghost(done));
                let ghost done = done.push("::static_files::registry::Producer::Lazy("@);
                file.to_tokens(tokens);
                proof {
                    lemma_spaced_all_concat(start, done, file_tokens(file@));
                }
                let ghost done = done + file_tokens(file@);
                put(tokens, ")", Ghost(start), Ghost(done));
                assert(done.push(")"@) =~= producer_tokens(self@));
            },
            Producer::Embedded(asset) => {
                put(
                    tokens,
                    "::static_files::registry::Producer::Embedded(",
                    Ghost(start),
                    Ghost(done),
                );
                let ghost done = done.push("::static_files::registry::Producer::Embedded("@);
                asset.to_tokens(tokens);
                proof {
                    lemma_spaced_all_concat(start, done, static_file_tokens(asset@));
                }
                let ghost done = done + static_file_tokens(asset@);
                put(tokens, ")", Ghost(start), Ghost(done));
                assert(done.push(")"@) =~= producer_tokens(self@));
            },
        }
    }
}

/// Writes the statement that registers `producer` under its logical path.
fn loader_to_tokens(producer: &Producer, tokens: &mut quote::Tokens)
    ensures
        tokens_text(*final(tokens)) == spaced_all(
            tokens_text(*old(tokens)),
            loader_tokens(producer@),
        ),
{
    let ghost start = tokens_text(*tokens);
    let ghost done = Seq::<Seq<char>>::empty();
    let name: String = String::from_str(producer.name());
    put(tokens, "m.push((", Ghost(start), Ghost(done));
    let ghost done = done.push("m.push(("@);
    StringTok(&name).to_tokens(tokens);
    proof {
        lemma_spaced_all_concat(start, done, string_tok_tokens(name@));
    }
    let ghost done = done + string_tok_tokens(name@);
    put(tokens, ",", Ghost(start), Ghost(done));
    let ghost done = done.push(","@);
    producer.to_tokens(tokens);
    proof {
        lemma_spaced_all_concat(start, done, producer_tokens(producer@));
    }
    let ghost done = done + producer_tokens(producer@);
    put(tokens, "));", Ghost(start), Ghost(done));
    assert(done.push("));"@) =~= loader_tokens(producer@));
}

/// Generates the program unit that populates a registry with `producers`:
/// a lazy producer is written as its declaration, to be resolved on every
/// request, and an embedded one as the literal bytes, content type and entity
/// tag of its asset. The producers are registered in the order given.
pub fn load_files(producers: &Vec<Producer>) -> (source: String)
    ensures
        source@ == spaced_all(Seq::empty(), module_tokens(producers_view(producers@))),
{
    let ghost start = Seq::<char>::empty();
    let ghost model = producers_view(producers@);
    let ghost head = seq![
        "pub fn load_files(registry: &mut ::static_files::registry::Registry) -> bool {"@,
        "if registry.is_populated() { return false; }"@,
        "let mut m: Vec<(String, ::static_files::registry::Producer)> = Vec::new();"@,
    ];
    let mut tokens = quote::Tokens::new();
    let ghost done = Seq::<Seq<char>>::empty();
    put(
        &mut tokens,
        "pub fn load_files(registry: &mut ::static_files::registry::Registry) -> bool {",
        Ghost(start),
        Ghost(done),
    );
    let ghost done = done.push(head[0]);
    put(&mut tokens, "if registry.is_populated() { return false; }", Ghost(start), Ghost(done));
    let ghost done = done.push(head[1]);
    put(
        &mut tokens,
        "let mut m: Vec<(String, ::static_files::registry::Producer)> = Vec::new();",
        Ghost(start),
        Ghost(done),
    );
    proof {
        assert(done.push(head[2]) =~= head + loaders_tokens(model.take(0)));
    }
    let mut i: usize = 0;
    while i < producers.len()
        invariant
            i <= producers@.len(),
            model == producers_view(producers@),
            tokens_text(tokens) == spaced_all(start, head + loaders_tokens(model.take(i as int))),
        decreases producers@.len() - i,
    {
        let ghost done = head + loaders_tokens(model.take(i as int));
        loader_to_tokens(&producers[i], &mut tokens);
        proof {
            lemma_spaced_all_concat(start, done, loader_tokens(model[i as int]));
            assert(model.take(i as int + 1).drop_last() =~= model.take(i as int));
            assert(done + loader_tokens(model[i as int]) =~= head + loaders_tokens(
                model.take(i as int + 1),
            ));
        }
        i += 1;
    }
    let ghost done = head + loaders_tokens(model);
    proof {
        assert(model.take(producers@.len() as int) =~= model);
    }
    put(&mut tokens, "registry.populate(m)", Ghost(start), Ghost(done));
    let ghost done = done.push("registry.populate(m)"@);
    put(&mut tokens, "}", Ghost(start), Ghost(done));
    assert(done.push("}"@) =~= module_tokens(model));
    tokens.into_string()
}

} // verus!
