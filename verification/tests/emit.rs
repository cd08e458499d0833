use static_files::file::{pipeline, plain, sass, sass_args, ByteString, Command, File, StaticFile, StringTok};
use static_files::literal::{
    format_command_expr, format_loader_stmt, format_module_expr, format_pipeline_expr, format_plain_expr,
    format_sass_expr, format_static_file_expr, format_string_expr, generate_file,
};
use static_files::mime::ContentType;
use static_files::quoted::{format_mime_field, load_files};
use static_files::registry::Producer;

const HEAD: &str = "
    #![allow(unused_imports)]
    use static_files::file::ByteString;
    use static_files::file::Command;
    use static_files::file::File;
    use static_files::file::StaticFile;
    use static_files::mime::ContentType;
    use static_files::registry::Producer;
    use static_files::registry::Registry;

    pub fn load_files(registry: &mut Registry) -> bool {
        if registry.is_populated() {
            return false;
        }
        let mut m: Vec<(String, Producer)> = Vec::new();
";

const TAIL: &str = "
        registry.populate(m)
    }
";

const TOKENS_HEAD: &str = "pub fn load_files(registry: &mut ::static_files::registry::Registry) -> bool { \
if registry.is_populated() { return false; } \
let mut m: Vec<(String, ::static_files::registry::Producer)> = Vec::new();";

const TOKENS_TAIL: &str = "registry.populate(m) }";

fn asset() -> StaticFile {
    StaticFile {
        name: String::from("css/a\"b.css"),
        bytes: ByteString::Dynamic(vec![b'a', b'\n', 0xff]),
        mime: ContentType::css(),
        etag: String::from("W/\"0123456789abcdef\""),
    }
}

fn tokens_of(write: impl FnOnce(&mut quote::Tokens)) -> String {
    let mut tokens = quote::Tokens::new();
    write(&mut tokens);
    tokens.into_string()
}

#[test]
fn byte_string_literal_escapes_every_byte() {
    assert_eq!(ByteString::Dynamic(vec![0, 10, 34, 92, 97, 255]).as_literal(), "ByteString::Static(b\"\\x00\\x0a\\x22\\x5c\\x61\\xff\")");
    assert_eq!(ByteString::Static(b"hi").as_literal(), "ByteString::Static(b\"\\x68\\x69\")");
    assert_eq!(ByteString::Dynamic(Vec::new()).as_literal(), "ByteString::Static(b\"\")");
}

#[test]
fn file_literals() {
    assert_eq!(plain("favicon.ico", "static/img/favicon.ico").as_literal(), "File::Plain(\"favicon.ico\", \"static/img/favicon.ico\")");
    assert_eq!(sass("css/all.css", "all.scss").as_literal(), "File::Sass(\"css/all.css\", \"all.scss\", vec![])");
    assert_eq!(
        sass_args("css/all.css", "all.scss", vec![String::from("--scss"), String::from("-I\"x y\"")]).as_literal(),
        "File::Sass(\"css/all.css\", \"all.scss\", vec![String::from(\"--scss\"), String::from(\"-I\\\"x y\\\"\"), ])"
    );
    let chain = vec![Command::new(String::from("sass"), vec![String::from("-s")]), Command::new(String::from("cssnano"), Vec::new())];
    assert_eq!(
        pipeline("a.css", "a.scss", chain).as_literal(),
        "File::Pipeline(\"a.css\", \"a.scss\", vec![Command::new(String::from(\"sass\"), vec![String::from(\"-s\"), ]), Command::new(String::from(\"cssnano\"), vec![]), ])"
    );
    assert_eq!(pipeline("a.css", "a.scss", Vec::new()).as_literal(), "File::Pipeline(\"a.css\", \"a.scss\", vec![])");
}

#[test]
fn file_literal_escapes_as_a_string_literal_does() {
    assert_eq!(plain("a\\b\n", "tab\there").as_literal(), "File::Plain(\"a\\\\b\\n\", \"tab\\there\")");
    assert_eq!(plain("it's", "ü").as_literal(), "File::Plain(\"it's\", \"ü\")");
}

#[test]
fn command_literal() {
    assert_eq!(
        Command::new(String::from("tool"), vec![String::from("a"), String::from("b")]).as_literal(),
        "Command::new(String::from(\"tool\"), vec![String::from(\"a\"), String::from(\"b\"), ])"
    );
}

#[test]
fn static_file_literal() {
    assert_eq!(
        asset().as_literal(),
        "StaticFile { name: String::from(\"css/a\\\"b.css\"), bytes: ByteString::Static(b\"\\x61\\x0a\\xff\"), \
mime: ContentType::new(\"text\", \"css\"), etag: String::from(\"W/\\\"0123456789abcdef\\\"\") }"
    );
}

#[test]
fn producer_literals() {
    assert_eq!(Producer::Lazy(plain("a", "b")).as_literal(), "Producer::Lazy(File::Plain(\"a\", \"b\"))");
    assert_eq!(Producer::Embedded(asset()).as_literal(), format!("Producer::Embedded({})", asset().as_literal()));
}

#[test]
fn generated_file_for_no_producers() {
    assert_eq!(generate_file(&Vec::new()), format!("{}{}", HEAD, TAIL));
}

#[test]
fn generated_file_registers_the_producers_in_order() {
    let producers = vec![Producer::Lazy(plain("favicon.ico", "static/img/favicon.ico")), Producer::Embedded(asset())];
    let expected = format!(
        "{}\n        m.push((String::from(\"favicon.ico\"), Producer::Lazy(File::Plain(\"favicon.ico\", \"static/img/favicon.ico\"))));\
\n        m.push((String::from(\"css/a\\\"b.css\"), Producer::Embedded({})));{}",
        HEAD,
        asset().as_literal(),
        TAIL
    );
    assert_eq!(generate_file(&producers), expected);
}

#[test]
fn string_tokens() {
    let s = String::from("plain");
    assert_eq!(tokens_of(|t| StringTok(&s).to_tokens(t)), "String::from( \"plain\" )");
    let s = String::from("it's \"q\"\n\0\\ü");
    assert_eq!(tokens_of(|t| StringTok(&s).to_tokens(t)), "String::from( \"it's \\\"q\\\"\\n\\0\\\\\\u{fc}\" )");
    let s = String::new();
    assert_eq!(tokens_of(|t| StringTok(&s).to_tokens(t)), "String::from( \"\" )");
}

#[test]
fn tokens_go_behind_what_the_buffer_holds() {
    let s = String::from("x");
    let text = tokens_of(|t| {
        t.append("let y =");
        StringTok(&s).to_tokens(t);
        t.append(";");
    });
    assert_eq!(text, "let y = String::from( \"x\" ) ;");
}

#[test]
fn byte_string_tokens() {
    assert_eq!(
        tokens_of(|t| ByteString::Dynamic(vec![0, 0x7f, 0x80]).to_tokens(t)),
        "::static_files::file::ByteString::Static(b\"\\x00\\x7f\\x80\")"
    );
    assert_eq!(tokens_of(|t| ByteString::Static(b"").to_tokens(t)), "::static_files::file::ByteString::Static(b\"\")");
}

#[test]
fn file_tokens() {
    assert_eq!(
        tokens_of(|t| plain("favicon.ico", "static/img/favicon.ico").to_tokens(t)),
        "::static_files::file::File::Plain( \"favicon.ico\" , \"static/img/favicon.ico\" )"
    );
    assert_eq!(
        tokens_of(|t| sass("css/all.css", "all.scss").to_tokens(t)),
        "::static_files::file::File::Sass( \"css/all.css\" , \"all.scss\" , vec! [ ] )"
    );
    assert_eq!(
        tokens_of(|t| sass_args("css/all.css", "all.scss", vec![String::from("--scss"), String::from("-Ia")]).to_tokens(t)),
        "::static_files::file::File::Sass( \"css/all.css\" , \"all.scss\" , vec! [ String::from( \"--scss\" ) , String::from( \"-Ia\" ) , ] )"
    );
    let chain = vec![Command::new(String::from("sass"), vec![String::from("-s")]), Command::new(String::from("cssnano"), Vec::new())];
    assert_eq!(
        tokens_of(|t| pipeline("a.css", "a.scss", chain).to_tokens(t)),
        "::static_files::file::File::Pipeline( \"a.css\" , \"a.scss\" , vec! [ \
::static_files::file::Command::new( String::from( \"sass\" ) , vec! [ String::from( \"-s\" ) , ] ) , \
::static_files::file::Command::new( String::from( \"cssnano\" ) , vec! [ ] ) , ] )"
    );
}

#[test]
fn static_file_tokens() {
    assert_eq!(
        tokens_of(|t| asset().to_tokens(t)),
        "::static_files::file::StaticFile { name:  String::from( \"css/a\\\"b.css\" ) , bytes:  \
::static_files::file::ByteString::Static(b\"\\x61\\x0a\\xff\") \
, mime: ::static_files::mime::ContentType::new(\"text\", \"css\") , etag:  \
String::from( \"W/\\\"0123456789abcdef\\\"\" )  }"
    );
}

#[test]
fn producer_tokens() {
    assert_eq!(
        tokens_of(|t| Producer::Lazy(plain("a", "b")).to_tokens(t)),
        "::static_files::registry::Producer::Lazy( ::static_files::file::File::Plain( \"a\" , \"b\" ) )"
    );
    assert_eq!(
        tokens_of(|t| Producer::Embedded(asset()).to_tokens(t)),
        format!("::static_files::registry::Producer::Embedded( {} )", tokens_of(|t| asset().to_tokens(t)))
    );
}

#[test]
fn loaded_files_for_no_producers() {
    assert_eq!(load_files(&Vec::new()), format!("{} {}", TOKENS_HEAD, TOKENS_TAIL));
}

#[test]
fn loaded_files_register_the_producers_in_order() {
    let producers = vec![
        Producer::Lazy(sass_args("css/all.css", "static/css/all.scss", vec![String::from("--scss")])),
        Producer::Embedded(asset()),
    ];
    let expected = format!(
        "{} m.push(( String::from( \"css/all.css\" ) , ::static_files::registry::Producer::Lazy( \
::static_files::file::File::Sass( \"css/all.css\" , \"static/css/all.scss\" , vec! [ String::from( \"--scss\" ) , ] ) ) )); \
m.push(( String::from( \"css/a\\\"b.css\" ) , ::static_files::registry::Producer::Embedded( {} ) )); {}",
        TOKENS_HEAD,
        tokens_of(|t| asset().to_tokens(t)),
        TOKENS_TAIL
    );
    assert_eq!(load_files(&producers), expected);
}

#[test]
fn emitters_leave_the_declaration_usable() {
    let file: File = plain("a", "b");
    let first = file.as_literal();
    let second = file.as_literal();
    assert_eq!(first, second);
    assert_eq!(file.filename(), "a");
}

#[test]
fn templates_place_quoted_texts_between_fixed_pieces() {
    assert_eq!(format_string_expr("\"a\""), "String::from(\"a\")");
    assert_eq!(format_plain_expr("\"a\"", "\"b\""), "File::Plain(\"a\", \"b\")");
    assert_eq!(format_sass_expr("N", "S", "A, "), "File::Sass(N, S, vec![A, ])");
    assert_eq!(format_pipeline_expr("N", "S", ""), "File::Pipeline(N, S, vec![])");
    assert_eq!(format_command_expr("E", "A, B, "), "Command::new(E, vec![A, B, ])");
    assert_eq!(
        format_static_file_expr("N", "B", "T", "S", "E"),
        "StaticFile { name: String::from(N), bytes: B, mime: ContentType::new(T, S), etag: String::from(E) }"
    );
    assert_eq!(format_loader_stmt("N", "P"), "\n        m.push((String::from(N), P));");
    assert_eq!(format_module_expr("LOADERS"), format!("{}LOADERS{}", HEAD, TAIL));
    assert_eq!(format_mime_field("T", "S"), ", mime: ::static_files::mime::ContentType::new(T, S)");
}
