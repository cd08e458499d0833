#![allow(unused_imports)]
use static_files::file::ByteString;
use static_files::file::Command;
use static_files::file::File;
use static_files::file::StaticFile;
use static_files::mime::ContentType;
use static_files::registry::Producer;
use static_files::registry::Registry;

// The two functions below are what the library writes for `sample()`. The
// tests compare what the library writes with the same text held in a
// string, and then run the functions.

pub fn load_files(registry: &mut Registry) -> bool {
    if registry.is_populated() {
        return false;
    }
    let mut m: Vec<(String, Producer)> = Vec::new();

    m.push((String::from("favicon.ico"), Producer::Lazy(File::Plain("favicon.ico", "static/img/favicon.ico"))));
    m.push((String::from("css/all.css"), Producer::Lazy(File::Sass("css/all.css", "static/css/all.scss", vec![String::from("--scss"), String::from("-I\"a b\""), ]))));
    m.push((String::from("css/min.css"), Producer::Lazy(File::Pipeline("css/min.css", "min.scss", vec![Command::new(String::from("sass"), vec![String::from("-s"), ]), Command::new(String::from("cssnano"), vec![]), ]))));
    m.push((String::from("js/app.js"), Producer::Embedded(StaticFile { name: String::from("js/app.js"), bytes: ByteString::Static(b"\x61\x0a\xff"), mime: ContentType::new("text", "javascript"), etag: String::from("W/\"0123456789abcdef\"") })));
    registry.populate(m)
}

pub fn load_files_from_tokens(registry: &mut ::static_files::registry::Registry) -> bool { if registry.is_populated() { return false; } let mut m: Vec<(String, ::static_files::registry::Producer)> = Vec::new(); m.push(( String::from( "favicon.ico" ) , ::static_files::registry::Producer::Lazy( ::static_files::file::File::Plain( "favicon.ico" , "static/img/favicon.ico" ) ) )); m.push(( String::from( "css/all.css" ) , ::static_files::registry::Producer::Lazy( ::static_files::file::File::Sass( "css/all.css" , "static/css/all.scss" , vec! [ String::from( "--scss" ) , String::from( "-I\"a b\"" ) , ] ) ) )); m.push(( String::from( "css/min.css" ) , ::static_files::registry::Producer::Lazy( ::static_files::file::File::Pipeline( "css/min.css" , "min.scss" , vec! [ ::static_files::file::Command::new( String::from( "sass" ) , vec! [ String::from( "-s" ) , ] ) , ::static_files::file::Command::new( String::from( "cssnano" ) , vec! [ ] ) , ] ) ) )); m.push(( String::from( "js/app.js" ) , ::static_files::registry::Producer::Embedded( ::static_files::file::StaticFile { name:  String::from( "js/app.js" ) , bytes:  ::static_files::file::ByteString::Static(b"\x61\x0a\xff") , mime: ::static_files::mime::ContentType::new("text", "javascript") , etag:  String::from( "W/\"0123456789abcdef\"" )  } ) )); registry.populate(m) }

const GENERATED: &str = "
    #![allow(unused_imports)]
    use static_files::file::ByteString;
    use static_files::file::Command;
    use static_files::file::File;
    use static_files::file::StaticFile;
    use static_files::mime::ContentType;
    use static_files::registry::Producer;
    use static_files::registry::Registry;

    pub fn load_files(registry: &mut Registry) -> bool {
        if registry.is_populated() {
            return false;
        }
        let mut m: Vec<(String, Producer)> = Vec::new();

        m.push((String::from(\"favicon.ico\"), Producer::Lazy(File::Plain(\"favicon.ico\", \"static/img/favicon.ico\"))));
        m.push((String::from(\"css/all.css\"), Producer::Lazy(File::Sass(\"css/all.css\", \"static/css/all.scss\", vec![String::from(\"--scss\"), String::from(\"-I\\\"a b\\\"\"), ]))));
        m.push((String::from(\"css/min.css\"), Producer::Lazy(File::Pipeline(\"css/min.css\", \"min.scss\", vec![Command::new(String::from(\"sass\"), vec![String::from(\"-s\"), ]), Command::new(String::from(\"cssnano\"), vec![]), ]))));
        m.push((String::from(\"js/app.js\"), Producer::Embedded(StaticFile { name: String::from(\"js/app.js\"), bytes: ByteString::Static(b\"\\x61\\x0a\\xff\"), mime: ContentType::new(\"text\", \"javascript\"), etag: String::from(\"W/\\\"0123456789abcdef\\\"\") })));
        registry.populate(m)
    }
";

const GENERATED_FROM_TOKENS: &str = "pub fn load_files(registry: &mut ::static_files::registry::Registry) -> bool { if registry.is_populated() { return false; } let mut m: Vec<(String, ::static_files::registry::Producer)> = Vec::new(); m.push(( String::from( \"favicon.ico\" ) , ::static_files::registry::Producer::Lazy( ::static_files::file::File::Plain( \"favicon.ico\" , \"static/img/favicon.ico\" ) ) )); m.push(( String::from( \"css/all.css\" ) , ::static_files::registry::Producer::Lazy( ::static_files::file::File::Sass( \"css/all.css\" , \"static/css/all.scss\" , vec! [ String::from( \"--scss\" ) , String::from( \"-I\\\"a b\\\"\" ) , ] ) ) )); m.push(( String::from( \"css/min.css\" ) , ::static_files::registry::Producer::Lazy( ::static_files::file::File::Pipeline( \"css/min.css\" , \"min.scss\" , vec! [ ::static_files::file::Command::new( String::from( \"sass\" ) , vec! [ String::from( \"-s\" ) , ] ) , ::static_files::file::Command::new( String::from( \"cssnano\" ) , vec! [ ] ) , ] ) ) )); m.push(( String::from( \"js/app.js\" ) , ::static_files::registry::Producer::Embedded( ::static_files::file::StaticFile { name:  String::from( \"js/app.js\" ) , bytes:  ::static_files::file::ByteString::Static(b\"\\x61\\x0a\\xff\") , mime: ::static_files::mime::ContentType::new(\"text\", \"javascript\") , etag:  String::from( \"W/\\\"0123456789abcdef\\\"\" )  } ) )); registry.populate(m) }";

fn sample() -> Vec<Producer> {
    vec![
        Producer::Lazy(File::Plain("favicon.ico", "static/img/favicon.ico")),
        Producer::Lazy(File::Sass(
            "css/all.css",
            "static/css/all.scss",
            vec![String::from("--scss"), String::from("-I\"a b\"")],
        )),
        Producer::Lazy(File::Pipeline(
            "css/min.css",
            "min.scss",
            vec![
                Command::new(String::from("sass"), vec![String::from("-s")]),
                Command::new(String::from("cssnano"), Vec::new()),
            ],
        )),
        Producer::Embedded(StaticFile {
            name: String::from("js/app.js"),
            bytes: ByteString::Dynamic(vec![b'a', b'\n', 0xff]),
            mime: ContentType::new("text", "javascript"),
            etag: String::from("W/\"0123456789abcdef\""),
        }),
    ]
}

fn check_populated(registry: &Registry) {
    assert!(matches!(registry.get("favicon.ico"), Some(Producer::Lazy(File::Plain("favicon.ico", "static/img/favicon.ico")))));
    match registry.get("css/all.css") {
        Some(Producer::Lazy(File::Sass("css/all.css", "static/css/all.scss", args))) => {
            assert_eq!(args, &vec![String::from("--scss"), String::from("-I\"a b\"")]);
        },
        other => panic!("wrong entry: {:?}", other),
    }
    match registry.get("css/min.css") {
        Some(Producer::Lazy(File::Pipeline("css/min.css", "min.scss", chain))) => {
            assert_eq!(chain.len(), 2);
            assert_eq!(chain[0].executable, "sass");
            assert_eq!(chain[0].args, vec![String::from("-s")]);
            assert_eq!(chain[1].executable, "cssnano");
            assert!(chain[1].args.is_empty());
        },
        other => panic!("wrong entry: {:?}", other),
    }
    match registry.get("js/app.js") {
        Some(Producer::Embedded(file)) => {
            assert_eq!(file.name, "js/app.js");
            assert_eq!(file.bytes.as_ref(), &[b'a', b'\n', 0xff]);
            assert_eq!((file.mime.ttype.as_str(), file.mime.subtype.as_str()), ("text", "javascript"));
            assert_eq!(file.etag, "W/\"0123456789abcdef\"");
        },
        other => panic!("wrong entry: {:?}", other),
    }
    assert!(registry.get("nonexistent/path").is_none());
}

#[test]
fn generated_file_is_the_unit_above() {
    assert_eq!(static_files::generate_file(&sample()), GENERATED);
}

#[test]
fn loaded_files_are_the_unit_above() {
    assert_eq!(static_files::load_files(&sample()), GENERATED_FROM_TOKENS);
}

#[test]
fn generated_unit_populates_a_registry_once() {
    let mut registry = Registry::new();
    assert!(load_files(&mut registry));
    check_populated(&registry);
    assert!(!load_files(&mut registry));
    check_populated(&registry);
}

#[test]
fn generated_unit_from_tokens_populates_a_registry_once() {
    let mut registry = Registry::new();
    assert!(load_files_from_tokens(&mut registry));
    check_populated(&registry);
    assert!(!load_files_from_tokens(&mut registry));
    check_populated(&registry);
}
