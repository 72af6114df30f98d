use langs::info::LanguageInfo;
use langs::language::Language;

fn all_languages() -> Vec<Language> {
    vec![
        Language::Assembly,
        Language::Astro,
        Language::Bash,
        Language::C,
        Language::Carbon,
        Language::Catrina,
        Language::Clojure,
        Language::CMake,
        Language::Co,
        Language::Cobol,
        Language::Css,
        Language::Cxx,
        Language::CoffeeScript,
        Language::Cognate,
        Language::Crystal,
        Language::CSharp,
        Language::D,
        Language::Dart,
        Language::Elm,
        Language::Elixir,
        Language::Erlang,
        Language::Fortran,
        Language::FSharp,
        Language::Gleam,
        Language::Gn,
        Language::Go,
        Language::Grain,
        Language::GraphQl,
        Language::Gren,
        Language::Hare,
        Language::Haskell,
        Language::Html,
        Language::Idris,
        Language::Jai,
        Language::Jakt,
        Language::Java,
        Language::JavaScript,
        Language::Json,
        Language::Julia,
        Language::Koka,
        Language::Kotlin,
        Language::Llvm,
        Language::Lua,
        Language::Make,
        Language::Markdown,
        Language::Nim,
        Language::NuShell,
        Language::Oak,
        Language::ObjectiveC,
        Language::ObjectiveCxx,
        Language::OCaml,
        Language::Odin,
        Language::Pascal,
        Language::Php,
        Language::Perl,
        Language::Porth,
        Language::PowerShell,
        Language::Prolog,
        Language::Python,
        Language::Terraform,
        Language::Turquoise,
        Language::Racket,
        Language::Ren,
        Language::Ruby,
        Language::Roc,
        Language::Rust,
        Language::Sass,
        Language::Scala,
        Language::Sql,
        Language::Svelte,
        Language::Swift,
        Language::Tcl,
        Language::Toml,
        Language::TypeScript,
        Language::Unison,
        Language::V,
        Language::Vale,
        Language::VisualBasic,
        Language::Vue,
        Language::WebAssembly,
        Language::Xml,
        Language::Yaml,
        Language::Zig,
    ]
}

#[test]
fn every_language_has_a_nonempty_display_name() {
    for lang in all_languages() {
        let info = LanguageInfo::from(&lang);
        assert!(!info.name.is_empty(), "{:?} has an empty display name", lang);
    }
}

#[test]
fn display_names_are_spelled_as_documented() {
    assert_eq!(LanguageInfo::from(&Language::Cxx).name, "C++");
    assert_eq!(LanguageInfo::from(&Language::CSharp).name, "C#");
    assert_eq!(LanguageInfo::from(&Language::FSharp).name, "F#");
    assert_eq!(LanguageInfo::from(&Language::Llvm).name, "LLVM IR");
    assert_eq!(LanguageInfo::from(&Language::VisualBasic).name, "Visual Basic");
    assert_eq!(LanguageInfo::from(&Language::Gn).name, "gn");
    assert_eq!(LanguageInfo::from(&Language::ObjectiveCxx).name, "Objective-C++");
    assert_eq!(LanguageInfo::from(&Language::Rust).name, "Rust");
}

#[test]
fn some_languages_are_deliberately_plain() {
    assert!(LanguageInfo::from(&Language::Assembly).color.is_none());
    assert!(LanguageInfo::from(&Language::Markdown).color.is_none());
    assert!(LanguageInfo::from(&Language::Crystal).color.is_none());
}

#[test]
fn colored_languages_carry_their_channels() {
    let bash = LanguageInfo::from(&Language::Bash).color.unwrap();
    assert_eq!((bash.r, bash.g, bash.b), (50, 50, 50));
    let rust = LanguageInfo::from(&Language::Rust).color.unwrap();
    assert_eq!((rust.r, rust.g, rust.b), (0xa7, 0x21, 0x45));
    let go = LanguageInfo::from(&Language::Go).color.unwrap();
    assert_eq!((go.r, go.g, go.b), (0x00, 0xad, 0xd8));
}
