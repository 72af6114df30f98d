//! The closed set of recognized languages and the two classification
//! entry points: by exact special file name, and by extension string.

use vstd::prelude::*;
use crate::text::str_eq;

verus! {

/// A recognized programming, markup or configuration language.
#[derive(Clone, Copy, Debug, PartialEq, Eq, Hash, Structural)]
pub enum Language {
    Assembly,
    Astro,
    Bash,
    C,
    Carbon,
    Catrina,
    Clojure,
    CMake,
    Co,
    Cobol,
    Css,
    Cxx,
    CoffeeScript,
    Cognate,
    Crystal,
    CSharp,
    D,
    Dart,
    Elm,
    Elixir,
    Erlang,
    Fortran,
    FSharp,
    Gleam,
    Gn,
    Go,
    Grain,
    GraphQl,
    Gren,
    Hare,
    Haskell,
    Html,
    Idris,
    Jai,
    Jakt,
    Java,
    JavaScript,
    Json,
    Julia,
    Koka,
    Kotlin,
    Llvm,
    Lua,
    Make,
    Markdown,
    Nim,
    NuShell,
    Oak,
    ObjectiveC,
    ObjectiveCxx,
    OCaml,
    Odin,
    Pascal,
    Php,
    Perl,
    Porth,
    PowerShell,
    Prolog,
    Python,
    Terraform,
    Turquoise,
    Racket,
    Ren,
    Ruby,
    Roc,
    Rust,
    Sass,
    Scala,
    Sql,
    Svelte,
    Swift,
    Tcl,
    Toml,
    TypeScript,
    Unison,
    V,
    Vale,
    VisualBasic,
    Vue,
    WebAssembly,
    Xml,
    Yaml,
    Zig,
}

/// The special file names that classify on their own, without an
/// extension: exact, case-sensitive matches.
pub open spec fn file_name_language(name: Seq<char>) -> Option<Language> {
    if name == "CMakeLists.txt"@ {
        Some(Language::CMake)
    } else if name == "Makefile"@ {
        Some(Language::Make)
    } else {
        None
    }
}

/// The extension table: a lowercase-exact extension string, without its
/// leading dot, mapped to the language it marks.
pub open spec fn ext_language(ext: Seq<char>) -> Option<Language> {
    if ext == "asm"@ {
        Some(Language::Assembly)
    } else if ext == "astro"@ {
        Some(Language::Astro)
    } else if ext == "c"@ {
        Some(Language::C)
    } else if ext == "carbon"@ {
        Some(Language::Carbon)
    } else if ext == "cbl"@ {
        Some(Language::Cobol)
    } else if ext == "cc"@ {
        Some(Language::Cxx)
    } else if ext == "cjs"@ {
        Some(Language::JavaScript)
    } else if ext == "clj"@ {
        Some(Language::Clojure)
    } else if ext == "co"@ {
        Some(Language::Co)
    } else if ext == "coffee"@ {
        Some(Language::CoffeeScript)
    } else if ext == "cog"@ {
        Some(Language::Cognate)
    } else if ext == "cpp"@ {
        Some(Language::Cxx)
    } else if ext == "cr"@ {
        Some(Language::Crystal)
    } else if ext == "cs"@ {
        Some(Language::CSharp)
    } else if ext == "css"@ {
        Some(Language::Css)
    } else if ext == "cts"@ {
        Some(Language::TypeScript)
    } else if ext == "cxx"@ {
        Some(Language::Cxx)
    } else if ext == "d"@ {
        Some(Language::D)
    } else if ext == "dart"@ {
        Some(Language::Dart)
    } else if ext == "elm"@ {
        Some(Language::Elm)
    } else if ext == "erl"@ {
        Some(Language::Erlang)
    } else if ext == "ex"@ {
        Some(Language::Elixir)
    } else if ext == "f"@ {
        Some(Language::Fortran)
    } else if ext == "for"@ {
        Some(Language::Fortran)
    } else if ext == "fs"@ {
        Some(Language::FSharp)
    } else if ext == "f90"@ {
        Some(Language::Fortran)
    } else if ext == "f95"@ {
        Some(Language::Fortran)
    } else if ext == "f03"@ {
        Some(Language::Fortran)
    } else if ext == "gleam"@ {
        Some(Language::Gleam)
    } else if ext == "gn"@ {
        Some(Language::Gn)
    } else if ext == "go"@ {
        Some(Language::Go)
    } else if ext == "gql"@ {
        Some(Language::GraphQl)
    } else if ext == "gr"@ {
        Some(Language::Grain)
    } else if ext == "gren"@ {
        Some(Language::Gren)
    } else if ext == "h"@ {
        Some(Language::C)
    } else if ext == "ha"@ {
        Some(Language::Hare)
    } else if ext == "hh"@ {
        Some(Language::Cxx)
    } else if ext == "hpp"@ {
        Some(Language::Cxx)
    } else if ext == "hs"@ {
        Some(Language::Haskell)
    } else if ext == "htm"@ {
        Some(Language::Html)
    } else if ext == "html"@ {
        Some(Language::Html)
    } else if ext == "hxx"@ {
        Some(Language::Cxx)
    } else if ext == "idr"@ {
        Some(Language::Idris)
    } else if ext == "jai"@ {
        Some(Language::Jai)
    } else if ext == "jakt"@ {
        Some(Language::Jakt)
    } else if ext == "java"@ {
        Some(Language::Java)
    } else if ext == "jl"@ {
        Some(Language::Julia)
    } else if ext == "js"@ {
        Some(Language::JavaScript)
    } else if ext == "json"@ {
        Some(Language::Json)
    } else if ext == "jsonc"@ {
        Some(Language::Json)
    } else if ext == "jsx"@ {
        Some(Language::JavaScript)
    } else if ext == "kk"@ {
        Some(Language::Koka)
    } else if ext == "kt"@ {
        Some(Language::Kotlin)
    } else if ext == "kts"@ {
        Some(Language::Kotlin)
    } else if ext == "ll"@ {
        Some(Language::Llvm)
    } else if ext == "lua"@ {
        Some(Language::Lua)
    } else if ext == "m"@ {
        Some(Language::ObjectiveC)
    } else if ext == "md"@ {
        Some(Language::Markdown)
    } else if ext == "mjs"@ {
        Some(Language::JavaScript)
    } else if ext == "mk"@ {
        Some(Language::Make)
    } else if ext == "ml"@ {
        Some(Language::OCaml)
    } else if ext == "mm"@ {
        Some(Language::ObjectiveCxx)
    } else if ext == "mts"@ {
        Some(Language::TypeScript)
    } else if ext == "nim"@ {
        Some(Language::Nim)
    } else if ext == "nu"@ {
        Some(Language::NuShell)
    } else if ext == "oak"@ {
        Some(Language::Oak)
    } else if ext == "odin"@ {
        Some(Language::Odin)
    } else if ext == "pas"@ {
        Some(Language::Pascal)
    } else if ext == "php"@ {
        Some(Language::Php)
    } else if ext == "pl"@ {
        Some(Language::Perl)
    } else if ext == "pm"@ {
        Some(Language::Perl)
    } else if ext == "porth"@ {
        Some(Language::Porth)
    } else if ext == "pro"@ {
        Some(Language::Prolog)
    } else if ext == "ps1"@ {
        Some(Language::PowerShell)
    } else if ext == "py"@ {
        Some(Language::Python)
    } else if ext == "q"@ {
        Some(Language::Turquoise)
    } else if ext == "rb"@ {
        Some(Language::Ruby)
    } else if ext == "ren"@ {
        Some(Language::Ren)
    } else if ext == "rina"@ {
        Some(Language::Catrina)
    } else if ext == "rkt"@ {
        Some(Language::Racket)
    } else if ext == "roc"@ {
        Some(Language::Roc)
    } else if ext == "rs"@ {
        Some(Language::Rust)
    } else if ext == "s"@ {
        Some(Language::Assembly)
    } else if ext == "sass"@ {
        Some(Language::Sass)
    } else if ext == "scala"@ {
        Some(Language::Scala)
    } else if ext == "sh"@ {
        Some(Language::Bash)
    } else if ext == "sql"@ {
        Some(Language::Sql)
    } else if ext == "svelte"@ {
        Some(Language::Svelte)
    } else if ext == "swift"@ {
        Some(Language::Swift)
    } else if ext == "tcl"@ {
        Some(Language::Tcl)
    } else if ext == "tf"@ {
        Some(Language::Terraform)
    } else if ext == "toml"@ {
        Some(Language::Toml)
    } else if ext == "ts"@ {
        Some(Language::TypeScript)
    } else if ext == "tsx"@ {
        Some(Language::TypeScript)
    } else if ext == "u"@ {
        Some(Language::Unison)
    } else if ext == "v"@ {
        Some(Language::V)
    } else if ext == "vale"@ {
        Some(Language::Vale)
    } else if ext == "vb"@ {
        Some(Language::VisualBasic)
    } else if ext == "vue"@ {
        Some(Language::Vue)
    } else if ext == "wat"@ {
        Some(Language::WebAssembly)
    } else if ext == "xml"@ {
        Some(Language::Xml)
    } else if ext == "yaml"@ {
        Some(Language::Yaml)
    } else if ext == "yml"@ {
        Some(Language::Yaml)
    } else if ext == "zig"@ {
        Some(Language::Zig)
    } else {
        None
    }
}

impl Language {
    /// Classify by exact, case-sensitive file name; only a few special
    /// build files match, every other name is no match.
    pub fn from_file_name(file_name: &str) -> (r: Option<Language>)
        ensures
            r == file_name_language(file_name@),
    {
        if str_eq(file_name, "CMakeLists.txt") {
            Some(Language::CMake)
        } else if str_eq(file_name, "Makefile") {
            Some(Language::Make)
        } else {
            None
        }
    }

    /// Classify by exact, case-sensitive extension string (no leading
    /// dot); an extension outside the table is no match, never an error.
    pub fn from_extension(ext: &str) -> (r: Option<Language>)
        ensures
            r == ext_language(ext@),
    {
        if str_eq(ext, "asm") {
            Some(Language::Assembly)
        } else if str_eq(ext, "astro") {
            Some(Language::Astro)
        } else if str_eq(ext, "c") {
            Some(Language::C)
        } else if str_eq(ext, "carbon") {
            Some(Language::Carbon)
        } else if str_eq(ext, "cbl") {
            Some(Language::Cobol)
        } else if str_eq(ext, "cc") {
            Some(Language::Cxx)
        } else if str_eq(ext, "cjs") {
            Some(Language::JavaScript)
        } else if str_eq(ext, "clj") {
            Some(Language::Clojure)
        } else if str_eq(ext, "co") {
            Some(Language::Co)
        } else if str_eq(ext, "coffee") {
            Some(Language::CoffeeScript)
        } else if str_eq(ext, "cog") {
            Some(Language::Cognate)
        } else if str_eq(ext, "cpp") {
            Some(Language::Cxx)
        } else if str_eq(ext, "cr") {
            Some(Language::Crystal)
        } else if str_eq(ext, "cs") {
            Some(Language::CSharp)
        } else if str_eq(ext, "css") {
            Some(Language::Css)
        } else if str_eq(ext, "cts") {
            Some(Language::TypeScript)
        } else if str_eq(ext, "cxx") {
            Some(Language::Cxx)
        } else if str_eq(ext, "d") {
            Some(Language::D)
        } else if str_eq(ext, "dart") {
            Some(Language::Dart)
        } else if str_eq(ext, "elm") {
            Some(Language::Elm)
        } else if str_eq(ext, "erl") {
            Some(Language::Erlang)
        } else if str_eq(ext, "ex") {
            Some(Language::Elixir)
        } else if str_eq(ext, "f") {
            Some(Language::Fortran)
        } else if str_eq(ext, "for") {
            Some(Language::Fortran)
        } else if str_eq(ext, "fs") {
            Some(Language::FSharp)
        } else if str_eq(ext, "f90") {
            Some(Language::Fortran)
        } else if str_eq(ext, "f95") {
            Some(Language::Fortran)
        } else if str_eq(ext, "f03") {
            Some(Language::Fortran)
        } else if str_eq(ext, "gleam") {
            Some(Language::Gleam)
        } else if str_eq(ext, "gn") {
            Some(Language::Gn)
        } else if str_eq(ext, "go") {
            Some(Language::Go)
        } else if str_eq(ext, "gql") {
            Some(Language::GraphQl)
        } else if str_eq(ext, "gr") {
            Some(Language::Grain)
        } else if str_eq(ext, "gren") {
            Some(Language::Gren)
        } else if str_eq(ext, "h") {
            Some(Language::C)
        } else if str_eq(ext, "ha") {
            Some(Language::Hare)
        } else if str_eq(ext, "hh") {
            Some(Language::Cxx)
        } else if str_eq(ext, "hpp") {
            Some(Language::Cxx)
        } else if str_eq(ext, "hs") {
            Some(Language::Haskell)
        } else if str_eq(ext, "htm") {
            Some(Language::Html)
        } else if str_eq(ext, "html") {
            Some(Language::Html)
        } else if str_eq(ext, "hxx") {
            Some(Language::Cxx)
        } else if str_eq(ext, "idr") {
            Some(Language::Idris)
        } else if str_eq(ext, "jai") {
            Some(Language::Jai)
        } else if str_eq(ext, "jakt") {
            Some(Language::Jakt)
        } else if str_eq(ext, "java") {
            Some(Language::Java)
        } else if str_eq(ext, "jl") {
            Some(Language::Julia)
        } else if str_eq(ext, "js") {
            Some(Language::JavaScript)
        } else if str_eq(ext, "json") {
            Some(Language::Json)
        } else if str_eq(ext, "jsonc") {
            Some(Language::Json)
        } else if str_eq(ext, "jsx") {
            Some(Language::JavaScript)
        } else if str_eq(ext, "kk") {
            Some(Language::Koka)
        } else if str_eq(ext, "kt") {
            Some(Language::Kotlin)
        } else if str_eq(ext, "kts") {
            Some(Language::Kotlin)
        } else if str_eq(ext, "ll") {
            Some(Language::Llvm)
        } else if str_eq(ext, "lua") {
            Some(Language::Lua)
        } else if str_eq(ext, "m") {
            Some(Language::ObjectiveC)
        } else if str_eq(ext, "md") {
            Some(Language::Markdown)
        } else if str_eq(ext, "mjs") {
            Some(Language::JavaScript)
        } else if str_eq(ext, "mk") {
            Some(Language::Make)
        } else if str_eq(ext, "ml") {
            Some(Language::OCaml)
        } else if str_eq(ext, "mm") {
            Some(Language::ObjectiveCxx)
        } else if str_eq(ext, "mts") {
            Some(Language::TypeScript)
        } else if str_eq(ext, "nim") {
            Some(Language::Nim)
        } else if str_eq(ext, "nu") {
            Some(Language::NuShell)
        } else if str_eq(ext, "oak") {
            Some(Language::Oak)
        } else if str_eq(ext, "odin") {
            Some(Language::Odin)
        } else if str_eq(ext, "pas") {
            Some(Language::Pascal)
        } else if str_eq(ext, "php") {
            Some(Language::Php)
        } else if str_eq(ext, "pl") {
            Some(Language::Perl)
        } else if str_eq(ext, "pm") {
            Some(Language::Perl)
        } else if str_eq(ext, "porth") {
            Some(Language::Porth)
        } else if str_eq(ext, "pro") {
            Some(Language::Prolog)
        } else if str_eq(ext, "ps1") {
            Some(Language::PowerShell)
        } else if str_eq(ext, "py") {
            Some(Language::Python)
        } else if str_eq(ext, "q") {
            Some(Language::Turquoise)
        } else if str_eq(ext, "rb") {
            Some(Language::Ruby)
        } else if str_eq(ext, "ren") {
            Some(Language::Ren)
        } else if str_eq(ext, "rina") {
            Some(Language::Catrina)
        } else if str_eq(ext, "rkt") {
            Some(Language::Racket)
        } else if str_eq(ext, "roc") {
            Some(Language::Roc)
        } else if str_eq(ext, "rs") {
            Some(Language::Rust)
        } else if str_eq(ext, "s") {
            Some(Language::Assembly)
        } else if str_eq(ext, "sass") {
            Some(Language::Sass)
        } else if str_eq(ext, "scala") {
            Some(Language::Scala)
        } else if str_eq(ext, "sh") {
            Some(Language::Bash)
        } else if str_eq(ext, "sql") {
            Some(Language::Sql)
        } else if str_eq(ext, "svelte") {
            Some(Language::Svelte)
        } else if str_eq(ext, "swift") {
            Some(Language::Swift)
        } else if str_eq(ext, "tcl") {
            Some(Language::Tcl)
        } else if str_eq(ext, "tf") {
            Some(Language::Terraform)
        } else if str_eq(ext, "toml") {
            Some(Language::Toml)
        } else if str_eq(ext, "ts") {
            Some(Language::TypeScript)
        } else if str_eq(ext, "tsx") {
            Some(Language::TypeScript)
        } else if str_eq(ext, "u") {
            Some(Language::Unison)
        } else if str_eq(ext, "v") {
            Some(Language::V)
        } else if str_eq(ext, "vale") {
            Some(Language::Vale)
        } else if str_eq(ext, "vb") {
            Some(Language::VisualBasic)
        } else if str_eq(ext, "vue") {
            Some(Language::Vue)
        } else if str_eq(ext, "wat") {
            Some(Language::WebAssembly)
        } else if str_eq(ext, "xml") {
            Some(Language::Xml)
        } else if str_eq(ext, "yaml") {
            Some(Language::Yaml)
        } else if str_eq(ext, "yml") {
            Some(Language::Yaml)
        } else if str_eq(ext, "zig") {
            Some(Language::Zig)
        } else {
            None
        }
    }
}

} // verus!
