//! The display side of a language: a human-readable name and an optional
//! color, derived from the language tag by a total, exhaustive mapping.

use vstd::prelude::*;
use vstd::string::StringExecFns;
use crate::color::Color;
use crate::color::color_of_packed;
use crate::language::Language;
use crate::text::pad_right;
use crate::text::spec_pad_right;

verus! {

/// The display name and optional foreground tint of a language. A missing
/// color is intentional: such a language is rendered in the plain style.
#[derive(Clone, Debug)]
pub struct LanguageInfo {
    pub name: String,
    pub color: Option<Color>,
}

/// The display name of each language.
pub open spec fn info_name(lang: Language) -> Seq<char> {
    match lang {
        Language::Assembly => "Assembly"@,
        Language::Astro => "Astro"@,
        Language::Bash => "Bash"@,
        Language::C => "C"@,
        Language::Carbon => "Carbon"@,
        Language::Catrina => "Catrina"@,
        Language::Clojure => "Clojure"@,
        Language::CMake => "CMake"@,
        Language::Co => "Co"@,
        Language::Cobol => "Cobol"@,
        Language::CoffeeScript => "CoffeeScript"@,
        Language::Cognate => "Cognate"@,
        Language::Crystal => "Crystal"@,
        Language::CSharp => "C#"@,
        Language::Css => "CSS"@,
        Language::Cxx => "C++"@,
        Language::D => "D"@,
        Language::Dart => "Dart"@,
        Language::Elm => "Elm"@,
        Language::Elixir => "Elixir"@,
        Language::Erlang => "Erlang"@,
        Language::FSharp => "F#"@,
        Language::Fortran => "Fortran"@,
        Language::Gleam => "Gleam"@,
        Language::Gn => "gn"@,
        Language::Go => "Go"@,
        Language::Grain => "Grain"@,
        Language::GraphQl => "GraphQL"@,
        Language::Gren => "Gren"@,
        Language::Hare => "Hare"@,
        Language::Haskell => "Haskell"@,
        Language::Html => "HTML"@,
        Language::Idris => "Idris"@,
        Language::Jai => "Jai"@,
        Language::Jakt => "Jakt"@,
        Language::Java => "Java"@,
        Language::JavaScript => "JavaScript"@,
        Language::Json => "JSON"@,
        Language::Julia => "Julia"@,
        Language::Koka => "Koka"@,
        Language::Kotlin => "Kotlin"@,
        Language::Llvm => "LLVM IR"@,
        Language::Lua => "Lua"@,
        Language::Make => "Make"@,
        Language::Markdown => "Markdown"@,
        Language::Nim => "Nim"@,
        Language::NuShell => "NuShell"@,
        Language::Oak => "Oak"@,
        Language::ObjectiveC => "Objective-C"@,
        Language::ObjectiveCxx => "Objective-C++"@,
        Language::OCaml => "OCaml"@,
        Language::Odin => "Odin"@,
        Language::Pascal => "Pascal"@,
        Language::Perl => "Perl"@,
        Language::Php => "PHP"@,
        Language::Porth => "Porth"@,
        Language::PowerShell => "PowerShell"@,
        Language::Prolog => "Prolog"@,
        Language::Python => "Python"@,
        Language::Turquoise => "Turquoise"@,
        Language::Racket => "Racket"@,
        Language::Ren => "Ren"@,
        Language::Ruby => "Ruby"@,
        Language::Roc => "Roc"@,
        Language::Rust => "Rust"@,
        Language::Sass => "Sass"@,
        Language::Scala => "Scala"@,
        Language::Sql => "SQL"@,
        Language::Svelte => "Svelte"@,
        Language::Swift => "Swift"@,
        Language::Tcl => "Tcl"@,
        Language::Terraform => "Terraform"@,
        Language::Toml => "TOML"@,
        Language::TypeScript => "TypeScript"@,
        Language::Unison => "Unison"@,
        Language::V => "V"@,
        Language::Vale => "Vale"@,
        Language::VisualBasic => "Visual Basic"@,
        Language::Vue => "Vue"@,
        Language::WebAssembly => "WebAssembly"@,
        Language::Xml => "XML"@,
        Language::Yaml => "YAML"@,
        Language::Zig => "Zig"@,
    }
}

/// The display color of each language, where one is assigned.
pub open spec fn info_color(lang: Language) -> Option<Color> {
    match lang {
        Language::Assembly => None,
        Language::Astro => None,
        Language::Bash => Some(Color { r: 50, g: 50, b: 50 }),
        Language::C => Some(Color { r: 40, g: 48, b: 126 }),
        Language::Carbon => None,
        Language::Catrina => Some(Color { r: 255, g: 105, b: 180 }),
        Language::Clojure => Some(Color { r: 0, g: 112, b: 255 }),
        Language::CMake => None,
        Language::Co => None,
        Language::Cobol => Some(Color { r: 0, g: 112, b: 255 }),
        Language::CoffeeScript => Some(color_of_packed(0x3e2723)),
        Language::Cognate => None,
        Language::Crystal => None,
        Language::CSharp => Some(Color { r: 5, g: 142, b: 12 }),
        Language::Css => None,
        Language::Cxx => Some(Color { r: 25, g: 65, b: 122 }),
        Language::D => None,
        Language::Dart => Some(color_of_packed(0x40c4ff)),
        Language::Elm => Some(color_of_packed(0x60b5cc)),
        Language::Elixir => Some(color_of_packed(0x4e2a8e)),
        Language::Erlang => Some(color_of_packed(0xa2003e)),
        Language::FSharp => Some(color_of_packed(0xb845fc)),
        Language::Fortran => None,
        Language::Gleam => Some(color_of_packed(0xffaff3)),
        Language::Gn => None,
        Language::Go => Some(color_of_packed(0x00add8)),
        Language::Grain => Some(Color { r: 255, g: 133, b: 14 }),
        Language::GraphQl => None,
        Language::Gren => Some(color_of_packed(0xff6600)),
        Language::Hare => Some(color_of_packed(0x121415)),
        Language::Haskell => Some(color_of_packed(0x6144b3)),
        Language::Html => None,
        Language::Idris => None,
        Language::Jai => None,
        Language::Jakt => Some(Color { r: 255, g: 0, b: 0 }),
        Language::Java => Some(Color { r: 205, g: 55, b: 47 }),
        Language::JavaScript => Some(color_of_packed(0xf1e05a)),
        Language::Json => None,
        Language::Julia => Some(color_of_packed(0xa270ba)),
        Language::Koka => None,
        Language::Kotlin => Some(color_of_packed(0xa97bff)),
        Language::Llvm => None,
        Language::Lua => None,
        Language::Make => None,
        Language::Markdown => None,
        Language::Nim => Some(color_of_packed(0xffc200)),
        Language::NuShell => Some(color_of_packed(0x3aa675)),
        Language::Oak => None,
        Language::ObjectiveC => None,
        Language::ObjectiveCxx => None,
        Language::OCaml => None,
        Language::Odin => None,
        Language::Pascal => None,
        Language::Perl => None,
        Language::Php => Some(color_of_packed(0x4f5d95)),
        Language::Porth => None,
        Language::PowerShell => None,
        Language::Prolog => None,
        Language::Python => Some(color_of_packed(0x3776ab)),
        Language::Turquoise => Some(color_of_packed(0x90eada)),
        Language::Racket => None,
        Language::Ren => Some(color_of_packed(0xdd5e36)),
        Language::Ruby => Some(color_of_packed(0xcc342d)),
        Language::Roc => None,
        Language::Rust => Some(color_of_packed(0xa72145)),
        Language::Sass => None,
        Language::Scala => None,
        Language::Sql => Some(color_of_packed(0x336790)),
        Language::Svelte => None,
        Language::Swift => Some(color_of_packed(0xf05138)),
        Language::Tcl => None,
        Language::Terraform => Some(color_of_packed(0x844fba)),
        Language::Toml => None,
        Language::TypeScript => Some(color_of_packed(0x3178c6)),
        Language::Unison => Some(Color { r: 118, g: 207, b: 143 }),
        Language::V => None,
        Language::Vale => None,
        Language::VisualBasic => None,
        Language::Vue => Some(color_of_packed(0x41b883)),
        Language::WebAssembly => None,
        Language::Xml => None,
        Language::Yaml => None,
        Language::Zig => Some(Color { r: 235, g: 168, b: 66 }),
    }
}

/// Every display name is non-empty and free of the terminal escape
/// character, so styling can only wrap it, never rewrite it.
pub proof fn lemma_info_name_wf(lang: Language)
    ensures
        info_name(lang).len() > 0,
        forall|i: int| 0 <= i < info_name(lang).len() ==> info_name(lang)[i] != '\x1b',
{
    match lang {
        Language::Assembly => {
            reveal_strlit("Assembly");
        },
        Language::Astro => {
            reveal_strlit("Astro");
        },
        Language::Bash => {
            reveal_strlit("Bash");
        },
        Language::C => {
            reveal_strlit("C");
        },
        Language::Carbon => {
            reveal_strlit("Carbon");
        },
        Language::Catrina => {
            reveal_strlit("Catrina");
        },
        Language::Clojure => {
            reveal_strlit("Clojure");
        },
        Language::CMake => {
            reveal_strlit("CMake");
        },
        Language::Co => {
            reveal_strlit("Co");
        },
        Language::Cobol => {
            reveal_strlit("Cobol");
        },
        Language::CoffeeScript => {
            reveal_strlit("CoffeeScript");
        },
        Language::Cognate => {
            reveal_strlit("Cognate");
        },
        Language::Crystal => {
            reveal_strlit("Crystal");
        },
        Language::CSharp => {
            reveal_strlit("C#");
        },
        Language::Css => {
            reveal_strlit("CSS");
        },
        Language::Cxx => {
            reveal_strlit("C++");
        },
        Language::D => {
            reveal_strlit("D");
        },
        Language::Dart => {
            reveal_strlit("Dart");
        },
        Language::Elm => {
            reveal_strlit("Elm");
        },
        Language::Elixir => {
            reveal_strlit("Elixir");
        },
        Language::Erlang => {
            reveal_strlit("Erlang");
        },
        Language::FSharp => {
            reveal_strlit("F#");
        },
        Language::Fortran => {
            reveal_strlit("Fortran");
        },
        Language::Gleam => {
            reveal_strlit("Gleam");
        },
        Language::Gn => {
            reveal_strlit("gn");
        },
        Language::Go => {
            reveal_strlit("Go");
        },
        Language::Grain => {
            reveal_strlit("Grain");
        },
        Language::GraphQl => {
            reveal_strlit("GraphQL");
        },
        Language::Gren => {
            reveal_strlit("Gren");
        },
        Language::Hare => {
            reveal_strlit("Hare");
        },
        Language::Haskell => {
            reveal_strlit("Haskell");
        },
        Language::Html => {
            reveal_strlit("HTML");
        },
        Language::Idris => {
            reveal_strlit("Idris");
        },
        Language::Jai => {
            reveal_strlit("Jai");
        },
        Language::Jakt => {
            reveal_strlit("Jakt");
        },
        Language::Java => {
            reveal_strlit("Java");
        },
        Language::JavaScript => {
            reveal_strlit("JavaScript");
        },
        Language::Json => {
            reveal_strlit("JSON");
        },
        Language::Julia => {
            reveal_strlit("Julia");
        },
        Language::Koka => {
            reveal_strlit("Koka");
        },
        Language::Kotlin => {
            reveal_strlit("Kotlin");
        },
        Language::Llvm => {
            reveal_strlit("LLVM IR");
        },
        Language::Lua => {
            reveal_strlit("Lua");
        },
        Language::Make => {
            reveal_strlit("Make");
        },
        Language::Markdown => {
            reveal_strlit("Markdown");
        },
        Language::Nim => {
            reveal_strlit("Nim");
        },
        Language::NuShell => {
            reveal_strlit("NuShell");
        },
        Language::Oak => {
            reveal_strlit("Oak");
        },
        Language::ObjectiveC => {
            reveal_strlit("Objective-C");
        },
        Language::ObjectiveCxx => {
            reveal_strlit("Objective-C++");
        },
        Language::OCaml => {
            reveal_strlit("OCaml");
        },
        Language::Odin => {
            reveal_strlit("Odin");
        },
        Language::Pascal => {
            reveal_strlit("Pascal");
        },
        Language::Perl => {
            reveal_strlit("Perl");
        },
        Language::Php => {
            reveal_strlit("PHP");
        },
        Language::Porth => {
            reveal_strlit("Porth");
        },
        Language::PowerShell => {
            reveal_strlit("PowerShell");
        },
        Language::Prolog => {
            reveal_strlit("Prolog");
        },
        Language::Python => {
            reveal_strlit("Python");
        },
        Language::Turquoise => {
            reveal_strlit("Turquoise");
        },
        Language::Racket => {
            reveal_strlit("Racket");
        },
        Language::Ren => {
            reveal_strlit("Ren");
        },
        Language::Ruby => {
            reveal_strlit("Ruby");
        },
        Language::Roc => {
            reveal_strlit("Roc");
        },
        Language::Rust => {
            reveal_strlit("Rust");
        },
        Language::Sass => {
            reveal_strlit("Sass");
        },
        Language::Scala => {
            reveal_strlit("Scala");
        },
        Language::Sql => {
            reveal_strlit("SQL");
        },
        Language::Svelte => {
            reveal_strlit("Svelte");
        },
        Language::Swift => {
            reveal_strlit("Swift");
        },
        Language::Tcl => {
            reveal_strlit("Tcl");
        },
        Language::Terraform => {
            reveal_strlit("Terraform");
        },
        Language::Toml => {
            reveal_strlit("TOML");
        },
        Language::TypeScript => {
            reveal_strlit("TypeScript");
        },
        Language::Unison => {
            reveal_strlit("Unison");
        },
        Language::V => {
            reveal_strlit("V");
        },
        Language::Vale => {
            reveal_strlit("Vale");
        },
        Language::VisualBasic => {
            reveal_strlit("Visual Basic");
        },
        Language::Vue => {
            reveal_strlit("Vue");
        },
        Language::WebAssembly => {
            reveal_strlit("WebAssembly");
        },
        Language::Xml => {
            reveal_strlit("XML");
        },
        Language::Yaml => {
            reveal_strlit("YAML");
        },
        Language::Zig => {
            reveal_strlit("Zig");
        },
    }
}

impl LanguageInfo {
    /// The display entry for a language: one arm per variant, so a new
    /// language without display data fails to build rather than at runtime.
    pub fn from(lang: &Language) -> (r: LanguageInfo)
        ensures
            r.name@ == info_name(*lang),
            r.color == info_color(*lang),
            r.name@.len() > 0,
    {
        let r = match lang {
            Language::Assembly => LanguageInfo { name: String::from_str("Assembly"), color: None },
            Language::Astro => LanguageInfo { name: String::from_str("Astro"), color: None },
            Language::Bash => LanguageInfo { name: String::from_str("Bash"), color: Some(Color { r: 50, g: 50, b: 50 }) },
            Language::C => LanguageInfo { name: String::from_str("C"), color: Some(Color { r: 40, g: 48, b: 126 }) },
            Language::Carbon => LanguageInfo { name: String::from_str("Carbon"), color: None },
            Language::Catrina => LanguageInfo { name: String::from_str("Catrina"), color: Some(Color { r: 255, g: 105, b: 180 }) },
            Language::Clojure => LanguageInfo { name: String::from_str("Clojure"), color: Some(Color { r: 0, g: 112, b: 255 }) },
            Language::CMake => LanguageInfo { name: String::from_str("CMake"), color: None },
            Language::Co => LanguageInfo { name: String::from_str("Co"), color: None },
            Language::Cobol => LanguageInfo { name: String::from_str("Cobol"), color: Some(Color { r: 0, g: 112, b: 255 }) },
            Language::CoffeeScript => LanguageInfo { name: String::from_str("CoffeeScript"), color: Some(Color::from(0x3e2723usize)) },
            Language::Cognate => LanguageInfo { name: String::from_str("Cognate"), color: None },
            Language::Crystal => LanguageInfo { name: String::from_str("Crystal"), color: None },
            Language::CSharp => LanguageInfo { name: String::from_str("C#"), color: Some(Color { r: 5, g: 142, b: 12 }) },
            Language::Css => LanguageInfo { name: String::from_str("CSS"), color: None },
            Language::Cxx => LanguageInfo { name: String::from_str("C++"), color: Some(Color { r: 25, g: 65, b: 122 }) },
            Language::D => LanguageInfo { name: String::from_str("D"), color: None },
            Language::Dart => LanguageInfo { name: String::from_str("Dart"), color: Some(Color::from(0x40c4ffusize)) },
            Language::Elm => LanguageInfo { name: String::from_str("Elm"), color: Some(Color::from(0x60b5ccusize)) },
            Language::Elixir => LanguageInfo { name: String::from_str("Elixir"), color: Some(Color::from(0x4e2a8eusize)) },
            Language::Erlang => LanguageInfo { name: String::from_str("Erlang"), color: Some(Color::from(0xa2003eusize)) },
            Language::FSharp => LanguageInfo { name: String::from_str("F#"), color: Some(Color::from(0xb845fcusize)) },
            Language::Fortran => LanguageInfo { name: String::from_str("Fortran"), color: None },
            Language::Gleam => LanguageInfo { name: String::from_str("Gleam"), color: Some(Color::from(0xffaff3usize)) },
            Language::Gn => LanguageInfo { name: String::from_str("gn"), color: None },
            Language::Go => LanguageInfo { name: String::from_str("Go"), color: Some(Color::from(0x00add8usize)) },
            Language::Grain => LanguageInfo { name: String::from_str("Grain"), color: Some(Color { r: 255, g: 133, b: 14 }) },
            Language::GraphQl => LanguageInfo { name: String::from_str("GraphQL"), color: None },
            Language::Gren => LanguageInfo { name: String::from_str("Gren"), color: Some(Color::from(0xff6600usize)) },
            Language::Hare => LanguageInfo { name: String::from_str("Hare"), color: Some(Color::from(0x121415usize)) },
            Language::Haskell => LanguageInfo { name: String::from_str("Haskell"), color: Some(Color::from(0x6144b3usize)) },
            Language::Html => LanguageInfo { name: String::from_str("HTML"), color: None },
            Language::Idris => LanguageInfo { name: String::from_str("Idris"), color: None },
            Language::Jai => LanguageInfo { name: String::from_str("Jai"), color: None },
            Language::Jakt => LanguageInfo { name: String::from_str("Jakt"), color: Some(Color { r: 255, g: 0, b: 0 }) },
            Language::Java => LanguageInfo { name: String::from_str("Java"), color: Some(Color { r: 205, g: 55, b: 47 }) },
            Language::JavaScript => LanguageInfo { name: String::from_str("JavaScript"), color: Some(Color::from(0xf1e05ausize)) },
            Language::Json => LanguageInfo { name: String::from_str("JSON"), color: None },
            Language::Julia => LanguageInfo { name: String::from_str("Julia"), color: Some(Color::from(0xa270bausize)) },
            Language::Koka => LanguageInfo { name: String::from_str("Koka"), color: None },
            Language::Kotlin => LanguageInfo { name: String::from_str("Kotlin"), color: Some(Color::from(0xa97bffusize)) },
            Language::Llvm => LanguageInfo { name: String::from_str("LLVM IR"), color: None },
            Language::Lua => LanguageInfo { name: String::from_str("Lua"), color: None },
            Language::Make => LanguageInfo { name: String::from_str("Make"), color: None },
            Language::Markdown => LanguageInfo { name: String::from_str("Markdown"), color: None },
            Language::Nim => LanguageInfo { name: String::from_str("Nim"), color: Some(Color::from(0xffc200usize)) },
            Language::NuShell => LanguageInfo { name: String::from_str("NuShell"), color: Some(Color::from(0x3aa675usize)) },
            Language::Oak => LanguageInfo { name: String::from_str("Oak"), color: None },
            Language::ObjectiveC => LanguageInfo { name: String::from_str("Objective-C"), color: None },
            Language::ObjectiveCxx => LanguageInfo { name: String::from_str("Objective-C++"), color: None },
            Language::OCaml => LanguageInfo { name: String::from_str("OCaml"), color: None },
            Language::Odin => LanguageInfo { name: String::from_str("Odin"), color: None },
            Language::Pascal => LanguageInfo { name: String::from_str("Pascal"), color: None },
            Language::Perl => LanguageInfo { name: String::from_str("Perl"), color: None },
            Language::Php => LanguageInfo { name: String::from_str("PHP"), color: Some(Color::from(0x4f5d95usize)) },
            Language::Porth => LanguageInfo { name: String::from_str("Porth"), color: None },
            Language::PowerShell => LanguageInfo { name: String::from_str("PowerShell"), color: None },
            Language::Prolog => LanguageInfo { name: String::from_str("Prolog"), color: None },
            Language::Python => LanguageInfo { name: String::from_str("Python"), color: Some(Color::from(0x3776abusize)) },
            Language::Turquoise => LanguageInfo { name: String::from_str("Turquoise"), color: Some(Color::from(0x90eadausize)) },
            Language::Racket => LanguageInfo { name: String::from_str("Racket"), color: None },
            Language::Ren => LanguageInfo { name: String::from_str("Ren"), color: Some(Color::from(0xdd5e36usize)) },
            Language::Ruby => LanguageInfo { name: String::from_str("Ruby"), color: Some(Color::from(0xcc342dusize)) },
            Language::Roc => LanguageInfo { name: String::from_str("Roc"), color: None },
            Language::Rust => LanguageInfo { name: String::from_str("Rust"), color: Some(Color::from(0xa72145usize)) },
            Language::Sass => LanguageInfo { name: String::from_str("Sass"), color: None },
            Language::Scala => LanguageInfo { name: String::from_str("Scala"), color: None },
            Language::Sql => LanguageInfo { name: String::from_str("SQL"), color: Some(Color::from(0x336790usize)) },
            Language::Svelte => LanguageInfo { name: String::from_str("Svelte"), color: None },
            Language::Swift => LanguageInfo { name: String::from_str("Swift"), color: Some(Color::from(0xf05138usize)) },
            Language::Tcl => LanguageInfo { name: String::from_str("Tcl"), color: None },
            Language::Terraform => LanguageInfo { name: String::from_str("Terraform"), color: Some(Color::from(0x844fbausize)) },
            Language::Toml => LanguageInfo { name: String::from_str("TOML"), color: None },
            Language::TypeScript => LanguageInfo { name: String::from_str("TypeScript"), color: Some(Color::from(0x3178c6usize)) },
            Language::Unison => LanguageInfo { name: String::from_str("Unison"), color: Some(Color { r: 118, g: 207, b: 143 }) },
            Language::V => LanguageInfo { name: String::from_str("V"), color: None },
            Language::Vale => LanguageInfo { name: String::from_str("Vale"), color: None },
            Language::VisualBasic => LanguageInfo { name: String::from_str("Visual Basic"), color: None },
            Language::Vue => LanguageInfo { name: String::from_str("Vue"), color: Some(Color::from(0x41b883usize)) },
            Language::WebAssembly => LanguageInfo { name: String::from_str("WebAssembly"), color: None },
            Language::Xml => LanguageInfo { name: String::from_str("XML"), color: None },
            Language::Yaml => LanguageInfo { name: String::from_str("YAML"), color: None },
            Language::Zig => LanguageInfo { name: String::from_str("Zig"), color: Some(Color { r: 235, g: 168, b: 66 }) },
        };
        proof {
            lemma_info_name_wf(*lang);
        }
        r
    }
}

impl Language {
    /// The display name left-justified in a field of `width` characters,
    /// wrapped in this language's foreground color where one is assigned
    /// and left plain where none is. Styling only wraps the padded name:
    /// it never rewrites it.
    pub fn display(&self, width: usize) -> (r: String)
        ensures
            info_color(*self) is None ==> r@ == spec_pad_right(info_name(*self), width as nat),
            exists|pre: Seq<char>, suf: Seq<char>|
                r@ == pre + spec_pad_right(info_name(*self), width as nat) + suf,
    {
        let info = LanguageInfo::from(self);
        let padded = pad_right(info.name.as_str(), width);
        proof {
            lemma_info_name_wf(*self);
            assert forall|i: int| 0 <= i < padded@.len() implies padded@[i] != '\x1b' by {
                if i < info_name(*self).len() {
                    assert(padded@[i] == info_name(*self)[i]);
                } else {
                    assert(padded@[i] == ' ');
                }
            };
        }
        match info.color {
            Some(c) => c.color(padded.as_str()),
            None => {
                proof {
                    let nothing = Seq::<char>::empty();
                    assert(nothing + padded@ + nothing =~= padded@);
                }
                padded
            },
        }
    }
}

} // verus!
