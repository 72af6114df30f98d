//! A per-language line-count accumulator and its one-line report row.

use vstd::prelude::*;
use vstd::string::StringExecFns;
use crate::info::info_color;
use crate::info::info_name;
use crate::language::Language;
use crate::text::decimal_string;
use crate::text::pad_left;
use crate::text::spec_decimal;
use crate::text::spec_pad_left;
use crate::text::spec_pad_right;

verus! {

/// A language together with the number of lines attributed to it so far.
#[derive(Clone, Debug)]
pub struct LanguageSummary {
    pub language: Language,
    pub lines: usize,
}

impl LanguageSummary {
    /// A fresh summary for `language`, with no lines counted yet.
    pub fn from(language: Language) -> (s: LanguageSummary)
        ensures
            s.language == language,
            s.lines == 0,
    {
        LanguageSummary { language, lines: 0 }
    }

    /// Attribute `n` more counted lines to this language: the count after
    /// the call is exactly the count before it plus `n`.
    pub fn add_lines(&mut self, n: usize)
        requires
            old(self).lines + n <= usize::MAX,
        ensures
            final(self).language == old(self).language,
            final(self).lines == old(self).lines + n,
    {
        self.lines = self.lines + n;
    }

    /// One report row: the language name padded to the name column's width
    /// (styled only by wrapping, where the language has a color), two
    /// spaces, and the line count right-aligned in the count column.
    pub fn display(&self) -> (r: String)
        ensures
            info_color(self.language) is None ==> r@ == spec_pad_right(
                info_name(self.language),
                89,
            ) + "  "@ + spec_pad_left(spec_decimal(self.lines as nat), 9),
            exists|pre: Seq<char>, suf: Seq<char>|
                r@ == pre + spec_pad_right(info_name(self.language), 89) + suf + "  "@
                    + spec_pad_left(spec_decimal(self.lines as nat), 9),
    {
        let mut out = self.language.display(89);
        let ghost styled = out@;
        out.append("  ");
        let numeral = decimal_string(self.lines);
        let count = pad_left(numeral.as_str(), 9);
        out.append(count.as_str());
        proof {
            let name_col = spec_pad_right(info_name(self.language), 89);
            let count_col = spec_pad_left(spec_decimal(self.lines as nat), 9);
            let (pre, suf) = choose|pre: Seq<char>, suf: Seq<char>| styled == pre + name_col + suf;
            assert(out@ =~= pre + name_col + suf + "  "@ + count_col);
            if info_color(self.language) is None {
                assert(out@ =~= name_col + "  "@ + count_col);
            }
        }
        out
    }
}

} // verus!
