use langs::language::Language;
use langs::summary::LanguageSummary;

#[test]
fn a_fresh_summary_counts_zero_lines() {
    let s = LanguageSummary::from(Language::Rust);
    assert_eq!(s.language, Language::Rust);
    assert_eq!(s.lines, 0);
}

#[test]
fn the_count_is_exactly_the_sum_of_increments() {
    let mut s = LanguageSummary::from(Language::Python);
    s.add_lines(5);
    assert_eq!(s.lines, 5);
    assert_eq!(s.lines, 5);
    s.add_lines(0);
    assert_eq!(s.lines, 5);
    s.add_lines(7);
    assert_eq!(s.lines, 12);
    assert_eq!(s.language, Language::Python);
}

#[test]
fn a_plain_language_row_is_exact() {
    let mut s = LanguageSummary::from(Language::Assembly);
    s.add_lines(42);
    let row = s.display();
    let expected = format!("{:89}  {:>9}", "Assembly", 42);
    assert_eq!(row, expected);
    assert_eq!(row.chars().count(), 100);
}

#[test]
fn language_display_pads_to_the_requested_width() {
    assert_eq!(Language::Assembly.display(10), "Assembly  ");
    assert_eq!(Language::Assembly.display(0), "Assembly");
    assert_eq!(Language::Assembly.display(3), "Assembly");
}

#[test]
fn a_colored_language_row_keeps_its_columns() {
    colored::control::set_override(false);
    let mut s = LanguageSummary::from(Language::Rust);
    s.add_lines(1234);
    let row = s.display();
    let expected = format!("{:89}  {:>9}", "Rust", 1234);
    assert_eq!(row, expected);

    colored::control::set_override(true);
    let mut styled = LanguageSummary::from(Language::Rust);
    styled.add_lines(9);
    let styled_row = styled.display();
    assert!(styled_row.contains("Rust"));
    assert!(styled_row.ends_with(&format!("  {:>9}", 9)));
    colored::control::unset_override();
}
