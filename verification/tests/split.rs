use rcas_lib::parse_rpol_notation::lines_of;
use rcas_lib::parse_rpol_notation::split_into_commands;
use rcas_lib::parse_rpol_notation::split_line;
use rcas_lib::text::chars_of;

fn commands(source: &str) -> Vec<Vec<String>> {
    split_into_commands(source.to_string())
}

fn words(line: &str) -> Vec<String> {
    split_line(&line.chars().collect())
}

#[test]
fn lines_are_split_at_newlines_and_words_at_spaces() {
    assert_eq!(commands("5 3 +\nPrint"), vec![vec!["5", "3", "+"], vec!["Print"]]);
    assert_eq!(commands("1.2 5 +"), vec![vec!["1.2", "5", "+"]]);
}

#[test]
fn comment_lines_are_dropped() {
    assert_eq!(commands("// a comment\n5 Print"), vec![vec!["5", "Print"]]);
    assert_eq!(commands("5\n//x\n//\n6"), vec![vec!["5"], vec!["6"]]);
    assert_eq!(commands("//only"), Vec::<Vec<String>>::new());
}

#[test]
fn a_comment_has_to_start_the_line() {
    assert_eq!(commands("5 // no comment"), vec![vec!["5", "//", "no", "comment"]]);
    assert_eq!(commands(" //x"), vec![vec!["", "//x"]]);
    assert_eq!(commands("/ /"), vec![vec!["/", "/"]]);
    assert_eq!(commands("/"), vec![vec!["/"]]);
}

#[test]
fn spaces_inside_quotes_do_not_split() {
    assert_eq!(words("\"a b\" c"), vec!["\"a b\"", "c"]);
    assert_eq!(words("\"x\" 10 :="), vec!["\"x\"", "10", ":="]);
    assert_eq!(words("a\"b c\"d e"), vec!["a\"b c\"d", "e"]);
    assert_eq!(words("\"a\" \"b c\" \"d\""), vec!["\"a\"", "\"b c\"", "\"d\""]);
}

#[test]
fn an_unmatched_quote_runs_to_the_end_of_the_line() {
    assert_eq!(words("\"a b c"), vec!["\"a b c"]);
    assert_eq!(words("x \"a b"), vec!["x", "\"a b"]);
    assert_eq!(commands("\"a b\nc d"), vec![vec!["\"a b"], vec!["c", "d"]]);
}

#[test]
fn every_space_outside_quotes_ends_a_word() {
    assert_eq!(words("a  b"), vec!["a", "", "b"]);
    assert_eq!(words(" a"), vec!["", "a"]);
    assert_eq!(words("a "), vec!["a", ""]);
    assert_eq!(words(" "), vec!["", ""]);
    assert_eq!(words(""), vec![""]);
    assert_eq!(words("a\tb"), vec!["a\tb"]);
}

#[test]
fn empty_lines_hold_one_empty_word() {
    assert_eq!(commands(""), vec![vec![""]]);
    assert_eq!(commands("\n"), vec![vec![""], vec![""]]);
    assert_eq!(commands("5\n"), vec![vec!["5"], vec![""]]);
    assert_eq!(commands("5\n\n6"), vec![vec!["5"], vec![""], vec!["6"]]);
}

#[test]
fn text_is_split_by_characters_not_by_bytes() {
    assert_eq!(commands("\"é ü\" ß\nλ"), vec![vec!["\"é ü\"", "ß"], vec!["λ"]]);
    assert_eq!(chars_of("aé\n"), vec!['a', 'é', '\n']);
    assert_eq!(chars_of(""), Vec::<char>::new());
}

#[test]
fn lines_keep_every_character_but_the_newline() {
    let text: Vec<char> = "a b\n\n c\r\nd".chars().collect();
    let lines: Vec<String> = lines_of(&text).into_iter().map(|l| l.into_iter().collect()).collect();
    assert_eq!(lines, vec!["a b", "", " c\r", "d"]);
}
