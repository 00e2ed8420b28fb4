use kolibri_pal::args::{args, is_whitespace, split_at_spaces, trim_chars};

fn chars(s: &str) -> Vec<char> {
    s.chars().collect()
}

fn collect(app: &str, cmd: &str) -> Vec<String> {
    let mut a = args(chars(app), &chars(cmd));
    let mut out = Vec::new();
    while let Some(arg) = a.next() {
        out.push(arg.into_iter().collect());
    }
    out
}

#[test]
fn empty_command_line_gives_only_the_path() {
    assert_eq!(collect("/sys/app", ""), vec!["/sys/app"]);
    assert_eq!(collect("/sys/app", " \t\n "), vec!["/sys/app"]);
}

#[test]
fn arguments_are_split_at_single_spaces() {
    assert_eq!(collect("/sys/app", "a b c"), vec!["/sys/app", "a", "b", "c"]);
}

#[test]
fn surrounding_white_space_is_trimmed_but_inner_spaces_make_empty_arguments() {
    assert_eq!(collect("/sys/app", "  a  b \u{3000}"), vec!["/sys/app", "a", "", "b"]);
}

#[test]
fn tabs_inside_stay_in_an_argument() {
    assert_eq!(collect("app", "x\ty z"), vec!["app", "x\ty", "z"]);
}

#[test]
fn joined_arguments_give_the_trimmed_command_line() {
    let cmd = "  one two  three ";
    let all = collect("p", cmd);
    assert_eq!(all[0], "p");
    assert_eq!(all[1..].join(" "), cmd.trim());
}

#[test]
fn args_iterator_ends_and_reports_no_length() {
    let mut a = args(chars("p"), &chars("x"));
    assert_eq!(a.len(), 0);
    assert_eq!(a.next_back(), None);
    assert_eq!(a.next(), Some(chars("p")));
    assert_eq!(a.next(), Some(chars("x")));
    assert_eq!(a.next(), None);
    assert_eq!(a.next(), None);
}

#[test]
fn white_space_is_unicode_white_space() {
    for c in ['\t', '\n', '\u{b}', '\u{c}', '\r', ' ', '\u{85}', '\u{a0}', '\u{1680}', '\u{2000}', '\u{200a}', '\u{2028}', '\u{2029}', '\u{202f}', '\u{205f}', '\u{3000}'] {
        assert!(is_whitespace(c), "{:?}", c);
        assert_eq!(is_whitespace(c), c.is_whitespace());
    }
    for c in ['a', '\u{200b}', '\u{feff}', '_', '\u{0}'] {
        assert!(!is_whitespace(c));
        assert_eq!(is_whitespace(c), c.is_whitespace());
    }
}

#[test]
fn trim_and_split_match_the_string_methods() {
    for s in ["", "a", "  a ", " a  b ", "a b c", "   ", "\u{a0}x\u{a0}"] {
        let t: String = trim_chars(&chars(s)).into_iter().collect();
        assert_eq!(t, s.trim());
        let pieces: Vec<String> = split_at_spaces(&chars(s)).into_iter().map(|v| v.into_iter().collect()).collect();
        let expected: Vec<String> = s.split(' ').map(|x| x.to_string()).collect();
        assert_eq!(pieces, expected);
    }
}
