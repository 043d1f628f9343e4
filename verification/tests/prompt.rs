use password_manager::prompt::trim_answer;

#[test]
fn trim_removes_the_line_break() {
    assert_eq!(trim_answer("github\n"), "github");
    assert_eq!(trim_answer("github\r\n"), "github");
}

#[test]
fn trim_removes_whitespace_at_both_ends() {
    assert_eq!(trim_answer("  \t a@b.com \t \n"), "a@b.com");
}

#[test]
fn trim_keeps_whitespace_inside() {
    assert_eq!(trim_answer("  my  bank account \n"), "my  bank account");
}

#[test]
fn trim_leaves_a_clean_line_alone() {
    assert_eq!(trim_answer("p4ss!w0rd"), "p4ss!w0rd");
    assert_eq!(trim_answer("x"), "x");
}

#[test]
fn trim_of_blank_lines_is_empty() {
    assert_eq!(trim_answer(""), "");
    assert_eq!(trim_answer("\n"), "");
    assert_eq!(trim_answer(" \t\r\n "), "");
}

#[test]
fn trim_knows_whitespace_beyond_ascii() {
    assert_eq!(trim_answer("\u{3000}\u{a0}caf\u{e9} \u{2003}\u{85}"), "caf\u{e9}");
    assert_eq!(trim_answer("\u{2028}\u{2029}"), "");
}

#[test]
fn trim_keeps_other_characters_at_the_ends() {
    assert_eq!(trim_answer(" \u{200b}a\u{200b} "), "\u{200b}a\u{200b}");
    assert_eq!(trim_answer("\u{e9}t\u{e9}\n"), "\u{e9}t\u{e9}");
    assert_eq!(trim_answer(" _ "), "_");
}

#[test]
fn trim_agrees_with_the_standard_library() {
    let lines = [
        "",
        " ",
        "a",
        " a",
        "a ",
        " a b ",
        "\t\tx\u{b}\u{c}",
        "\u{1680}y\u{180e}\u{202f}",
        "\u{205f}\u{feff}z\u{feff}\u{205f}",
        "\u{1f600} \u{1f600} \n",
    ];
    for line in lines.iter() {
        assert_eq!(trim_answer(line), line.trim());
    }
}
