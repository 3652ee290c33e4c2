use artemis::normalize::{
    normalize, normalize_comments, normalize_condition_codes, row_end, NormalizeError,
    BREAK_REPLACEMENT, COMMENT_BREAK,
};

#[test]
fn a_break_inside_a_comment_gives_way_to_one_space() {
    assert_eq!(
        normalize_comments("CO|1|first part\r\r\nsecond part|\r\nCO|2|x|\r\n"),
        Ok("CO|1|first part second part|\r\nCO|2|x|\r\n".to_string())
    );
}

#[test]
fn the_white_space_before_a_break_goes_with_it() {
    assert_eq!(normalize_comments("a \t \r\r\nb"), Ok("a b".to_string()));
    assert_eq!(normalize_comments("a\r\n\r\r\nb"), Ok("a b".to_string()));
    assert_eq!(normalize_comments("a\r\r\n\r\r\nb"), Ok("a b".to_string()));
    assert_eq!(normalize_comments("a\r\r\n \r\nb"), Ok("a  \r\nb".to_string()));
}

#[test]
fn a_file_without_embedded_breaks_stays_as_it_is() {
    let text = "CO|1|x|\r\nCO|2|y|\r\n";
    assert_eq!(normalize_comments(text), Ok(text.to_string()));
    assert_eq!(normalize_comments(""), Ok(String::new()));
}

#[test]
fn a_line_feed_inside_a_condition_becomes_a_space_and_nothing_is_lost() {
    assert_eq!(normalize_condition_codes("1|abc\ndef|R\r\n"), "1|abc def|R\r\n");
    assert_eq!(normalize_condition_codes("ab\ncd"), "ab cd");
    assert_eq!(normalize_condition_codes("abé\ncd"), "abé cd");
    assert_eq!(normalize_condition_codes("R\nP\nT\n|\nx"), "R P T | x");
}

#[test]
fn a_row_of_conditions_ends_in_one_of_four_characters() {
    let text = "1|A|text|R\r\n2|B|text|P\r\n3|C|text|T\r\n4|D|text|\r\n";
    assert_eq!(normalize_condition_codes(text), text);
    assert_eq!(normalize_condition_codes("1|A|broken\r\ntext|R\r\n"), "1|A|broken text|R\r\n");
    assert_eq!(normalize_condition_codes("1|A|r\r\np\r\nt\r\n|R\r\n"), "1|A|r p t |R\r\n");
    for c in ['R', 'P', 'T', '|'] {
        assert!(row_end(c));
    }
    for c in ['r', 'p', 't', 'A', '\r', '\n', ' ', 'é'] {
        assert!(!row_end(c));
    }
}

#[test]
fn breaks_that_follow_each_other_each_become_a_space() {
    assert_eq!(normalize_condition_codes("a\n\nb"), "a  b");
    assert_eq!(normalize_condition_codes("a\r\n\r\nb"), "a  b");
    assert_eq!(normalize_condition_codes("a\n\r\nb"), "a  b");
    assert_eq!(normalize_condition_codes("a\r\n\nb"), "a  b");
    assert_eq!(normalize_condition_codes("a\r\r\nb"), "a\r b");
}

#[test]
fn a_break_needs_a_character_before_it() {
    assert_eq!(normalize_condition_codes(""), "");
    assert_eq!(normalize_condition_codes("\n"), "\n");
    assert_eq!(normalize_condition_codes("\r\n"), "\r\n");
    assert_eq!(normalize_condition_codes("\nx\n"), "\nx ");
    assert_eq!(normalize_condition_codes("\r\nx\r\n"), "\r\nx ");
}

#[test]
fn a_carriage_return_alone_is_kept() {
    assert_eq!(normalize_condition_codes("a\rb"), "a\rb");
    assert_eq!(normalize_condition_codes("a\r"), "a\r");
    assert_eq!(normalize_condition_codes("R\r"), "R\r");
    assert_eq!(normalize_condition_codes("a\r\rb"), "a\r\rb");
}

#[test]
fn the_normal_form_of_conditions_has_no_break_left_in_it() {
    let samples = [
        "1|abc\ndef|R\r\n",
        "x\ny\r\nz|R\r\nq\r\r\n",
        "R\nP\r\nT\r\n|\r\n\n\n",
        "\n\n\r\n\r\nR\r\n",
        "a\r\nb\rc\n\rd\r\n",
    ];
    for text in samples {
        let normal = normalize_condition_codes(text);
        assert_eq!(normalize_condition_codes(&normal), normal);
        let chars: Vec<char> = normal.chars().collect();
        for i in 1..chars.len() {
            if chars[i] == '\n' {
                assert_eq!(chars[i - 1], '\r');
                assert!(i == 1 || row_end(chars[i - 2]));
            }
        }
        let kept: Vec<char> = text.chars().filter(|c| *c != '\r' && *c != '\n').collect();
        let left: Vec<char> =
            normal.chars().filter(|c| *c != '\r' && *c != '\n' && *c != ' ').collect();
        let kept: Vec<char> = kept.into_iter().filter(|c| *c != ' ').collect();
        assert_eq!(kept, left);
    }
}

#[test]
fn single_breaks_agree_with_a_pattern_that_puts_the_character_back() {
    let pattern = regex::Regex::new(r"([^\r])\n|([^RPT|])\r\n").unwrap();
    for text in [
        "",
        "plain",
        "1|abc\ndef|R\r\n",
        "1|A|broken\r\ntext|R\r\n2|B|x y|P\r\n",
        "a\nb\r\nc|T\r\nd|\r\n",
        "é\nü\r\n",
    ] {
        assert_eq!(normalize_condition_codes(text), pattern.replace_all(text, "${1}${2} "));
    }
}

#[test]
fn the_normal_form_of_comments_is_that_of_the_pattern() {
    let samples = [
        "",
        "plain",
        "a\r\r\nb",
        "a \r\r\n\r\r\n b\r\n",
        "x\ny\r\nz|R\r\nq\r\r\n",
        "\u{a0}\r\r\nnon-breaking",
        "\n",
        "\r\n",
    ];
    let comments = regex::Regex::new(COMMENT_BREAK).unwrap();
    for text in samples {
        assert_eq!(
            normalize_comments(text),
            Ok(comments.replace_all(text, BREAK_REPLACEMENT).to_string())
        );
    }
    assert_eq!(COMMENT_BREAK, r"\s*\r\r\n");
    assert_eq!(BREAK_REPLACEMENT, " ");
}

#[test]
fn a_pattern_that_is_none_is_refused() {
    assert_eq!(normalize("(", "text"), Err(NormalizeError::Pattern));
    assert_eq!(normalize("x+", "axxb"), Ok("a b".to_string()));
}
