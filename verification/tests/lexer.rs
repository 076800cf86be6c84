use sqruff_lib::config::FluffConfig;
use sqruff_lib::dialect::{Dialect, DialectKind};
use sqruff_lib::errors::ValueError;
use sqruff_lib::lexer::{
    iter_segments, try_iter_segments, Element, Lexer, Matcher, Pattern, StringOrTemplate,
};
use sqruff_lib::segments::Segment;
use sqruff_lib::syntax::SyntaxKind;
use sqruff_lib::templater::{SliceType, TemplatedFile, TemplatedFileSlice};

/// Assert that a matcher does or doesn't work on a string.
fn assert_matches(in_string: &str, matcher: &Matcher, match_string: Option<&str>) {
    let res = matcher.matches(in_string);
    if let Some(match_string) = match_string {
        assert_eq!(res.forward_string, &in_string[match_string.len()..]);
        assert_eq!(res.elements.len(), 1);
        assert_eq!(res.elements[0].text, match_string);
    } else {
        assert_eq!(res.forward_string, in_string);
        assert_eq!(res.elements.len(), 0);
    }
}

fn raw_of(segment: &Segment) -> String {
    match segment {
        Segment::Leaf { raw, .. } => raw.clone(),
        Segment::Node { children, .. } => children.iter().map(raw_of).collect(),
    }
}

fn kind_of(segment: &Segment) -> SyntaxKind {
    match segment {
        Segment::Leaf { kind, .. } => *kind,
        Segment::Node { kind, .. } => *kind,
    }
}

fn simple_matchers() -> Vec<Matcher> {
    vec![
        Matcher::regex("whitespace", r"[^\S\r\n]+", SyntaxKind::Whitespace),
        Matcher::regex("newline", r"\r\n|\n", SyntaxKind::Newline),
        Matcher::string("dot", ".", SyntaxKind::Dot),
        Matcher::string("comma", ",", SyntaxKind::Comma),
        Matcher::string("semicolon", ";", SyntaxKind::Semicolon),
        Matcher::regex("word", r"[0-9a-zA-Z_]+", SyntaxKind::Word),
    ]
}

fn simple_config() -> FluffConfig {
    let mut dialect = Dialect::new(DialectKind::Ansi);
    dialect.set_lexer_matchers(simple_matchers());
    FluffConfig::new(dialect)
}

#[test]
fn test_parser_lexer_trim_post_subdivide() {
    let matcher: Vec<Matcher> = vec![Matcher::regex(
        "function_script_terminator",
        r";\s+(?!\*)\/(?!\*)|\s+(?!\*)\/(?!\*)",
        SyntaxKind::StatementTerminator,
    )
    .subdivider(Pattern::string("semicolon", ";", SyntaxKind::Semicolon))
    .post_subdivide(Pattern::regex("newline", r"(\n|\r\n)+", SyntaxKind::Newline))];

    let res = Lexer::lex_match(";\n/\n", &matcher);
    assert_eq!(res.elements[0].text, ";");
    assert_eq!(res.elements[1].text, "\n");
    assert_eq!(res.elements[2].text, "/");
    assert_eq!(res.elements.len(), 3);
}

/// Test the RegexLexer.
#[test]
fn test_parser_lexer_regex() {
    let tests = &[
        ("fsaljk", "f", "f"),
        ("fsaljk", r"f", "f"),
        ("fsaljk", r"[fas]*", "fsa"),
        // Matching whitespace segments
        ("   \t   fsaljk", r"[^\S\r\n]*", "   \t   "),
        // Matching whitespace segments (with a newline)
        ("   \t \n  fsaljk", r"[^\S\r\n]*", "   \t "),
        // Matching quotes containing stuff
        ("'something boring'   \t \n  fsaljk", r"'[^']*'", "'something boring'"),
        ("' something exciting \t\n '   \t \n  fsaljk", r"'[^']*'", "' something exciting \t\n '"),
    ];

    for (raw, reg, res) in tests {
        let matcher = Matcher::regex("test", reg, SyntaxKind::Word);

        assert_matches(raw, &matcher, Some(res));
    }
}

/// Test the lexer string
#[test]
fn test_parser_lexer_string() {
    let matcher = Matcher::string("dot", ".", SyntaxKind::Dot);

    assert_matches(".fsaljk", &matcher, Some("."));
    assert_matches("fsaljk", &matcher, None);
}

/// Test the RepeatedMultiMatcher
#[test]
fn test_parser_lexer_lex_match() {
    let matchers: Vec<Matcher> = vec![
        Matcher::string("dot", ".", SyntaxKind::Dot),
        Matcher::regex("test", "#[^#]*#", SyntaxKind::Word),
    ];

    let res = Lexer::lex_match("..#..#..#", &matchers);

    assert_eq!(res.forward_string, "#");
    assert_eq!(res.elements.len(), 5);
    assert_eq!(res.elements[2].text, "#..#");
}

#[test]
fn trim_names_follow_the_patterns() {
    let matcher: Vec<Matcher> = vec![Matcher::regex(
        "function_script_terminator",
        r";\s+(?!\*)\/(?!\*)|\s+(?!\*)\/(?!\*)",
        SyntaxKind::StatementTerminator,
    )
    .subdivider(Pattern::string("semicolon", ";", SyntaxKind::Semicolon))
    .post_subdivide(Pattern::regex("newline", r"(\n|\r\n)+", SyntaxKind::Newline))];
    let res = Lexer::lex_match(";\n/\n", &matcher);
    assert_eq!(res.forward_string, "\n");
    assert_eq!(res.elements[0].name, "semicolon");
    assert_eq!(res.elements[1].name, "newline");
    assert_eq!(res.elements[2].name, "function_script_terminator");
    assert_eq!(res.elements[2].value, SyntaxKind::StatementTerminator);
}

#[test]
fn trim_in_the_middle_stays_in_the_content() {
    let matcher = Matcher::regex("block_comment", r"\/\*([^\*]|\*(?!\/))*\*\/", SyntaxKind::BlockComment)
        .subdivider(Pattern::regex("newline", r"\r\n|\n", SyntaxKind::Newline))
        .post_subdivide(Pattern::regex("whitespace", r"[^\S\r\n]+", SyntaxKind::Whitespace));
    let res = matcher.matches("/* a\n  b */ x");
    let texts: Vec<&str> = res.elements.iter().map(|e| e.text.as_str()).collect();
    assert_eq!(texts, vec!["/* a", "\n", "  ", "b */"]);
    let names: Vec<&str> = res.elements.iter().map(|e| e.name).collect();
    assert_eq!(names, vec!["block_comment", "newline", "whitespace", "block_comment"]);
    assert_eq!(res.forward_string, " x");
}

#[test]
fn trim_at_the_end_closes_the_content() {
    let matcher = Matcher::regex("inline_comment", r"(--|#)[^\n]*\n?", SyntaxKind::InlineComment)
        .subdivider(Pattern::string("never", "\u{1}", SyntaxKind::Symbol))
        .post_subdivide(Pattern::regex("newline", r"\r\n|\n", SyntaxKind::Newline));
    let res = matcher.matches("-- hello\nselect");
    let texts: Vec<&str> = res.elements.iter().map(|e| e.text.as_str()).collect();
    assert_eq!(texts, vec!["-- hello", "\n"]);
    let names: Vec<&str> = res.elements.iter().map(|e| e.name).collect();
    assert_eq!(names, vec!["inline_comment", "newline"]);
    assert_eq!(res.forward_string, "select");
}

#[test]
fn subdivider_without_trim_keeps_only_the_dividers() {
    let matcher = Matcher::regex("pair", r"[a-z]+;[a-z]+", SyntaxKind::Word)
        .subdivider(Pattern::string("semicolon", ";", SyntaxKind::Semicolon));
    let res = matcher.matches("ab;cd ");
    assert_eq!(res.elements.len(), 1);
    assert_eq!(res.elements[0].text, ";");
    assert_eq!(res.forward_string, " ");
}

#[test]
fn first_match_wins() {
    let lambda = Matcher::string("lambda", "->", SyntaxKind::Lambda);
    let minus = Matcher::string("minus", "-", SyntaxKind::Minus);
    let greater = Matcher::string("greater_than", ">", SyntaxKind::ComparisonOperator);

    let first = vec![lambda.clone(), minus.clone(), greater.clone()];
    let res = Lexer::lex_match("->", &first);
    assert_eq!(res.elements.len(), 1);
    assert_eq!(res.elements[0].name, "lambda");

    let second = vec![minus, greater, lambda];
    let res = Lexer::lex_match("->", &second);
    assert_eq!(res.elements.len(), 2);
    assert_eq!(res.elements[0].name, "minus");
    assert_eq!(res.elements[1].name, "greater_than");
}

#[test]
fn matcher_that_takes_nothing_does_not_win() {
    let matchers = vec![
        Matcher::regex("blank", r"[^\S\r\n]*", SyntaxKind::Whitespace),
        Matcher::regex("word", r"[a-z]+", SyntaxKind::Word),
    ];
    let res = Lexer::lex_match("ab  cd", &matchers);
    let names: Vec<&str> = res.elements.iter().map(|e| e.name).collect();
    assert_eq!(names, vec!["word", "blank", "word"]);
    assert_eq!(res.forward_string, "");
}

#[test]
fn try_regex_refuses_a_bad_pattern() {
    assert!(Matcher::try_regex("bad", "(", SyntaxKind::Word).is_none());
    assert!(Pattern::try_regex("bad", "[", SyntaxKind::Word).is_none());
    assert!(Matcher::try_regex("good", "a+", SyntaxKind::Word).is_some());
}

#[test]
fn pattern_search_finds_the_first_occurrence() {
    let literal = Pattern::string("semicolon", ";", SyntaxKind::Semicolon);
    assert_eq!(literal.search("ab;cd;"), Some(2..3));
    assert_eq!(literal.search("abcd"), None);
    let regex = Pattern::regex("digits", "[0-9]+", SyntaxKind::NumericLiteral);
    assert_eq!(regex.search("ab123cd45"), Some(2..5));
    assert_eq!(regex.search("é12"), Some(2..4));
    assert_eq!(regex.search("abcd"), None);
}

#[test]
fn lex_round_trip() {
    let config = simple_config();
    let lexer = Lexer::new(&config, None);
    let text = "select a,\n  b.c from t;";
    let (segments, errors) = lexer.lex(StringOrTemplate::String(text)).unwrap();
    let joined: String = segments.iter().map(raw_of).collect();
    assert_eq!(joined, text);
    assert!(errors.is_empty());
    let last = segments.last().unwrap();
    assert_eq!(kind_of(last), SyntaxKind::EndOfFile);
    assert_eq!(raw_of(last), "");
    assert_eq!(segments.len(), 15);
    match &segments[2] {
        Segment::Leaf { kind, raw, position } => {
            assert_eq!(*kind, SyntaxKind::Word);
            assert_eq!(raw, "a");
            let p = position.as_ref().unwrap();
            assert_eq!(p.source_slice, 7..8);
            assert_eq!(p.templated_slice, 7..8);
        }
        _ => panic!("a leaf was expected"),
    }
    match last {
        Segment::Leaf { position, .. } => {
            let p = position.as_ref().unwrap();
            assert_eq!(p.source_slice, text.len()..text.len());
            assert_eq!(p.templated_slice, text.len()..text.len());
        }
        _ => panic!("a leaf was expected"),
    }
}

#[test]
fn lex_of_nothing_is_the_end_of_file() {
    let config = simple_config();
    let lexer = Lexer::new(&config, None);
    let (segments, errors) = lexer.lex(StringOrTemplate::String("")).unwrap();
    assert_eq!(segments.len(), 1);
    assert!(errors.is_empty());
    match &segments[0] {
        Segment::Leaf { kind, raw, position } => {
            assert_eq!(*kind, SyntaxKind::EndOfFile);
            assert_eq!(raw, "");
            let p = position.as_ref().unwrap();
            assert_eq!(p.source_slice, 0..0);
            assert_eq!(p.templated_slice, 0..0);
        }
        _ => panic!("a leaf was expected"),
    }
}

#[test]
fn lex_unlexable_text() {
    let config = simple_config();
    let lexer = Lexer::new(&config, None);
    let text = "a @@é%%%%%%%%%% b\t@";
    let (segments, errors) = lexer.lex(StringOrTemplate::String(text)).unwrap();
    let joined: String = segments.iter().map(raw_of).collect();
    assert_eq!(joined, text);
    let kinds: Vec<SyntaxKind> = segments.iter().map(kind_of).collect();
    assert_eq!(
        kinds,
        vec![
            SyntaxKind::Word,
            SyntaxKind::Whitespace,
            SyntaxKind::Unlexable,
            SyntaxKind::Whitespace,
            SyntaxKind::Unlexable,
            SyntaxKind::EndOfFile
        ]
    );
    assert_eq!(raw_of(&segments[2]), "@@é%%%%%%%%%% b");
    assert_eq!(raw_of(&segments[4]), "@");
    assert_eq!(errors.len(), 2);
    assert_eq!(errors[0].message, "Unable to lex characters: @@é%%%%%%%");
    assert_eq!(errors[0].position_marker.source_slice, 2..18);
    assert_eq!(errors[1].message, "Unable to lex characters: @");
}

#[test]
fn lex_text_that_the_last_resort_cannot_take() {
    let mut dialect = Dialect::new(DialectKind::Ansi);
    dialect.set_lexer_matchers(vec![Matcher::regex("word", r"[a-z]+", SyntaxKind::Word)]);
    let config = FluffConfig::new(dialect);
    let lexer = Lexer::new(&config, None);
    let text = "ab\t\tcd";
    let (segments, errors) = lexer.lex(StringOrTemplate::String(text)).unwrap();
    let joined: String = segments.iter().map(raw_of).collect();
    assert_eq!(joined, text);
    assert_eq!(segments.len(), 3);
    assert_eq!(kind_of(&segments[1]), SyntaxKind::Unlexable);
    assert_eq!(raw_of(&segments[1]), "\t\tcd");
    assert_eq!(errors.len(), 1);
}

#[test]
fn lex_with_a_lossy_matcher_is_a_mismatch() {
    let mut dialect = Dialect::new(DialectKind::Ansi);
    dialect.set_lexer_matchers(vec![Matcher::regex("pair", r"[a-z]+;[a-z]+", SyntaxKind::Word)
        .subdivider(Pattern::string("semicolon", ";", SyntaxKind::Semicolon))]);
    let config = FluffConfig::new(dialect);
    let lexer = Lexer::new(&config, None);
    let r = lexer.lex(StringOrTemplate::String("ab;cd"));
    assert_eq!(r.err(), Some(ValueError::TemplateMismatch));
}

fn template(source: &str, templated: &str, slices: Vec<(SliceType, (usize, usize), (usize, usize))>) -> TemplatedFile {
    TemplatedFile::new(
        source.to_string(),
        templated.to_string(),
        slices
            .into_iter()
            .map(|(t, s, d)| TemplatedFileSlice::new(t, s.0..s.1, d.0..d.1))
            .collect(),
    )
}

#[test]
fn lex_template_with_a_tag_that_gives_no_text() {
    let config = simple_config();
    let lexer = Lexer::new(&config, None);
    // source: "a {# x #}b", templated: "a b"
    let file = template(
        "a {# x #}b",
        "a b",
        vec![
            (SliceType::Literal, (0, 2), (0, 2)),
            (SliceType::Comment, (2, 9), (2, 2)),
            (SliceType::Literal, (9, 10), (2, 3)),
        ],
    );
    let (segments, _) = lexer.lex(StringOrTemplate::Template(file)).unwrap();
    assert_eq!(segments.len(), 4);
    let joined: String = segments.iter().map(raw_of).collect();
    assert_eq!(joined, "a b");
    match &segments[2] {
        Segment::Leaf { raw, position, .. } => {
            assert_eq!(raw, "b");
            let p = position.as_ref().unwrap();
            assert_eq!(p.source_slice, 9..10);
            assert_eq!(p.templated_slice, 2..3);
        }
        _ => panic!("a leaf was expected"),
    }
}

#[test]
fn lex_template_splits_whitespace_at_a_slice_boundary() {
    let config = simple_config();
    let lexer = Lexer::new(&config, None);
    // source: "a {#c#} b", templated: "a  b"
    let file = template(
        "a {#c#} b",
        "a  b",
        vec![
            (SliceType::Literal, (0, 2), (0, 2)),
            (SliceType::Comment, (2, 7), (2, 2)),
            (SliceType::Literal, (7, 9), (2, 4)),
        ],
    );
    let (segments, _) = lexer.lex(StringOrTemplate::Template(file)).unwrap();
    let raws: Vec<String> = segments.iter().map(raw_of).collect();
    assert_eq!(raws, vec!["a", " ", " ", "b", ""]);
    match (&segments[1], &segments[2]) {
        (Segment::Leaf { position: Some(p), .. }, Segment::Leaf { position: Some(q), .. }) => {
            assert_eq!(p.source_slice, 1..2);
            assert_eq!(p.templated_slice, 1..3);
            assert_eq!(q.source_slice, 7..8);
            assert_eq!(q.templated_slice, 1..3);
        }
        _ => panic!("two leaves with positions were expected"),
    }
}

#[test]
fn lex_template_keeps_a_word_that_straddles_slices_whole() {
    let config = simple_config();
    let lexer = Lexer::new(&config, None);
    // source: "ab{#c#}cd", templated: "abcd"
    let file = template(
        "ab{#c#}cd",
        "abcd",
        vec![
            (SliceType::Literal, (0, 2), (0, 2)),
            (SliceType::Comment, (2, 7), (2, 2)),
            (SliceType::Literal, (7, 9), (2, 4)),
        ],
    );
    let (segments, _) = lexer.lex(StringOrTemplate::Template(file)).unwrap();
    assert_eq!(segments.len(), 2);
    match &segments[0] {
        Segment::Leaf { raw, position: Some(p), .. } => {
            assert_eq!(raw, "abcd");
            assert_eq!(p.source_slice, 0..9);
            assert_eq!(p.templated_slice, 0..4);
        }
        _ => panic!("a leaf with a position was expected"),
    }
}

#[test]
fn lex_template_errors() {
    let config = simple_config();
    let lexer = Lexer::new(&config, None);
    let templated = template(
        "{{ x }}",
        "abc",
        vec![(SliceType::Templated, (0, 7), (0, 3))],
    );
    assert_eq!(
        lexer.lex(StringOrTemplate::Template(templated)).err(),
        Some(ValueError::TemplatedSliceNotImplemented)
    );
    let short = template("ab", "abc", vec![(SliceType::Literal, (0, 2), (0, 2))]);
    assert_eq!(lexer.lex(StringOrTemplate::Template(short)).err(), Some(ValueError::UnplacedElement));
    let negative = template("c", "abc", vec![(SliceType::Literal, (0, 1), (2, 3))]);
    assert_eq!(
        lexer.lex(StringOrTemplate::Template(negative)).err(),
        Some(ValueError::PositionOutOfRange)
    );
    let mismatch = template("abc", "abc", vec![(SliceType::Literal, (0, 3), (0, 3))]);
    let mut dialect = Dialect::new(DialectKind::Ansi);
    dialect.set_lexer_matchers(vec![Matcher::regex("pair", r"[a-z]+;[a-z]+", SyntaxKind::Word)
        .subdivider(Pattern::string("semicolon", ";", SyntaxKind::Semicolon))]);
    let lossy = FluffConfig::new(dialect);
    assert!(Lexer::new(&lossy, None).lex(StringOrTemplate::Template(mismatch)).is_ok());
}

#[test]
fn lex_template_word_over_three_slices() {
    let config = simple_config();
    let lexer = Lexer::new(&config, None);
    let file = template(
        "ab  ",
        "ab  ",
        vec![
            (SliceType::Literal, (0, 1), (0, 1)),
            (SliceType::Literal, (1, 3), (1, 3)),
            (SliceType::Literal, (3, 4), (3, 4)),
        ],
    );
    let (segments, _) = lexer.lex(StringOrTemplate::Template(file)).unwrap();
    let raws: Vec<String> = segments.iter().map(raw_of).collect();
    assert_eq!(raws, vec!["ab", " ", " ", ""]);
    match &segments[0] {
        Segment::Leaf { position: Some(p), .. } => assert_eq!(p.source_slice, 0..2),
        _ => panic!("a leaf with a position was expected"),
    }
}

#[test]
fn dividers_side_by_side_leave_no_gap() {
    let matcher = Matcher::regex("run", r"[a-z;]+", SyntaxKind::Word)
        .subdivider(Pattern::string("semicolon", ";", SyntaxKind::Semicolon))
        .post_subdivide(Pattern::regex("newline", r"\n", SyntaxKind::Newline));
    let res = matcher.matches("a;;b; ");
    let texts: Vec<&str> = res.elements.iter().map(|e| e.text.as_str()).collect();
    assert_eq!(texts, vec!["a", ";", ";", "b", ";"]);
    let names: Vec<&str> = res.elements.iter().map(|e| e.name).collect();
    assert_eq!(names, vec!["run", "semicolon", "semicolon", "run", "semicolon"]);
    assert_eq!(res.forward_string, " ");
}

#[test]
fn template_element_to_segment() {
    let matcher = Matcher::regex("word", r"[a-zé]+", SyntaxKind::Word);
    let mut res = matcher.matches("abé d");
    let element = res.elements.remove(0);
    let placed = sqruff_lib::lexer::TemplateElement::from_element(element, 3..7);
    let marker = sqruff_lib::markers::PositionMarker::new(0..4, 3..7);
    match placed.to_segment(marker.clone(), None) {
        Segment::Leaf { kind, raw, position } => {
            assert_eq!(kind, SyntaxKind::Word);
            assert_eq!(raw, "abé");
            assert!(position.unwrap().same(&marker));
        }
        _ => panic!("a leaf was expected"),
    }
    assert_eq!(raw_of(&placed.to_segment(marker.clone(), Some(1..4))), "bé");
    assert_eq!(raw_of(&placed.to_segment(marker.clone(), Some(2..2))), "");
    assert!(!res.is_non_empty());
    assert_eq!(marker.end_point_marker().source_slice, 4..4);
    assert_eq!(marker.end_point_marker().templated_slice, 7..7);
}

fn element(text: &str) -> Element {
    Element::new("word", SyntaxKind::Word, text.to_string())
}

fn placed_as(segment: &Segment) -> (String, usize, usize) {
    match segment {
        Segment::Leaf { raw, position: Some(p), .. } => {
            (raw.clone(), p.templated_slice.start, p.templated_slice.end)
        }
        other => panic!("a leaf with a position was expected: {:?}", other),
    }
}

#[test]
fn map_template_slices_takes_elements_that_stand_at_their_places() {
    let file = TemplatedFile::from_string("abcd");
    // No element stands at its place as well as all of them do.
    assert!(Lexer::map_template_slices(Vec::new(), &file).is_empty());
    let placed = Lexer::map_template_slices(vec![element("ab"), element("c")], &file);
    assert_eq!(placed.len(), 2);
    let segments = iter_segments(placed, &file);
    let places: Vec<(String, usize, usize)> = segments.iter().map(placed_as).collect();
    assert_eq!(places, vec![("ab".to_string(), 0, 2), ("c".to_string(), 2, 3)]);
    let placed = Lexer::map_template_slices(vec![element("a"), element(""), element("bcd")], &file);
    let segments = iter_segments(placed, &file);
    let places: Vec<(String, usize, usize)> = segments.iter().map(placed_as).collect();
    assert_eq!(
        places,
        vec![("a".to_string(), 0, 1), ("".to_string(), 1, 1), ("bcd".to_string(), 1, 4)]
    );
}

#[test]
fn try_map_template_slices_tells_elements_that_do_not() {
    let file = TemplatedFile::from_string("abcd");
    assert!(Lexer::try_map_template_slices(Vec::new(), &file).is_some());
    assert_eq!(Lexer::try_map_template_slices(vec![element("ab"), element("cd")], &file).unwrap().len(), 2);
    assert_eq!(Lexer::try_map_template_slices(vec![element("abc")], &file).unwrap().len(), 1);
    assert!(Lexer::try_map_template_slices(vec![element("b")], &file).is_none());
    assert!(Lexer::try_map_template_slices(vec![element("ab"), element("d")], &file).is_none());
    assert!(Lexer::try_map_template_slices(vec![element("abcde")], &file).is_none());
    assert!(Lexer::try_map_template_slices(vec![element("abcd"), element("e")], &file).is_none());
    assert!(Lexer::try_map_template_slices(vec![element("a")], &TemplatedFile::from_string("")).is_none());
    assert!(Lexer::try_map_template_slices(vec![element("")], &TemplatedFile::from_string("")).is_some());
}

#[test]
fn try_iter_segments_tells_why_an_element_finds_no_place() {
    // source: "{{ x }}", templated: "ab"
    let file = template("{{ x }}", "ab", vec![(SliceType::Templated, (0, 7), (0, 2))]);
    let placed = Lexer::map_template_slices(vec![element("ab")], &file);
    assert_eq!(try_iter_segments(placed, &file).err(), Some(ValueError::TemplatedSliceNotImplemented));
    let file = TemplatedFile::from_string("ab");
    let placed = Lexer::map_template_slices(vec![element("ab")], &file);
    let segments = try_iter_segments(placed, &file).unwrap();
    assert_eq!(segments.len(), 1);
    assert_eq!(placed_as(&segments[0]), ("ab".to_string(), 0, 2));
}

#[test]
fn trimming_can_put_a_line_break_before_the_content_it_followed() {
    // The second line break is gathered into the content; the third stands at the start of
    // what is left and becomes an element before that content is closed.
    let matcher = Matcher::regex("text", r"[a-c\n]+", SyntaxKind::Word)
        .subdivider(Pattern::string("semicolon", ";", SyntaxKind::Semicolon))
        .post_subdivide(Pattern::string("newline", "\n", SyntaxKind::Newline));
    let made = matcher.matches("a\nb\n\nc");
    let texts: Vec<&str> = made.elements.iter().map(|e| e.text.as_str()).collect();
    assert_eq!(texts, vec!["\n", "a\nb\nc"]);
    assert_eq!(made.forward_string, "");
    // No byte is lost, but the elements no longer join to the text.
    assert_eq!(texts.concat().len(), "a\nb\n\nc".len());
    let mut dialect = Dialect::new(DialectKind::Ansi);
    dialect.set_lexer_matchers(vec![Matcher::regex("text", r"[a-c\n]+", SyntaxKind::Word)
        .subdivider(Pattern::string("semicolon", ";", SyntaxKind::Semicolon))
        .post_subdivide(Pattern::string("newline", "\n", SyntaxKind::Newline))]);
    let config = FluffConfig::new(dialect);
    let lexer = Lexer::new(&config, None);
    assert_eq!(lexer.lex(StringOrTemplate::String("a\nb\n\nc")).err(), Some(ValueError::TemplateMismatch));
    // With a trim pattern that takes line breaks together the text is kept in its order.
    let mut dialect = Dialect::new(DialectKind::Ansi);
    dialect.set_lexer_matchers(vec![Matcher::regex("text", r"[a-c\n]+", SyntaxKind::Word)
        .subdivider(Pattern::string("semicolon", ";", SyntaxKind::Semicolon))
        .post_subdivide(Pattern::regex("newline", r"\n+", SyntaxKind::Newline))]);
    let config = FluffConfig::new(dialect);
    let lexer = Lexer::new(&config, None);
    let (segments, _) = lexer.lex(StringOrTemplate::String("a\nb\n\nc\n")).unwrap();
    let raws: Vec<String> = segments.iter().map(|s| s.raw()).collect();
    assert_eq!(raws.concat(), "a\nb\n\nc\n");
}
