use sqruff_lib::dialect::{Dialect, DialectError, DialectKind, Rule};
use sqruff_lib::grammar::{Grammar, GrammarList, ParseMode};
use sqruff_lib::lexer::{Lexer, Matcher};
use sqruff_lib::syntax::SyntaxKind;

fn names(dialect: &Dialect) -> Vec<&'static str> {
    dialect.lexer_matchers().iter().map(|m| m.name()).collect()
}

fn with_matchers() -> Dialect {
    let mut dialect = Dialect::new(DialectKind::Ansi);
    dialect.set_lexer_matchers(vec![
        Matcher::regex("whitespace", r"[^\S\r\n]+", SyntaxKind::Whitespace),
        Matcher::string("minus", "-", SyntaxKind::Minus),
        Matcher::string("greater_than", ">", SyntaxKind::ComparisonOperator),
        Matcher::regex("word", r"[a-z]+", SyntaxKind::Word),
    ]);
    dialect
}

#[test]
fn add_does_not_overwrite() {
    let mut dialect = Dialect::new(DialectKind::Sqlite);
    assert_eq!(dialect.name, DialectKind::Sqlite);
    assert!(dialect.add(vec![Rule::new("A".to_string(), Grammar::keyword("a"))]).is_ok());
    assert_eq!(
        dialect.add(vec![
            Rule::new("B".to_string(), Grammar::keyword("b")),
            Rule::new("A".to_string(), Grammar::keyword("c")),
        ]),
        Err(DialectError::DuplicateRule)
    );
    assert!(dialect.grammar("B").is_none());
    assert!(matches!(dialect.grammar("A"), Some(Grammar::Text { template, .. }) if template == "a"));
    assert_eq!(
        dialect.add(vec![
            Rule::new("C".to_string(), Grammar::keyword("c")),
            Rule::new("C".to_string(), Grammar::keyword("c")),
        ]),
        Err(DialectError::DuplicateRule)
    );
    assert!(dialect.grammar("C").is_none());
    assert!(dialect.add(vec![]).is_ok());
}

#[test]
fn replace_targets_a_rule_that_is_there() {
    let mut dialect = Dialect::new(DialectKind::Ansi);
    dialect
        .add(vec![
            Rule::new("A".to_string(), Grammar::keyword("a")),
            Rule::new("B".to_string(), Grammar::keyword("b")),
        ])
        .unwrap();
    assert_eq!(dialect.replace_grammar("C", Grammar::Nothing), Err(DialectError::UnknownRule));
    assert!(dialect.replace_grammar("A", Grammar::Nothing).is_ok());
    assert!(matches!(dialect.grammar("A"), Some(Grammar::Nothing)));
    assert!(matches!(dialect.grammar("B"), Some(Grammar::Text { template, .. }) if template == "b"));
}

#[test]
fn insert_lexer_matchers_before_the_anchor() {
    let mut dialect = with_matchers();
    let res = Lexer::lex_match("->", dialect.lexer_matchers());
    assert_eq!(res.elements.len(), 2);
    assert_eq!(res.elements[0].name, "minus");
    dialect
        .insert_lexer_matchers(
            vec![
                Matcher::string("lambda", "->", SyntaxKind::Lambda),
                Matcher::string("arrow", "=>", SyntaxKind::RightArrow),
            ],
            "minus",
        )
        .unwrap();
    assert_eq!(names(&dialect), vec!["whitespace", "lambda", "arrow", "minus", "greater_than", "word"]);
    let res = Lexer::lex_match("->", dialect.lexer_matchers());
    assert_eq!(res.elements.len(), 1);
    assert_eq!(res.elements[0].name, "lambda");
    assert_eq!(
        dialect.insert_lexer_matchers(vec![Matcher::string("x", "x", SyntaxKind::Symbol)], "nowhere"),
        Err(DialectError::UnknownMatcher)
    );
    assert_eq!(names(&dialect).len(), 6);
    dialect.insert_lexer_matchers(vec![Matcher::string("x", "x", SyntaxKind::Symbol)], "whitespace").unwrap();
    assert_eq!(names(&dialect)[0], "x");
}

#[test]
fn patch_lexer_matchers_in_place() {
    let mut dialect = with_matchers();
    dialect.patch_lexer_matchers(vec![
        Matcher::regex("word", r"[a-z0-9]+", SyntaxKind::Word),
        Matcher::string("unknown", "?", SyntaxKind::Question),
    ]);
    assert_eq!(names(&dialect), vec!["whitespace", "minus", "greater_than", "word"]);
    let res = Lexer::lex_match("a1", dialect.lexer_matchers());
    assert_eq!(res.elements.len(), 1);
    assert_eq!(res.elements[0].text, "a1");
    assert_eq!(res.forward_string, "");
}

#[test]
fn word_sets() {
    let mut dialect = Dialect::new(DialectKind::Ansi);
    assert!(dialect.sets("reserved_keywords").is_empty());
    dialect.sets_mut("reserved_keywords").extend(&["SELECT", "FROM", "SELECT"]);
    dialect.sets_mut("unreserved_keywords").insert("DATE");
    assert_eq!(dialect.sets("reserved_keywords"), vec!["SELECT", "FROM"]);
    assert!(dialect.sets_mut("reserved_keywords").contains("FROM"));
    assert!(!dialect.sets_mut("reserved_keywords").contains("from"));
    assert_eq!(dialect.sets_mut("reserved_keywords").len(), 2);
    dialect.sets_mut("reserved_keywords").clear();
    dialect.sets_mut("reserved_keywords").extend(&["WHERE"]);
    assert_eq!(dialect.sets("reserved_keywords"), vec!["WHERE"]);
    assert_eq!(dialect.sets("unreserved_keywords"), vec!["DATE"]);
    assert!(dialect.sets("other").is_empty());
}

#[test]
fn expand_resolves_the_words_of_a_set() {
    let mut dialect = Dialect::new(DialectKind::Ansi);
    dialect.sets_mut("reserved_keywords").extend(&["SELECT", "FROM"]);
    dialect
        .add(vec![
            Rule::new("Keywords".to_string(), Grammar::KeywordOf { set: "reserved_keywords".to_string() }),
            Rule::new("None".to_string(), Grammar::KeywordOf { set: "nowhere".to_string() }),
        ])
        .unwrap();
    dialect.expand().unwrap();
    match dialect.grammar("Keywords") {
        Some(Grammar::OneOf { options }) => {
            assert_eq!(options.len(), 2);
            assert!(matches!(&options[0], Grammar::Text { template, becomes: SyntaxKind::Keyword } if template == "SELECT"));
            assert!(matches!(&options[1], Grammar::Text { template, becomes: SyntaxKind::Keyword } if template == "FROM"));
        }
        _ => panic!("a choice was expected"),
    }
    assert!(matches!(dialect.grammar("None"), Some(Grammar::OneOf { options }) if options.is_empty()));
    assert!(dialect.expand().is_ok());
    assert_eq!(dialect.bracket_pair("round"), None);
    dialect.add_bracket_pair("round", SyntaxKind::StartBracket, SyntaxKind::EndBracket);
    assert_eq!(dialect.bracket_pair("round"), Some((SyntaxKind::StartBracket, SyntaxKind::EndBracket)));
}

fn shown(grammar: &Grammar) -> String {
    format!("{:?}", grammar)
}

#[test]
fn define_binds_a_name_whether_it_is_there_or_not() {
    let mut dialect = Dialect::new(DialectKind::Ansi);
    dialect.define("A", Grammar::keyword("a"));
    dialect.define("B", Grammar::keyword("b").node(SyntaxKind::Statement));
    dialect.define("A", Grammar::keyword("c"));
    assert_eq!(shown(dialect.grammar("A").unwrap()), shown(&Grammar::keyword("c")));
    // A new binding takes the whole place: nothing of the old grammar stays.
    dialect.define("B", Grammar::keyword("d"));
    assert_eq!(shown(dialect.grammar("B").unwrap()), shown(&Grammar::keyword("d")));
    // The first binding of a name keeps its place among the rules.
    assert!(dialect.add(vec![Rule::new("A".to_string(), Grammar::Nothing)]).is_err());
    assert!(dialect.add(vec![Rule::new("C".to_string(), Grammar::Nothing)]).is_ok());
}

#[test]
fn replace_keeps_the_node_of_the_rule() {
    let mut dialect = Dialect::new(DialectKind::Ansi);
    dialect.define("A", Grammar::keyword("a").node(SyntaxKind::Statement));
    dialect.replace_grammar("A", Grammar::keyword("b")).unwrap();
    assert_eq!(
        shown(dialect.grammar("A").unwrap()),
        shown(&Grammar::keyword("b").node(SyntaxKind::Statement))
    );
    assert_eq!(shown(&dialect.match_grammar("A").unwrap()), shown(&Grammar::keyword("b")));
}

#[test]
fn match_grammar_is_what_a_node_holds() {
    let mut dialect = Dialect::new(DialectKind::Ansi);
    dialect.define("A", Grammar::keyword("a"));
    dialect.define(
        "B",
        Grammar::sequence(vec![Grammar::keyword("b"), Grammar::reference("A")]).node(SyntaxKind::Statement),
    );
    assert!(dialect.match_grammar("A").is_none());
    assert!(dialect.match_grammar("C").is_none());
    assert_eq!(
        shown(&dialect.match_grammar("B").unwrap()),
        shown(&Grammar::sequence(vec![Grammar::keyword("b"), Grammar::reference("A")]))
    );
}

#[test]
fn copy_puts_grammars_in_among_the_others() {
    let a = || Grammar::keyword("a");
    let b = || Grammar::keyword("b");
    let x = || Grammar::reference("X");
    let y = || Grammar::reference("Y");
    let base = Grammar::sequence(vec![a(), b()]);
    assert_eq!(shown(&base.copy(vec![x(), y()], None)), shown(&Grammar::sequence(vec![a(), b(), x(), y()])));
    assert_eq!(shown(&base.copy(vec![x(), y()], Some(0))), shown(&Grammar::sequence(vec![x(), y(), a(), b()])));
    assert_eq!(shown(&base.copy(vec![x()], Some(1))), shown(&Grammar::sequence(vec![a(), x(), b()])));
    assert_eq!(shown(&base.copy(vec![x()], Some(2))), shown(&Grammar::sequence(vec![a(), b(), x()])));
    assert_eq!(shown(&base.copy(vec![x()], Some(7))), shown(&Grammar::sequence(vec![a(), b(), x()])));
    assert_eq!(shown(&base.copy(vec![], Some(1))), shown(&base));
    // The copy leaves the grammar as it was.
    assert_eq!(shown(&base), shown(&Grammar::sequence(vec![a(), b()])));
    let choice = Grammar::one_of(vec![a()]);
    assert_eq!(shown(&choice.copy(vec![x()], None)), shown(&Grammar::one_of(vec![a(), x()])));
    let list = Grammar::delimited(vec![a()], Grammar::keyword(","));
    assert_eq!(
        shown(&list.copy(vec![x()], Some(0))),
        shown(&Grammar::delimited(vec![x(), a()], Grammar::keyword(",")))
    );
    let brackets = Grammar::bracketed(vec![a()]);
    assert_eq!(shown(&brackets.copy(vec![x()], None)), shown(&Grammar::bracketed(vec![a(), x()])));
    // A grammar that is made of nothing has no place for more.
    assert_eq!(shown(&a().copy(vec![x()], None)), shown(&a()));
    assert_eq!(
        shown(&base.clone().node(SyntaxKind::Statement).copy(vec![x()], None)),
        shown(&base.clone().node(SyntaxKind::Statement))
    );
}

#[test]
fn exclude_goes_where_the_grammar_can_hold_it() {
    let x = || Grammar::keyword("x");
    assert_eq!(
        shown(&Grammar::reference("A").exclude(x())),
        shown(&Grammar::Ref { name: "A".to_string(), exclude: Some(Box::new(x())) })
    );
    assert_eq!(
        shown(&Grammar::reference("A").optional().exclude(x())),
        shown(&Grammar::reference_unless("A", x()).optional())
    );
    assert_eq!(
        shown(&Grammar::sequence(vec![Grammar::reference("A")]).exclude(x())),
        shown(&Grammar::Excluding {
            inner: Box::new(Grammar::sequence(vec![Grammar::reference("A")])),
            exclude: Box::new(x()),
        })
    );
    assert_eq!(
        shown(&Grammar::excluding(Grammar::reference("A"), x())),
        shown(&Grammar::Excluding { inner: Box::new(Grammar::reference("A")), exclude: Box::new(x()) })
    );
}

#[test]
fn sets_are_cleared_and_extended_by_their_label() {
    let mut dialect = Dialect::new(DialectKind::Ansi);
    dialect.extend_set("reserved_keywords", &["A", "B", "A"]);
    dialect.extend_set("other", &["C"]);
    assert_eq!(dialect.sets("reserved_keywords"), vec!["A".to_string(), "B".to_string()]);
    dialect.extend_set("reserved_keywords", &["B", "D"]);
    assert_eq!(dialect.sets("reserved_keywords"), vec!["A".to_string(), "B".to_string(), "D".to_string()]);
    dialect.clear_set("reserved_keywords");
    assert!(dialect.sets("reserved_keywords").is_empty());
    assert_eq!(dialect.sets("other"), vec!["C".to_string()]);
    dialect.clear_set("never_named");
    assert!(dialect.sets("never_named").is_empty());
    let dialect = dialect.named(DialectKind::Clickhouse);
    assert_eq!(dialect.name, DialectKind::Clickhouse);
    assert_eq!(dialect.sets("other"), vec!["C".to_string()]);
}

#[test]
fn a_list_in_the_making_builds_the_same_grammars() {
    let a = || Grammar::keyword("a");
    let b = || Grammar::reference("B");
    let list = || GrammarList::new().and(a()).and(b());
    assert_eq!(shown(&Grammar::sequence_of(list())), shown(&Grammar::sequence(vec![a(), b()])));
    assert_eq!(shown(&Grammar::sequence_of(GrammarList::new())), shown(&Grammar::sequence(vec![])));
    assert_eq!(shown(&Grammar::first_of(list())), shown(&Grammar::one_of(vec![a(), b()])));
    assert_eq!(
        shown(&Grammar::repeated(list(), 0, None, None)),
        shown(&Grammar::any_number_of(vec![a(), b()]))
    );
    assert_eq!(
        shown(&Grammar::repeated(list(), 1, Some(3), Some(1))),
        shown(&Grammar::AnyNumberOf {
            options: vec![a(), b()],
            min_times: 1,
            max_times: Some(3),
            max_times_per_element: Some(1),
        })
    );
    assert_eq!(
        shown(&Grammar::delimited_by(list(), Grammar::keyword(","), 0, false)),
        shown(&Grammar::delimited(vec![a(), b()], Grammar::keyword(",")))
    );
    assert_eq!(
        shown(&Grammar::delimited_by(list(), Grammar::keyword(","), 2, true)),
        shown(&Grammar::Delimited {
            options: vec![a(), b()],
            delimiter: Box::new(Grammar::keyword(",")),
            min_delimiters: 2,
            allow_trailing: true,
        })
    );
    assert_eq!(
        shown(&Grammar::bracketed_by(list(), "round", ParseMode::Strict)),
        shown(&Grammar::bracketed(vec![a(), b()]))
    );
    assert_eq!(
        shown(&Grammar::bracketed_by(list(), "square", ParseMode::Greedy)),
        shown(&Grammar::Bracketed {
            elements: vec![a(), b()],
            bracket_type: "square".to_string(),
            parse_mode: ParseMode::Greedy,
        })
    );
    assert_eq!(shown(&Grammar::meta(SyntaxKind::Indent)), shown(&Grammar::Meta { kind: SyntaxKind::Indent }));
    assert_eq!(
        shown(&Grammar::conditional(SyntaxKind::Indent, "indented_joins")),
        shown(&Grammar::Conditional {
            kind: SyntaxKind::Indent,
            flag: "indented_joins".to_string(),
            expected: true,
        })
    );
    assert_eq!(shown(&Grammar::anything()), shown(&Grammar::Anything));
    assert_eq!(shown(&Grammar::nothing()), shown(&Grammar::Nothing));
}
