use ahash::AHashMap;
use sqruff_lib::dialect::DialectKind;
use sqruff_lib::lint::{LintFix, LintResult};
use sqruff_lib::rules::al05::{AL05Query, AliasInfo, RuleAL05, Selectable};
use sqruff_lib::rules::cv11::{CastingMemory, RuleCV11, TypeCastingStyle};
use sqruff_lib::rules::st02::RuleST02;
use sqruff_lib::rules::{RuleContext, RuleGroups};
use sqruff_lib::segments::Segment;
use sqruff_lib::syntax::SyntaxKind;
use smol_str::SmolStr;

fn leaf(kind: SyntaxKind, raw: &str) -> Segment {
    Segment::Leaf { kind, raw: raw.to_string(), position: None }
}

fn node(kind: SyntaxKind, children: Vec<Segment>) -> Segment {
    Segment::Node { kind, children, position: None }
}

fn word(raw: &str) -> Segment {
    leaf(SyntaxKind::NakedIdentifier, raw)
}

fn kw(raw: &str) -> Segment {
    leaf(SyntaxKind::Keyword, raw)
}

fn ws() -> Segment {
    leaf(SyntaxKind::Whitespace, " ")
}

fn expr(children: Vec<Segment>) -> Segment {
    node(SyntaxKind::Expression, children)
}

fn column(name: &str) -> Segment {
    node(SyntaxKind::ColumnReference, vec![word(name)])
}

fn context(segment: Segment) -> RuleContext {
    RuleContext { segment, dialect: DialectKind::Ansi }
}

fn edit_text(result: &LintResult) -> String {
    assert_eq!(result.fixes.len(), 1);
    match &result.fixes[0] {
        LintFix::Replace { edit, .. } => edit.iter().map(|s| s.raw()).collect(),
        _ => panic!("a fix that replaces was expected"),
    }
}

fn case(when: Vec<Segment>, then: Segment, otherwise: Option<Segment>) -> Segment {
    let mut children = vec![
        kw("case"),
        ws(),
        node(SyntaxKind::WhenClause, vec![kw("when"), ws(), expr(when), ws(), kw("then"), ws(), expr(vec![then])]),
    ];
    if let Some(e) = otherwise {
        children.push(ws());
        children.push(node(SyntaxKind::ElseClause, vec![kw("else"), ws(), expr(vec![e])]));
    }
    children.push(ws());
    children.push(kw("end"));
    node(SyntaxKind::CaseExpression, children)
}

#[test]
fn st02_booleans_become_coalesce() {
    let rule = RuleST02;
    assert_eq!(rule.name(), "structure.simple_case");
    assert_eq!(rule.description(), "Unnecessary 'CASE' statement.");
    assert_eq!(rule.groups(), vec![RuleGroups::All, RuleGroups::Structure]);
    assert_eq!(rule.crawl_behaviour().kinds, vec![SyntaxKind::CaseExpression]);
    let condition = vec![column("fab"), ws(), leaf(SyntaxKind::ComparisonOperator, ">"), ws(), leaf(SyntaxKind::NumericLiteral, "0")];
    let results = rule.eval(&context(case(condition.clone(), kw("true"), Some(kw("false")))));
    assert_eq!(results.len(), 1);
    assert_eq!(edit_text(&results[0]), "coalesce(fab > 0, false)");
    assert_eq!(
        results[0].description.as_deref(),
        Some("Unnecessary CASE statement. Use COALESCE function instead.")
    );
    assert_eq!(results[0].anchor.as_ref().unwrap().raw(), "fab > 0");
    let results = rule.eval(&context(case(condition.clone(), kw("False"), Some(kw("TRUE")))));
    assert_eq!(edit_text(&results[0]), "not coalesce(fab > 0, false)");
    assert!(rule.eval(&context(case(condition.clone(), kw("true"), Some(kw("true"))))).is_empty());
    assert!(rule.eval(&context(case(condition, kw("true"), None))).is_empty());
}

#[test]
fn st02_null_tests() {
    let rule = RuleST02;
    let is_null = vec![column("fab"), ws(), kw("is"), ws(), kw("null")];
    let is_not_null = vec![column("fab"), ws(), kw("is"), ws(), kw("not"), ws(), kw("null")];
    // when fab is null then 0 else fab
    let results = rule.eval(&context(case(is_null.clone(), leaf(SyntaxKind::NumericLiteral, "0"), Some(column("fab")))));
    assert_eq!(results.len(), 1);
    assert_eq!(edit_text(&results[0]), "coalesce(fab, 0)");
    // when fab is not null then fab else 0
    let results = rule.eval(&context(case(is_not_null.clone(), column("FAB"), Some(leaf(SyntaxKind::NumericLiteral, "0")))));
    assert_eq!(edit_text(&results[0]), "coalesce(FAB, 0)");
    // when fab is null then null else fab
    let results = rule.eval(&context(case(is_null.clone(), kw("null"), Some(column("fab")))));
    assert_eq!(edit_text(&results[0]), "fab");
    assert_eq!(results[0].description.as_deref(), Some(""));
    // when fab is not null then fab
    let results = rule.eval(&context(case(is_not_null.clone(), column("fab"), None)));
    assert_eq!(edit_text(&results[0]), "fab");
    assert_eq!(
        results[0].description.as_deref(),
        Some("Unnecessary CASE statement. Just use column 'fab'.")
    );
    // Another column, a joined condition, no column.
    assert!(rule.eval(&context(case(is_null.clone(), leaf(SyntaxKind::NumericLiteral, "0"), Some(column("other"))))).is_empty());
    assert!(rule.eval(&context(case(is_not_null, column("other"), None))).is_empty());
    let joined = vec![column("fab"), ws(), kw("is"), ws(), kw("null"), ws(), kw("and"), ws(), column("x")];
    assert!(rule.eval(&context(case(joined, leaf(SyntaxKind::NumericLiteral, "0"), Some(column("fab"))))).is_empty());
    let no_column = vec![word("fab"), ws(), kw("is"), ws(), kw("null")];
    assert!(rule.eval(&context(case(no_column, leaf(SyntaxKind::NumericLiteral, "0"), Some(column("fab"))))).is_empty());
}

#[test]
fn st02_column_with_an_array_accessor() {
    let rule = RuleST02;
    let accessor = || node(SyntaxKind::ArrayAccessor, vec![leaf(SyntaxKind::StartSquareBracket, "["), word("x"), leaf(SyntaxKind::EndSquareBracket, "]")]);
    let test = |name: &str| vec![column(name), accessor(), ws(), kw("is"), ws(), kw("null")];
    let other = |name: &str| expr(vec![column(name), accessor()]);
    // A column without letters goes by its text with the accessor in upper case.
    let results = rule.eval(&context(case(test("_1"), leaf(SyntaxKind::NumericLiteral, "0"), Some(other("_1")))));
    assert_eq!(results.len(), 1);
    assert_eq!(edit_text(&results[0]), "coalesce(_1[x], 0)");
    // The name of any other column is put in lower case, which the text of
    // what the CASE gives, in upper case, is not.
    assert!(rule.eval(&context(case(test("É"), leaf(SyntaxKind::NumericLiteral, "0"), Some(other("É"))))).is_empty());
    assert!(rule.eval(&context(case(test("fab"), leaf(SyntaxKind::NumericLiteral, "0"), Some(other("fab"))))).is_empty());
    assert_eq!(rule.long_description().lines().nth(1), Some("**Anti-pattern**"));
    assert_eq!(RuleST02::load_from_config(&AHashMap::new()).name(), "structure.simple_case");
    assert_eq!(RuleAL05::load_from_config(&AHashMap::new()).name(), "aliasing.unused");
    assert!(RuleAL05.long_description().contains("zoo"));
    assert!(RuleCV11::default().long_description().contains("CONVERT"));
}

#[test]
fn st02_leaves_other_segments_alone() {
    let rule = RuleST02;
    assert!(rule.eval(&context(node(SyntaxKind::CaseExpression, vec![]))).is_empty());
    assert!(rule.eval(&context(node(SyntaxKind::CaseExpression, vec![kw("if")]))).is_empty());
    assert!(rule.eval(&context(node(SyntaxKind::CaseExpression, vec![kw("case")]))).is_empty());
    // Two WHENs.
    let mut two = match case(vec![column("a")], kw("true"), Some(kw("false"))) {
        Segment::Node { children, .. } => children,
        _ => unreachable!(),
    };
    two.insert(3, node(SyntaxKind::WhenClause, vec![kw("when"), expr(vec![column("b")]), kw("then"), expr(vec![kw("true")])]));
    assert!(rule.eval(&context(node(SyntaxKind::CaseExpression, two))).is_empty());
}

fn function(name: &str, args: Vec<Segment>) -> Segment {
    let mut inner = vec![leaf(SyntaxKind::StartBracket, "(")];
    inner.extend(args);
    inner.push(leaf(SyntaxKind::EndBracket, ")"));
    node(
        SyntaxKind::Function,
        vec![
            node(SyntaxKind::FunctionName, vec![leaf(SyntaxKind::FunctionNameIdentifier, name)]),
            node(SyntaxKind::Bracketed, inner),
        ],
    )
}

fn data_type(name: &str) -> Segment {
    node(SyntaxKind::DataType, vec![leaf(SyntaxKind::Word, name)])
}

fn cast_call() -> Segment {
    function("cast", vec![expr(vec![leaf(SyntaxKind::NumericLiteral, "10")]), ws(), kw("as"), ws(), data_type("text")])
}

fn convert_call() -> Segment {
    function("CONVERT", vec![data_type("int"), leaf(SyntaxKind::Comma, ","), ws(), expr(vec![leaf(SyntaxKind::NumericLiteral, "1")])])
}

fn shorthand(types: &[&str]) -> Segment {
    let mut children = vec![expr(vec![leaf(SyntaxKind::NumericLiteral, "100")])];
    for t in types {
        children.push(leaf(SyntaxKind::CastingOperator, "::"));
        children.push(data_type(t));
    }
    node(SyntaxKind::CastExpression, children)
}

fn with_style(style: TypeCastingStyle) -> RuleCV11 {
    RuleCV11 { preferred_type_casting_style: style }
}

fn fresh() -> CastingMemory {
    CastingMemory { prior: None, previous_skipped: false }
}

#[test]
fn cv11_load_from_config() {
    let mut config: AHashMap<String, String> = AHashMap::new();
    assert!(RuleCV11::load_from_config(&config).is_none());
    config.insert("preferred_type_casting_style".to_string(), "shorthand".to_string());
    assert_eq!(
        RuleCV11::load_from_config(&config).unwrap().preferred_type_casting_style,
        TypeCastingStyle::Shorthand
    );
    config.insert("preferred_type_casting_style".to_string(), "Shorthand".to_string());
    assert!(RuleCV11::load_from_config(&config).is_none());
    for name in ["consistent", "cast", "convert", "shorthand", "none"] {
        assert_eq!(TypeCastingStyle::parse(name).unwrap().as_ref(), name);
    }
    assert_eq!(RuleCV11::default().preferred_type_casting_style, TypeCastingStyle::Consistent);
    let rule = RuleCV11::default();
    assert_eq!(rule.name(), "convention.casting_style");
    assert_eq!(rule.description(), "Enforce consistent type casting style.");
    assert_eq!(rule.groups(), vec![RuleGroups::All, RuleGroups::Convention]);
    assert!(rule.is_fix_compatible());
    assert_eq!(rule.crawl_behaviour().kinds, vec![SyntaxKind::Function, SyntaxKind::CastExpression]);
}

#[test]
fn cv11_consistent() {
    let rule = with_style(TypeCastingStyle::Consistent);
    let mut memory = fresh();
    // The first cast sets the style.
    assert!(rule.eval(&context(cast_call()), &mut memory).is_empty());
    assert_eq!(memory.prior, Some(TypeCastingStyle::Cast));
    assert!(rule.eval(&context(cast_call()), &mut memory).is_empty());
    let results = rule.eval(&context(convert_call()), &mut memory);
    assert_eq!(results.len(), 1);
    assert_eq!(edit_text(&results[0]), "cast(1 as int)");
    assert_eq!(results[0].description.as_deref(), Some("Inconsistent type casting styles found."));
    let results = rule.eval(&context(shorthand(&["int", "text"])), &mut memory);
    assert_eq!(edit_text(&results[0]), "cast(cast(100 as int) as text)");
    // A conversion with a third part is passed over.
    let three = function(
        "convert",
        vec![data_type("int"), leaf(SyntaxKind::Comma, ","), expr(vec![word("x")]), leaf(SyntaxKind::Comma, ","), leaf(SyntaxKind::NumericLiteral, "126")],
    );
    assert!(!memory.previous_skipped);
    assert!(rule.eval(&context(three), &mut memory).is_empty());
    assert!(memory.previous_skipped);
    // A function that is no cast differs from the style too, and has no fix.
    let results = rule.eval(&context(function("count", vec![word("x")])), &mut memory);
    assert_eq!(results.len(), 1);
    assert!(results[0].fixes.is_empty());
    // A function without a name says nothing.
    assert!(rule.eval(&context(node(SyntaxKind::Function, vec![])), &mut memory).is_empty());

    let mut memory = CastingMemory { prior: Some(TypeCastingStyle::Convert), previous_skipped: false };
    assert_eq!(edit_text(&rule.eval(&context(cast_call()), &mut memory)[0]), "convert(text, 10)");
    assert_eq!(
        edit_text(&rule.eval(&context(shorthand(&["int", "text"])), &mut memory)[0]),
        "convert(text, convert(int, 100))"
    );
    let mut memory = CastingMemory { prior: Some(TypeCastingStyle::Shorthand), previous_skipped: false };
    assert_eq!(edit_text(&rule.eval(&context(cast_call()), &mut memory)[0]), "10::text");
    assert_eq!(edit_text(&rule.eval(&context(convert_call()), &mut memory)[0]), "1::int");
    assert!(rule.eval(&context(shorthand(&["int"])), &mut memory).is_empty());
    assert!(!memory.previous_skipped);
}

#[test]
fn cv11_preferred() {
    let mut memory = fresh();
    let cast = with_style(TypeCastingStyle::Cast);
    assert!(cast.eval(&context(cast_call()), &mut memory).is_empty());
    let results = cast.eval(&context(convert_call()), &mut memory);
    assert_eq!(edit_text(&results[0]), "cast(1 as int)");
    assert_eq!(
        results[0].description.as_deref(),
        Some("Used type casting style is different from the preferred type casting style.")
    );
    assert_eq!(
        edit_text(&cast.eval(&context(shorthand(&["int", "text"])), &mut memory)[0]),
        "cast(cast(100 as int) as text)"
    );
    let convert = with_style(TypeCastingStyle::Convert);
    assert_eq!(edit_text(&convert.eval(&context(cast_call()), &mut memory)[0]), "convert(text, 10)");
    assert_eq!(
        edit_text(&convert.eval(&context(shorthand(&["int"])), &mut memory)[0]),
        "convert(int, 100)"
    );
    let short = with_style(TypeCastingStyle::Shorthand);
    assert_eq!(edit_text(&short.eval(&context(convert_call()), &mut memory)[0]), "1::int");
    let sum = function(
        "cast",
        vec![expr(vec![word("a"), leaf(SyntaxKind::BinaryOperator, "+"), word("b")]), ws(), kw("as"), ws(), data_type("int")],
    );
    assert_eq!(edit_text(&short.eval(&context(sum), &mut memory)[0]), "(a+b)::int");
    assert!(short.eval(&context(shorthand(&["int"])), &mut memory).is_empty());
    assert_eq!(memory, fresh());
}

fn alias(name: &str, aliased: bool, table: Segment) -> AliasInfo {
    let expression = node(SyntaxKind::AliasExpression, vec![kw("as"), ws(), word(name)]);
    let element = if aliased {
        node(
            SyntaxKind::FromExpressionElement,
            vec![table, ws(), leaf(SyntaxKind::Indent, ""), expression.clone()],
        )
    } else {
        node(SyntaxKind::FromExpressionElement, vec![table])
    };
    AliasInfo {
        ref_str: SmolStr::new(name),
        segment: Some(word(name)),
        aliased,
        from_expression_element: element,
        alias_expression: if aliased { Some(expression) } else { None },
    }
}

fn table(name: &str) -> Segment {
    node(SyntaxKind::TableExpression, vec![node(SyntaxKind::TableReference, vec![word(name)])])
}

#[test]
fn al05_unused_alias() {
    let rule = RuleAL05;
    assert_eq!(rule.name(), "aliasing.unused");
    assert_eq!(rule.description(), "Tables should not be aliased if that alias is not used.");
    assert_eq!(rule.groups(), vec![RuleGroups::All, RuleGroups::Core, RuleGroups::Aliasing]);
    assert!(rule.is_fix_compatible());
    assert_eq!(rule.crawl_behaviour().kinds, vec![SyntaxKind::SelectStatement]);
    let query = AL05Query {
        aliases: vec![alias("zoo", true, table("foo")), alias("bar", true, table("baz")), alias("plain", false, table("plain"))],
        tbl_refs: vec![SmolStr::new("bar")],
    };
    let results = rule.eval(&context(node(SyntaxKind::SelectStatement, vec![])), &query);
    assert_eq!(results.len(), 1);
    assert_eq!(results[0].description.as_deref(), Some("Alias 'zoo' is never used in SELECT statement."));
    assert_eq!(results[0].anchor.as_ref().unwrap().raw(), "zoo");
    let deleted: Vec<String> = results[0]
        .fixes
        .iter()
        .map(|f| match f {
            LintFix::Delete { anchor } => format!("{:?}:{}", anchor.get_type(), anchor.raw()),
            _ => panic!("a fix that deletes was expected"),
        })
        .collect();
    assert_eq!(deleted, vec!["AliasExpression:as zoo", "Indent:", "Whitespace: "]);
    assert!(rule.report_unused_alias(alias("plain", false, table("plain"))).is_none());
}

#[test]
fn al05_alias_required() {
    let subquery = node(
        SyntaxKind::TableExpression,
        vec![node(
            SyntaxKind::Bracketed,
            vec![leaf(SyntaxKind::StartBracket, "("), node(SyntaxKind::SelectStatement, vec![kw("select")]), leaf(SyntaxKind::EndBracket, ")")],
        )],
    );
    let values = node(SyntaxKind::TableExpression, vec![node(SyntaxKind::ValuesClause, vec![kw("values")])]);
    let element = |t: Segment| node(SyntaxKind::FromExpressionElement, vec![t, ws(), word("x")]);
    assert!(RuleAL05::is_alias_required(&element(subquery.clone()), DialectKind::Ansi));
    assert!(!RuleAL05::is_alias_required(&element(table("foo")), DialectKind::Ansi));
    assert!(!RuleAL05::is_alias_required(&element(values.clone()), DialectKind::Ansi));
    assert!(RuleAL05::is_alias_required(&element(values), DialectKind::Snowflake));
    let bracketed = node(SyntaxKind::Bracketed, vec![leaf(SyntaxKind::StartBracket, "("), subquery.clone(), leaf(SyntaxKind::EndBracket, ")")]);
    assert!(RuleAL05::is_alias_required(&element(bracketed), DialectKind::Ansi));
    assert!(!RuleAL05::is_alias_required(&node(SyntaxKind::FromExpressionElement, vec![]), DialectKind::Ansi));
    // An alias that is needed is not reported.
    let query = AL05Query { aliases: vec![alias("sub", true, subquery)], tbl_refs: vec![] };
    assert!(RuleAL05.eval(&context(node(SyntaxKind::SelectStatement, vec![])), &query).is_empty());
}

#[test]
fn al05_references_are_marked_in_the_nearest_query() {
    let mut chain = vec![
        AL05Query { aliases: vec![alias("a", true, table("t1")), alias("b", true, table("t2"))], tbl_refs: vec![] },
        AL05Query { aliases: vec![], tbl_refs: vec![] },
    ];
    RuleAL05::analyze_table_aliases(
        &mut chain,
        vec![
            Selectable { table_aliases: vec![alias("b", true, table("t3"))], references: vec!["a".to_string(), "b".to_string(), "c".to_string()] },
            Selectable { table_aliases: vec![alias("c", true, table("t4"))], references: vec!["c".to_string()] },
        ],
    );
    assert_eq!(chain[0].tbl_refs, vec![SmolStr::new("a")]);
    assert_eq!(chain[1].tbl_refs, vec![SmolStr::new("b"), SmolStr::new("c")]);
    assert_eq!(chain[1].aliases.len(), 2);
    RuleAL05::resolve_and_mark_reference(&mut chain, "nowhere".to_string());
    assert_eq!(chain[0].tbl_refs.len(), 1);
    let results = RuleAL05.eval(&context(node(SyntaxKind::SelectStatement, vec![])), &chain[0]);
    assert_eq!(results.len(), 1);
    assert_eq!(results[0].description.as_deref(), Some("Alias 'b' is never used in SELECT statement."));
}
