//! The rule that finds a `CASE` expression which a simpler expression can
//! stand for.

use crate::lint::{LintFix, LintFixView, LintResult, LintResultView};
use crate::matching::same_ignoring_case;
use crate::rules::{
    chain_all, children_of, children_of_all, create_leaf, get_raw_upper, new_leaf, no_result,
    of_kind, one_fix, one_result, raw_upper, raw_uppers, result_at, select_kind, Crawler,
    RuleContext, RuleGroups,
};
use crate::segments::{
    lemma_views_concat, lemma_views_index, lemma_views_push, views_of, Segment, SegmentView,
};
use crate::sets::{first_shared, set_contains, set_of_texts, views_of_texts};
use crate::syntax::SyntaxKind;
use crate::text::{join_text, lowercase_of, same_text, to_lower, to_upper, uppercase_of};
use ahash::AHashMap;
use vstd::prelude::*;
use vstd::string::*;
use vstd::utf8::*;

verus! {

/// What the rule says where `COALESCE` can stand for the `CASE`.
pub const COALESCE_MESSAGE: &'static str =
    "Unnecessary CASE statement. Use COALESCE function instead.";

/// What the rule is about, at length.
pub const LONG_DESCRIPTION: &'static str = r#"
**Anti-pattern**

CASE statement returns booleans.

```sql
select
    case
        when fab > 0 then true
        else false
    end as is_fab
from fancy_table

-- This rule can also simplify CASE statements
-- that aim to fill NULL values.

select
    case
        when fab is null then 0
        else fab
    end as fab_clean
from fancy_table

-- This also covers where the case statement
-- replaces NULL values with NULL values.

select
    case
        when fab is null then null
        else fab
    end as fab_clean
from fancy_table
```

**Best practice**

Reduce to WHEN condition within COALESCE function.

```sql
select
    coalesce(fab > 0, false) as is_fab
from fancy_table

-- To fill NULL values.

select
    coalesce(fab, 0) as fab_clean
from fancy_table

-- NULL filling NULL.

select fab as fab_clean
from fancy_table
```
"#;

/// The rule: an unnecessary `CASE` expression.
#[derive(Default, Debug, Clone)]
pub struct RuleST02;

/// The segments that stand for `coalesce(first, second)`, with `not `
/// before them where `preceding_not`.
pub open spec fn coalesce_edits(first: SegmentView, second: SegmentView, preceding_not: bool) -> Seq<
    SegmentView,
> {
    let call = seq![
        new_leaf(SyntaxKind::Symbol, "coalesce"@),
        new_leaf(SyntaxKind::Symbol, "("@),
        first,
        new_leaf(SyntaxKind::Symbol, ","@),
        new_leaf(SyntaxKind::Whitespace, " "@),
        second,
        new_leaf(SyntaxKind::Symbol, ")"@),
    ];
    if preceding_not {
        seq![new_leaf(SyntaxKind::Keyword, "not"@), new_leaf(SyntaxKind::Whitespace, " "@)] + call
    } else {
        call
    }
}

/// The fix that puts `coalesce(first, second)` in the place of `anchor`.
pub open spec fn coalesce_fixes(
    anchor: SegmentView,
    first: SegmentView,
    second: SegmentView,
    preceding_not: bool,
) -> Seq<LintFixView> {
    seq![LintFixView::Replace { anchor, edit: coalesce_edits(first, second, preceding_not) }]
}

/// The fix that puts `column` in the place of `anchor`.
pub open spec fn column_only_fixes(anchor: SegmentView, column: SegmentView) -> Seq<LintFixView> {
    seq![LintFixView::Replace { anchor, edit: seq![column] }]
}

/// Whether the text is `TRUE` or `FALSE`.
pub open spec fn is_bool_word(text: Seq<char>) -> bool {
    text == "TRUE"@ || text == "FALSE"@
}

/// Whether the parts of a condition make a test for `NULL`: among their
/// texts in upper case are `IS` and `NULL`, and neither `AND` nor `OR`.
/// With it comes whether `NOT` is among them.
pub open spec fn null_test(parts: Seq<SegmentView>) -> Option<bool> {
    let raws = raw_uppers(parts).to_set();
    if raws.contains("IS"@) && raws.contains("NULL"@) && raws.disjoint(seq!["AND"@, "OR"@].to_set()) {
        Some(raws.contains("NOT"@))
    } else {
        None
    }
}

/// The text that a column is compared by: its text in upper case, or,
/// where an array accessor follows it, its text in lower case with that of
/// the accessor in upper case behind it.
pub open spec fn column_key(column: SegmentView, accessors: Seq<SegmentView>) -> Seq<char> {
    if accessors.len() > 0 {
        lowercase_of(decode_utf8(column.raw())) + uppercase_of(decode_utf8(accessors[0].raw()))
    } else {
        uppercase_of(decode_utf8(column.raw()))
    }
}

/// What the rule finds in a `CASE` that tests for `NULL`: a condition that
/// holds `IS` and `NULL` and neither `AND` nor `OR`, on a column.
///
/// With an `ELSE`: where the column is what the `CASE` gives for a value
/// that is not `NULL`, `COALESCE` of the column and the other value can
/// stand for the `CASE`, or the column alone where the other value is
/// `NULL`. Without an `ELSE`: where the `THEN` gives the column, the column
/// alone can stand for the `CASE`.
pub open spec fn null_findings(
    segment: SegmentView,
    condition: SegmentView,
    then_expression: SegmentView,
    else_clauses: Seq<SegmentView>,
    else_expressions: Seq<SegmentView>,
) -> Seq<LintResultView> {
    let parts = condition.children();
    let columns = of_kind(parts, SyntaxKind::ColumnReference);
    let accessors = of_kind(parts, SyntaxKind::ArrayAccessor);
    if null_test(parts) is Some && columns.len() > 0 {
        let is_not_prefix = null_test(parts).unwrap();
        let column = columns[0];
        let column_upper = column_key(column, accessors);
        if else_clauses.len() > 0 {
            if else_expressions.len() == 0 {
                seq![]
            } else {
                let else_expression = else_expressions[0];
                let straight = !is_not_prefix && column_upper == raw_upper(else_expression);
                let negated = is_not_prefix && column_upper == raw_upper(then_expression);
                if !straight && !negated {
                    seq![]
                } else {
                    let first = if straight {
                        else_expression
                    } else {
                        then_expression
                    };
                    let second = if straight {
                        then_expression
                    } else {
                        else_expression
                    };
                    if raw_upper(second) == "NULL"@ {
                        seq![
                            result_at(condition, column_only_fixes(segment, column), Some(""@)),
                        ]
                    } else {
                        seq![
                            result_at(
                                condition,
                                coalesce_fixes(segment, first, second, false),
                                Some(COALESCE_MESSAGE@),
                            ),
                        ]
                    }
                }
            }
        } else if raw_upper(column) == raw_upper(then_expression) {
            seq![
                result_at(
                    condition,
                    column_only_fixes(segment, column),
                    Some(
                        "Unnecessary CASE statement. Just use column '"@ + decode_utf8(
                            column.raw(),
                        ) + "'."@,
                    ),
                ),
            ]
        } else {
            seq![]
        }
    } else {
        seq![]
    }
}

/// What the rule finds in a segment.
///
/// Nothing, unless the first child of the segment is the word `CASE` and
/// there is one `WHEN` at most, with a condition and a value. A `CASE` that
/// gives `TRUE` for the one and `FALSE` for the other is `COALESCE` of the
/// condition and `false`, with `not` before it if it gives `FALSE` where
/// the condition holds. Any other is looked at for a test for `NULL`.
pub open spec fn case_findings(segment: SegmentView) -> Seq<LintResultView> {
    let children = segment.children();
    let when_clauses = of_kind(children, SyntaxKind::WhenClause);
    let else_clauses = of_kind(children, SyntaxKind::ElseClause);
    let when_expressions = of_kind(children_of(when_clauses), SyntaxKind::Expression);
    let else_expressions = of_kind(children_of(else_clauses), SyntaxKind::Expression);
    if children.len() == 0 || !same_ignoring_case(children[0].raw(), encode_utf8("CASE"@)) {
        seq![]
    } else if when_clauses.len() > 1 || when_expressions.len() < 2 {
        seq![]
    } else {
        let condition = when_expressions[0];
        let then_expression = when_expressions[1];
        if else_clauses.len() > 0 && else_expressions.len() > 0 && is_bool_word(
            raw_upper(then_expression),
        ) && is_bool_word(raw_upper(else_expressions[0])) && raw_upper(then_expression)
            != raw_upper(else_expressions[0]) {
            seq![
                result_at(
                    condition,
                    coalesce_fixes(
                        segment,
                        condition,
                        new_leaf(SyntaxKind::Keyword, "false"@),
                        raw_upper(then_expression) == "FALSE"@,
                    ),
                    Some(COALESCE_MESSAGE@),
                ),
            ]
        } else {
            null_findings(segment, condition, then_expression, else_clauses, else_expressions)
        }
    }
}

/// The texts of the segments in upper case.
fn raw_uppers_of(segments: &[Segment]) -> (r: Vec<String>)
    ensures
        views_of_texts(r@) == raw_uppers(views_of(segments@)),
{
    let ghost views = views_of(segments@);
    proof {
        lemma_views_index(segments@);
    }
    let mut out: Vec<String> = Vec::new();
    let mut i: usize = 0;
    while i < segments.len()
        invariant
            views == views_of(segments@),
            views.len() == segments@.len(),
            forall|j: int|
                0 <= j < segments@.len() ==> views[j] == (#[trigger] segments@[j]).deep_view(),
            i <= segments@.len(),
            views_of_texts(out@) == raw_uppers(views).take(i as int),
        decreases segments@.len() - i,
    {
        let ghost before = views_of_texts(out@);
        let upper = get_raw_upper(&segments[i]);
        out.push(upper);
        assert(views_of_texts(out@) =~= before.push(raw_upper(views[i as int])));
        assert(raw_uppers(views).take(i + 1) =~= raw_uppers(views).take(i as int).push(
            raw_upper(views[i as int]),
        ));
        i += 1;
    }
    assert(raw_uppers(views).take(i as int) =~= raw_uppers(views));
    out
}

/// The two texts as a list.
fn two_texts(a: &str, b: &str) -> (r: Vec<String>)
    ensures
        views_of_texts(r@) == seq![a@, b@],
{
    let mut out: Vec<String> = Vec::new();
    out.push(a.to_owned());
    out.push(b.to_owned());
    assert(views_of_texts(out@) =~= seq![a@, b@]);
    out
}

impl RuleST02 {
    /// The name of the rule.
    pub fn name(&self) -> (r: &'static str)
        ensures
            r@ == "structure.simple_case"@,
    {
        "structure.simple_case"
    }

    /// What the rule is about.
    pub fn description(&self) -> (r: &'static str)
        ensures
            r@ == "Unnecessary 'CASE' statement."@,
    {
        "Unnecessary 'CASE' statement."
    }

    /// What the rule is about, at length.
    pub fn long_description(&self) -> (r: &'static str)
        ensures
            r@ == LONG_DESCRIPTION@,
    {
        LONG_DESCRIPTION
    }

    /// The rule, which takes nothing from the configuration.
    pub fn load_from_config(_config: &AHashMap<String, String>) -> (r: Self)
        ensures
            r == RuleST02,
    {
        RuleST02
    }

    /// The groups of the rule.
    pub fn groups(&self) -> (r: Vec<RuleGroups>)
        ensures
            r@ == seq![RuleGroups::All, RuleGroups::Structure],
    {
        vec![RuleGroups::All, RuleGroups::Structure]
    }

    /// The segments that the rule is given: `CASE` expressions.
    pub fn crawl_behaviour(&self) -> (r: Crawler)
        ensures
            r.kinds@ == seq![SyntaxKind::CaseExpression],
    {
        Crawler { kinds: vec![SyntaxKind::CaseExpression] }
    }

    /// What the rule finds in the segment of the context.
    pub fn eval(&self, context: &RuleContext) -> (r: Vec<LintResult>)
        ensures
            r.deep_view() == case_findings(context.segment.deep_view()),
    {
        let children = context.segment.segments();
        proof {
            lemma_views_index(children@);
        }
        if children.len() == 0 {
            return no_result();
        }
        let first = children[0].raw();
        if !crate::engine::text_matches(first.as_str(), "CASE") {
            return no_result();
        }
        let when_clauses = select_kind(children, SyntaxKind::WhenClause);
        let else_clauses = select_kind(children, SyntaxKind::ElseClause);
        let when_children = children_of_all(when_clauses.as_slice());
        let else_children = children_of_all(else_clauses.as_slice());
        let when_expressions = select_kind(when_children.as_slice(), SyntaxKind::Expression);
        let else_expressions = select_kind(else_children.as_slice(), SyntaxKind::Expression);
        proof {
            lemma_views_index(when_clauses@);
            lemma_views_index(else_clauses@);
            lemma_views_index(when_expressions@);
            lemma_views_index(else_expressions@);
        }
        if when_clauses.len() > 1 || when_expressions.len() < 2 {
            return no_result();
        }
        let condition_expression = &when_expressions[0];
        let then_expression = &when_expressions[1];
        let then_upper = get_raw_upper(then_expression);
        if else_clauses.len() > 0 && else_expressions.len() > 0 {
            let else_upper = get_raw_upper(&else_expressions[0]);
            let then_is_bool = same_text(then_upper.as_str(), "TRUE") || same_text(
                then_upper.as_str(),
                "FALSE",
            );
            let else_is_bool = same_text(else_upper.as_str(), "TRUE") || same_text(
                else_upper.as_str(),
                "FALSE",
            );
            if then_is_bool && else_is_bool && !same_text(then_upper.as_str(), else_upper.as_str()) {
                let coalesce_arg_1 = condition_expression.clone_segment();
                let coalesce_arg_2 = create_leaf(SyntaxKind::Keyword, "false");
                let preceding_not = same_text(then_upper.as_str(), "FALSE");
                let fixes = RuleST02::coalesce_fix_list(
                    context,
                    coalesce_arg_1,
                    coalesce_arg_2,
                    preceding_not,
                );
                return one_result(
                    LintResult::new(
                        Some(condition_expression.clone_segment()),
                        fixes,
                        Some(COALESCE_MESSAGE.to_owned()),
                    ),
                );
            }
        }
        RuleST02::null_eval(
            context,
            condition_expression,
            then_expression,
            else_clauses.as_slice(),
            else_expressions.as_slice(),
        )
    }

    /// Whether the parts of a condition make a test for `NULL`.
    fn null_test_of(parts: &[Segment]) -> (r: Option<bool>)
        ensures
            r == null_test(views_of(parts@)),
    {
        let uppers = raw_uppers_of(parts);
        let condition_raws = set_of_texts(&uppers);
        let joiners = set_of_texts(&two_texts("AND", "OR"));
        if set_contains(&condition_raws, "IS") && set_contains(&condition_raws, "NULL")
            && first_shared(&condition_raws, &joiners).is_none() {
            Some(set_contains(&condition_raws, "NOT"))
        } else {
            None
        }
    }

    /// The text that a column is compared by.
    fn column_key_of(column: &Segment, accessors: &[Segment]) -> (r: String)
        ensures
            r@ == column_key(column.deep_view(), views_of(accessors@)),
    {
        proof {
            lemma_views_index(accessors@);
        }
        let column_raw = column.raw();
        proof {
            encode_utf8_decode_utf8(column_raw@);
        }
        if accessors.len() > 0 {
            let accessor_raw = accessors[0].raw();
            proof {
                encode_utf8_decode_utf8(accessor_raw@);
            }
            join_text(
                to_lower(column_raw.as_str()).as_str(),
                to_upper(accessor_raw.as_str()).as_str(),
            )
        } else {
            to_upper(column_raw.as_str())
        }
    }

    /// What the rule finds in a `CASE` that tests for `NULL`.
    fn null_eval(
        context: &RuleContext,
        condition_expression: &Segment,
        then_expression: &Segment,
        else_clauses: &[Segment],
        else_expressions: &[Segment],
    ) -> (r: Vec<LintResult>)
        ensures
            r.deep_view() == null_findings(
                context.segment.deep_view(),
                condition_expression.deep_view(),
                then_expression.deep_view(),
                views_of(else_clauses@),
                views_of(else_expressions@),
            ),
    {
        proof {
            lemma_views_index(else_clauses@);
            lemma_views_index(else_expressions@);
        }
        let then_upper = get_raw_upper(then_expression);
        let parts = condition_expression.segments();
        let columns = select_kind(parts, SyntaxKind::ColumnReference);
        let accessors = select_kind(parts, SyntaxKind::ArrayAccessor);
        proof {
            lemma_views_index(columns@);
        }
        let is_not_prefix = match RuleST02::null_test_of(parts) {
            Some(is_not_prefix) => is_not_prefix,
            None => {
                return no_result();
            },
        };
        if columns.len() == 0 {
            return no_result();
        }
        let column_reference_segment = &columns[0];
        let column_raw = column_reference_segment.raw();
        proof {
            encode_utf8_decode_utf8(column_raw@);
        }
        let column_upper = RuleST02::column_key_of(column_reference_segment, accessors.as_slice());
        if else_clauses.len() > 0 {
            if else_expressions.len() == 0 {
                return no_result();
            }
            let else_expression = &else_expressions[0];
            let else_upper = get_raw_upper(else_expression);
            let straight = !is_not_prefix && same_text(column_upper.as_str(), else_upper.as_str());
            let negated = is_not_prefix && same_text(column_upper.as_str(), then_upper.as_str());
            if !straight && !negated {
                return no_result();
            }
            let (coalesce_arg_1, coalesce_arg_2, second_upper) = if straight {
                (else_expression.clone_segment(), then_expression.clone_segment(), then_upper)
            } else {
                (then_expression.clone_segment(), else_expression.clone_segment(), else_upper)
            };
            if same_text(second_upper.as_str(), "NULL") {
                let fixes = RuleST02::column_only_fix_list(
                    context,
                    column_reference_segment.clone_segment(),
                );
                proof {
                    reveal_strlit("");
                    assert(""@ =~= Seq::<char>::empty());
                }
                return one_result(
                    LintResult::new(
                        Some(condition_expression.clone_segment()),
                        fixes,
                        Some(String::new()),
                    ),
                );
            }
            let fixes = RuleST02::coalesce_fix_list(context, coalesce_arg_1, coalesce_arg_2, false);
            return one_result(
                LintResult::new(
                    Some(condition_expression.clone_segment()),
                    fixes,
                    Some(COALESCE_MESSAGE.to_owned()),
                ),
            );
        } else if same_text(get_raw_upper(column_reference_segment).as_str(), then_upper.as_str()) {
            let fixes = RuleST02::column_only_fix_list(
                context,
                column_reference_segment.clone_segment(),
            );
            let message = join_text(
                join_text("Unnecessary CASE statement. Just use column '", column_raw.as_str()).as_str(),
                "'.",
            );
            return one_result(
                LintResult::new(Some(condition_expression.clone_segment()), fixes, Some(message)),
            );
        }
        no_result()
    }

    /// The fix that puts `coalesce(coalesce_arg_1, coalesce_arg_2)` in the
    /// place of the segment of the context, with `not ` before it where
    /// `preceding_not`.
    pub fn coalesce_fix_list(
        context: &RuleContext,
        coalesce_arg_1: Segment,
        coalesce_arg_2: Segment,
        preceding_not: bool,
    ) -> (r: Vec<LintFix>)
        ensures
            r.deep_view() == coalesce_fixes(
                context.segment.deep_view(),
                coalesce_arg_1.deep_view(),
                coalesce_arg_2.deep_view(),
                preceding_not,
            ),
    {
        let ghost call = coalesce_edits(coalesce_arg_1.deep_view(), coalesce_arg_2.deep_view(), false);
        let mut edits: Vec<Segment> = Vec::new();
        assert(views_of(edits@) =~= Seq::<SegmentView>::empty());
        let parts = [
            create_leaf(SyntaxKind::Symbol, "coalesce"),
            create_leaf(SyntaxKind::Symbol, "("),
            coalesce_arg_1,
            create_leaf(SyntaxKind::Symbol, ","),
            create_leaf(SyntaxKind::Whitespace, " "),
            coalesce_arg_2,
            create_leaf(SyntaxKind::Symbol, ")"),
        ];
        let mut i: usize = 0;
        while i < 7
            invariant
                i <= 7,
                parts@.len() == 7,
                call.len() == 7,
                forall|j: int| 0 <= j < 7 ==> call[j] == (#[trigger] parts@[j]).deep_view(),
                views_of(edits@) == call.take(i as int),
            decreases 7 - i,
        {
            let copy = parts[i].clone_segment();
            proof {
                lemma_views_push(edits@, copy);
                assert(call.take(i + 1) =~= call.take(i as int).push(call[i as int]));
            }
            edits.push(copy);
            i += 1;
        }
        assert(call.take(7) =~= call);
        if preceding_not {
            let mut prefix: Vec<Segment> = Vec::new();
            assert(views_of(prefix@) =~= Seq::<SegmentView>::empty());
            let not = create_leaf(SyntaxKind::Keyword, "not");
            proof {
                lemma_views_push(prefix@, not);
            }
            prefix.push(not);
            let blank = create_leaf(SyntaxKind::Whitespace, " ");
            proof {
                lemma_views_push(prefix@, blank);
            }
            prefix.push(blank);
            proof {
                lemma_views_concat(prefix@, edits@);
                assert(views_of(prefix@) =~= seq![
                    new_leaf(SyntaxKind::Keyword, "not"@),
                    new_leaf(SyntaxKind::Whitespace, " "@),
                ]);
            }
            edits = chain_all(prefix, edits);
        }
        one_fix(LintFix::replace(context.segment.clone_segment(), edits))
    }

    /// The fix that puts the column in the place of the segment of the
    /// context.
    pub fn column_only_fix_list(context: &RuleContext, column_reference_segment: Segment) -> (r:
        Vec<LintFix>)
        ensures
            r.deep_view() == column_only_fixes(
                context.segment.deep_view(),
                column_reference_segment.deep_view(),
            ),
    {
        one_fix(
            LintFix::replace(
                context.segment.clone_segment(),
                crate::engine::single(column_reference_segment),
            ),
        )
    }
}

} // verus!
