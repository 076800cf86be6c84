//! The rule that asks for one style of type casts.

use crate::lint::{LintFix, LintFixView, LintResult, LintResultView};
use crate::matching::same_ignoring_case;
use crate::rules::{
    chain_all, children_of, children_of_all, create_leaf, first_of_kind, new_leaf, no_result,
    of_kind, one_fix, one_result, position_of_kind, result_at, select_kind, Crawler,
    RuleContext, RuleGroups,
};
use crate::segments::{
    clone_segments, lemma_views_concat, lemma_views_index, lemma_views_push,
    lemma_views_subrange, views_of, Segment, SegmentView,
};
use crate::sets::{entries_in, map_get};
use crate::syntax::SyntaxKind;
use crate::text::same_text;
use ahash::AHashMap;
use vstd::prelude::*;
use vstd::slice::slice_subrange;
use vstd::string::*;
use vstd::utf8::*;

verus! {

/// The styles of a type cast.
#[derive(Debug, Copy, Clone, PartialEq, Eq, Structural)]
pub enum TypeCastingStyle {
    /// Whatever style comes first in a file.
    Consistent,
    /// `CAST(x AS t)`.
    Cast,
    /// `CONVERT(t, x)`.
    Convert,
    /// `x::t`.
    Shorthand,
    /// No cast at all.
    NoCast,
}

impl Default for TypeCastingStyle {
    fn default() -> (r: Self)
        ensures
            r == TypeCastingStyle::Consistent,
    {
        TypeCastingStyle::Consistent
    }
}

/// The style that a name stands for.
pub open spec fn style_named(name: Seq<char>) -> Option<TypeCastingStyle> {
    if name == "consistent"@ {
        Some(TypeCastingStyle::Consistent)
    } else if name == "cast"@ {
        Some(TypeCastingStyle::Cast)
    } else if name == "convert"@ {
        Some(TypeCastingStyle::Convert)
    } else if name == "shorthand"@ {
        Some(TypeCastingStyle::Shorthand)
    } else if name == "none"@ {
        Some(TypeCastingStyle::NoCast)
    } else {
        None
    }
}

impl TypeCastingStyle {
    /// The style that `name` stands for.
    pub fn parse(name: &str) -> (r: Option<Self>)
        ensures
            r == style_named(name@),
    {
        if same_text(name, "consistent") {
            Some(TypeCastingStyle::Consistent)
        } else if same_text(name, "cast") {
            Some(TypeCastingStyle::Cast)
        } else if same_text(name, "convert") {
            Some(TypeCastingStyle::Convert)
        } else if same_text(name, "shorthand") {
            Some(TypeCastingStyle::Shorthand)
        } else if same_text(name, "none") {
            Some(TypeCastingStyle::NoCast)
        } else {
            None
        }
    }

    /// The name of the style.
    pub fn as_ref(&self) -> (r: &'static str)
        ensures
            style_named(r@) == Some(*self),
    {
        match self {
            TypeCastingStyle::Consistent => "consistent",
            TypeCastingStyle::Cast => {
                proof {
                    lemma_names_differ();
                }
                "cast"
            },
            TypeCastingStyle::Convert => {
                proof {
                    lemma_names_differ();
                }
                "convert"
            },
            TypeCastingStyle::Shorthand => {
                proof {
                    lemma_names_differ();
                }
                "shorthand"
            },
            TypeCastingStyle::NoCast => {
                proof {
                    lemma_names_differ();
                }
                "none"
            },
        }
    }
}

/// The names of the styles are five different texts.
pub proof fn lemma_names_differ()
    ensures
        "cast"@ != "consistent"@,
        "convert"@ != "consistent"@,
        "convert"@ != "cast"@,
        "shorthand"@ != "consistent"@,
        "shorthand"@ != "cast"@,
        "shorthand"@ != "convert"@,
        "none"@ != "consistent"@,
        "none"@ != "cast"@,
        "none"@ != "convert"@,
        "none"@ != "shorthand"@,
{
    reveal_strlit("consistent");
    reveal_strlit("cast");
    reveal_strlit("convert");
    reveal_strlit("shorthand");
    reveal_strlit("none");
    assert("cast"@.len() == 4);
    assert("none"@.len() == 4);
    assert("convert"@.len() == 7);
    assert("shorthand"@.len() == 9);
    assert("consistent"@.len() == 10);
    assert("cast"@[0] == 'c');
    assert("none"@[0] == 'n');
}

/// What the rule remembers from one segment to the next: the style of the
/// first cast that it met, and whether it passed over a cast for want of a
/// fix.
#[derive(Debug, Copy, Clone, PartialEq, Eq, Structural)]
pub struct CastingMemory {
    pub prior: Option<TypeCastingStyle>,
    pub previous_skipped: bool,
}

/// What the rule has to say where a file mixes styles.
pub const INCONSISTENT_MESSAGE: &'static str = "Inconsistent type casting styles found.";

/// What the rule has to say where a cast is not of the style asked for.
pub const PREFERRED_MESSAGE: &'static str =
    "Used type casting style is different from the preferred type casting style.";

/// What the rule is about, at length.
pub const LONG_DESCRIPTION: &'static str = r"
**Anti-pattern**

Using a mixture of `CONVERT`, `::`, and `CAST` when `preferred_type_casting_style` config is set to `consistent` (default).

```sql
SELECT
    CONVERT(int, 1) AS bar,
    100::int::text,
    CAST(10 AS text) AS coo
FROM foo;
```

**Best Practice**

Use a consistent type casting style.

```sql
SELECT
    CAST(1 AS int) AS bar,
    CAST(CAST(100 AS int) AS text),
    CAST(10 AS text) AS coo
FROM foo;
```
";

/// The rule: one style of type casts.
#[derive(Clone, Debug, Default)]
pub struct RuleCV11 {
    pub preferred_type_casting_style: TypeCastingStyle,
}

/// Whether a child of a cast says nothing about what is cast: it is a
/// marker, a bracket, spacing, the casting operator, a comma or a keyword.
pub open spec fn is_noise(kind: SyntaxKind) -> bool {
    kind.is_meta() || kind == SyntaxKind::StartBracket || kind == SyntaxKind::EndBracket || kind
        == SyntaxKind::Whitespace || kind == SyntaxKind::Newline || kind
        == SyntaxKind::CastingOperator || kind == SyntaxKind::Comma || kind == SyntaxKind::Keyword
}

/// Those of the segments that are no noise, in order.
pub open spec fn without_noise(segments: Seq<SegmentView>) -> Seq<SegmentView>
    decreases segments.len(),
{
    if segments.len() == 0 {
        seq![]
    } else if is_noise(segments.last().kind()) {
        without_noise(segments.drop_last())
    } else {
        without_noise(segments.drop_last()).push(segments.last())
    }
}

/// The children of the segments that say what is cast.
pub open spec fn casting_parts(segments: Seq<SegmentView>) -> Seq<SegmentView> {
    without_noise(children_of(segments))
}

/// The parts of a cast written as a function: those in its brackets.
pub open spec fn call_parts(segment: SegmentView) -> Seq<SegmentView> {
    casting_parts(of_kind(segment.children(), SyntaxKind::Bracketed))
}

/// The parts of a cast written in shorthand.
pub open spec fn shorthand_parts(segment: SegmentView) -> Seq<SegmentView> {
    casting_parts(seq![segment])
}

/// The style of the cast that a segment is: that of a function by its
/// name, shorthand for a cast expression, none for anything else. A
/// function without a name has no style at all.
pub open spec fn style_of(segment: SegmentView) -> Option<TypeCastingStyle> {
    if segment.kind() == SyntaxKind::Function {
        let names = of_kind(segment.children(), SyntaxKind::FunctionName);
        if names.len() == 0 {
            None
        } else if same_ignoring_case(names[0].raw(), encode_utf8("CAST"@)) {
            Some(TypeCastingStyle::Cast)
        } else if same_ignoring_case(names[0].raw(), encode_utf8("CONVERT"@)) {
            Some(TypeCastingStyle::Convert)
        } else {
            Some(TypeCastingStyle::NoCast)
        }
    } else if segment.kind() == SyntaxKind::CastExpression {
        Some(TypeCastingStyle::Shorthand)
    } else {
        Some(TypeCastingStyle::NoCast)
    }
}

/// The segments of `first::second`, with `first` in brackets if it is made
/// of more than one leaf.
pub open spec fn shorthand_edits(first: SegmentView, second: SegmentView) -> Seq<SegmentView> {
    let value = if first.leaves().len() > 1 {
        seq![
            new_leaf(SyntaxKind::StartBracket, "("@),
            first,
            new_leaf(SyntaxKind::EndBracket, ")"@),
        ]
    } else {
        seq![first]
    };
    value + seq![new_leaf(SyntaxKind::CastingOperator, "::"@), second]
}

/// The segments of `cast(values as target)`.
pub open spec fn cast_edits(values: Seq<SegmentView>, target: SegmentView) -> Seq<SegmentView> {
    seq![
        new_leaf(SyntaxKind::FunctionNameIdentifier, "cast"@),
        new_leaf(SyntaxKind::StartBracket, "("@),
    ] + values + seq![
        new_leaf(SyntaxKind::Whitespace, " "@),
        new_leaf(SyntaxKind::Keyword, "as"@),
        new_leaf(SyntaxKind::Whitespace, " "@),
        target,
        new_leaf(SyntaxKind::EndBracket, ")"@),
    ]
}

/// The cast `edits` cast on to each of the types `later`, from the `k`-th
/// on, in turn: `cast(edits as type)`.
pub open spec fn cast_on(edits: Seq<SegmentView>, later: Seq<SegmentView>, k: int) -> Seq<
    SegmentView,
>
    decreases later.len() - k,
{
    if k < 0 || k >= later.len() {
        edits
    } else {
        cast_on(
            seq![new_leaf(SyntaxKind::Code, "cast"@), new_leaf(SyntaxKind::Symbol, "("@)] + edits
                + seq![
                new_leaf(SyntaxKind::Whitespace, " "@),
                new_leaf(SyntaxKind::Keyword, "as"@),
                new_leaf(SyntaxKind::Whitespace, " "@),
                later[k],
                new_leaf(SyntaxKind::Symbol, ")"@),
            ],
            later,
            k + 1,
        )
    }
}

/// The segments of `convert(target, value)`.
pub open spec fn convert_edits(target: SegmentView, value: SegmentView) -> Seq<SegmentView> {
    seq![
        new_leaf(SyntaxKind::FunctionNameIdentifier, "convert"@),
        new_leaf(SyntaxKind::StartBracket, "("@),
        target,
        new_leaf(SyntaxKind::Comma, ","@),
        new_leaf(SyntaxKind::Whitespace, " "@),
        value,
        new_leaf(SyntaxKind::EndBracket, ")"@),
    ]
}

/// The conversion `edits` converted on to each of the types `later`, from
/// the `k`-th on, in turn: `convert(type, edits)`.
pub open spec fn convert_on(edits: Seq<SegmentView>, later: Seq<SegmentView>, k: int) -> Seq<
    SegmentView,
>
    decreases later.len() - k,
{
    if k < 0 || k >= later.len() {
        edits
    } else {
        convert_on(
            seq![
                new_leaf(SyntaxKind::Code, "convert"@),
                new_leaf(SyntaxKind::Symbol, "("@),
                later[k],
                new_leaf(SyntaxKind::Symbol, ","@),
                new_leaf(SyntaxKind::Whitespace, " "@),
            ] + edits + seq![new_leaf(SyntaxKind::Symbol, ")"@)],
            later,
            k + 1,
        )
    }
}

/// The one fix that puts `edit` in the place of `root`.
pub open spec fn replace_with(root: SegmentView, edit: Seq<SegmentView>) -> Seq<LintFixView> {
    seq![LintFixView::Replace { anchor: root, edit }]
}

/// The fix that makes the cast `segment`, which is of the style `current`,
/// one of the style `wanted`, where the rule asks for a style of its own.
/// A cast of which the parts that the fix needs are not there gets no fix.
pub open spec fn preferred_fixes(
    wanted: TypeCastingStyle,
    current: TypeCastingStyle,
    segment: SegmentView,
) -> Seq<LintFixView> {
    let call = call_parts(segment);
    let short = shorthand_parts(segment);
    match (wanted, current) {
        (TypeCastingStyle::Cast, TypeCastingStyle::Convert) => if call.len() == 2 {
            replace_with(segment, cast_edits(seq![call[1]], call[0]))
        } else {
            seq![]
        },
        (TypeCastingStyle::Cast, TypeCastingStyle::Shorthand) => {
            let types = first_of_kind(short, SyntaxKind::DataType, 0);
            match types {
                Some(at) => replace_with(
                    segment,
                    cast_on(cast_edits(short.take(at), short[at]), short.skip(at + 1), 0),
                ),
                None => seq![],
            }
        },
        (TypeCastingStyle::Convert, TypeCastingStyle::Cast) => if call.len() >= 2 {
            replace_with(segment, convert_edits(call[1], call[0]))
        } else {
            seq![]
        },
        (TypeCastingStyle::Convert, TypeCastingStyle::Shorthand) => if short.len() >= 2 {
            replace_with(segment, convert_on(convert_edits(short[1], short[0]), short.skip(2), 0))
        } else {
            seq![]
        },
        (TypeCastingStyle::Shorthand, TypeCastingStyle::Cast) => if call.len() == 2 {
            replace_with(segment, shorthand_edits(call[0], call[1]))
        } else {
            seq![]
        },
        (TypeCastingStyle::Shorthand, TypeCastingStyle::Convert) => if call.len() == 2 {
            replace_with(segment, shorthand_edits(call[1], call[0]))
        } else {
            seq![]
        },
        _ => seq![],
    }
}

/// The fix that makes the cast `segment`, which is of the style `current`,
/// one of the style `prior` that came first in the file. There is none, and
/// the cast is passed over, where a cast written as a function has more
/// than two parts. A cast of which the parts that the fix needs are not
/// there gets an empty fix.
pub open spec fn consistent_fixes(
    prior: TypeCastingStyle,
    current: TypeCastingStyle,
    segment: SegmentView,
) -> Option<Seq<LintFixView>> {
    let call = call_parts(segment);
    let short = shorthand_parts(segment);
    match (prior, current) {
        (TypeCastingStyle::Cast, TypeCastingStyle::Convert) => if call.len() > 2 {
            None
        } else if call.len() == 2 {
            Some(replace_with(segment, cast_edits(seq![call[1]], call[0])))
        } else {
            Some(seq![])
        },
        (TypeCastingStyle::Cast, TypeCastingStyle::Shorthand) => if short.len() >= 2 {
            Some(
                replace_with(
                    segment,
                    cast_on(cast_edits(seq![short[0]], short[1]), short.skip(2), 0),
                ),
            )
        } else {
            Some(seq![])
        },
        (TypeCastingStyle::Convert, TypeCastingStyle::Cast) => if call.len() > 2 {
            None
        } else if call.len() == 2 {
            Some(replace_with(segment, convert_edits(call[1], call[0])))
        } else {
            Some(seq![])
        },
        (TypeCastingStyle::Convert, TypeCastingStyle::Shorthand) => if short.len() >= 2 {
            Some(
                replace_with(
                    segment,
                    convert_on(convert_edits(short[1], short[0]), short.skip(2), 0),
                ),
            )
        } else {
            Some(seq![])
        },
        (TypeCastingStyle::Shorthand, TypeCastingStyle::Cast) => if call.len() > 2 {
            None
        } else if call.len() == 2 {
            Some(replace_with(segment, shorthand_edits(call[0], call[1])))
        } else {
            Some(seq![])
        },
        (TypeCastingStyle::Shorthand, TypeCastingStyle::Convert) => if call.len() > 2 {
            None
        } else if call.len() == 2 {
            Some(replace_with(segment, shorthand_edits(call[1], call[0])))
        } else {
            Some(seq![])
        },
        _ => Some(seq![]),
    }
}

/// What the rule finds in a segment, and what it remembers afterwards.
///
/// Where the rule asks for consistency, the first cast sets the style and
/// gives no result. Each later segment of another style gives a result
/// with the fix that makes it one of that style, unless it is passed over;
/// a cast of the first style is what passes over a conversion and marks
/// that it did. Where the rule asks for a style of its own, each segment of
/// another style gives a result with its fix.
pub open spec fn casting_findings(
    preferred: TypeCastingStyle,
    memory: CastingMemory,
    segment: SegmentView,
) -> (Seq<LintResultView>, CastingMemory) {
    match style_of(segment) {
        None => (seq![], memory),
        Some(current) => if preferred == TypeCastingStyle::Consistent {
            match memory.prior {
                None => (seq![], CastingMemory { prior: Some(current), ..memory }),
                Some(prior) => match consistent_fixes(prior, current, segment) {
                    None => (
                        seq![],
                        if prior == TypeCastingStyle::Cast {
                            CastingMemory { previous_skipped: true, ..memory }
                        } else {
                            memory
                        },
                    ),
                    Some(fixes) => if prior != current {
                        (seq![result_at(segment, fixes, Some(INCONSISTENT_MESSAGE@))], memory)
                    } else {
                        (seq![], memory)
                    },
                },
            }
        } else if current != preferred {
            (
                seq![
                    result_at(
                        segment,
                        preferred_fixes(preferred, current, segment),
                        Some(PREFERRED_MESSAGE@),
                    ),
                ],
                memory,
            )
        } else {
            (seq![], memory)
        },
    }
}

/// Copies of those of the segments that are no noise.
fn drop_noise(segments: &[Segment]) -> (r: Vec<Segment>)
    ensures
        views_of(r@) == without_noise(views_of(segments@)),
{
    let ghost views = views_of(segments@);
    proof {
        lemma_views_index(segments@);
        assert(views.take(0) =~= Seq::<SegmentView>::empty());
    }
    let mut out: Vec<Segment> = Vec::new();
    assert(views_of(out@) =~= Seq::<SegmentView>::empty());
    let mut i: usize = 0;
    while i < segments.len()
        invariant
            views == views_of(segments@),
            views.len() == segments@.len(),
            forall|j: int|
                0 <= j < segments@.len() ==> views[j] == (#[trigger] segments@[j]).deep_view(),
            i <= segments@.len(),
            views_of(out@) == without_noise(views.take(i as int)),
        decreases segments@.len() - i,
    {
        proof {
            assert(views.take(i + 1).drop_last() =~= views.take(i as int));
            assert(views.take(i + 1).last() == views[i as int]);
        }
        let kind = segments[i].get_type();
        let noise = kind.meta() || kind == SyntaxKind::StartBracket || kind == SyntaxKind::EndBracket
            || kind == SyntaxKind::Whitespace || kind == SyntaxKind::Newline || kind
            == SyntaxKind::CastingOperator || kind == SyntaxKind::Comma || kind
            == SyntaxKind::Keyword;
        if !noise {
            let copy = segments[i].clone_segment();
            proof {
                lemma_views_push(out@, copy);
            }
            out.push(copy);
        }
        i += 1;
    }
    assert(views.take(i as int) =~= views);
    out
}

/// The children of the segments that say what is cast.
pub fn get_children(segments: &[Segment]) -> (r: Vec<Segment>)
    ensures
        views_of(r@) == casting_parts(views_of(segments@)),
{
    let children = children_of_all(segments);
    drop_noise(children.as_slice())
}

/// Puts a new leaf behind `edits`.
fn push_leaf(edits: &mut Vec<Segment>, kind: SyntaxKind, text: &str)
    ensures
        views_of(final(edits)@) == views_of(old(edits)@).push(new_leaf(kind, text@)),
{
    let leaf = create_leaf(kind, text);
    proof {
        lemma_views_push(edits@, leaf);
    }
    edits.push(leaf);
}

/// Puts a copy of `segment` behind `edits`.
fn push_copy(edits: &mut Vec<Segment>, segment: &Segment)
    ensures
        views_of(final(edits)@) == views_of(old(edits)@).push(segment.deep_view()),
{
    let copy = segment.clone_segment();
    proof {
        lemma_views_push(edits@, copy);
    }
    edits.push(copy);
}

/// The one fix that puts `edits` in the place of `root`.
fn replace_fix(root: &Segment, edits: Vec<Segment>) -> (r: Vec<LintFix>)
    ensures
        r.deep_view() == replace_with(root.deep_view(), views_of(edits@)),
{
    one_fix(LintFix::replace(root.clone_segment(), edits))
}

/// The fix that puts `shorthand_arg_1::shorthand_arg_2` in the place of
/// `root_segment`.
pub fn shorthand_fix_list(root_segment: Segment, shorthand_arg_1: Segment, shorthand_arg_2: Segment) -> (r:
    Vec<LintFix>)
    ensures
        r.deep_view() == replace_with(
            root_segment.deep_view(),
            shorthand_edits(shorthand_arg_1.deep_view(), shorthand_arg_2.deep_view()),
        ),
{
    let mut edits: Vec<Segment> = Vec::new();
    assert(views_of(edits@) =~= Seq::<SegmentView>::empty());
    let leaves = shorthand_arg_1.get_raw_segments();
    proof {
        lemma_views_index(leaves@);
    }
    if leaves.len() > 1 {
        push_leaf(&mut edits, SyntaxKind::StartBracket, "(");
        push_copy(&mut edits, &shorthand_arg_1);
        push_leaf(&mut edits, SyntaxKind::EndBracket, ")");
    } else {
        push_copy(&mut edits, &shorthand_arg_1);
    }
    push_leaf(&mut edits, SyntaxKind::CastingOperator, "::");
    push_copy(&mut edits, &shorthand_arg_2);
    assert(views_of(edits@) =~= shorthand_edits(
        shorthand_arg_1.deep_view(),
        shorthand_arg_2.deep_view(),
    ));
    replace_fix(&root_segment, edits)
}

/// The fix that puts `cast(cast_arg_1 as cast_arg_2)` in the place of
/// `root`, cast on to each of `later_types` in turn.
pub fn cast_fix_list(root: Segment, cast_arg_1: &[Segment], cast_arg_2: Segment, later_types: Option<
    Vec<Segment>,
>) -> (r: Vec<LintFix>)
    ensures
        r.deep_view() == replace_with(
            root.deep_view(),
            match later_types {
                Some(later) => cast_on(
                    cast_edits(views_of(cast_arg_1@), cast_arg_2.deep_view()),
                    views_of(later@),
                    0,
                ),
                None => cast_edits(views_of(cast_arg_1@), cast_arg_2.deep_view()),
            },
        ),
{
    let mut edits: Vec<Segment> = Vec::new();
    assert(views_of(edits@) =~= Seq::<SegmentView>::empty());
    push_leaf(&mut edits, SyntaxKind::FunctionNameIdentifier, "cast");
    push_leaf(&mut edits, SyntaxKind::StartBracket, "(");
    let mut values = clone_segments(cast_arg_1);
    proof {
        lemma_views_concat(edits@, values@);
    }
    edits.append(&mut values);
    push_leaf(&mut edits, SyntaxKind::Whitespace, " ");
    push_leaf(&mut edits, SyntaxKind::Keyword, "as");
    push_leaf(&mut edits, SyntaxKind::Whitespace, " ");
    push_copy(&mut edits, &cast_arg_2);
    push_leaf(&mut edits, SyntaxKind::EndBracket, ")");
    assert(views_of(edits@) =~= cast_edits(views_of(cast_arg_1@), cast_arg_2.deep_view()));
    match later_types {
        Some(later) => {
            let ghost types = views_of(later@);
            let ghost goal = cast_on(views_of(edits@), types, 0);
            proof {
                lemma_views_index(later@);
            }
            let mut k: usize = 0;
            while k < later.len()
                invariant
                    types == views_of(later@),
                    types.len() == later@.len(),
                    forall|j: int|
                        0 <= j < later@.len() ==> types[j] == (#[trigger] later@[j]).deep_view(),
                    k <= later@.len(),
                    goal == cast_on(views_of(edits@), types, k as int),
                decreases later@.len() - k,
            {
                let ghost inner = views_of(edits@);
                let mut xs: Vec<Segment> = Vec::new();
                assert(views_of(xs@) =~= Seq::<SegmentView>::empty());
                push_leaf(&mut xs, SyntaxKind::Code, "cast");
                push_leaf(&mut xs, SyntaxKind::Symbol, "(");
                proof {
                    lemma_views_concat(xs@, edits@);
                }
                xs.append(&mut edits);
                push_leaf(&mut xs, SyntaxKind::Whitespace, " ");
                push_leaf(&mut xs, SyntaxKind::Keyword, "as");
                push_leaf(&mut xs, SyntaxKind::Whitespace, " ");
                push_copy(&mut xs, &later[k]);
                push_leaf(&mut xs, SyntaxKind::Symbol, ")");
                assert(views_of(xs@) =~= seq![
                    new_leaf(SyntaxKind::Code, "cast"@),
                    new_leaf(SyntaxKind::Symbol, "("@),
                ] + inner + seq![
                    new_leaf(SyntaxKind::Whitespace, " "@),
                    new_leaf(SyntaxKind::Keyword, "as"@),
                    new_leaf(SyntaxKind::Whitespace, " "@),
                    types[k as int],
                    new_leaf(SyntaxKind::Symbol, ")"@),
                ]);
                edits = xs;
                k += 1;
            }
            replace_fix(&root, edits)
        },
        None => replace_fix(&root, edits),
    }
}

/// The fix that puts `convert(convert_arg_1, convert_arg_2)` in the place
/// of `root`, converted on to each of `later_types` in turn.
pub fn convert_fix_list(root: Segment, convert_arg_1: Segment, convert_arg_2: Segment, later_types: Option<
    Vec<Segment>,
>) -> (r: Vec<LintFix>)
    ensures
        r.deep_view() == replace_with(
            root.deep_view(),
            match later_types {
                Some(later) => convert_on(
                    convert_edits(convert_arg_1.deep_view(), convert_arg_2.deep_view()),
                    views_of(later@),
                    0,
                ),
                None => convert_edits(convert_arg_1.deep_view(), convert_arg_2.deep_view()),
            },
        ),
{
    let mut edits: Vec<Segment> = Vec::new();
    assert(views_of(edits@) =~= Seq::<SegmentView>::empty());
    push_leaf(&mut edits, SyntaxKind::FunctionNameIdentifier, "convert");
    push_leaf(&mut edits, SyntaxKind::StartBracket, "(");
    push_copy(&mut edits, &convert_arg_1);
    push_leaf(&mut edits, SyntaxKind::Comma, ",");
    push_leaf(&mut edits, SyntaxKind::Whitespace, " ");
    push_copy(&mut edits, &convert_arg_2);
    push_leaf(&mut edits, SyntaxKind::EndBracket, ")");
    assert(views_of(edits@) =~= convert_edits(
        convert_arg_1.deep_view(),
        convert_arg_2.deep_view(),
    ));
    match later_types {
        Some(later) => {
            let ghost types = views_of(later@);
            let ghost goal = convert_on(views_of(edits@), types, 0);
            proof {
                lemma_views_index(later@);
            }
            let mut k: usize = 0;
            while k < later.len()
                invariant
                    types == views_of(later@),
                    types.len() == later@.len(),
                    forall|j: int|
                        0 <= j < later@.len() ==> types[j] == (#[trigger] later@[j]).deep_view(),
                    k <= later@.len(),
                    goal == convert_on(views_of(edits@), types, k as int),
                decreases later@.len() - k,
            {
                let ghost inner = views_of(edits@);
                let mut pre_edits: Vec<Segment> = Vec::new();
                assert(views_of(pre_edits@) =~= Seq::<SegmentView>::empty());
                push_leaf(&mut pre_edits, SyntaxKind::Code, "convert");
                push_leaf(&mut pre_edits, SyntaxKind::Symbol, "(");
                let mut the_type: Vec<Segment> = Vec::new();
                assert(views_of(the_type@) =~= Seq::<SegmentView>::empty());
                push_copy(&mut the_type, &later[k]);
                let mut in_edits: Vec<Segment> = Vec::new();
                assert(views_of(in_edits@) =~= Seq::<SegmentView>::empty());
                push_leaf(&mut in_edits, SyntaxKind::Symbol, ",");
                push_leaf(&mut in_edits, SyntaxKind::Whitespace, " ");
                let mut post_edits: Vec<Segment> = Vec::new();
                assert(views_of(post_edits@) =~= Seq::<SegmentView>::empty());
                push_leaf(&mut post_edits, SyntaxKind::Symbol, ")");
                proof {
                    lemma_views_concat(pre_edits@, the_type@);
                    lemma_views_concat(edits@, post_edits@);
                }
                let head = chain_all(pre_edits, the_type);
                let tail = chain_all(edits, post_edits);
                proof {
                    lemma_views_concat(in_edits@, tail@);
                }
                let rest = chain_all(in_edits, tail);
                proof {
                    lemma_views_concat(head@, rest@);
                }
                edits = chain_all(head, rest);
                assert(views_of(edits@) =~= seq![
                    new_leaf(SyntaxKind::Code, "convert"@),
                    new_leaf(SyntaxKind::Symbol, "("@),
                    types[k as int],
                    new_leaf(SyntaxKind::Symbol, ","@),
                    new_leaf(SyntaxKind::Whitespace, " "@),
                ] + inner + seq![new_leaf(SyntaxKind::Symbol, ")"@)]);
                k += 1;
            }
            replace_fix(&root, edits)
        },
        None => replace_fix(&root, edits),
    }
}

/// No fix.
fn no_fix() -> (r: Vec<LintFix>)
    ensures
        r.deep_view() == Seq::<LintFixView>::empty(),
{
    let out: Vec<LintFix> = Vec::new();
    assert(out.deep_view() =~= Seq::<LintFixView>::empty());
    out
}

/// Copies of the segments from the `from`-th on.
fn rest_of(segments: &Vec<Segment>, from: usize) -> (r: Vec<Segment>)
    requires
        from <= segments@.len(),
    ensures
        views_of(r@) == views_of(segments@).skip(from as int),
{
    proof {
        lemma_views_subrange(segments@, from as int, segments@.len() as int);
        lemma_views_index(segments@);
    }
    let n = segments.len();
    clone_segments(slice_subrange(segments.as_slice(), from, n))
}

impl RuleCV11 {
    /// The rule with the style that the configuration asks for under
    /// `preferred_type_casting_style`. None where nothing stands under
    /// that key, or what stands there is no name of a style.
    pub fn load_from_config(config: &AHashMap<String, String>) -> (r: Option<Self>)
        ensures
            ({
                let entries = entries_in(*config);
                let key = "preferred_type_casting_style"@;
                if entries.contains_key(key) {
                    match style_named(entries[key]) {
                        Some(style) => r matches Some(rule) && rule.preferred_type_casting_style
                            == style,
                        None => r is None,
                    }
                } else {
                    r is None
                }
            }),
    {
        match map_get(config, "preferred_type_casting_style") {
            Some(name) => match TypeCastingStyle::parse(name.as_str()) {
                Some(style) => Some(RuleCV11 { preferred_type_casting_style: style }),
                None => None,
            },
            None => None,
        }
    }

    /// The name of the rule.
    pub fn name(&self) -> (r: &'static str)
        ensures
            r@ == "convention.casting_style"@,
    {
        "convention.casting_style"
    }

    /// What the rule is about.
    pub fn description(&self) -> (r: &'static str)
        ensures
            r@ == "Enforce consistent type casting style."@,
    {
        "Enforce consistent type casting style."
    }

    /// What the rule is about, at length.
    pub fn long_description(&self) -> (r: &'static str)
        ensures
            r@ == LONG_DESCRIPTION@,
    {
        LONG_DESCRIPTION
    }

    /// The groups of the rule.
    pub fn groups(&self) -> (r: Vec<RuleGroups>)
        ensures
            r@ == seq![RuleGroups::All, RuleGroups::Convention],
    {
        vec![RuleGroups::All, RuleGroups::Convention]
    }

    /// Whether the rule proposes fixes.
    pub fn is_fix_compatible(&self) -> (r: bool)
        ensures
            r,
    {
        true
    }

    /// The segments that the rule is given: functions and cast
    /// expressions.
    pub fn crawl_behaviour(&self) -> (r: Crawler)
        ensures
            r.kinds@ == seq![SyntaxKind::Function, SyntaxKind::CastExpression],
    {
        Crawler { kinds: vec![SyntaxKind::Function, SyntaxKind::CastExpression] }
    }

    /// The style of the cast that the segment is.
    fn current_style(segment: &Segment) -> (r: Option<TypeCastingStyle>)
        ensures
            r == style_of(segment.deep_view()),
    {
        if segment.is_type(SyntaxKind::Function) {
            let names = select_kind(segment.segments(), SyntaxKind::FunctionName);
            proof {
                lemma_views_index(names@);
            }
            if names.len() == 0 {
                return None;
            }
            let raw = names[0].raw();
            if crate::engine::text_matches(raw.as_str(), "CAST") {
                Some(TypeCastingStyle::Cast)
            } else if crate::engine::text_matches(raw.as_str(), "CONVERT") {
                Some(TypeCastingStyle::Convert)
            } else {
                Some(TypeCastingStyle::NoCast)
            }
        } else if segment.is_type(SyntaxKind::CastExpression) {
            Some(TypeCastingStyle::Shorthand)
        } else {
            Some(TypeCastingStyle::NoCast)
        }
    }

    /// The parts of a cast written as a function.
    fn call_parts_of(segment: &Segment) -> (r: Vec<Segment>)
        ensures
            views_of(r@) == call_parts(segment.deep_view()),
            views_of(r@).len() == r@.len(),
            forall|j: int| 0 <= j < r@.len() ==> views_of(r@)[j] == (#[trigger] r@[j]).deep_view(),
    {
        let brackets = select_kind(segment.segments(), SyntaxKind::Bracketed);
        let r = get_children(brackets.as_slice());
        proof {
            lemma_views_index(r@);
        }
        r
    }

    /// The parts of a cast written in shorthand.
    fn shorthand_parts_of(segment: &Segment) -> (r: Vec<Segment>)
        ensures
            views_of(r@) == shorthand_parts(segment.deep_view()),
            views_of(r@).len() == r@.len(),
            forall|j: int| 0 <= j < r@.len() ==> views_of(r@)[j] == (#[trigger] r@[j]).deep_view(),
    {
        let one = crate::engine::single(segment.clone_segment());
        let r = get_children(one.as_slice());
        proof {
            lemma_views_index(r@);
        }
        r
    }

    /// The fix that makes a cast of the style `current` one of the style
    /// `wanted`, where the rule asks for a style of its own.
    fn preferred_fix(wanted: TypeCastingStyle, current: TypeCastingStyle, segment: &Segment) -> (r:
        Vec<LintFix>)
        ensures
            r.deep_view() == preferred_fixes(wanted, current, segment.deep_view()),
    {
        match (wanted, current) {
            (TypeCastingStyle::Cast, TypeCastingStyle::Convert) => {
                let call = RuleCV11::call_parts_of(segment);
                if call.len() == 2 {
                    let values = crate::engine::single(call[1].clone_segment());
                    cast_fix_list(
                        segment.clone_segment(),
                        values.as_slice(),
                        call[0].clone_segment(),
                        None,
                    )
                } else {
                    no_fix()
                }
            },
            (TypeCastingStyle::Cast, TypeCastingStyle::Shorthand) => {
                let short = RuleCV11::shorthand_parts_of(segment);
                match position_of_kind(short.as_slice(), SyntaxKind::DataType) {
                    Some(at) => {
                        proof {
                            lemma_views_subrange(short@, 0, at as int);
                        }
                        cast_fix_list(
                            segment.clone_segment(),
                            slice_subrange(short.as_slice(), 0, at),
                            short[at].clone_segment(),
                            Some(rest_of(&short, at + 1)),
                        )
                    },
                    None => no_fix(),
                }
            },
            (TypeCastingStyle::Convert, TypeCastingStyle::Cast) => {
                let call = RuleCV11::call_parts_of(segment);
                if call.len() >= 2 {
                    convert_fix_list(
                        segment.clone_segment(),
                        call[1].clone_segment(),
                        call[0].clone_segment(),
                        None,
                    )
                } else {
                    no_fix()
                }
            },
            (TypeCastingStyle::Convert, TypeCastingStyle::Shorthand) => {
                let short = RuleCV11::shorthand_parts_of(segment);
                if short.len() >= 2 {
                    convert_fix_list(
                        segment.clone_segment(),
                        short[1].clone_segment(),
                        short[0].clone_segment(),
                        Some(rest_of(&short, 2)),
                    )
                } else {
                    no_fix()
                }
            },
            (TypeCastingStyle::Shorthand, TypeCastingStyle::Cast) => {
                let call = RuleCV11::call_parts_of(segment);
                if call.len() == 2 {
                    shorthand_fix_list(
                        segment.clone_segment(),
                        call[0].clone_segment(),
                        call[1].clone_segment(),
                    )
                } else {
                    no_fix()
                }
            },
            (TypeCastingStyle::Shorthand, TypeCastingStyle::Convert) => {
                let call = RuleCV11::call_parts_of(segment);
                if call.len() == 2 {
                    shorthand_fix_list(
                        segment.clone_segment(),
                        call[1].clone_segment(),
                        call[0].clone_segment(),
                    )
                } else {
                    no_fix()
                }
            },
            _ => no_fix(),
        }
    }

    /// The fix that makes a cast of the style `current` one of the style
    /// `prior` that came first.
    fn consistent_fix(prior: TypeCastingStyle, current: TypeCastingStyle, segment: &Segment) -> (r:
        Option<Vec<LintFix>>)
        ensures
            match consistent_fixes(prior, current, segment.deep_view()) {
                Some(fixes) => r matches Some(made) && made.deep_view() == fixes,
                None => r is None,
            },
    {
        match (prior, current) {
            (TypeCastingStyle::Cast, TypeCastingStyle::Convert) => {
                let call = RuleCV11::call_parts_of(segment);
                if call.len() > 2 {
                    None
                } else if call.len() == 2 {
                    let values = crate::engine::single(call[1].clone_segment());
                    Some(
                        cast_fix_list(
                            segment.clone_segment(),
                            values.as_slice(),
                            call[0].clone_segment(),
                            None,
                        ),
                    )
                } else {
                    Some(no_fix())
                }
            },
            (TypeCastingStyle::Cast, TypeCastingStyle::Shorthand) => {
                let short = RuleCV11::shorthand_parts_of(segment);
                if short.len() >= 2 {
                    let values = crate::engine::single(short[0].clone_segment());
                    Some(
                        cast_fix_list(
                            segment.clone_segment(),
                            values.as_slice(),
                            short[1].clone_segment(),
                            Some(rest_of(&short, 2)),
                        ),
                    )
                } else {
                    Some(no_fix())
                }
            },
            (TypeCastingStyle::Convert, TypeCastingStyle::Cast) => {
                let call = RuleCV11::call_parts_of(segment);
                if call.len() > 2 {
                    None
                } else if call.len() == 2 {
                    Some(
                        convert_fix_list(
                            segment.clone_segment(),
                            call[1].clone_segment(),
                            call[0].clone_segment(),
                            None,
                        ),
                    )
                } else {
                    Some(no_fix())
                }
            },
            (TypeCastingStyle::Convert, TypeCastingStyle::Shorthand) => {
                let short = RuleCV11::shorthand_parts_of(segment);
                if short.len() >= 2 {
                    Some(
                        convert_fix_list(
                            segment.clone_segment(),
                            short[1].clone_segment(),
                            short[0].clone_segment(),
                            Some(rest_of(&short, 2)),
                        ),
                    )
                } else {
                    Some(no_fix())
                }
            },
            (TypeCastingStyle::Shorthand, TypeCastingStyle::Cast) => {
                let call = RuleCV11::call_parts_of(segment);
                if call.len() > 2 {
                    None
                } else if call.len() == 2 {
                    Some(
                        shorthand_fix_list(
                            segment.clone_segment(),
                            call[0].clone_segment(),
                            call[1].clone_segment(),
                        ),
                    )
                } else {
                    Some(no_fix())
                }
            },
            (TypeCastingStyle::Shorthand, TypeCastingStyle::Convert) => {
                let call = RuleCV11::call_parts_of(segment);
                if call.len() > 2 {
                    None
                } else if call.len() == 2 {
                    Some(
                        shorthand_fix_list(
                            segment.clone_segment(),
                            call[1].clone_segment(),
                            call[0].clone_segment(),
                        ),
                    )
                } else {
                    Some(no_fix())
                }
            },
            _ => Some(no_fix()),
        }
    }

    /// What the rule finds in the segment of the context, given what it
    /// remembers, which it brings up to date.
    pub fn eval(&self, context: &RuleContext, memory: &mut CastingMemory) -> (r: Vec<LintResult>)
        ensures
            (r.deep_view(), *final(memory)) == casting_findings(
                self.preferred_type_casting_style,
                *old(memory),
                context.segment.deep_view(),
            ),
    {
        let segment = &context.segment;
        let current = match RuleCV11::current_style(segment) {
            Some(style) => style,
            None => {
                return no_result();
            },
        };
        let preferred = self.preferred_type_casting_style;
        if preferred == TypeCastingStyle::Consistent {
            let prior = match memory.prior {
                Some(prior) => prior,
                None => {
                    memory.prior = Some(current);
                    return no_result();
                },
            };
            match RuleCV11::consistent_fix(prior, current, segment) {
                None => {
                    if prior == TypeCastingStyle::Cast {
                        memory.previous_skipped = true;
                    }
                    no_result()
                },
                Some(fixes) => {
                    if prior != current {
                        one_result(
                            LintResult::new(
                                Some(segment.clone_segment()),
                                fixes,
                                Some(INCONSISTENT_MESSAGE.to_owned()),
                            ),
                        )
                    } else {
                        no_result()
                    }
                },
            }
        } else if current != preferred {
            let fixes = RuleCV11::preferred_fix(preferred, current, segment);
            one_result(
                LintResult::new(
                    Some(segment.clone_segment()),
                    fixes,
                    Some(PREFERRED_MESSAGE.to_owned()),
                ),
            )
        } else {
            no_result()
        }
    }
}

} // verus!
