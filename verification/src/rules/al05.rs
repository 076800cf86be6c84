//! The rule that finds a table alias which nothing refers to.

use crate::dialect::DialectKind;
use crate::lint::{LintFix, LintFixView, LintResult, LintResultView};
use crate::rules::{
    first_of_kind, no_result, of_kind, position_of_kind, select_kind, Crawler, RuleContext,
    RuleGroups,
};
use crate::segments::{
    clone_segments, lemma_views_concat, lemma_views_index, lemma_views_push, views_of, Segment,
    SegmentView,
};
use crate::smol::{smol_as_str, smol_new, smol_text};
use crate::syntax::SyntaxKind;
use crate::text::{join_text, same_text};
use smol_str::SmolStr;
use ahash::AHashMap;
use vstd::prelude::*;
use vstd::string::*;

verus! {

/// What is known of a table in a `FROM`: the name it is referred to by,
/// the segment of that name, whether the name is an alias, the element of
/// the `FROM` that it stands in, and the alias expression, if it has one.
#[derive(Debug)]
pub struct AliasInfo {
    pub ref_str: SmolStr,
    pub segment: Option<Segment>,
    pub aliased: bool,
    pub from_expression_element: Segment,
    pub alias_expression: Option<Segment>,
}

/// The model of an `AliasInfo`.
pub struct AliasInfoView {
    pub ref_str: Seq<char>,
    pub segment: Option<SegmentView>,
    pub aliased: bool,
    pub from_expression_element: SegmentView,
    pub alias_expression: Option<SegmentView>,
}

/// The model of an optional segment.
pub open spec fn optional_segment_view(segment: Option<Segment>) -> Option<SegmentView> {
    match segment {
        Some(s) => Some(s.deep_view()),
        None => None,
    }
}

impl DeepView for AliasInfo {
    type V = AliasInfoView;

    open spec fn deep_view(&self) -> AliasInfoView {
        AliasInfoView {
            ref_str: smol_text(self.ref_str),
            segment: optional_segment_view(self.segment),
            aliased: self.aliased,
            from_expression_element: self.from_expression_element.deep_view(),
            alias_expression: optional_segment_view(self.alias_expression),
        }
    }
}

fn clone_optional(segment: &Option<Segment>) -> (r: Option<Segment>)
    ensures
        optional_segment_view(r) == optional_segment_view(*segment),
{
    match segment {
        Some(s) => Some(s.clone_segment()),
        None => None,
    }
}

impl AliasInfo {
    /// A copy of the alias.
    pub fn clone_alias(&self) -> (r: Self)
        ensures
            r.deep_view() == self.deep_view(),
    {
        AliasInfo {
            ref_str: smol_new(smol_as_str(&self.ref_str)),
            segment: clone_optional(&self.segment),
            aliased: self.aliased,
            from_expression_element: self.from_expression_element.clone_segment(),
            alias_expression: clone_optional(&self.alias_expression),
        }
    }
}

/// What the rule gathers for one query: the tables of its `FROM`s, and the
/// names by which its expressions, and those of the queries within it,
/// refer to them.
#[derive(Debug)]
pub struct AL05Query {
    pub aliases: Vec<AliasInfo>,
    pub tbl_refs: Vec<SmolStr>,
}

/// The model of an `AL05Query`.
pub struct AL05QueryView {
    pub aliases: Seq<AliasInfoView>,
    pub tbl_refs: Seq<Seq<char>>,
}

/// The texts of the small strings.
pub open spec fn smol_texts(strings: Seq<SmolStr>) -> Seq<Seq<char>> {
    Seq::new(strings.len(), |i: int| smol_text(strings[i]))
}

impl DeepView for AL05Query {
    type V = AL05QueryView;

    open spec fn deep_view(&self) -> AL05QueryView {
        AL05QueryView { aliases: self.aliases.deep_view(), tbl_refs: smol_texts(self.tbl_refs@) }
    }
}

/// One `SELECT` of a query: the tables of its `FROM`, and the table names
/// that its references may refer to.
#[derive(Debug)]
pub struct Selectable {
    pub table_aliases: Vec<AliasInfo>,
    pub references: Vec<String>,
}

/// The model of a `Selectable`.
pub struct SelectableView {
    pub table_aliases: Seq<AliasInfoView>,
    pub references: Seq<Seq<char>>,
}

impl DeepView for Selectable {
    type V = SelectableView;

    open spec fn deep_view(&self) -> SelectableView {
        SelectableView {
            table_aliases: self.table_aliases.deep_view(),
            references: Seq::new(self.references@.len(), |i: int| self.references@[i]@),
        }
    }
}

/// The queries with the tables `more` added to those of the innermost.
pub open spec fn with_aliases(chain: Seq<AL05QueryView>, more: Seq<AliasInfoView>) -> Seq<
    AL05QueryView,
> {
    if chain.len() == 0 {
        chain
    } else {
        chain.update(
            chain.len() - 1,
            AL05QueryView { aliases: chain.last().aliases + more, ..chain.last() },
        )
    }
}

/// The queries after each of the references, from the `j`-th on, was
/// marked in turn.
pub open spec fn references_marked(chain: Seq<AL05QueryView>, references: Seq<Seq<char>>, j: int) -> Seq<
    AL05QueryView,
>
    decreases references.len() - j,
{
    if j < 0 || j >= references.len() {
        chain
    } else {
        references_marked(
            reference_marked(chain, references[j], chain.len() as int),
            references,
            j + 1,
        )
    }
}

/// The queries after each of the `SELECT`s, from the `i`-th on, was taken
/// in: its tables added to those of the innermost query, then its
/// references marked.
pub open spec fn selectables_taken(
    chain: Seq<AL05QueryView>,
    selectables: Seq<SelectableView>,
    i: int,
) -> Seq<AL05QueryView>
    decreases selectables.len() - i,
{
    if i < 0 || i >= selectables.len() {
        chain
    } else {
        selectables_taken(
            references_marked(
                with_aliases(chain, selectables[i].table_aliases),
                selectables[i].references,
                0,
            ),
            selectables,
            i + 1,
        )
    }
}

/// What the rule is about, at length.
pub const LONG_DESCRIPTION: &'static str = r#"
**Anti-pattern**

In this example, alias `zoo` is not used.

```sql
SELECT
    a
FROM foo AS zoo
```

**Best practice**

Use the alias or remove it. An unused alias makes code harder to read without changing any functionality.

```sql
SELECT
    zoo.a
FROM foo AS zoo

-- Alternatively...

SELECT
    a
FROM foo
```
"#;

/// The rule: an alias of a table that nothing refers to.
#[derive(Debug, Default, Clone)]
pub struct RuleAL05;

/// The children of a segment, with each child of kind `kind` replaced by
/// its own children.
pub open spec fn expanded_children(children: Seq<SegmentView>, kind: SyntaxKind) -> Seq<SegmentView>
    decreases children.len(),
{
    if children.len() == 0 {
        seq![]
    } else if children.last().kind() == kind {
        expanded_children(children.drop_last(), kind) + children.last().children()
    } else {
        expanded_children(children.drop_last(), kind).push(children.last())
    }
}

/// Whether a segment of the kind is a query of its own.
pub open spec fn is_query_kind(kind: SyntaxKind) -> bool {
    kind == SyntaxKind::SelectStatement || kind == SyntaxKind::SetExpression || kind
        == SyntaxKind::WithCompoundStatement
}

/// Whether one of the segments is a query of its own.
pub open spec fn any_query(segments: Seq<SegmentView>) -> bool
    decreases segments.len(),
{
    if segments.len() == 0 {
        false
    } else {
        any_query(segments.drop_last()) || is_query_kind(segments.last().kind())
    }
}

/// Whether the table of an element of a `FROM` must have an alias: its
/// first table expression, in brackets or not, is a query of its own, or
/// is a `VALUES` clause in the Snowflake dialect.
pub open spec fn alias_required(from_expression_element: SegmentView, dialect: DialectKind) -> bool {
    let parts = expanded_children(from_expression_element.children(), SyntaxKind::Bracketed);
    match first_of_kind(parts, SyntaxKind::TableExpression, 0) {
        Some(at) => {
            let table = parts[at];
            if of_kind(table.children(), SyntaxKind::ValuesClause).len() > 0 {
                dialect == DialectKind::Snowflake
            } else {
                any_query(expanded_children(table.children(), SyntaxKind::Bracketed))
            }
        },
        None => false,
    }
}

/// The index of the last of the first `upto` of `segments` that is
/// `target`.
pub open spec fn last_index_of(segments: Seq<SegmentView>, target: SegmentView, upto: int) -> Option<
    int,
>
    decreases upto,
{
    if upto <= 0 || upto > segments.len() {
        None
    } else if segments[upto - 1] == target {
        Some(upto - 1)
    } else {
        last_index_of(segments, target, upto - 1)
    }
}

/// The fixes that delete the run of spacing and markers that ends at the
/// `i`-th segment, from its end backwards.
pub open spec fn delete_blanks_back(segments: Seq<SegmentView>, i: int) -> Seq<LintFixView>
    decreases i + 1,
{
    if i < 0 || i >= segments.len() {
        seq![]
    } else if segments[i].kind().is_whitespace() || segments[i].kind().is_meta() {
        seq![LintFixView::Delete { anchor: segments[i] }] + delete_blanks_back(segments, i - 1)
    } else {
        seq![]
    }
}

/// What the rule reports for an alias that nothing refers to: the alias
/// expression is to be deleted, with the spacing and markers before it.
/// None for an alias without an alias expression.
pub open spec fn unused_alias_report(alias: AliasInfoView) -> Option<LintResultView> {
    match alias.alias_expression {
        Some(expression) => {
            let children = alias.from_expression_element.children();
            let from = match last_index_of(children, expression, children.len() as int) {
                Some(at) => at - 1,
                None => children.len() - 1,
            };
            Some(
                LintResultView {
                    anchor: alias.segment,
                    fixes: seq![LintFixView::Delete { anchor: expression }] + delete_blanks_back(
                        children,
                        from,
                    ),
                    description: Some(
                        "Alias '"@ + alias.ref_str + "' is never used in SELECT statement."@,
                    ),
                },
            )
        },
        None => None,
    }
}

/// The index of the first of `texts`, at or after `from`, that is `text`.
pub open spec fn text_index(texts: Seq<Seq<char>>, text: Seq<char>, from: int) -> Option<int>
    decreases texts.len() - from,
{
    if from < 0 || from >= texts.len() {
        None
    } else if texts[from] == text {
        Some(from)
    } else {
        text_index(texts, text, from + 1)
    }
}

/// What the rule finds among the first `upto` aliases of a query: a
/// report for each that is an alias, need not be one, has an alias
/// expression, and is not among the names referred to.
pub open spec fn unused_aliases(query: AL05QueryView, dialect: DialectKind, upto: int) -> Seq<
    LintResultView,
>
    decreases upto,
{
    if upto <= 0 || upto > query.aliases.len() {
        seq![]
    } else {
        let before = unused_aliases(query, dialect, upto - 1);
        let alias = query.aliases[upto - 1];
        if !alias_required(alias.from_expression_element, dialect) && alias.aliased && text_index(
            query.tbl_refs,
            alias.ref_str,
            0,
        ) is None && unused_alias_report(alias) is Some {
            before.push(unused_alias_report(alias).unwrap())
        } else {
            before
        }
    }
}

/// The index of the first alias, at or after `from`, that goes by the name
/// `name`.
pub open spec fn alias_index(aliases: Seq<AliasInfoView>, name: Seq<char>, from: int) -> Option<int>
    decreases aliases.len() - from,
{
    if from < 0 || from >= aliases.len() {
        None
    } else if aliases[from].ref_str == name {
        Some(from)
    } else {
        alias_index(aliases, name, from + 1)
    }
}

/// The queries after a reference to `name` was marked: the innermost of
/// the first `upto` queries that has a table of that name gets the name
/// among the names referred to. The queries stand from the outermost to
/// the innermost.
pub open spec fn reference_marked(chain: Seq<AL05QueryView>, name: Seq<char>, upto: int) -> Seq<
    AL05QueryView,
>
    decreases upto,
{
    if upto <= 0 || upto > chain.len() {
        chain
    } else if alias_index(chain[upto - 1].aliases, name, 0) is Some {
        chain.update(
            upto - 1,
            AL05QueryView { tbl_refs: chain[upto - 1].tbl_refs.push(name), ..chain[upto - 1] },
        )
    } else {
        reference_marked(chain, name, upto - 1)
    }
}

/// Copies of the children of a segment, with each child of kind `kind`
/// replaced by copies of its own children.
pub fn iter_segments(segment: &Segment, kind: SyntaxKind) -> (r: Vec<Segment>)
    ensures
        views_of(r@) == expanded_children(segment.deep_view().children(), kind),
{
    let children = segment.segments();
    let ghost views = views_of(children@);
    proof {
        lemma_views_index(children@);
        assert(views.take(0) =~= Seq::<SegmentView>::empty());
    }
    let mut out: Vec<Segment> = Vec::new();
    assert(views_of(out@) =~= Seq::<SegmentView>::empty());
    let mut i: usize = 0;
    while i < children.len()
        invariant
            views == views_of(children@),
            views.len() == children@.len(),
            forall|j: int|
                0 <= j < children@.len() ==> views[j] == (#[trigger] children@[j]).deep_view(),
            i <= children@.len(),
            views_of(out@) == expanded_children(views.take(i as int), kind),
        decreases children@.len() - i,
    {
        proof {
            assert(views.take(i + 1).drop_last() =~= views.take(i as int));
            assert(views.take(i + 1).last() == views[i as int]);
        }
        if children[i].is_type(kind) {
            let mut inner = clone_segments(children[i].segments());
            proof {
                lemma_views_concat(out@, inner@);
            }
            out.append(&mut inner);
        } else {
            let copy = children[i].clone_segment();
            proof {
                lemma_views_push(out@, copy);
            }
            out.push(copy);
        }
        i += 1;
    }
    assert(views.take(i as int) =~= views);
    out
}

/// Whether one of the segments is a query of its own.
fn any_query_in(segments: &[Segment]) -> (r: bool)
    ensures
        r == any_query(views_of(segments@)),
{
    let ghost views = views_of(segments@);
    proof {
        lemma_views_index(segments@);
        assert(views.take(0) =~= Seq::<SegmentView>::empty());
    }
    let mut found = false;
    let mut i: usize = 0;
    while i < segments.len()
        invariant
            views == views_of(segments@),
            views.len() == segments@.len(),
            forall|j: int|
                0 <= j < segments@.len() ==> views[j] == (#[trigger] segments@[j]).deep_view(),
            i <= segments@.len(),
            found == any_query(views.take(i as int)),
        decreases segments@.len() - i,
    {
        proof {
            assert(views.take(i + 1).drop_last() =~= views.take(i as int));
            assert(views.take(i + 1).last() == views[i as int]);
        }
        let kind = segments[i].get_type();
        if kind == SyntaxKind::SelectStatement || kind == SyntaxKind::SetExpression || kind
            == SyntaxKind::WithCompoundStatement {
            found = true;
        }
        i += 1;
    }
    assert(views.take(i as int) =~= views);
    found
}

/// Whether one of the texts is `text`.
fn holds_text(texts: &Vec<SmolStr>, text: &str) -> (r: bool)
    ensures
        r == text_index(smol_texts(texts@), text@, 0) is Some,
{
    let ghost views = smol_texts(texts@);
    let mut i: usize = 0;
    while i < texts.len()
        invariant
            views == smol_texts(texts@),
            i <= texts@.len(),
            text_index(views, text@, 0) == text_index(views, text@, i as int),
        decreases texts@.len() - i,
    {
        if same_text(smol_as_str(&texts[i]), text) {
            return true;
        }
        i += 1;
    }
    false
}

/// Whether one of the aliases goes by the name `name`.
fn has_alias(aliases: &Vec<AliasInfo>, name: &str) -> (r: bool)
    ensures
        r == alias_index(aliases.deep_view(), name@, 0) is Some,
{
    let ghost views = aliases.deep_view();
    let mut i: usize = 0;
    while i < aliases.len()
        invariant
            views == aliases.deep_view(),
            i <= aliases@.len(),
            alias_index(views, name@, 0) == alias_index(views, name@, i as int),
        decreases aliases@.len() - i,
    {
        assert(views[i as int] == aliases@[i as int].deep_view());
        if same_text(smol_as_str(&aliases[i].ref_str), name) {
            return true;
        }
        i += 1;
    }
    false
}

/// The index of the last of the segments that is `target`.
fn last_position_of(segments: &[Segment], target: &Segment) -> (r: Option<usize>)
    ensures
        r is Some <==> last_index_of(views_of(segments@), target.deep_view(), segments@.len() as int)
            is Some,
        r matches Some(i) ==> i < segments@.len() && last_index_of(
            views_of(segments@),
            target.deep_view(),
            segments@.len() as int,
        ) == Some(i as int),
{
    let ghost views = views_of(segments@);
    proof {
        lemma_views_index(segments@);
    }
    let n = segments.len();
    let mut upto: usize = n;
    while upto > 0
        invariant
            n == segments@.len(),
            views == views_of(segments@),
            views.len() == n,
            forall|j: int| 0 <= j < n ==> views[j] == (#[trigger] segments@[j]).deep_view(),
            upto <= n,
            last_index_of(views, target.deep_view(), n as int) == last_index_of(
                views,
                target.deep_view(),
                upto as int,
            ),
        decreases upto,
    {
        if segments[upto - 1].same(target) {
            return Some(upto - 1);
        }
        upto -= 1;
    }
    None
}

/// Puts behind `fixes` the fixes that delete the run of spacing and
/// markers that ends just before the `at`-th segment.
fn push_blank_deletes(segments: &[Segment], at: usize, fixes: &mut Vec<LintFix>)
    requires
        at <= segments@.len(),
    ensures
        final(fixes).deep_view() == old(fixes).deep_view() + delete_blanks_back(
            views_of(segments@),
            at - 1,
        ),
{
    let ghost views = views_of(segments@);
    let ghost first = fixes.deep_view();
    let ghost goal = first + delete_blanks_back(views, at - 1);
    proof {
        lemma_views_index(segments@);
    }
    let n = segments.len();
    let mut k: usize = at;
    loop
        invariant
            n == segments@.len(),
            views == views_of(segments@),
            views.len() == n,
            forall|j: int| 0 <= j < n ==> views[j] == (#[trigger] segments@[j]).deep_view(),
            k <= at <= n,
            first == old(fixes).deep_view(),
            goal == first + delete_blanks_back(views, at - 1),
            goal == fixes.deep_view() + delete_blanks_back(views, k - 1),
        decreases k,
    {
        let ghost before = fixes.deep_view();
        if k == 0 {
            assert(before + delete_blanks_back(views, -1) =~= before);
            return ;
        }
        let child = &segments[k - 1];
        if !(child.is_whitespace() || child.is_meta()) {
            assert(before + delete_blanks_back(views, k - 1) =~= before);
            return ;
        }
        fixes.push(LintFix::delete(child.clone_segment()));
        proof {
            let one = LintFixView::Delete { anchor: views[k - 1] };
            assert(fixes.deep_view() =~= before.push(one));
            assert(before + (seq![one] + delete_blanks_back(views, k - 2)) =~= before.push(one)
                + delete_blanks_back(views, k - 2));
        }
        k -= 1;
    }
}

/// Adds the tables `more` to those of the innermost of the queries.
fn add_aliases(chain: &mut Vec<AL05Query>, more: &Vec<AliasInfo>)
    ensures
        final(chain).deep_view() == with_aliases(old(chain).deep_view(), more.deep_view()),
{
    let ghost before = chain.deep_view();
    let n = chain.len();
    if n == 0 {
        return ;
    }
    assert(before[n - 1] == chain@[n - 1].deep_view());
    let mut current = chain.remove(n - 1);
    let ghost start = current.aliases.deep_view();
    let mut k: usize = 0;
    assert(more.deep_view().take(0) =~= Seq::<AliasInfoView>::empty());
    assert(start + more.deep_view().take(0) =~= start);
    while k < more.len()
        invariant
            k <= more@.len(),
            current.tbl_refs == old(chain)@[n - 1].tbl_refs,
            current.aliases.deep_view() == start + more.deep_view().take(k as int),
        decreases more@.len() - k,
    {
        let ghost made = current.aliases.deep_view();
        current.aliases.push(more[k].clone_alias());
        assert(current.aliases.deep_view() =~= made.push(more@[k as int].deep_view()));
        assert(more.deep_view().take(k + 1) =~= more.deep_view().take(k as int).push(
            more@[k as int].deep_view(),
        ));
        assert(start + more.deep_view().take(k as int).push(more@[k as int].deep_view()) =~= (start
            + more.deep_view().take(k as int)).push(more@[k as int].deep_view()));
        k += 1;
    }
    assert(more.deep_view().take(k as int) =~= more.deep_view());
    let ghost view = current.deep_view();
    chain.push(current);
    assert(chain.deep_view() =~= before.update(n - 1, view));
}

/// Marks each of the references in turn.
fn mark_references(chain: &mut Vec<AL05Query>, references: &Vec<String>)
    ensures
        final(chain).deep_view() == references_marked(
            old(chain).deep_view(),
            Seq::new(references@.len(), |i: int| references@[i]@),
            0,
        ),
{
    let ghost texts = Seq::new(references@.len(), |i: int| references@[i]@);
    let ghost goal = references_marked(chain.deep_view(), texts, 0);
    let mut j: usize = 0;
    while j < references.len()
        invariant
            texts == Seq::new(references@.len(), |i: int| references@[i]@),
            j <= references@.len(),
            goal == references_marked(chain.deep_view(), texts, j as int),
        decreases references@.len() - j,
    {
        let reference = references[j].clone();
        assert(chain.deep_view().len() == chain@.len());
        RuleAL05::resolve_and_mark_reference(chain, reference);
        j += 1;
    }
}

impl RuleAL05 {
    /// The name of the rule.
    pub fn name(&self) -> (r: &'static str)
        ensures
            r@ == "aliasing.unused"@,
    {
        "aliasing.unused"
    }

    /// What the rule is about.
    pub fn description(&self) -> (r: &'static str)
        ensures
            r@ == "Tables should not be aliased if that alias is not used."@,
    {
        "Tables should not be aliased if that alias is not used."
    }

    /// What the rule is about, at length.
    pub fn long_description(&self) -> (r: &'static str)
        ensures
            r@ == LONG_DESCRIPTION@,
    {
        LONG_DESCRIPTION
    }

    /// The rule, which takes nothing from the configuration.
    pub fn load_from_config(_config: &AHashMap<String, String>) -> (r: Self)
        ensures
            r == RuleAL05,
    {
        RuleAL05
    }

    /// The groups of the rule.
    pub fn groups(&self) -> (r: Vec<RuleGroups>)
        ensures
            r@ == seq![RuleGroups::All, RuleGroups::Core, RuleGroups::Aliasing],
    {
        vec![RuleGroups::All, RuleGroups::Core, RuleGroups::Aliasing]
    }

    /// Whether the rule proposes fixes.
    pub fn is_fix_compatible(&self) -> (r: bool)
        ensures
            r,
    {
        true
    }

    /// The segments that the rule is given: `SELECT` statements.
    pub fn crawl_behaviour(&self) -> (r: Crawler)
        ensures
            r.kinds@ == seq![SyntaxKind::SelectStatement],
    {
        Crawler { kinds: vec![SyntaxKind::SelectStatement] }
    }

    /// Whether the table of an element of a `FROM` must have an alias.
    pub fn is_alias_required(from_expression_element: &Segment, dialect_name: DialectKind) -> (r:
        bool)
        ensures
            r == alias_required(from_expression_element.deep_view(), dialect_name),
    {
        let parts = iter_segments(from_expression_element, SyntaxKind::Bracketed);
        proof {
            lemma_views_index(parts@);
        }
        match position_of_kind(parts.as_slice(), SyntaxKind::TableExpression) {
            Some(at) => {
                let table = &parts[at];
                let values = select_kind(table.segments(), SyntaxKind::ValuesClause);
                proof {
                    lemma_views_index(values@);
                }
                if values.len() > 0 {
                    dialect_name == DialectKind::Snowflake
                } else {
                    let inner = iter_segments(table, SyntaxKind::Bracketed);
                    any_query_in(inner.as_slice())
                }
            },
            None => false,
        }
    }

    /// What the rule reports for an alias that nothing refers to. None for
    /// an alias without an alias expression.
    pub fn report_unused_alias(&self, alias: AliasInfo) -> (r: Option<LintResult>)
        ensures
            match unused_alias_report(alias.deep_view()) {
                Some(report) => r matches Some(result) && result.deep_view() == report,
                None => r is None,
            },
    {
        let expression = match &alias.alias_expression {
            Some(expression) => expression,
            None => {
                return None;
            },
        };
        let children = alias.from_expression_element.segments();
        let n = children.len();
        let at = match last_position_of(children, expression) {
            Some(at) => at,
            None => n,
        };
        let mut fixes: Vec<LintFix> = Vec::new();
        fixes.push(LintFix::delete(expression.clone_segment()));
        assert(fixes.deep_view() =~= seq![LintFixView::Delete { anchor: expression.deep_view() }]);
        proof {
            lemma_views_index(children@);
        }
        push_blank_deletes(children, at, &mut fixes);
        let name = smol_as_str(&alias.ref_str);
        let description = join_text(
            join_text("Alias '", name).as_str(),
            "' is never used in SELECT statement.",
        );
        Some(LintResult::new(clone_optional(&alias.segment), fixes, Some(description)))
    }

    /// Marks a reference to the table name `reference`: the innermost of
    /// the queries that has a table of that name gets the name among the
    /// names referred to. The queries stand from the outermost to the
    /// innermost.
    pub fn resolve_and_mark_reference(chain: &mut Vec<AL05Query>, reference: String)
        ensures
            final(chain).deep_view() == reference_marked(
                old(chain).deep_view(),
                reference@,
                old(chain)@.len() as int,
            ),
    {
        let ghost before = chain.deep_view();
        let mut upto: usize = chain.len();
        while upto > 0
            invariant
                *chain == *old(chain),
                before == chain.deep_view(),
                upto <= chain@.len(),
                reference_marked(before, reference@, chain@.len() as int) == reference_marked(
                    before,
                    reference@,
                    upto as int,
                ),
            decreases upto,
        {
            assert(before[upto - 1] == chain@[upto - 1].deep_view());
            if has_alias(&chain[upto - 1].aliases, reference.as_str()) {
                let ghost refs = smol_texts(chain@[upto - 1].tbl_refs@);
                let marked = smol_new(reference.as_str());
                let mut query = chain.remove(upto - 1);
                query.tbl_refs.push(marked);
                assert(smol_texts(query.tbl_refs@) =~= refs.push(reference@));
                let ghost view = query.deep_view();
                chain.insert(upto - 1, query);
                assert(chain.deep_view() =~= before.update(upto - 1, view));
                return ;
            }
            upto -= 1;
        }
    }

    /// Takes the `SELECT`s of the innermost of the queries in, one after
    /// the other: the tables of each are added to those of the query, and
    /// each of its references is marked.
    pub fn analyze_table_aliases(chain: &mut Vec<AL05Query>, selectables: Vec<Selectable>)
        ensures
            final(chain).deep_view() == selectables_taken(
                old(chain).deep_view(),
                selectables.deep_view(),
                0,
            ),
    {
        let ghost goal = selectables_taken(chain.deep_view(), selectables.deep_view(), 0);
        let ghost views = selectables.deep_view();
        let mut i: usize = 0;
        while i < selectables.len()
            invariant
                views == selectables.deep_view(),
                i <= selectables@.len(),
                goal == selectables_taken(chain.deep_view(), views, i as int),
            decreases selectables@.len() - i,
        {
            assert(views[i as int] == selectables@[i as int].deep_view());
            add_aliases(chain, &selectables[i].table_aliases);
            mark_references(chain, &selectables[i].references);
            i += 1;
        }
    }

    /// What the rule finds in a query that was analysed: a report for each
    /// alias that is not needed and that nothing refers to.
    pub fn eval(&self, context: &RuleContext, query: &AL05Query) -> (r: Vec<LintResult>)
        ensures
            r.deep_view() == unused_aliases(
                query.deep_view(),
                context.dialect,
                query.aliases@.len() as int,
            ),
    {
        let ghost view = query.deep_view();
        let mut violations = no_result();
        let mut i: usize = 0;
        while i < query.aliases.len()
            invariant
                view == query.deep_view(),
                i <= query.aliases@.len(),
                violations.deep_view() == unused_aliases(view, context.dialect, i as int),
            decreases query.aliases@.len() - i,
        {
            let alias = &query.aliases[i];
            assert(view.aliases[i as int] == alias.deep_view());
            let ghost before = violations.deep_view();
            if !RuleAL05::is_alias_required(&alias.from_expression_element, context.dialect)
                && alias.aliased && !holds_text(&query.tbl_refs, smol_as_str(&alias.ref_str)) {
                match self.report_unused_alias(alias.clone_alias()) {
                    Some(violation) => {
                        violations.push(violation);
                        assert(violations.deep_view() =~= before.push(
                            unused_alias_report(alias.deep_view()).unwrap(),
                        ));
                    },
                    None => {},
                }
            }
            i += 1;
        }
        violations
    }
}

} // verus!
