use sqruff_lib::config::FluffConfig;
use sqruff_lib::dialect::{Dialect, DialectKind};
use sqruff_lib::lint::{LintFix, LintResult};
use sqruff_lib::markers::PositionMarker;
use sqruff_lib::reflow::{
    has_kind, same_element, DepthMap, Filter, PointWithConstraints, ReflowElement, ReflowPoint,
    ReflowSequence,
};
use sqruff_lib::segments::Segment;
use sqruff_lib::syntax::SyntaxKind;

fn leaf(kind: SyntaxKind, raw: &str, at: usize) -> Segment {
    Segment::Leaf {
        kind,
        raw: raw.to_string(),
        position: Some(PositionMarker::new(at..at + raw.len(), at..at + raw.len())),
    }
}

fn node(kind: SyntaxKind, children: Vec<Segment>) -> Segment {
    Segment::node_over(kind, children)
}

/// `select a ,b from t`
fn tree() -> Segment {
    node(
        SyntaxKind::File,
        vec![node(
            SyntaxKind::SelectStatement,
            vec![
                leaf(SyntaxKind::Keyword, "select", 0),
                leaf(SyntaxKind::Whitespace, " ", 6),
                node(SyntaxKind::ColumnReference, vec![leaf(SyntaxKind::NakedIdentifier, "a", 7)]),
                leaf(SyntaxKind::Whitespace, " ", 8),
                leaf(SyntaxKind::Comma, ",", 9),
                node(SyntaxKind::ColumnReference, vec![leaf(SyntaxKind::NakedIdentifier, "b", 10)]),
                leaf(SyntaxKind::Whitespace, " ", 11),
                node(
                    SyntaxKind::FromClause,
                    vec![
                        leaf(SyntaxKind::Keyword, "from", 12),
                        leaf(SyntaxKind::Whitespace, " ", 16),
                        leaf(SyntaxKind::NakedIdentifier, "t", 17),
                    ],
                ),
            ],
        )],
    )
}

fn config() -> FluffConfig {
    FluffConfig::new(Dialect::new(DialectKind::Ansi))
}

fn shape(sequence: &ReflowSequence) -> Vec<String> {
    sequence
        .elements()
        .iter()
        .map(|e| match e {
            ReflowElement::Block(b) => format!(
                "B:{}/{}",
                b.segments.iter().map(|s| s.raw()).collect::<String>(),
                b.depth_info.as_ref().map(|d| d.stack_kinds.len() as i64).unwrap_or(-1)
            ),
            ReflowElement::Point(p) => {
                format!("P:{}", p.segments.iter().map(|s| s.raw()).collect::<String>())
            }
        })
        .collect()
}

#[test]
fn sequence_from_root() {
    let sequence = ReflowSequence::from_root(tree(), &config());
    assert_eq!(
        shape(&sequence),
        vec![
            "B:select/2", "P: ", "B:a/3", "P: ", "B:,/2", "P:", "B:b/3", "P: ", "B:from/3", "P: ",
            "B:t/3"
        ]
    );
    assert_eq!(sequence.raw(), "select a ,b from t");
    assert!(sequence.results().is_empty());
}

#[test]
fn sequence_of_spacing_at_the_ends() {
    let raws = vec![
        leaf(SyntaxKind::Whitespace, " ", 0),
        leaf(SyntaxKind::Newline, "\n", 1),
        leaf(SyntaxKind::Keyword, "select", 2),
        leaf(SyntaxKind::Whitespace, " ", 8),
    ];
    let root = node(SyntaxKind::File, raws.clone());
    let sequence = ReflowSequence::from_raw_segments(raws, root, &config(), None);
    assert_eq!(shape(&sequence), vec!["P: \n", "B:select/1", "P: "]);
    assert_eq!(
        sequence.iter_points_with_constraints(),
        vec![
            PointWithConstraints { point: 0, pre: None, post: Some(1) },
            PointWithConstraints { point: 2, pre: Some(1), post: None },
        ]
    );
    let empty = ReflowSequence::from_raw_segments(vec![], tree(), &config(), None);
    assert!(empty.elements().is_empty());
    assert_eq!(empty.raw(), "");
}

#[test]
fn sequence_around_a_target() {
    let root = tree();
    let comma = leaf(SyntaxKind::Comma, ",", 9);
    let both = ReflowSequence::from_around_target(&comma, root.clone(), "both", &config());
    assert_eq!(shape(&both), vec!["B:a/3", "P: ", "B:,/2", "P:", "B:b/3"]);
    let before = ReflowSequence::from_around_target(&comma, root.clone(), "before", &config());
    assert_eq!(shape(&before), vec!["B:a/3", "P: ", "B:,/2"]);
    let after = ReflowSequence::from_around_target(&comma, root.clone(), "after", &config());
    assert_eq!(shape(&after), vec!["B:,/2", "P:", "B:b/3"]);
    let only = ReflowSequence::from_around_target(&comma, root.clone(), "neither", &config());
    assert_eq!(shape(&only), vec!["B:,/2"]);
    // A target at the start has nothing before it.
    let select = leaf(SyntaxKind::Keyword, "select", 0);
    assert!(ReflowSequence::try_from_around_target(&select, root.clone(), "before", &config()).is_none());
    // A target at the end has nothing behind it.
    let t = leaf(SyntaxKind::NakedIdentifier, "t", 17);
    assert!(ReflowSequence::try_from_around_target(&t, root.clone(), "after", &config()).is_none());
    // A target that is not in the tree.
    let other = leaf(SyntaxKind::NakedIdentifier, "x", 99);
    assert!(ReflowSequence::try_from_around_target(&other, root.clone(), "both", &config()).is_none());
    // A whole clause as the target.
    let from = node(
        SyntaxKind::FromClause,
        vec![
            leaf(SyntaxKind::Keyword, "from", 12),
            leaf(SyntaxKind::Whitespace, " ", 16),
            leaf(SyntaxKind::NakedIdentifier, "t", 17),
        ],
    );
    let clause = ReflowSequence::from_around_target(&from, root, "before", &config());
    assert_eq!(shape(&clause), vec!["B:b/3", "P: ", "B:from/3", "P: ", "B:t/3"]);
}

#[test]
fn insert_before_a_target() {
    let sequence = ReflowSequence::from_root(tree(), &config());
    let target = leaf(SyntaxKind::Keyword, "from", 12);
    let insertion = Segment::Leaf { kind: SyntaxKind::Comma, raw: ",".to_string(), position: None };
    assert_eq!(sequence.find_element_idx_with(&target), Some(8));
    let after = sequence.insert(insertion.clone(), target.clone(), "before");
    assert_eq!(
        shape(&after),
        vec![
            "B:select/2", "P: ", "B:a/3", "P: ", "B:,/2", "P:", "B:b/3", "P: ", "B:,/3", "P:",
            "B:from/3", "P: ", "B:t/3"
        ]
    );
    let fixes = after.fixes();
    assert_eq!(fixes.len(), 1);
    match &fixes[0] {
        LintFix::CreateBefore { anchor, edit } => {
            assert!(anchor.same(&target));
            assert_eq!(edit.len(), 1);
            assert!(edit[0].same(&insertion));
        }
        _ => panic!("a fix that creates was expected"),
    }
    let sequence = ReflowSequence::from_root(tree(), &config());
    let same = sequence.insert(insertion.clone(), target, "after");
    assert_eq!(same.elements().len(), 11);
    assert!(same.results().is_empty());
    let sequence = ReflowSequence::from_root(tree(), &config());
    let nowhere = leaf(SyntaxKind::Keyword, "where", 50);
    assert!(sequence.try_insert(insertion, nowhere, "before").is_none());
}

#[test]
fn without_a_target() {
    let sequence = ReflowSequence::from_root(tree(), &config());
    let comma = leaf(SyntaxKind::Comma, ",", 9);
    let after = sequence.without(&comma);
    assert_eq!(
        shape(&after),
        vec!["B:select/2", "P: ", "B:a/3", "P: ", "B:b/3", "P: ", "B:from/3", "P: ", "B:t/3"]
    );
    let results = after.results();
    assert_eq!(results.len(), 1);
    assert!(results[0].anchor.as_ref().unwrap().same(&comma));
    assert!(matches!(&results[0].fixes[0], LintFix::Delete { anchor } if anchor.same(&comma)));
    // Not at an end, and no spacing.
    let select = leaf(SyntaxKind::Keyword, "select", 0);
    assert!(ReflowSequence::from_root(tree(), &config()).try_without(&select).is_none());
    let t = leaf(SyntaxKind::NakedIdentifier, "t", 17);
    assert!(ReflowSequence::from_root(tree(), &config()).try_without(&t).is_none());
    let blank = leaf(SyntaxKind::Whitespace, " ", 8);
    assert!(ReflowSequence::from_root(tree(), &config()).try_without(&blank).is_none());
    let other = leaf(SyntaxKind::NakedIdentifier, "x", 99);
    assert!(ReflowSequence::from_root(tree(), &config()).try_without(&other).is_none());
}

#[test]
fn replace_a_target() {
    let mut sequence = ReflowSequence::from_root(tree(), &config());
    let target = node(SyntaxKind::ColumnReference, vec![leaf(SyntaxKind::NakedIdentifier, "b", 10)]);
    let edit = vec![node(
        SyntaxKind::ColumnReference,
        vec![
            Segment::Leaf { kind: SyntaxKind::NakedIdentifier, raw: "x".to_string(), position: None },
            Segment::Leaf { kind: SyntaxKind::Dot, raw: ".".to_string(), position: None },
            Segment::Leaf { kind: SyntaxKind::NakedIdentifier, raw: "y".to_string(), position: None },
        ],
    )];
    let after = sequence.replace(target.clone(), &edit);
    assert_eq!(
        shape(&after),
        vec![
            "B:select/2", "P: ", "B:a/3", "P: ", "B:,/2", "P:", "B:x/2", "P:", "B:./2", "P:",
            "B:y/2", "P: ", "B:from/3", "P: ", "B:t/3"
        ]
    );
    assert_eq!(after.raw(), "select a ,x.y from t");
    let fixes = after.fixes();
    assert_eq!(fixes.len(), 1);
    match &fixes[0] {
        LintFix::Replace { anchor, edit: made } => {
            assert!(anchor.same(&target));
            assert_eq!(made.len(), 1);
            assert!(made[0].same(&edit[0]));
        }
        _ => panic!("a fix that replaces was expected"),
    }
    // The sequence that was edited stays as it was.
    assert_eq!(sequence.raw(), "select a ,b from t");
    let other = leaf(SyntaxKind::NakedIdentifier, "x", 99);
    assert!(sequence.try_replace(other, &edit).is_none());
    let empty = node(SyntaxKind::ColumnReference, vec![]);
    assert!(sequence.try_replace(empty, &edit).is_none());
}

#[test]
fn depth_map_of_a_tree() {
    let root = tree();
    let map = DepthMap::from_parent(&root);
    assert_eq!(map.entries.len(), 10);
    let a = leaf(SyntaxKind::NakedIdentifier, "a", 7);
    assert_eq!(
        map.get_depth_info(&a).unwrap().stack_kinds,
        vec![SyntaxKind::File, SyntaxKind::SelectStatement, SyntaxKind::ColumnReference]
    );
    let other = leaf(SyntaxKind::NakedIdentifier, "x", 99);
    assert!(map.get_depth_info(&other).is_none());
    let mut map = DepthMap::from_raws_and_root(vec![a.clone(), other.clone()], &root);
    assert_eq!(map.entries.len(), 2);
    assert_eq!(map.get_depth_info(&a).unwrap().stack_kinds.len(), 3);
    assert!(map.get_depth_info(&other).unwrap().stack_kinds.is_empty());
    let new = leaf(SyntaxKind::NakedIdentifier, "n", 100);
    assert!(map.copy_depth_info(&a, new.clone(), 1));
    assert_eq!(
        map.get_depth_info(&new).unwrap().stack_kinds,
        vec![SyntaxKind::File, SyntaxKind::SelectStatement]
    );
    assert!(map.copy_depth_info(&a, new.clone(), 7));
    assert!(map.get_depth_info(&new).unwrap().stack_kinds.is_empty());
    let missing = leaf(SyntaxKind::NakedIdentifier, "m", 200);
    assert!(!map.copy_depth_info(&missing, new, 0));
    assert_eq!(map.entries.len(), 4);
    assert_eq!(map.clone_map().entries.len(), 4);
}

/// `select\n a , b` and the end of the file.
fn broken_tree() -> Segment {
    node(
        SyntaxKind::File,
        vec![
            node(
                SyntaxKind::SelectStatement,
                vec![
                    leaf(SyntaxKind::Keyword, "select", 0),
                    leaf(SyntaxKind::Newline, "\n", 6),
                    leaf(SyntaxKind::Whitespace, " ", 7),
                    leaf(SyntaxKind::NakedIdentifier, "a", 8),
                    leaf(SyntaxKind::Whitespace, " ", 9),
                    leaf(SyntaxKind::Comma, ",", 10),
                    leaf(SyntaxKind::Whitespace, " ", 11),
                    leaf(SyntaxKind::NakedIdentifier, "b", 12),
                    leaf(SyntaxKind::Whitespace, " ", 13),
                ],
            ),
            leaf(SyntaxKind::EndOfFile, "", 14),
        ],
    )
}

/// Respaces the sequence with a spacing that keeps the line breaks of a
/// point and nothing else, and that reports each point it was asked about.
fn respaced(sequence: ReflowSequence, strip_newlines: bool, filter: Filter) -> (ReflowSequence, Vec<usize>) {
    let mut respacing = sequence.respace(strip_newlines, filter);
    assert!(respacing.strip_newlines() == strip_newlines);
    let mut seen = Vec::new();
    while let Some(at) = respacing.pending() {
        seen.push(respacing.results().len());
        let kept: Vec<Segment> = respacing.sequence().elements()[at.point]
            .segments()
            .iter()
            .filter(|s| s.is_type(SyntaxKind::Newline))
            .cloned()
            .collect();
        let mut results: Vec<LintResult> = Vec::new();
        for i in 0..respacing.results().len() + 1 {
            results.push(LintResult::new(None, Vec::new(), Some(format!("{}", i))));
        }
        respacing.accept(results, ReflowPoint::new(kept));
    }
    (respacing.finish().unwrap(), seen)
}

#[test]
fn respace_all_points() {
    let (made, seen) = respaced(ReflowSequence::from_root(tree(), &config()), false, Filter::All);
    assert_eq!(
        shape(&made),
        vec!["B:select/2", "P:", "B:a/3", "P:", "B:,/2", "P:", "B:b/3", "P:", "B:from/3", "P:", "B:t/3"]
    );
    // Each answer starts from the results that the one before it left.
    assert_eq!(seen, vec![0, 1, 2, 3, 4]);
    assert_eq!(made.raw(), "selecta,bfromt");
    assert_eq!(made.results().len(), 5);
}

#[test]
fn respace_within_lines_or_at_breaks() {
    let before = vec!["B:select/2", "P:\n ", "B:a/2", "P: ", "B:,/2", "P: ", "B:b/2", "P: ", "B:/1"];
    assert_eq!(shape(&ReflowSequence::from_root(broken_tree(), &config())), before);
    // Within lines: the point that keeps a line break and the one before the end of the file stay.
    let (made, seen) = respaced(ReflowSequence::from_root(broken_tree(), &config()), false, Filter::Inline);
    assert_eq!(
        shape(&made),
        vec!["B:select/2", "P:\n ", "B:a/2", "P:", "B:,/2", "P:", "B:b/2", "P: ", "B:/1"]
    );
    assert_eq!(seen, vec![0, 0, 1, 2]);
    assert_eq!(made.results().len(), 2);
    // At breaks: the others stay.
    let (made, seen) = respaced(ReflowSequence::from_root(broken_tree(), &config()), true, Filter::Newline);
    assert_eq!(
        shape(&made),
        vec!["B:select/2", "P:\n", "B:a/2", "P: ", "B:,/2", "P: ", "B:b/2", "P:", "B:/1"]
    );
    assert_eq!(seen, vec![0, 1, 1, 1]);
    assert_eq!(made.results().len(), 2);
    let (made, _) = respaced(ReflowSequence::from_root(broken_tree(), &config()), false, Filter::All);
    assert_eq!(
        shape(&made),
        vec!["B:select/2", "P:\n", "B:a/2", "P:", "B:,/2", "P:", "B:b/2", "P:", "B:/1"]
    );
}

#[test]
fn respace_keeps_what_stands_between_two_points() {
    // A sequence that starts and ends with a point: the blocks are put in once each.
    let raws = tree().get_raw_segments();
    let sequence = ReflowSequence::from_raw_segments(raws[1..9].to_vec(), tree(), &config(), None);
    assert_eq!(
        shape(&sequence),
        vec!["P: ", "B:a/3", "P: ", "B:,/2", "P:", "B:b/3", "P: ", "B:from/3", "P: "]
    );
    let (made, seen) = respaced(sequence, false, Filter::All);
    assert_eq!(shape(&made), vec!["P:", "B:a/3", "P:", "B:,/2", "P:", "B:b/3", "P:", "B:from/3", "P:"]);
    assert_eq!(seen, vec![0, 1, 2, 3, 4]);
}

#[test]
fn respace_waits_for_every_answer() {
    let mut respacing = ReflowSequence::from_root(tree(), &config()).respace(true, Filter::All);
    assert_eq!(respacing.pending(), Some(PointWithConstraints { point: 1, pre: Some(0), post: Some(2) }));
    respacing.accept(Vec::new(), ReflowPoint::new(Vec::new()));
    assert_eq!(respacing.pending(), Some(PointWithConstraints { point: 3, pre: Some(2), post: Some(4) }));
    assert!(respacing.finish().is_none());
    // A sequence without points is done at once, and an answer too many is dropped.
    let block = vec![leaf(SyntaxKind::Keyword, "select", 0)];
    let mut respacing = ReflowSequence::from_raw_segments(block, tree(), &config(), None).respace(false, Filter::All);
    assert_eq!(respacing.pending(), None);
    respacing.accept(
        vec![LintResult::new(None, Vec::new(), None)],
        ReflowPoint::new(vec![leaf(SyntaxKind::Whitespace, " ", 6)]),
    );
    let made = respacing.finish().unwrap();
    assert!(shape(&made).is_empty());
    assert!(made.is_untouched());
}

#[test]
fn rebreak_reindent_and_break_long_lines_take_what_was_worked_out() {
    let elements = || {
        vec![
            ReflowElement::Point(ReflowPoint::new(vec![leaf(SyntaxKind::Newline, "\n", 0)])),
            ReflowElement::Point(ReflowPoint::new(vec![])),
        ]
    };
    let results = || vec![LintResult::new(None, Vec::new(), Some("broken".to_string()))];
    let sequence = ReflowSequence::from_root(tree(), &config());
    assert!(sequence.is_untouched());
    let made = sequence.rebreak(elements(), results());
    assert_eq!(shape(&made), vec!["P:\n", "P:"]);
    assert!(!made.is_untouched());
    assert_eq!(made.results().len(), 1);
    let made = ReflowSequence::from_root(tree(), &config()).reindent(elements(), Vec::new());
    assert_eq!(shape(&made), vec!["P:\n", "P:"]);
    assert!(made.is_untouched());
    let made = ReflowSequence::from_root(tree(), &config()).break_long_lines(Vec::new(), results());
    assert!(shape(&made).is_empty());
    assert_eq!(made.results()[0].description, Some("broken".to_string()));
}

#[test]
fn elements_and_kinds_are_compared_by_what_they_hold() {
    let sequence = ReflowSequence::from_root(tree(), &config());
    let elements = sequence.elements();
    assert!(same_element(&elements[1], &elements[3]) == false);
    assert!(same_element(&elements[1], &elements[1].clone_element()));
    assert!(!same_element(&elements[0], &elements[1]));
    let point = ReflowElement::Point(ReflowPoint::new(vec![leaf(SyntaxKind::Keyword, "select", 0)]));
    assert!(!same_element(&elements[0], &point));
    let raws = broken_tree().get_raw_segments();
    assert!(has_kind(&raws, SyntaxKind::EndOfFile));
    assert!(has_kind(&raws[..3], SyntaxKind::Newline));
    assert!(!has_kind(&raws[2..], SyntaxKind::Newline));
    assert!(!has_kind(&[], SyntaxKind::Newline));
}

#[test]
fn tested_insert_and_without_agree_with_the_plain_ones() {
    let raws = tree().get_raw_segments();
    let comma = raws[4].clone();
    let insertion = leaf(SyntaxKind::Keyword, "distinct", 7);
    let plain = ReflowSequence::from_root(tree(), &config()).insert(insertion.clone(), comma.clone(), "before");
    let tested = ReflowSequence::from_root(tree(), &config())
        .try_insert(insertion, comma.clone(), "before")
        .unwrap();
    assert_eq!(shape(&plain), shape(&tested));
    let plain = ReflowSequence::from_root(tree(), &config()).without(&comma);
    let tested = ReflowSequence::from_root(tree(), &config()).try_without(&comma).unwrap();
    assert_eq!(shape(&plain), shape(&tested));
    assert_eq!(plain.raw(), "select a b from t");
}
