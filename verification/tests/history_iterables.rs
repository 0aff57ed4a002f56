use pine_sema::const_eval::ConstFacts;
use pine_sema::history_iterables::{known_history_offset_for_in_iterable_non_empty, HistoryFacts};
use pine_sema::syntax::{CallArg, Expr, ExprKind, Literal, Span};

fn span(s: usize) -> Span {
    Span::new(s, s + 1)
}

fn lit(v: i64, s: usize) -> Expr {
    Expr { kind: ExprKind::Literal(Literal::Int(v)), span: span(s) }
}

fn name(n: &str, s: usize) -> Expr {
    Expr { kind: ExprKind::Identifier(n.to_string()), span: span(s) }
}

fn qualified(parts: &[&str], s: usize) -> Expr {
    Expr { kind: ExprKind::QualifiedName(parts.iter().map(|p| p.to_string()).collect()), span: span(s) }
}

fn arg(n: Option<&str>, value: Expr) -> CallArg {
    let span = value.span;
    CallArg { name: n.map(str::to_owned), value, span }
}

fn call(callee: Expr, args: Vec<CallArg>, s: usize) -> Expr {
    Expr { kind: ExprKind::Call { callee: Box::new(callee), args }, span: span(s) }
}

fn facts() -> HistoryFacts {
    HistoryFacts {
        consts: ConstFacts { ints: vec![("n".to_string(), 3)], bools: Vec::new(), keys: Vec::new() },
        names: vec![("filled".to_string(), true), ("empty".to_string(), false)],
        sizes: vec![(span(70), 0), (span(71), 4)],
    }
}

#[test]
fn constructors_with_known_sizes() {
    let f = facts();
    assert_eq!(known_history_offset_for_in_iterable_non_empty(&f, &call(qualified(&["array", "from"], 1), vec![arg(None, lit(1, 2))], 3)), Some(true));
    assert_eq!(known_history_offset_for_in_iterable_non_empty(&f, &call(qualified(&["array", "from"], 1), Vec::new(), 3)), Some(false));
    assert_eq!(known_history_offset_for_in_iterable_non_empty(&f, &call(qualified(&["array", "new_float"], 1), vec![arg(None, name("n", 2))], 3)), Some(true));
    assert_eq!(known_history_offset_for_in_iterable_non_empty(&f, &call(qualified(&["array", "new_float"], 1), vec![arg(Some("size"), lit(0, 2))], 3)), Some(false));
    assert_eq!(known_history_offset_for_in_iterable_non_empty(&f, &call(qualified(&["array", "new_float"], 1), vec![arg(None, name("m", 2))], 3)), None);
    assert_eq!(
        known_history_offset_for_in_iterable_non_empty(&f, &call(qualified(&["matrix", "new<float>"], 1), vec![arg(Some("rows"), lit(2, 2))], 3)),
        Some(true)
    );
}

#[test]
fn names_copies_and_other_calls() {
    let f = facts();
    assert_eq!(known_history_offset_for_in_iterable_non_empty(&f, &name("filled", 1)), Some(true));
    assert_eq!(known_history_offset_for_in_iterable_non_empty(&f, &name("unknown", 1)), None);
    assert_eq!(known_history_offset_for_in_iterable_non_empty(&f, &call(qualified(&["array", "copy"], 1), vec![arg(None, name("empty", 2))], 3)), Some(false));
    assert_eq!(known_history_offset_for_in_iterable_non_empty(&f, &call(qualified(&["filled", "copy"], 1), Vec::new(), 3)), Some(true));
    assert_eq!(known_history_offset_for_in_iterable_non_empty(&f, &call(qualified(&["str", "split"], 1), Vec::new(), 70)), Some(false));
    assert_eq!(known_history_offset_for_in_iterable_non_empty(&f, &call(qualified(&["matrix", "row"], 1), Vec::new(), 71)), Some(true));
    assert_eq!(known_history_offset_for_in_iterable_non_empty(&f, &lit(1, 9)), None);
}
