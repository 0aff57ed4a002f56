use pine_sema::syntax::{CallArg, Diagnostic, Expr, ExprKind, Literal, Span};
use pine_sema::time_checks::{validate_time_function_args, validate_timestamp_args};
use pine_sema::types::{PineType, Qualifier, ValueKind};

fn arg(name: Option<&str>, start: usize) -> CallArg {
    let span = Span::new(start, start + 1);
    CallArg {
        name: name.map(str::to_owned),
        value: Expr {
            kind: ExprKind::Literal(Literal::Na),
            span,
        },
        span,
    }
}

fn ty(qualifier: Qualifier, kind: ValueKind) -> Option<PineType> {
    Some(PineType::new(qualifier, kind))
}

fn time(args: &[CallArg], arg_types: &[Option<PineType>]) -> Vec<String> {
    let mut diagnostics: Vec<Diagnostic> = Vec::new();
    validate_time_function_args("time", args, arg_types, &mut diagnostics);
    diagnostics.iter().map(|d| d.message.clone()).collect()
}

fn timestamp(args: &[CallArg], arg_types: &[Option<PineType>]) -> Vec<String> {
    let mut diagnostics: Vec<Diagnostic> = Vec::new();
    validate_timestamp_args("timestamp", args, arg_types, &mut diagnostics);
    diagnostics.iter().map(|d| d.message.clone()).collect()
}

#[test]
fn time_needs_an_argument_and_a_timeframe() {
    assert_eq!(time(&[], &[]), vec!["`time` expects at least 1 argument(s), got 0".to_owned()]);
    assert_eq!(
        time(&[arg(Some("session"), 0)], &[ty(Qualifier::Simple, ValueKind::String)]),
        vec!["`time` expects a `timeframe` argument".to_owned()]
    );
    assert!(time(&[arg(None, 0)], &[ty(Qualifier::Simple, ValueKind::String)]).is_empty());
}

#[test]
fn time_timeframe_must_be_a_simple_string() {
    assert_eq!(
        time(&[arg(None, 0)], &[ty(Qualifier::Series, ValueKind::String)]),
        vec!["`time` argument `timeframe` does not accept Series String".to_owned()]
    );
}

#[test]
fn time_second_positional_argument_is_a_session_or_bars_back() {
    let args = [arg(None, 0), arg(None, 10)];
    let simple_string = ty(Qualifier::Simple, ValueKind::String);
    assert!(time(&args, &[simple_string, ty(Qualifier::Series, ValueKind::Int)]).is_empty());
    assert!(time(&args, &[simple_string, ty(Qualifier::Series, ValueKind::String)]).is_empty());
    assert_eq!(
        time(&args, &[simple_string, ty(Qualifier::Series, ValueKind::Bool)]),
        vec!["`time` second positional argument must be a session string or bars_back int".to_owned()]
    );
}

#[test]
fn time_fourth_positional_argument_after_bars_back_is_too_many() {
    let args = [arg(None, 0), arg(None, 10), arg(None, 20), arg(None, 30)];
    let arg_types = [
        ty(Qualifier::Simple, ValueKind::String),
        ty(Qualifier::Series, ValueKind::Int),
        ty(Qualifier::Series, ValueKind::Int),
        ty(Qualifier::Series, ValueKind::Int),
    ];
    assert_eq!(
        time(&args, &arg_types),
        vec!["`time` positional bars_back overload expects at most 3 argument(s), got 4".to_owned()]
    );
}

#[test]
fn time_reports_unknown_names_and_too_many_arguments() {
    let args = [
        arg(None, 0),
        arg(Some("zone"), 10),
        arg(None, 20),
        arg(None, 30),
        arg(None, 40),
        arg(None, 50),
    ];
    let messages = time(&args, &[]);
    assert_eq!(messages[0], "`time` expects at most 5 argument(s), got 6");
    assert_eq!(messages[1], "`time` has no argument named `zone`");
    assert_eq!(messages.len(), 2);
}

#[test]
fn timestamp_date_string_overload() {
    assert!(timestamp(&[arg(None, 0)], &[ty(Qualifier::Const, ValueKind::String)]).is_empty());
    assert_eq!(
        timestamp(&[arg(Some("dateString"), 0), arg(None, 10)], &[ty(Qualifier::Simple, ValueKind::String)]),
        vec![
            "`timestamp` dateString overload expects 1 argument".to_owned(),
            "`timestamp` argument `dateString` does not accept Simple String".to_owned(),
        ]
    );
}

#[test]
fn timestamp_needs_year_month_and_day() {
    let int = ty(Qualifier::Series, ValueKind::Int);
    assert!(timestamp(&[arg(None, 0), arg(None, 10), arg(None, 20)], &[int, int, int]).is_empty());
    assert_eq!(
        timestamp(&[arg(None, 0), arg(None, 10)], &[int, int]),
        vec!["`timestamp` expects year, month, and day arguments".to_owned()]
    );
    let named = [arg(Some("day"), 0), arg(Some("month"), 10), arg(Some("year"), 20)];
    assert!(timestamp(&named, &[int, int, int]).is_empty());
}

#[test]
fn timestamp_with_a_leading_timezone_shifts_the_calendar_fields() {
    let tz = ty(Qualifier::Simple, ValueKind::String);
    let int = ty(Qualifier::Series, ValueKind::Int);
    let args = [arg(None, 0), arg(None, 10), arg(None, 20), arg(None, 30)];
    assert!(timestamp(&args, &[tz, int, int, int]).is_empty());
    let eight: Vec<CallArg> = (0..8).map(|i| arg(None, i * 10)).collect();
    let types = [tz, int, int, int, int, int, int, int];
    assert_eq!(
        timestamp(&eight, &types),
        vec!["`timestamp` expects at most 7 argument(s), got 8".to_owned()]
    );
}

#[test]
fn timestamp_first_positional_must_be_a_year_or_timezone() {
    let args = [arg(None, 0), arg(None, 10), arg(None, 20)];
    let int = ty(Qualifier::Series, ValueKind::Int);
    assert_eq!(
        timestamp(&args, &[ty(Qualifier::Series, ValueKind::Bool), int, int]),
        vec![
            "`timestamp` first positional argument must be a year int or timezone string".to_owned(),
            "`timestamp` expects year, month, and day arguments".to_owned(),
        ]
    );
    assert_eq!(
        timestamp(&[arg(Some("year"), 0), arg(Some("month"), 1), arg(Some("week"), 2)], &[]),
        vec![
            "`timestamp` has no argument named `week`".to_owned(),
            "`timestamp` expects year, month, and day arguments".to_owned(),
        ]
    );
}
