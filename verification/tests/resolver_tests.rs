use corvus_bridge::apply::Apply;
use corvus_bridge::classes::corvus_args::{Args, Resolved};
use corvus_bridge::classes::corvus_signature::{build_signature, Argument, Signature};
use corvus_bridge::classes::corvus_type::Type;
use corvus_bridge::error::{ArgError, BuildError};
use corvus_bridge::helpers::build_apply;
use corvus_bridge::value::{CorvusValue, Host};

fn signature_with(args: Vec<(&str, bool, bool)>) -> Signature {
    let mut s = Signature::with_capacity(args.len());
    s.set_return_type(Type::Num);
    s.set_total(true);
    for (name, required, variadic) in args {
        s.add_argument(Argument {
            name: String::from(name),
            ty: Type::Any,
            required,
            variadic,
        });
    }
    s
}

fn whole(i: i64) -> CorvusValue {
    CorvusValue::from_host(Host::Int(i))
}

#[test]
fn required_argument_present_once_resolves_to_its_value() {
    let mut call: Apply<CorvusValue> = Apply::with_capacity(2);
    call.push_arg("a", whole(1));
    call.push_arg("b", whole(2));
    let args = Args::wrap(signature_with(vec![("a", true, false), ("b", true, false)]), call);
    assert_eq!(args.get("a").unwrap(), Resolved::Single(whole(1)));
    assert_eq!(args.get("b").unwrap(), Resolved::Single(whole(2)));
}

#[test]
fn required_argument_missing_is_an_error() {
    let call: Apply<CorvusValue> = Apply::with_capacity(0);
    let args = Args::wrap(signature_with(vec![("a", true, false)]), call);
    assert_eq!(args.get("a"), Err(ArgError::MissingRequiredArgument));
}

#[test]
fn repeated_argument_resolves_to_the_first_occurrence() {
    let mut call: Apply<CorvusValue> = Apply::with_capacity(3);
    call.push_arg("a", whole(10));
    call.push_arg("b", whole(5));
    call.push_arg("a", whole(20));
    let args = Args::wrap(signature_with(vec![("a", true, false), ("b", true, false)]), call);
    assert_eq!(args.get("a").unwrap(), Resolved::Single(whole(10)));
}

#[test]
fn optional_argument_missing_is_the_absent_sentinel() {
    let call: Apply<CorvusValue> = Apply::with_capacity(0);
    let args = Args::wrap(signature_with(vec![("a", false, false)]), call);
    assert_eq!(
        args.get("a").unwrap(),
        Resolved::Single(CorvusValue::from_host(Host::Nil))
    );
}

#[test]
fn undefined_argument_name_is_an_error() {
    let mut call: Apply<CorvusValue> = Apply::with_capacity(1);
    call.push_arg("a", whole(1));
    let args = Args::wrap(signature_with(vec![("a", true, false)]), call);
    assert_eq!(args.get("nope"), Err(ArgError::UndefinedArgument));
}

#[test]
fn variadic_argument_collects_all_matches_in_call_order() {
    let mut call: Apply<CorvusValue> = Apply::with_capacity(4);
    call.push_arg("x", whole(1));
    call.push_arg("other", whole(9));
    call.push_arg("x", whole(2));
    call.push_arg("x", whole(3));
    let args = Args::wrap(
        signature_with(vec![("x", false, true), ("other", true, false)]),
        call,
    );
    assert_eq!(
        args.get("x").unwrap(),
        Resolved::Collected(vec![whole(1), whole(2), whole(3)])
    );
}

#[test]
fn variadic_required_argument_with_no_match_is_the_empty_collection() {
    let call: Apply<CorvusValue> = Apply::with_capacity(0);
    let args = Args::wrap(signature_with(vec![("x", true, true)]), call);
    assert_eq!(args.get("x").unwrap(), Resolved::Collected(vec![]));
}

#[test]
fn flat_list_builder_round_trips_through_resolution() {
    let flat = vec![
        CorvusValue::from_host(Host::Sym(String::from("a"))),
        whole(1),
        CorvusValue::from_host(Host::Sym(String::from("b"))),
        whole(2),
    ];
    let call = build_apply(&flat).unwrap();
    let args = Args::wrap(signature_with(vec![("a", true, false), ("b", true, false)]), call);
    assert_eq!(args.get("a").unwrap(), Resolved::Single(whole(1)));
    assert_eq!(args.get("b").unwrap(), Resolved::Single(whole(2)));
}

#[test]
fn flat_list_builder_rejects_empty_and_odd_lists() {
    assert!(matches!(build_apply(&vec![]), Err(BuildError::Arity)));
    let odd = vec![CorvusValue::from_host(Host::Sym(String::from("a")))];
    assert!(matches!(build_apply(&odd), Err(BuildError::Arity)));
    let three = vec![
        CorvusValue::from_host(Host::Sym(String::from("a"))),
        whole(1),
        CorvusValue::from_host(Host::Sym(String::from("b"))),
    ];
    assert!(matches!(build_apply(&three), Err(BuildError::Arity)));
}

#[test]
fn flat_list_builder_rejects_non_name_tokens() {
    let flat = vec![whole(1), whole(2)];
    assert!(matches!(build_apply(&flat), Err(BuildError::Type)));
    let second_bad = vec![
        CorvusValue::from_host(Host::Sym(String::from("a"))),
        whole(1),
        whole(7),
        whole(2),
    ];
    assert!(matches!(build_apply(&second_bad), Err(BuildError::Type)));
}

#[test]
fn built_signature_carries_its_parts() {
    let s = build_signature(
        vec![
            Argument { name: String::from("a"), ty: Type::Num, required: true, variadic: false },
            Argument { name: String::from("b"), ty: Type::Str, required: false, variadic: true },
        ],
        Type::Bool,
        false,
    );
    assert_eq!(s.args.len(), 2);
    assert_eq!(s.args[0].name, "a");
    assert!(s.args[0].required && !s.args[0].variadic);
    assert_eq!(s.args[1].name, "b");
    assert!(!s.args[1].required && s.args[1].variadic);
    assert!(s.return_type.equals(&Type::Bool));
    assert!(!s.total);
    let mut call: Apply<CorvusValue> = Apply::with_capacity(1);
    call.push_arg("b", whole(6));
    let args = Args::wrap(s, call);
    assert_eq!(args.get("b").unwrap(), Resolved::Collected(vec![whole(6)]));
}

#[test]
fn duplicate_declarations_resolve_by_first_declaration() {
    let mut call: Apply<CorvusValue> = Apply::with_capacity(1);
    call.push_arg("a", whole(4));
    let args = Args::wrap(
        signature_with(vec![("a", true, false), ("a", false, true)]),
        call,
    );
    assert_eq!(args.get("a").unwrap(), Resolved::Single(whole(4)));
}
