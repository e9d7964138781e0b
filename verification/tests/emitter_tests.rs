use corvus_bridge::apply::Apply;
use corvus_bridge::emitter::{emit, emit_expr};
use corvus_bridge::syntax::{Prim, Syntax};

fn num(text: &str) -> Syntax {
    Syntax::Atom(Prim::Number(String::from(text)))
}

fn var(segments: &[&str]) -> Syntax {
    Syntax::Variable(segments.iter().map(|s| String::from(*s)).collect())
}

fn block(params: &[&str], body: Syntax) -> Syntax {
    Syntax::Block(params.iter().map(|s| String::from(*s)).collect(), Box::new(body))
}

fn apply_node(pairs: Vec<(&str, Syntax)>) -> Syntax {
    let mut apply: Apply<Syntax> = Apply::with_capacity(pairs.len());
    for (name, value) in pairs {
        apply.push_arg(name, value);
    }
    Syntax::Apply(apply)
}

#[test]
fn test_emit_string() {
    let stx = Syntax::Atom(Prim::Str(String::from("hello world")));
    assert_eq!(emit_expr(&stx), "\"hello world\"");
}

#[test]
fn test_emit_list() {
    let stx = Syntax::List(vec![num("1.0"), num("2.0"), num("3.0")]);
    assert_eq!(emit_expr(&stx), "[1.0, 2.0, 3.0]");
}

#[test]
fn test_emit_record() {
    let stx = Syntax::Record(vec![
        (String::from("a"), num("1.0")),
        (String::from("b"), num("2.0")),
        (String::from("c"), num("3.0")),
    ]);
    assert_eq!(emit_expr(&stx), "{a:1.0,b:2.0,c:3.0}");
}

#[test]
fn test_emit_block() {
    let stx = block(&["x", "y"], Syntax::List(vec![var(&["x"]), var(&["y"])]));
    assert_eq!(
        emit_expr(&stx),
        "Proc.new{|\u{3b5}_x,\u{3b5}_y|[\u{3b5}_x, \u{3b5}_y]}"
    );
}

#[test]
fn test_emit_apply() {
    let stx = apply_node(vec![("countFrom", num("1.0")), ("to", num("10.0"))]);
    assert_eq!(emit_expr(&stx), "self.corvus_call(:countFrom,1.0,:to,10.0)");
}

#[test]
fn test_emit_larger() {
    let inner_each = apply_node(vec![
        ("each", var(&["office", "employees"])),
        ("do", block(&["e"], apply_node(vec![("get_name", var(&["e"]))]))),
    ]);
    let office_record = Syntax::Record(vec![
        (
            String::from("name"),
            apply_node(vec![("get_name", var(&["office"]))]),
        ),
        (String::from("employees"), inner_each),
    ]);
    let stx = apply_node(vec![
        ("each", var(&["offices"])),
        ("do", block(&["office"], office_record)),
    ]);
    let out = "self.corvus_call(:each,\u{3b5}\u{3b5}[:offices],:do,Proc.new{|\u{3b5}_office|{name:self.corvus_call(:get_name,\u{3b5}_office),employees:self.corvus_call(:each,\u{3b5}_office.employees,:do,Proc.new{|\u{3b5}_e|self.corvus_call(:get_name,\u{3b5}_e)})}})";
    assert_eq!(emit_expr(&stx), out);
}

#[test]
fn math_chain_groups_left_associatively() {
    let stx = apply_node(vec![
        ("calc", num("1")),
        ("plus", num("2")),
        ("times", num("3")),
    ]);
    assert_eq!(emit_expr(&stx), "(((1)+2)*3)");
}

#[test]
fn math_chain_all_operators() {
    let stx = apply_node(vec![
        ("calc", num("8")),
        ("plus", num("2")),
        ("subtract", num("1")),
        ("times", num("3")),
        ("dividedBy", num("4")),
    ]);
    assert_eq!(emit_expr(&stx), "(((((8)+2)-1)*3)/4)");
}

#[test]
fn math_chain_skips_unknown_operator() {
    let stx = apply_node(vec![
        ("calc", num("1")),
        ("modulo", num("2")),
        ("plus", num("3")),
    ]);
    assert_eq!(emit_expr(&stx), "(((1)2)+3)");
}

#[test]
fn scoped_variable_uses_qualified_form() {
    let stx = block(&["x"], var(&["x"]));
    assert_eq!(emit_expr(&stx), "Proc.new{|\u{3b5}_x|\u{3b5}_x}");
}

#[test]
fn unbound_variable_uses_ambient_table_form() {
    let stx = var(&["offices"]);
    assert_eq!(emit_expr(&stx), "\u{3b5}\u{3b5}[:offices]");
}

#[test]
fn sibling_closures_do_not_share_scope() {
    let stx = Syntax::List(vec![block(&["x"], var(&["x"])), var(&["x"])]);
    assert_eq!(
        emit_expr(&stx),
        "[Proc.new{|\u{3b5}_x|\u{3b5}_x}, \u{3b5}\u{3b5}[:x]]"
    );
}

#[test]
fn repeated_literal_renders_identically() {
    let stx = Syntax::List(vec![num("7.5"), num("7.5")]);
    assert_eq!(emit_expr(&stx), "[7.5, 7.5]");
}

#[test]
fn emit_bool_and_time_and_money_literals() {
    assert_eq!(emit_expr(&Syntax::Atom(Prim::Boolean(true))), "true");
    assert_eq!(emit_expr(&Syntax::Atom(Prim::Boolean(false))), "false");
    assert_eq!(emit_expr(&Syntax::Atom(Prim::Time(1500000000))), "Time.at(1500000000)");
    assert_eq!(emit_expr(&Syntax::Atom(Prim::Time(0))), "Time.at(0)");
    let money = Syntax::Atom(Prim::Money(String::from("USD"), String::from("12.5")));
    assert_eq!(emit_expr(&money), "Money.parse(\"USD\" + \"12.5\".to_s)");
}

#[test]
fn emit_escapes_quotes_backslashes_and_controls() {
    let stx = Syntax::Atom(Prim::Str(String::from("a\"b\\c\nd\re\tf\u{1}g")));
    assert_eq!(emit_expr(&stx), "\"a\\\"b\\\\c\\nd\\re\\tf\\u{1}g\"");
    let del = Syntax::Atom(Prim::Str(String::from("x\u{7f}y\u{1f}z")));
    assert_eq!(emit_expr(&del), "\"x\\u{7f}y\\u{1f}z\"");
}

#[test]
fn emit_wraps_in_unit_definition() {
    let stx = var(&["offices"]);
    let code = emit(&stx).unwrap();
    assert_eq!(
        code,
        "def call(**\u{3b5}\u{3b5})\n\u{3b5}\u{3b5}[:offices]\nend"
    );
}

#[test]
fn empty_block_keeps_enclosing_scope() {
    let stx = block(&[], var(&["y"]));
    assert_eq!(emit_expr(&stx), "Proc.new{\u{3b5}\u{3b5}[:y]}");
}

#[test]
fn nested_projection_joins_with_dots() {
    let stx = var(&["a", "b", "c"]);
    assert_eq!(emit_expr(&stx), "\u{3b5}\u{3b5}[:a].b.c");
}
