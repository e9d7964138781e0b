use corvus_bridge::classes;
use corvus_bridge::classes::corvus_script::ScriptData;
use corvus_bridge::classes::corvus_type::{primitives, RecordField, Type};
use corvus_bridge::syntax::{Prim, Syntax};

fn record(fields: Vec<(&str, Type, bool)>) -> Type {
    Type::record_of(
        fields
            .into_iter()
            .map(|(name, ty, optional)| (String::from(name), RecordField::new(ty, optional)))
            .collect(),
    )
}

#[test]
fn primitive_types_equal_themselves_only() {
    let prims = [Type::Any, Type::Num, Type::Str, Type::Bool, Type::Time];
    for (i, a) in prims.iter().enumerate() {
        for (j, b) in prims.iter().enumerate() {
            assert_eq!(a.equals(b), i == j);
        }
    }
}

#[test]
fn record_types_compare_by_key_set_not_declaration_order() {
    let a = record(vec![("x", Type::Num, false), ("y", Type::Str, true)]);
    let b = record(vec![("y", Type::Str, true), ("x", Type::Num, false)]);
    assert!(a.equals(&b));
    assert!(b.equals(&a));
}

#[test]
fn record_types_differ_on_field_type_optionality_or_key_set() {
    let base = record(vec![("x", Type::Num, false)]);
    assert!(!base.equals(&record(vec![("x", Type::Str, false)])));
    assert!(!base.equals(&record(vec![("x", Type::Num, true)])));
    assert!(!base.equals(&record(vec![("x", Type::Num, false), ("y", Type::Num, false)])));
    assert!(!record(vec![("x", Type::Num, false), ("y", Type::Num, false)]).equals(&base));
}

#[test]
fn structured_types_compare_recursively() {
    let a = Type::list_of(Type::Num);
    let b = Type::list_of(Type::Num);
    let c = Type::list_of(Type::Str);
    assert!(a.equals(&b));
    assert!(!a.equals(&c));
    let f = Type::block_of(vec![Type::Num, Type::Str], Type::Bool);
    let g = Type::block_of(vec![Type::Num, Type::Str], Type::Bool);
    let h = Type::block_of(vec![Type::Num], Type::Bool);
    assert!(f.equals(&g));
    assert!(!f.equals(&h));
    assert!(Type::var("t").equals(&Type::var("t")));
    assert!(!Type::var("t").equals(&Type::var("u")));
    assert!(!Type::var("t").equals(&Type::Num));
}

#[test]
fn record_fields_are_readable_in_declaration_order() {
    let t = record(vec![("x", Type::Num, false), ("y", Type::Str, true)]);
    let fields = t.record_fields().unwrap();
    assert_eq!(fields.len(), 2);
    assert_eq!(fields[0].0, "x");
    assert!(fields[1].1.optional);
    assert!(fields[1].1.get_type().equals(&Type::Str));
    assert!(Type::Num.record_fields().is_none());
}

#[test]
fn primitive_constants_are_published_in_order() {
    let prims = primitives();
    let names: Vec<&str> = prims.iter().map(|p| p.0.as_str()).collect();
    assert_eq!(names, vec!["Any", "Number", "String", "Bool", "Time"]);
    assert!(prims[1].1.equals(&Type::Num));
}

#[test]
fn registry_lists_every_class_in_initialization_order() {
    let registry = classes::init();
    let names: Vec<&str> = registry.iter().map(|c| c.name.as_str()).collect();
    assert_eq!(
        names,
        vec!["Type", "Signature", "Namespace", "Args", "Compiler", "Script"]
    );
    assert_eq!(registry[3].instance_methods, vec![String::from("[]")]);
    assert_eq!(
        registry[5].instance_methods,
        vec![
            String::from("corvus_call"),
            String::from("call_interpreted"),
            String::from("input_types"),
            String::from("return_type"),
            String::from("ruby_code"),
        ]
    );
    assert_eq!(registry[0].consts.len(), 5);
}

#[test]
fn script_data_keeps_its_compiled_parts() {
    let stx = Syntax::Atom(Prim::Boolean(true));
    let script = ScriptData::new(
        stx,
        String::from("def call(**kw)\ntrue\nend"),
        Type::Bool,
        vec![(String::from("offices"), Type::list_of(Type::Str))],
    );
    assert_eq!(script.ruby_code().as_str(), "def call(**kw)\ntrue\nend");
    assert!(script.return_type().equals(&Type::Bool));
    assert_eq!(script.input_types().len(), 1);
    assert_eq!(script.input_types()[0].0, "offices");
}
