use std::rc::Rc;
use corvus_bridge::error::{Error, ViewKind};
use corvus_bridge::helpers::{stringify_key, truthy};
use corvus_bridge::value::{Block, Callee, CorvusValue, Host, RecordIter};

fn list_of(items: Vec<Host>) -> CorvusValue {
    CorvusValue::from_host(Host::List(items.into_iter().map(Rc::new).collect()))
}

fn table_of(pairs: Vec<(Host, Host)>) -> CorvusValue {
    CorvusValue::from_host(Host::Table(
        pairs.into_iter().map(|(k, v)| (Rc::new(k), Rc::new(v))).collect(),
    ))
}

#[test]
fn number_view_returns_bits_and_rejects_others() {
    let v = CorvusValue::from_number_bits(1.5f64.to_bits());
    assert_eq!(f64::from_bits(v.try_number().unwrap()), 1.5);
    assert_eq!(v.try_bool(), Err(Error::Conversion(ViewKind::Bool)));
    let nil = CorvusValue::from_host(Host::Nil);
    assert_eq!(nil.try_number(), Err(Error::Conversion(ViewKind::Number)));
}

#[test]
fn time_view_reads_host_integer() {
    let v = CorvusValue::from_u64(1500000000);
    assert_eq!(v.try_time(), Ok(1500000000));
    assert_eq!(v.try_string(), Err(Error::Conversion(ViewKind::Text)));
}

#[test]
fn bool_view_reads_host_boolean() {
    assert_eq!(CorvusValue::from_bool(true).try_bool(), Ok(true));
    assert_eq!(CorvusValue::from_bool(false).try_bool(), Ok(false));
}

#[test]
fn string_view_decodes_bytes_and_flags_bad_encodings() {
    let v = CorvusValue::from_text("h\u{e9}llo");
    assert_eq!(v.try_string().unwrap(), "h\u{e9}llo");
    let bad = CorvusValue::from_host(Host::Text(vec![0xff, 0xfe]));
    assert_eq!(bad.try_string(), Err(Error::Encoding));
    let nil = CorvusValue::from_host(Host::Nil);
    assert_eq!(nil.try_string(), Err(Error::Conversion(ViewKind::Text)));
}

#[test]
fn closure_value_satisfies_only_the_callable_view() {
    let v = CorvusValue::from_block(Block { handle: 7 });
    assert_eq!(v.try_number(), Err(Error::Conversion(ViewKind::Number)));
    assert_eq!(v.try_bool(), Err(Error::Conversion(ViewKind::Bool)));
    assert_eq!(v.try_string(), Err(Error::Conversion(ViewKind::Text)));
    assert!(v.try_list().is_err());
    assert_eq!(v.call_target(), Ok(Callee::Native(Block { handle: 7 })));
}

#[test]
fn host_proc_is_callable_and_nil_results_are_errors() {
    let v = CorvusValue::from_host(Host::Proc(3));
    assert_eq!(v.call_target(), Ok(Callee::HostProc(3)));
    let plain = CorvusValue::from_bool(true);
    assert_eq!(plain.call_target(), Err(Error::Conversion(ViewKind::Callable)));
    assert_eq!(CorvusValue::wrap_call_result(Host::Nil), Err(Error::Nil));
    assert_eq!(
        CorvusValue::wrap_call_result(Host::Int(4)),
        Ok(CorvusValue::from_host(Host::Int(4)))
    );
}

#[test]
fn list_view_indexes_and_hides_nil_cells() {
    let v = list_of(vec![Host::Int(1), Host::Nil, Host::Int(3)]);
    let l = v.try_list().unwrap();
    assert_eq!(l.len(), 3);
    assert_eq!(l.at(0), Some(CorvusValue::from_host(Host::Int(1))));
    assert_eq!(l.at(1), None);
    assert_eq!(l.at(2), Some(CorvusValue::from_host(Host::Int(3))));
    assert_eq!(l.at(3), None);
    let all = l.values();
    assert_eq!(all.len(), 3);
    assert_eq!(all[1], CorvusValue::from_host(Host::Nil));
}

#[test]
fn record_view_skips_malformed_keys() {
    let v = table_of(vec![
        (Host::Sym(String::from("a")), Host::Int(1)),
        (Host::Sym(String::from("b")), Host::Int(2)),
        (Host::Int(7), Host::Int(3)),
    ]);
    let r = v.try_record().unwrap();
    let entries = r.entries();
    assert_eq!(entries.len(), 2);
    assert_eq!(entries[0].0, "a");
    assert_eq!(entries[0].1, CorvusValue::from_host(Host::Int(1)));
    assert_eq!(entries[1].0, "b");
    assert_eq!(entries[1].1, CorvusValue::from_host(Host::Int(2)));
}

#[test]
fn record_iteration_normalizes_text_keys_and_skips_nil_values() {
    let v = table_of(vec![
        (Host::Text(Vec::from("k".as_bytes())), Host::Int(9)),
        (Host::Sym(String::from("gone")), Host::Nil),
        (Host::Text(vec![0xff]), Host::Int(5)),
    ]);
    let r = v.try_record().unwrap();
    let mut it = RecordIter::new(r);
    assert_eq!(
        it.next(),
        Some((String::from("k"), CorvusValue::from_host(Host::Int(9))))
    );
    assert_eq!(it.next(), None);
}

#[test]
fn record_lookup_normalizes_the_query_key() {
    let v = table_of(vec![
        (Host::Sym(String::from("a")), Host::Int(1)),
        (Host::Text(Vec::from("b".as_bytes())), Host::Int(2)),
        (Host::Sym(String::from("c")), Host::Nil),
    ]);
    let r = v.try_record().unwrap();
    assert_eq!(r.at("a"), Some(CorvusValue::from_host(Host::Int(1))));
    assert_eq!(r.at("b"), Some(CorvusValue::from_host(Host::Int(2))));
    assert_eq!(r.at("c"), None);
    assert_eq!(r.at("missing"), None);
    assert_eq!(r.keys().len(), 3);
}

#[test]
fn host_datum_is_the_wrapped_datum_or_the_nil_marker() {
    let v = CorvusValue::from_bool(true);
    assert_eq!(*v.host_datum(), Host::Bool(true));
    let c = CorvusValue::from_block(Block { handle: 4 });
    assert_eq!(*c.host_datum(), Host::Nil);
}

#[test]
fn call_arguments_translate_values_to_host_data() {
    let args = vec![
        CorvusValue::from_u64(1),
        CorvusValue::from_block(Block { handle: 9 }),
    ];
    let host_args = CorvusValue::call_arguments(&args);
    assert_eq!(host_args.len(), 2);
    assert_eq!(*host_args[0], Host::Int(1));
    assert_eq!(*host_args[1], Host::Nil);
}

#[test]
fn duplicate_is_the_same_value() {
    let v = list_of(vec![Host::Int(1), Host::Bool(true)]);
    assert_eq!(v.duplicate(), v);
    let c = CorvusValue::from_block(Block { handle: 2 });
    assert_eq!(c.duplicate(), c);
}

#[test]
fn gathering_values_uses_the_wrapped_datum() {
    let vs = vec![
        CorvusValue::from_bool(true),
        CorvusValue::from_block(Block { handle: 1 }),
    ];
    let v = CorvusValue::from_values(&vs);
    let l = v.try_list().unwrap();
    assert_eq!(l.at(0), Some(CorvusValue::from_bool(true)));
    assert_eq!(l.at(1), None);
}

#[test]
fn gathering_entries_makes_text_keys() {
    let v = CorvusValue::from_entries(&vec![(String::from("k"), CorvusValue::from_u64(3))]);
    let r = v.try_record().unwrap();
    assert_eq!(r.at("k"), Some(CorvusValue::from_host(Host::Int(3))));
}

#[test]
fn stringify_key_accepts_symbols_and_text() {
    assert_eq!(
        stringify_key(&CorvusValue::from_host(Host::Sym(String::from("s")))),
        Ok(String::from("s"))
    );
    assert_eq!(stringify_key(&CorvusValue::from_text("t")), Ok(String::from("t")));
    assert_eq!(
        stringify_key(&CorvusValue::from_host(Host::Text(vec![0xff]))),
        Err(Error::Encoding)
    );
    assert_eq!(
        stringify_key(&CorvusValue::from_u64(7)),
        Err(Error::Conversion(ViewKind::Text))
    );
}

#[test]
fn truthiness_follows_the_host() {
    assert!(!truthy(&CorvusValue::from_host(Host::Nil)));
    assert!(!truthy(&CorvusValue::from_bool(false)));
    assert!(truthy(&CorvusValue::from_bool(true)));
    assert!(truthy(&CorvusValue::from_u64(0)));
    assert!(truthy(&CorvusValue::from_text("")));
}
