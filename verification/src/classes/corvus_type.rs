//! The structural type shapes this boundary consumes: the closed set of
//! type variants, their constructors, and structural equality, where two
//! record types are equal exactly when their field maps agree as maps —
//! same key set, same type and optionality per key — regardless of the
//! order fields were declared in.

use vstd::prelude::*;
use crate::classes::ClassSpec;

verus! {

/// One field of a record type: its type and whether it may be absent.
#[derive(Debug)]
pub struct RecordField {
    pub ty: Type,
    pub optional: bool,
}

/// The closed set of type shapes. A record type keeps its fields as
/// (name, field) pairs in declaration order with unique names, standing for
/// a field map; a block type is a closure shape from input types to an
/// output type.
#[derive(Debug)]
pub enum Type {
    Any,
    Num,
    Str,
    Bool,
    Time,
    /// The flag records whether the record is open to further fields.
    Record(bool, Vec<(String, RecordField)>),
    List(Box<Type>),
    Block(Vec<Type>, Box<Type>),
    Var(String),
}

/// The field declared under `name`, by first declaration.
pub open spec fn field_lookup(fields: Seq<(String, RecordField)>, name: Seq<char>) -> Option<
    RecordField,
>
    decreases fields.len(),
{
    if fields.len() == 0 {
        None
    } else if fields[0].0@ == name {
        Some(fields[0].1)
    } else {
        field_lookup(fields.drop_first(), name)
    }
}

/// A record type's field names are unique.
pub open spec fn fields_wf(fields: Seq<(String, RecordField)>) -> bool {
    forall|i: int, j: int|
        0 <= i < j < fields.len() ==> (#[trigger] fields[i]).0@ != (#[trigger] fields[j]).0@
}

/// Every field of `fa` from position `i` on is declared in `fb` with an
/// equal type and the same optionality.
pub open spec fn fields_match(
    fa: Seq<(String, RecordField)>,
    fb: Seq<(String, RecordField)>,
    i: int,
) -> bool
    decreases fa, 0int, fa.len() - i,
{
    if i < 0 || i >= fa.len() {
        true
    } else {
        (match field_lookup(fb, fa[i].0@) {
            Some(f) => type_eq(fa[i].1.ty, f.ty) && fa[i].1.optional == f.optional,
            None => false,
        }) && fields_match(fa, fb, i + 1)
    }
}

/// Every field name of `fields` from position `i` on is declared in
/// `other`.
pub open spec fn names_covered(
    fields: Seq<(String, RecordField)>,
    other: Seq<(String, RecordField)>,
    i: int,
) -> bool
    decreases fields.len() - i,
{
    if i < 0 || i >= fields.len() {
        true
    } else {
        field_lookup(other, fields[i].0@) is Some && names_covered(fields, other, i + 1)
    }
}

/// The input types agree pairwise from position `i` on.
pub open spec fn inputs_eq(ia: Seq<Type>, ib: Seq<Type>, i: int) -> bool
    decreases ia, 0int, ia.len() - i,
{
    if i < 0 || i >= ia.len() || i >= ib.len() {
        true
    } else {
        type_eq(ia[i], ib[i]) && inputs_eq(ia, ib, i + 1)
    }
}

/// Structural type equality: recursively equal, record field maps compared
/// by key set and per-field type and optionality.
pub open spec fn type_eq(a: Type, b: Type) -> bool
    decreases a, 1int, 0int,
{
    match (a, b) {
        (Type::Any, Type::Any) => true,
        (Type::Num, Type::Num) => true,
        (Type::Str, Type::Str) => true,
        (Type::Bool, Type::Bool) => true,
        (Type::Time, Type::Time) => true,
        (Type::Record(p1, f1), Type::Record(p2, f2)) => p1 == p2 && fields_match(f1@, f2@, 0)
            && names_covered(f2@, f1@, 0),
        (Type::List(e1), Type::List(e2)) => type_eq(*e1, *e2),
        (Type::Block(i1, o1), Type::Block(i2, o2)) => i1@.len() == i2@.len() && inputs_eq(
            i1@,
            i2@,
            0,
        ) && type_eq(*o1, *o2),
        (Type::Var(n1), Type::Var(n2)) => n1@ == n2@,
        _ => false,
    }
}

impl Type {
    /// A type variable of the given name.
    pub fn var(name: &str) -> (r: Type)
        ensures
            r matches Type::Var(n) && n@ == name@,
    {
        Type::Var(String::from_str(name))
    }

    /// The type of lists whose elements have the given type.
    pub fn list_of(inner: Type) -> (r: Type)
        ensures
            r matches Type::List(e) && *e == inner,
    {
        Type::List(Box::new(inner))
    }

    /// The type of blocks from the given input types to the given output
    /// type.
    pub fn block_of(inputs: Vec<Type>, output: Type) -> (r: Type)
        ensures
            r matches Type::Block(i, o) && i == inputs && *o == output,
    {
        Type::Block(inputs, Box::new(output))
    }

    /// An open record type with the given fields, in declaration order.
    pub fn record_of(fields: Vec<(String, RecordField)>) -> (r: Type)
        ensures
            r matches Type::Record(p, f) && p == true && f == fields,
    {
        Type::Record(true, fields)
    }

    /// A record type's fields, in declaration order; absent for any other
    /// shape.
    pub fn record_fields(&self) -> (r: Option<&Vec<(String, RecordField)>>)
        ensures
            match *self {
                Type::Record(_, f) => r matches Some(g) && *g == f,
                _ => r is None,
            },
    {
        match self {
            Type::Record(_, fields) => Some(fields),
            _ => None,
        }
    }

    /// Whether the two types are structurally equal.
    pub fn equals(&self, other: &Type) -> (r: bool)
        ensures
            r == type_eq(*self, *other),
        decreases *self, 1int,
    {
        match (self, other) {
            (Type::Any, Type::Any) => true,
            (Type::Num, Type::Num) => true,
            (Type::Str, Type::Str) => true,
            (Type::Bool, Type::Bool) => true,
            (Type::Time, Type::Time) => true,
            (Type::Record(p1, f1), Type::Record(p2, f2)) => *p1 == *p2 && fields_match_exec(
                f1,
                f2,
            ) && names_covered_exec(f2, f1),
            (Type::List(e1), Type::List(e2)) => e1.equals(e2),
            (Type::Block(i1, o1), Type::Block(i2, o2)) => {
                if i1.len() != i2.len() {
                    false
                } else {
                    inputs_eq_exec(i1, i2) && o1.equals(o2)
                }
            },
            (Type::Var(n1), Type::Var(n2)) => crate::value::strings_equal(n1, n2.as_str()),
            _ => false,
        }
    }
}

/// The field declared under `name`, by first declaration.
fn field_lookup_exec<'a>(fields: &'a Vec<(String, RecordField)>, name: &String) -> (r: Option<
    &'a RecordField,
>)
    ensures
        match field_lookup(fields@, name@) {
            Some(f) => r matches Some(g) && *g == f,
            None => r is None,
        },
{
    let n = fields.len();
    proof {
        assert(fields@.subrange(0, n as int) =~= fields@);
    }
    for i in 0..n
        invariant
            n == fields@.len(),
            field_lookup(fields@, name@) == field_lookup(
                fields@.subrange(i as int, n as int),
                name@,
            ),
    {
        proof {
            assert(fields@.subrange(i as int, n as int)[0] == fields@[i as int]);
            assert(fields@.subrange(i as int, n as int).drop_first() =~= fields@.subrange(
                i + 1,
                n as int,
            ));
        }
        if crate::value::strings_equal(&fields[i].0, name.as_str()) {
            return Some(&fields[i].1);
        }
    }
    None
}

fn fields_match_exec(fa: &Vec<(String, RecordField)>, fb: &Vec<(String, RecordField)>) -> (r: bool)
    ensures
        r == fields_match(fa@, fb@, 0),
    decreases fa, 0int,
{
    let n = fa.len();
    for i in 0..n
        invariant
            n == fa@.len(),
            fields_match(fa@, fb@, 0) == fields_match(fa@, fb@, i as int),
    {
        let ok = match field_lookup_exec(fb, &fa[i].0) {
            Some(f) => fa[i].1.ty.equals(&f.ty) && fa[i].1.optional == f.optional,
            None => false,
        };
        if !ok {
            return false;
        }
    }
    true
}

fn names_covered_exec(fields: &Vec<(String, RecordField)>, other: &Vec<(String, RecordField)>) -> (r:
    bool)
    ensures
        r == names_covered(fields@, other@, 0),
{
    let n = fields.len();
    for i in 0..n
        invariant
            n == fields@.len(),
            names_covered(fields@, other@, 0) == names_covered(fields@, other@, i as int),
    {
        let found = match field_lookup_exec(other, &fields[i].0) {
            Some(_) => true,
            None => false,
        };
        if !found {
            return false;
        }
    }
    true
}

fn inputs_eq_exec(ia: &Vec<Type>, ib: &Vec<Type>) -> (r: bool)
    requires
        ia@.len() == ib@.len(),
    ensures
        r == inputs_eq(ia@, ib@, 0),
    decreases ia, 0int,
{
    let n = ia.len();
    for i in 0..n
        invariant
            n == ia@.len() == ib@.len(),
            inputs_eq(ia@, ib@, 0) == inputs_eq(ia@, ib@, i as int),
    {
        if !ia[i].equals(&ib[i]) {
            return false;
        }
    }
    true
}

impl RecordField {
    /// A field of the given type and optionality.
    pub fn new(ty: Type, optional: bool) -> (r: RecordField)
        ensures
            r.ty == ty,
            r.optional == optional,
    {
        RecordField { ty, optional }
    }

    /// The field's type.
    pub fn get_type(&self) -> (r: &Type)
        ensures
            *r == self.ty,
    {
        &self.ty
    }
}

/// The primitive type constants, under their host-visible constant names,
/// in definition order.
pub fn primitives() -> (r: Vec<(String, Type)>)
    ensures
        r@.len() == 5,
        r@[0].0@ == "Any"@ && r@[0].1 == Type::Any,
        r@[1].0@ == "Number"@ && r@[1].1 == Type::Num,
        r@[2].0@ == "String"@ && r@[2].1 == Type::Str,
        r@[3].0@ == "Bool"@ && r@[3].1 == Type::Bool,
        r@[4].0@ == "Time"@ && r@[4].1 == Type::Time,
{
    let mut r: Vec<(String, Type)> = Vec::new();
    r.push((String::from_str("Any"), Type::Any));
    r.push((String::from_str("Number"), Type::Num));
    r.push((String::from_str("String"), Type::Str));
    r.push((String::from_str("Bool"), Type::Bool));
    r.push((String::from_str("Time"), Type::Time));
    r
}

/// What the type class contributes to the host: its constructors as class
/// methods, its comparison and accessor instance methods, and the primitive
/// type constants.
pub open spec fn type_class_spec(c: ClassSpec) -> bool {
    &&& c.name@ == "Type"@
    &&& c.class_methods@.len() == 4
    &&& c.class_methods@[0]@ == "record"@
    &&& c.class_methods@[1]@ == "var"@
    &&& c.class_methods@[2]@ == "block"@
    &&& c.class_methods@[3]@ == "list"@
    &&& c.instance_methods@.len() == 5
    &&& c.instance_methods@[0]@ == "to_s"@
    &&& c.instance_methods@[1]@ == "=="@
    &&& c.instance_methods@[2]@ == "inspect"@
    &&& c.instance_methods@[3]@ == "fields"@
    &&& c.instance_methods@[4]@ == "check_value"@
    &&& c.consts@.len() == 5
    &&& c.consts@[0]@ == "Any"@
    &&& c.consts@[1]@ == "Number"@
    &&& c.consts@[2]@ == "String"@
    &&& c.consts@[3]@ == "Bool"@
    &&& c.consts@[4]@ == "Time"@
}

/// The type class's registry entry.
pub fn init() -> (r: ClassSpec)
    ensures
        type_class_spec(r),
{
    let mut c = crate::classes::class_spec("Type");
    c.class_methods.push(String::from_str("record"));
    c.class_methods.push(String::from_str("var"));
    c.class_methods.push(String::from_str("block"));
    c.class_methods.push(String::from_str("list"));
    c.instance_methods.push(String::from_str("to_s"));
    c.instance_methods.push(String::from_str("=="));
    c.instance_methods.push(String::from_str("inspect"));
    c.instance_methods.push(String::from_str("fields"));
    c.instance_methods.push(String::from_str("check_value"));
    c.consts.push(String::from_str("Any"));
    c.consts.push(String::from_str("Number"));
    c.consts.push(String::from_str("String"));
    c.consts.push(String::from_str("Bool"));
    c.consts.push(String::from_str("Time"));
    c
}

} // verus!
