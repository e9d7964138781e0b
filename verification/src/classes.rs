//! The host-facing classes of the boundary, described as an explicit
//! registry instead of mutable global registration: each component states
//! which class it contributes, with which class-level methods, instance
//! methods and constants, and `init` gathers them in initialization order.
//! The embedding reads this manifest to define the actual host classes.

use vstd::prelude::*;

pub mod corvus_args;
pub mod corvus_compiler;
pub mod corvus_namespace;
pub mod corvus_script;
pub mod corvus_signature;
pub mod corvus_type;

verus! {

/// One host class the boundary contributes: its name, its class-level
/// method names, its instance method names, and its constant names, each in
/// definition order.
#[derive(Debug)]
pub struct ClassSpec {
    pub name: String,
    pub class_methods: Vec<String>,
    pub instance_methods: Vec<String>,
    pub consts: Vec<String>,
}

/// The whole registry, in initialization order.
pub fn init() -> (r: Vec<ClassSpec>)
    ensures
        r@.len() == 6,
        corvus_type::type_class_spec(r@[0]),
        corvus_signature::signature_class_spec(r@[1]),
        corvus_namespace::namespace_class_spec(r@[2]),
        corvus_args::args_class_spec(r@[3]),
        corvus_compiler::compiler_class_spec(r@[4]),
        corvus_script::script_class_spec(r@[5]),
{
    let mut r: Vec<ClassSpec> = Vec::new();
    r.push(corvus_type::init());
    r.push(corvus_signature::init());
    r.push(corvus_namespace::init());
    r.push(corvus_args::init());
    r.push(corvus_compiler::init());
    r.push(corvus_script::init());
    r
}

/// A class specification with the given name and no methods or constants
/// yet.
pub fn class_spec(name: &str) -> (r: ClassSpec)
    ensures
        r.name@ == name@,
        r.class_methods@.len() == 0,
        r.instance_methods@.len() == 0,
        r.consts@.len() == 0,
{
    ClassSpec {
        name: String::from_str(name),
        class_methods: Vec::new(),
        instance_methods: Vec::new(),
        consts: Vec::new(),
    }
}

} // verus!
