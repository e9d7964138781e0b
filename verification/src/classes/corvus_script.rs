//! A compiled script: the typed syntax tree it was compiled from, the
//! generated host source text, and the inferred metadata the host can read
//! back — the return type and the free-variable type environment. The
//! interpreted path (evaluating the tree against host values) belongs to
//! the external evaluator.

use vstd::prelude::*;
use crate::classes::ClassSpec;
use crate::classes::corvus_type::Type;
use crate::syntax::Syntax;

verus! {

/// The data of one compiled script.
#[derive(Debug)]
pub struct ScriptData {
    pub stx: Syntax,
    pub ruby_code: String,
    pub return_type: Type,
    pub input_types: Vec<(String, Type)>,
}

impl ScriptData {
    /// Gather a compiled script's parts.
    pub fn new(stx: Syntax, ruby_code: String, return_type: Type, input_types: Vec<(String, Type)>)
        -> (r: ScriptData)
        ensures
            r.stx == stx,
            r.ruby_code == ruby_code,
            r.return_type == return_type,
            r.input_types == input_types,
    {
        ScriptData { stx, ruby_code, return_type, input_types }
    }

    /// The generated host source text.
    pub fn ruby_code(&self) -> (r: &String)
        ensures
            *r == self.ruby_code,
    {
        &self.ruby_code
    }

    /// The inferred return type.
    pub fn return_type(&self) -> (r: &Type)
        ensures
            *r == self.return_type,
    {
        &self.return_type
    }

    /// The inferred free-variable type environment.
    pub fn input_types(&self) -> (r: &Vec<(String, Type)>)
        ensures
            *r == self.input_types,
    {
        &self.input_types
    }
}

/// What the script class contributes to the host: construction is reserved
/// to the compiler, calls route through the call convention, and the
/// compiled metadata is readable.
pub open spec fn script_class_spec(c: ClassSpec) -> bool {
    &&& c.name@ == "Script"@
    &&& c.class_methods@.len() == 1 && c.class_methods@[0]@ == "new"@
    &&& c.instance_methods@.len() == 5
    &&& c.instance_methods@[0]@ == "corvus_call"@
    &&& c.instance_methods@[1]@ == "call_interpreted"@
    &&& c.instance_methods@[2]@ == "input_types"@
    &&& c.instance_methods@[3]@ == "return_type"@
    &&& c.instance_methods@[4]@ == "ruby_code"@
    &&& c.consts@.len() == 0
}

/// The script class's registry entry.
pub fn init() -> (r: ClassSpec)
    ensures
        script_class_spec(r),
{
    let mut c = crate::classes::class_spec("Script");
    c.class_methods.push(String::from_str("new"));
    c.instance_methods.push(String::from_str("corvus_call"));
    c.instance_methods.push(String::from_str("call_interpreted"));
    c.instance_methods.push(String::from_str("input_types"));
    c.instance_methods.push(String::from_str("return_type"));
    c.instance_methods.push(String::from_str("ruby_code"));
    c
}

} // verus!
