//! The script that opens a session of the JavaScript engine in which the
//! expressions of a document are evaluated.

use vstd::prelude::*;

verus! {

/// The script that binds `inputs`, `outputs` and `self` to the values that
/// are given as JSON text.
pub open spec fn init_script_of(inputs: Seq<char>, outputs: Seq<char>, self_obj: Seq<char>) -> Seq<
    char,
> {
    "const inputs = "@ + inputs + ";const outputs = "@ + outputs + ";const self = "@ + self_obj
        + ";"@
}

/// The script with which a session begins: it binds `inputs`, `outputs`
/// and `self` to the values that are given as JSON text.
pub fn init_script(cwl_inputs: &str, cwl_outputs: &str, cwl_self: &str) -> (script: String)
    ensures
        script@ == init_script_of(cwl_inputs@, cwl_outputs@, cwl_self@),
{
    let mut script = "const inputs = ".to_string();
    script.append(cwl_inputs);
    script.append(";const outputs = ");
    script.append(cwl_outputs);
    script.append(";const self = ");
    script.append(cwl_self);
    script.append(";");
    script
}

} // verus!
