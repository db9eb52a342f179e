use vstd::prelude::*;

use crate::compiler::CompileResult;
use crate::ir::IrType;

verus! {

/// A request to show `source` in the representation `ir_type`.
pub struct CompileRequest {
    pub source: String,
    pub ir_type: IrType,
}

/// What a request is answered with.
pub struct CompileResponse {
    pub success: bool,
    pub ir_output: String,
    pub messages: String,
}

impl From<CompileResult> for CompileResponse {
    /// Carries every field of the result over unchanged.
    fn from(result: CompileResult) -> (r: CompileResponse)
        ensures
            r.success == result.success,
            r.ir_output@ == result.ir_output@,
            r.messages@ == result.messages@,
    {
        CompileResponse {
            success: result.success,
            ir_output: result.ir_output,
            messages: result.messages,
        }
    }
}

impl vstd::std_specs::convert::FromSpecImpl<CompileResult> for CompileResponse {
    open spec fn obeys_from_spec() -> bool {
        true
    }

    open spec fn from_spec(result: CompileResult) -> CompileResponse {
        CompileResponse {
            success: result.success,
            ir_output: result.ir_output,
            messages: result.messages,
        }
    }
}

} // verus!
