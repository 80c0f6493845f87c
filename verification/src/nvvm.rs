use vstd::prelude::*;

use crate::error::CudaErrorWrapper;

verus! {

/// Turns the status code of an NVVM call into a result: `0` is success; any
/// other code is an `NvvmError` whose message `describe` gives for that code
/// (NVVM's error string). `describe` is called only on failure.
pub fn check_nvvm_error<F: FnOnce(i32) -> String>(code: i32, describe: F) -> (r: Result<(), CudaErrorWrapper>)
    requires
        code != 0 ==> describe.requires((code,)),
    ensures
        r is Ok <==> code == 0,
        r matches Err(e) ==> e matches CudaErrorWrapper::NvvmError(msg) && describe.ensures((code,), msg),
{
    if code == 0 {
        return Ok(());
    }
    let msg = describe(code);
    Err(CudaErrorWrapper::NvvmError(msg))
}

} // verus!
