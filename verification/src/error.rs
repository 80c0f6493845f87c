use vstd::prelude::*;

verus! {

/// The errors of the CUDA driver and NVVM bindings, each with its message.
#[derive(Debug)]
pub enum CudaErrorWrapper {
    /// A CUDA driver call failed.
    CudaError(String),
    /// An NVVM compiler call failed.
    NvvmError(String),
    /// Anything else (such as reading the IR source).
    Other(String),
}

impl CudaErrorWrapper {
    /// The text shown for the error: a label of its kind, then its message.
    pub open spec fn text(self) -> Seq<char> {
        match self {
            CudaErrorWrapper::CudaError(m) => "CUDA错误: "@ + m@,
            CudaErrorWrapper::NvvmError(m) => "NVVM错误: "@ + m@,
            CudaErrorWrapper::Other(m) => "其他错误: "@ + m@,
        }
    }

    /// The text shown for the error.
    pub fn to_string(&self) -> (s: String)
        ensures
            s@ == self.text(),
    {
        let (mut s, m) = match self {
            CudaErrorWrapper::CudaError(m) => (String::from_str("CUDA错误: "), m),
            CudaErrorWrapper::NvvmError(m) => (String::from_str("NVVM错误: "), m),
            CudaErrorWrapper::Other(m) => (String::from_str("其他错误: "), m),
        };
        s.append(m.as_str());
        s
    }
}

} // verus!
