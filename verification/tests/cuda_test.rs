use rust_cuda::cuda::check_cuda_error;
use rust_cuda::error::CudaErrorWrapper;
use rust_cuda::nvvm::check_nvvm_error;

#[test]
fn cuda_success_does_not_ask_for_a_message() {
    let r = check_cuda_error(0, |_| panic!("no message is needed on success"));
    assert!(r.is_ok());
}

#[test]
fn cuda_failure_carries_the_driver_message() {
    let r = check_cuda_error(100, |code| format!("no device ({})", code));
    match r {
        Err(CudaErrorWrapper::CudaError(m)) => assert_eq!(m, "no device (100)"),
        other => panic!("unexpected {:?}", other),
    }
}

#[test]
fn cuda_negative_code_is_a_failure() {
    assert!(check_cuda_error(-1, |_| String::from("bad")).is_err());
}

#[test]
fn nvvm_success_and_failure() {
    assert!(check_nvvm_error(0, |_| panic!("not called")).is_ok());
    match check_nvvm_error(7, |_| String::from("NVVM_ERROR_INVALID_IR")) {
        Err(CudaErrorWrapper::NvvmError(m)) => assert_eq!(m, "NVVM_ERROR_INVALID_IR"),
        other => panic!("unexpected {:?}", other),
    }
}

#[test]
fn error_texts() {
    assert_eq!(CudaErrorWrapper::CudaError(String::from("x")).to_string(), "CUDA错误: x");
    assert_eq!(CudaErrorWrapper::NvvmError(String::from("y")).to_string(), "NVVM错误: y");
    assert_eq!(CudaErrorWrapper::Other(String::from("z")).to_string(), "其他错误: z");
}
