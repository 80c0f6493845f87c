use rust_cuda::tensor::{Device, Tensor};

#[test]
fn tensor_test_test_01() {
    let a = Tensor::new(Device::Cpu, vec![10]);
    assert_eq!(a.device, Device::Cpu);
    assert_eq!(a.shape, vec![10]);
    println!("1111")
}

#[test]
fn tensor_on_cuda_keeps_device_and_shape() {
    let t = Tensor::new(Device::Cuda(1), vec![2, 3, 4]);
    assert_eq!(t.device, Device::Cuda(1));
    assert_eq!(t.shape, vec![2, 3, 4]);
}

#[test]
fn tensor_with_empty_shape() {
    let t = Tensor::new(Device::Cpu, vec![]);
    assert!(t.shape.is_empty());
}
