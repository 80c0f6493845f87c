use vstd::prelude::*;

verus! {

/// Where a tensor lives: host memory, or the CUDA device with the given ordinal.
#[derive(Clone, Copy, Debug, PartialEq, Eq, Structural)]
pub enum Device {
    Cpu,
    Cuda(i32),
}

/// Backing storage of a tensor; the variant says which memory holds the bytes.
enum TensorData {
    CpuData(Vec<u8>),
    CudaData(Vec<u8>),
}

/// A tensor: a device, a shape, and storage held on that device.
pub struct Tensor {
    pub device: Device,
    pub shape: Vec<i32>,
    data: TensorData,
}

/// The mathematical model of a tensor.
pub struct TensorModel {
    pub device: Device,
    pub shape: Seq<i32>,
    /// Whether the storage is device (CUDA) memory rather than host memory.
    pub on_cuda: bool,
    /// The bytes of the storage.
    pub storage: Seq<u8>,
}

impl TensorModel {
    /// A tensor is well formed when its storage lives on its own device.
    pub open spec fn wf(self) -> bool {
        self.on_cuda <==> (self.device is Cuda)
    }
}

impl View for Tensor {
    type V = TensorModel;

    closed spec fn view(&self) -> TensorModel {
        TensorModel {
            device: self.device,
            shape: self.shape@,
            on_cuda: self.data is CudaData,
            storage: match self.data {
                TensorData::CpuData(b) => b@,
                TensorData::CudaData(b) => b@,
            },
        }
    }
}

impl Tensor {
    /// Creates a tensor on `device` with the given `shape`; its storage is
    /// empty and is placed on that same device.
    pub fn new(device: Device, shape: Vec<i32>) -> (t: Tensor)
        ensures
            t@.device == device,
            t@.shape == shape@,
            t@.wf(),
            t@.storage.len() == 0,
    {
        let data = match device {
            Device::Cpu => TensorData::CpuData(Vec::new()),
            Device::Cuda(_) => TensorData::CudaData(Vec::new()),
        };
        Tensor { device, shape, data }
    }
}

} // verus!
