//! The devices that a model can be placed on.

use vstd::prelude::*;

verus! {

/// A device, told apart by what it is and by its number among those of its sort.
#[derive(Clone, Copy, Debug, PartialEq, Eq, Structural)]
pub enum Device {
    Cpu,
    Cuda { gpu_id: usize },
    Metal { gpu_id: usize },
}

impl Device {
    pub fn is_cuda(&self) -> (r: bool)
        ensures
            r == (*self is Cuda),
    {
        matches!(self, Device::Cuda { .. })
    }

    pub fn is_cpu(&self) -> (r: bool)
        ensures
            r == (*self is Cpu),
    {
        matches!(self, Device::Cpu)
    }
}

/// Every device is a CUDA device.
pub open spec fn all_cuda(devices: Seq<Device>) -> bool {
    forall|i: int| 0 <= i < devices.len() ==> (#[trigger] devices[i]) is Cuda
}

/// Some device is the CPU.
pub open spec fn any_cpu(devices: Seq<Device>) -> bool {
    exists|i: int| 0 <= i < devices.len() && (#[trigger] devices[i]) is Cpu
}

/// Tests whether all of `devices` are CUDA devices.
pub fn are_all_cuda(devices: &Vec<Device>) -> (r: bool)
    ensures
        r == all_cuda(devices@),
{
    let mut i: usize = 0;
    while i < devices.len()
        invariant
            i <= devices.len(),
            forall|j: int| 0 <= j < i ==> (#[trigger] devices[j]) is Cuda,
        decreases devices.len() - i,
    {
        if !devices[i].is_cuda() {
            return false;
        }
        i = i + 1;
    }
    true
}

/// Tests whether the CPU is among `devices`.
pub fn includes_cpu(devices: &Vec<Device>) -> (r: bool)
    ensures
        r == any_cpu(devices@),
{
    let mut i: usize = 0;
    while i < devices.len()
        invariant
            i <= devices.len(),
            forall|j: int| 0 <= j < i ==> !((#[trigger] devices[j]) is Cpu),
        decreases devices.len() - i,
    {
        if devices[i].is_cpu() {
            return true;
        }
        i = i + 1;
    }
    false
}

/// Copies a list of devices.
pub fn copy_devices(devices: &Vec<Device>) -> (r: Vec<Device>)
    ensures
        r@ == devices@,
{
    let mut r: Vec<Device> = Vec::new();
    let mut i: usize = 0;
    while i < devices.len()
        invariant
            i <= devices.len(),
            r@ == devices@.take(i as int),
        decreases devices.len() - i,
    {
        r.push(devices[i]);
        i = i + 1;
        proof {
            assert(devices@.take(i as int) =~= devices@.take(i - 1).push(devices@[i - 1]));
        }
    }
    proof {
        assert(devices@.take(i as int) =~= devices@);
    }
    r
}

/// One device decides: the CPU at any place makes a list one with the CPU, anything but a CUDA
/// device at any place makes it one that is not all CUDA, and both hold only for such a device.
pub proof fn law_one_device_decides(devices: Seq<Device>, i: int)
    requires
        0 <= i < devices.len(),
    ensures
        devices[i] == Device::Cpu ==> any_cpu(devices) && !all_cuda(devices),
        !(devices[i] is Cuda) ==> !all_cuda(devices),
        (forall|j: int| 0 <= j < devices.len() ==> #[trigger] devices[j] != Device::Cpu) ==> !any_cpu(devices),
        (forall|j: int| 0 <= j < devices.len() ==> (#[trigger] devices[j]) is Cuda) ==> all_cuda(
            devices,
        ),
{
}

} // verus!
