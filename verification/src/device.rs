//! Device and precision selection: which accelerator a request runs on,
//! which numeric width it uses, and the one silent downgrade the Gemma v3
//! family needs away from Metal.
use vstd::prelude::*;
use crate::model::Family;
use crate::text::str_eq;

verus! {

/// Where tensors are computed.
#[derive(Debug, Clone, Copy, PartialEq, Eq, Structural)]
pub enum DeviceKind {
    Cpu,
    Cuda,
    Metal,
}

/// Numeric width of the weights and activations.
#[derive(Debug, Clone, Copy, PartialEq, Eq, Structural)]
pub enum DtypeKind {
    F16,
    BF16,
    F32,
}

/// Pick the device: forced CPU wins; otherwise CUDA, then Metal, then CPU.
pub fn select_device(force_cpu: bool, cuda_available: bool, metal_available: bool) -> (r:
    DeviceKind)
    ensures
        force_cpu ==> r == DeviceKind::Cpu,
        !force_cpu && cuda_available ==> r == DeviceKind::Cuda,
        !force_cpu && !cuda_available && metal_available ==> r == DeviceKind::Metal,
        !force_cpu && !cuda_available && !metal_available ==> r == DeviceKind::Cpu,
{
    if force_cpu {
        DeviceKind::Cpu
    } else if cuda_available {
        DeviceKind::Cuda
    } else if metal_available {
        DeviceKind::Metal
    } else {
        DeviceKind::Cpu
    }
}

/// The default width for a device: BF16 on CUDA, F16 elsewhere.
pub fn default_dtype(device: DeviceKind) -> (r: DtypeKind)
    ensures
        device == DeviceKind::Cuda ==> r == DtypeKind::BF16,
        device != DeviceKind::Cuda ==> r == DtypeKind::F16,
{
    match device {
        DeviceKind::Cuda => DtypeKind::BF16,
        _ => DtypeKind::F16,
    }
}

/// Parse an explicit width override; anything but the three known names is
/// fatal.
pub fn parse_dtype(s: &str) -> (r: Result<DtypeKind, String>)
    ensures
        s@ == "f16"@ ==> r == Ok::<DtypeKind, String>(DtypeKind::F16),
        s@ == "bf16"@ ==> r == Ok::<DtypeKind, String>(DtypeKind::BF16),
        s@ == "f32"@ ==> r == Ok::<DtypeKind, String>(DtypeKind::F32),
        r is Err <==> s@ != "f16"@ && s@ != "bf16"@ && s@ != "f32"@,
        r matches Err(m) ==> m@ == "Unsupported dtype "@ + s@,
{
    proof {
        reveal_strlit("f16");
        reveal_strlit("bf16");
        reveal_strlit("f32");
        assert("f16"@.len() == 3 && "bf16"@.len() == 4 && "f32"@.len() == 3);
        assert("f16"@ != "bf16"@);
        assert("f16"@ != "f32"@) by {
            assert("f16"@[1] == '1' && "f32"@[1] == '3');
        }
        assert("bf16"@ != "f32"@);
    }
    if str_eq(s, "f16") {
        Ok(DtypeKind::F16)
    } else if str_eq(s, "bf16") {
        Ok(DtypeKind::BF16)
    } else if str_eq(s, "f32") {
        Ok(DtypeKind::F32)
    } else {
        let mut m = String::from_str("Unsupported dtype ");
        m.append(s);
        Err(m)
    }
}

/// The device a family actually runs on: Gemma v3 on Metal is silently
/// moved to the CPU; everything else keeps its device.
pub fn effective_device(family: Family, device: DeviceKind) -> (r: DeviceKind)
    ensures
        family == Family::GemmaV3 && device == DeviceKind::Metal ==> r == DeviceKind::Cpu,
        !(family == Family::GemmaV3 && device == DeviceKind::Metal) ==> r == device,
{
    match (family, device) {
        (Family::GemmaV3, DeviceKind::Metal) => DeviceKind::Cpu,
        _ => device,
    }
}

} // verus!
