use vstd::prelude::*;

verus! {

/// Model file for inference on the CPU.
pub const MODEL_FILENAME_CPU: &'static str = "htdemucs.pt";

/// Model file for inference on a CUDA device.
pub const MODEL_FILENAME_CUDA: &'static str = "htdemucs_cuda.pt";

/// Where the user asked the model to run.
#[derive(Clone, Copy, Debug, PartialEq, Eq, Structural)]
pub enum DeviceChoice {
    Cpu,
    Cuda,
}

/// Where the model does run.
#[derive(Clone, Copy, Debug, PartialEq, Eq, Structural)]
pub enum DeviceKind {
    Cpu,
    Cuda,
}

/// The device to run on and the model file built for it.
#[derive(Clone, Copy, Debug)]
pub struct ModelTarget {
    pub device: DeviceKind,
    pub model_file: &'static str,
}

/// CUDA was asked for but the machine offers none.
#[derive(Clone, Copy, Debug, PartialEq, Eq, Structural)]
pub struct CudaUnavailable;

/// Picks the device and model file for `choice`, given whether a CUDA
/// device is present: the CPU always works, CUDA only where present.
pub fn resolve_device(choice: DeviceChoice, cuda_available: bool) -> (r: Result<
    ModelTarget,
    CudaUnavailable,
>)
    ensures
        choice == DeviceChoice::Cpu ==> (r matches Ok(t) && t.device == DeviceKind::Cpu
            && t.model_file@ == MODEL_FILENAME_CPU@),
        choice == DeviceChoice::Cuda && cuda_available ==> (r matches Ok(t) && t.device
            == DeviceKind::Cuda && t.model_file@ == MODEL_FILENAME_CUDA@),
        choice == DeviceChoice::Cuda && !cuda_available ==> r is Err,
{
    match choice {
        DeviceChoice::Cpu => Ok(ModelTarget { device: DeviceKind::Cpu, model_file: MODEL_FILENAME_CPU }),
        DeviceChoice::Cuda => {
            if cuda_available {
                Ok(ModelTarget { device: DeviceKind::Cuda, model_file: MODEL_FILENAME_CUDA })
            } else {
                Err(CudaUnavailable)
            }
        },
    }
}

/// Why separation options are refused.
#[derive(Clone, Copy, Debug, PartialEq, Eq, Structural)]
pub enum OptionsError {
    /// At least one pass is needed.
    ZeroShifts,
    /// The chunk overlap must lie in `[0, 1)`.
    OverlapOutOfRange,
}

/// Checks separation options: the number of passes first, then whether
/// the chunk overlap lies in `[0, 1)`.
pub fn check_options(shifts: usize, overlap_in_range: bool) -> (r: Result<(), OptionsError>)
    ensures
        shifts == 0 ==> r == Err::<(), OptionsError>(OptionsError::ZeroShifts),
        shifts != 0 && !overlap_in_range ==> r == Err::<(), OptionsError>(
            OptionsError::OverlapOutOfRange,
        ),
        shifts != 0 && overlap_in_range ==> r is Ok,
{
    if shifts == 0 {
        return Err(OptionsError::ZeroShifts);
    }
    if !overlap_in_range {
        return Err(OptionsError::OverlapOutOfRange);
    }
    Ok(())
}

/// What `str::to_lowercase` makes of a string: its Unicode lowercase
/// mapping, character by character.
pub uninterp spec fn lowercase(s: Seq<char>) -> Seq<char>;

/// A character folded to lowercase in the ASCII range: `A`..=`Z` become
/// `a`..=`z`, everything else stays.
pub open spec fn ascii_lower(c: char) -> char {
    if 'A' <= c <= 'Z' {
        ((c as u32) + 32) as char
    } else {
        c
    }
}

/// Calls `str::to_lowercase`. Its result is named `lowercase`; on an
/// all-ASCII string it is the ASCII folding of every character, as the
/// documentation of `str::to_lowercase` gives it. What it does to other
/// characters (the Unicode lowercase tables) is left unsaid.
#[verifier::external_body]
fn to_lowercase(s: &str) -> (r: String)
    ensures
        r@ == lowercase(s@),
        vstd::utf8::is_ascii_chars(s@) ==> r@ == s@.map_values(|c: char| ascii_lower(c)),
{
    s.to_lowercase()
}

/// The device named by an already lowercased name.
pub open spec fn device_for_name(name: Seq<char>) -> Option<DeviceChoice> {
    if name == "cpu"@ {
        Some(DeviceChoice::Cpu)
    } else if name == "cuda"@ {
        Some(DeviceChoice::Cuda)
    } else {
        None
    }
}

/// The device name was neither `cpu` nor `cuda`.
#[derive(Clone, Copy, Debug, PartialEq, Eq, Structural)]
pub struct UnknownDevice;

/// Reads an already lowercased device name: `cpu` or `cuda`.
pub fn device_choice_from_lowercase(name: &str) -> (r: Result<DeviceChoice, UnknownDevice>)
    ensures
        r matches Ok(d) ==> device_for_name(name@) == Some(d),
        r is Err ==> device_for_name(name@) is None,
        r == Ok::<DeviceChoice, UnknownDevice>(DeviceChoice::Cpu) <==> name@ == "cpu"@,
        r == Ok::<DeviceChoice, UnknownDevice>(DeviceChoice::Cuda) <==> name@ == "cuda"@,
        r is Err <==> name@ != "cpu"@ && name@ != "cuda"@,
{
    proof {
        reveal_strlit("cpu");
        reveal_strlit("cuda");
        assert("cpu"@.len() == 3 && "cuda"@.len() == 4);
        assert("cpu"@ != "cuda"@);
    }
    let owned: String = name.to_owned();
    if owned == "cpu".to_owned() {
        Ok(DeviceChoice::Cpu)
    } else if owned == "cuda".to_owned() {
        Ok(DeviceChoice::Cuda)
    } else {
        Err(UnknownDevice)
    }
}

/// Reads a device name given in any case: `cpu` or `cuda` once lowercased.
pub fn parse_device_choice(arg: &str) -> (r: Result<DeviceChoice, UnknownDevice>)
    ensures
        r matches Ok(d) ==> device_for_name(lowercase(arg@)) == Some(d),
        r is Err ==> device_for_name(lowercase(arg@)) is None,
        r == Ok::<DeviceChoice, UnknownDevice>(DeviceChoice::Cpu) <==> lowercase(arg@) == "cpu"@,
        r == Ok::<DeviceChoice, UnknownDevice>(DeviceChoice::Cuda) <==> lowercase(arg@)
            == "cuda"@,
        r is Err <==> lowercase(arg@) != "cpu"@ && lowercase(arg@) != "cuda"@,
{
    let lowered: String = to_lowercase(arg);
    device_choice_from_lowercase(lowered.as_str())
}

} // verus!
