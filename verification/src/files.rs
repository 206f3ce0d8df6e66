use vstd::prelude::*;

verus! {

/// Name of the WAV file written for an input whose file stem is `stem`.
pub fn wav_file_name(stem: &str) -> (name: String)
    ensures
        name@ == stem@ + ".wav"@,
{
    let name: String = stem.to_owned();
    name.concat(".wav")
}

} // verus!
