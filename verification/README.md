# kintsugi

Stem separation for stereo recordings: a track is decoded, cut into
overlapping chunks, run through a neural separation model, and put back
together as four stems (drums, bass, other instruments, vocals).

`src/` is the verified library (Verus): chunk planning and pass shifts,
the overlap-add weight ramp, input checks, planar chunk extraction, model
output and device checks, and the packet loop of the decoder as a state
machine. `app/` is the command-line program around it: file decoding and
WAV writing, the model itself, and the floating-point signal arithmetic.
