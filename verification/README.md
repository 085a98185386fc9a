# Ivylace

A four-band glue compressor with per-band analog-style saturation, as a
CLAP/VST3 plugin.

- `src/` is the verified library (Verus): stepped parameter tables and
  index clamping, solo routing, GR-meter decimation and peak hold, the
  FIR tap table and delay lines of the oversampler, the spectrum buffer
  rotation and the FFT's bit-reversal reordering, the BPM detector's
  onset tracking and inter-onset-interval histogram, the AUTO analysis
  overlay, knob gestures, the A/B and TRIM buttons, the editor palette,
  and the decoding of the logo.
- `app/` is the plugin around it: host parameters, the audio callback,
  the floating-point DSP (crossover, compressor, saturation, oversampling
  filters, envelopes, RMS) and the editor's drawing.
- `tests/` exercises the library.
