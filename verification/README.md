# adsb_decoder

Decoding of ADS-B (Mode S extended squitter, downlink format 17) frames,
verified with Verus.

- `src/frame.rs`: parsing of 112-bit frames from hexadecimal text and access
  to their bit fields.
- `src/message/`: the messages by type code: aircraft identification,
  airborne position (altitude and CPR fields, CPR zone indices), airborne
  velocity.
- `src/tracker.rs`, `src/tracker/`: the state of each aircraft built from its
  messages, and the removal of aircraft not seen for a minute. The global
  position type is a parameter: the tracker asks a decoder for the position
  of each even/odd CPR pair at most 10 s apart.
- `src/text.rs`, `src/clock.rs`, `src/source.rs`: what the library takes from
  std (string trimming and integer parsing, the clock, I/O errors).
- `app/`: a visualizer of the aircraft of a file of frames, with the
  floating-point parts: global CPR position decoding, speed and heading.
