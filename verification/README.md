# asdcplib

Safe Rust access to AS-DCP and AS-02 (IMF) MXF files through the C++ asdcplib
library: JPEG 2000 (mono and stereoscopic), PCM audio, timed text and Dolby
Atmos essence, with AES and HMAC contexts.

## Layout

- `src/` is the verified library (Verus). It holds the value types
  (writer info, rationals, essence types, label sets, the picture, audio,
  timed text and Atmos descriptors, HDR metadata, the JPEG 2000 codestream
  header and the AS-02 RGBA and JPEG 2000 sub-descriptors), the plain-data
  records that cross to the C library (`sys`), every conversion between the
  two, and the reading of the library's result codes. Each conversion states
  exactly which record it produces or reads, and the roundtrip laws (a value
  written to its record and read back is the value itself) are proved as
  public proof functions.
- `app/` owns the C handles and makes the calls: the `#[repr(C)]` layout of
  the records and the shim's function declarations (`app/ffi.rs`), the
  readers, writers and crypto contexts, and the error type with the
  `Display` impl that `thiserror` derives.
- `tests/` runs the library's functions on concrete values.
