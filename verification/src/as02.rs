//! AS-02 (IMF, SMPTE ST 2067-5) essence: the picture descriptors an IMF
//! picture track carries beyond the shared AS-DCP ones.
//!
//! AS-02 is the IMF Essence Component wrapping mandated by IMF (ST 2067). It
//! differs from AS-DCP: JP2K is frame-wrapped with a distributed index, PCM is
//! clip-wrapped (so the reader needs the edit rate to slice the clip into
//! frames), and encryption is not available for the clip-wrapped PCM path.
//! Descriptors are shared with the AS-DCP modules ([`crate::jp2k::PictureDescriptor`],
//! [`crate::pcm::AudioDescriptor`], [`crate::timed_text::TimedTextDescriptor`]).
pub mod jp2k;
pub mod pcm;
