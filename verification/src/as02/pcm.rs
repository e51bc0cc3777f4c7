//! AS-02 PCM audio (clip-wrapped): the soundfield group items an IMF MCA
//! wrap writes.
use vstd::prelude::*;

use crate::{Error, Result};

verus! {

/// The four ST 2067-2 section 5.3.6.5 items, and the RFC 5646 spoken
/// language, written on the one soundfield group an IMF MCA wrap carries.
/// They are free text, compared against no registry, but none may be empty:
/// an empty string reads as missing.
#[derive(Debug, Clone, Copy)]
pub struct SoundfieldGroupProperties<'a> {
    pub language: &'a str,
    pub title: &'a str,
    pub title_version: &'a str,
    pub audio_content_kind: &'a str,
    pub audio_element_kind: &'a str,
}

impl<'a> SoundfieldGroupProperties<'a> {
    /// Whether every item holds text.
    pub open spec fn spec_complete(self) -> bool {
        &&& self.language@.len() > 0
        &&& self.title@.len() > 0
        &&& self.title_version@.len() > 0
        &&& self.audio_content_kind@.len() > 0
        &&& self.audio_element_kind@.len() > 0
    }

    /// Refuses the items, before anything is written, when one is empty.
    pub fn check(&self) -> (r: Result<()>)
        ensures
            self.spec_complete() ==> r == Ok::<(), Error>(()),
            !self.spec_complete() ==> r == Err::<(), Error>(
                Error::InvalidArgument("empty soundfield group property"),
            ),
    {
        if self.language.is_empty() || self.title.is_empty() || self.title_version.is_empty()
            || self.audio_content_kind.is_empty() || self.audio_element_kind.is_empty() {
            Err(Error::InvalidArgument("empty soundfield group property"))
        } else {
            Ok(())
        }
    }
}

} // verus!
