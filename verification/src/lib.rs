//! AS-DCP and AS-02 MXF file access: the values, descriptors and rules of the
//! asdcplib interface, checked against their contracts.
//!
//! The records that cross to the C library live in [`sys`]; the safe
//! descriptor types convert to and from them, and the result codes the
//! library returns are read by the functions of [`error`].
use vstd::prelude::*;

pub mod as02;
pub mod atmos;
pub mod error;
pub mod jp2k;
pub mod pcm;
pub mod sys;
pub mod timed_text;

pub use error::{check, Error, Result};

verus! {

/// MXF label set (determines SMPTE vs Interop labeling).
#[derive(Debug, Clone, Copy, PartialEq, Eq, Structural)]
pub enum LabelSet {
    Unknown,
    Interop,
    Smpte,
}

impl LabelSet {
    /// The label set's number in the C interface.
    pub open spec fn spec_code(self) -> i32 {
        match self {
            LabelSet::Unknown => 0,
            LabelSet::Interop => 1,
            LabelSet::Smpte => 2,
        }
    }

    /// The label set a C interface number stands for; numbers other than
    /// 1 and 2 read as `Unknown`.
    pub open spec fn spec_from_code(code: i32) -> LabelSet {
        if code == 1 {
            LabelSet::Interop
        } else if code == 2 {
            LabelSet::Smpte
        } else {
            LabelSet::Unknown
        }
    }

    /// The label set's number in the C interface.
    pub fn code(self) -> (code: i32)
        ensures
            code == self.spec_code(),
    {
        match self {
            LabelSet::Unknown => 0,
            LabelSet::Interop => 1,
            LabelSet::Smpte => 2,
        }
    }

    /// The label set a C interface number stands for.
    pub fn from_code(code: i32) -> (set: LabelSet)
        ensures
            set == LabelSet::spec_from_code(code),
    {
        match code {
            1 => LabelSet::Interop,
            2 => LabelSet::Smpte,
            _ => LabelSet::Unknown,
        }
    }
}

/// Every label set survives the trip through its C interface number.
pub proof fn lemma_label_set_code_roundtrip(set: LabelSet)
    ensures
        LabelSet::spec_from_code(set.spec_code()) == set,
{
}

/// Essence type detected in an MXF file, numbered as asdcplib's
/// `EssenceType_t`.
#[derive(Debug, Clone, Copy, PartialEq, Eq, Structural)]
pub enum EssenceType {
    Unknown,
    Mpeg2Ves,
    Jpeg2000,
    Pcm24b48k,
    Pcm24b96k,
    TimedText,
    Jpeg2000Stereo,
    DcDataUnknown,
    DcDataDolbyAtmos,
    As02Jpeg2000,
    As02Pcm24b48k,
    As02Pcm24b96k,
    As02TimedText,
    As02Isxd,
    As02Aces,
    As02Iab,
    As02JpegXs,
    JpegXs,
}

/// The essence type asdcplib numbers `code`; codes outside 1 through 17
/// (the unknown type and `ESS_MAX` onwards) read as `Unknown`.
pub open spec fn essence_type_of_code(code: i32) -> EssenceType {
    if code == 1 {
        EssenceType::Mpeg2Ves
    } else if code == 2 {
        EssenceType::Jpeg2000
    } else if code == 3 {
        EssenceType::Pcm24b48k
    } else if code == 4 {
        EssenceType::Pcm24b96k
    } else if code == 5 {
        EssenceType::TimedText
    } else if code == 6 {
        EssenceType::Jpeg2000Stereo
    } else if code == 7 {
        EssenceType::DcDataUnknown
    } else if code == 8 {
        EssenceType::DcDataDolbyAtmos
    } else if code == 9 {
        EssenceType::As02Jpeg2000
    } else if code == 10 {
        EssenceType::As02Pcm24b48k
    } else if code == 11 {
        EssenceType::As02Pcm24b96k
    } else if code == 12 {
        EssenceType::As02TimedText
    } else if code == 13 {
        EssenceType::As02Isxd
    } else if code == 14 {
        EssenceType::As02Aces
    } else if code == 15 {
        EssenceType::As02Iab
    } else if code == 16 {
        EssenceType::As02JpegXs
    } else if code == 17 {
        EssenceType::JpegXs
    } else {
        EssenceType::Unknown
    }
}

impl From<i32> for EssenceType {
    fn from(v: i32) -> (t: Self) {
        match v {
            1 => EssenceType::Mpeg2Ves,
            2 => EssenceType::Jpeg2000,
            3 => EssenceType::Pcm24b48k,
            4 => EssenceType::Pcm24b96k,
            5 => EssenceType::TimedText,
            6 => EssenceType::Jpeg2000Stereo,
            7 => EssenceType::DcDataUnknown,
            8 => EssenceType::DcDataDolbyAtmos,
            9 => EssenceType::As02Jpeg2000,
            10 => EssenceType::As02Pcm24b48k,
            11 => EssenceType::As02Pcm24b96k,
            12 => EssenceType::As02TimedText,
            13 => EssenceType::As02Isxd,
            14 => EssenceType::As02Aces,
            15 => EssenceType::As02Iab,
            16 => EssenceType::As02JpegXs,
            17 => EssenceType::JpegXs,
            _ => EssenceType::Unknown,
        }
    }
}

impl vstd::std_specs::convert::FromSpecImpl<i32> for EssenceType {
    open spec fn obeys_from_spec() -> bool {
        true
    }

    open spec fn from_spec(v: i32) -> EssenceType {
        essence_type_of_code(v)
    }
}

/// Every asdcplib essence code from 1 through 17 names a type of its own:
/// none reads as `Unknown`, and no two read as the same type.
pub proof fn lemma_essence_type_mapping_is_injective(a: i32, b: i32)
    requires
        1 <= a <= 17,
        1 <= b <= 17,
    ensures
        essence_type_of_code(a) != EssenceType::Unknown,
        essence_type_of_code(a) == essence_type_of_code(b) ==> a == b,
{
}

/// The outcome of an essence type probe: the type the library reported on
/// success, the result code's error otherwise.
pub fn essence_type_outcome(result: i32, code: i32) -> (r: Result<EssenceType>)
    ensures
        error::result_ok(result) ==> r == Ok::<EssenceType, Error>(essence_type_of_code(code)),
        !error::result_ok(result) ==> r == Err::<EssenceType, Error>(Error::AsdcpError(result)),
{
    check(result)?;
    Ok(EssenceType::from(code))
}

/// Writer identification information for MXF files.
#[derive(Debug, Clone)]
pub struct WriterInfo {
    pub product_uuid: [u8; 16],
    pub asset_uuid: [u8; 16],
    pub context_id: [u8; 16],
    pub cryptographic_key_id: [u8; 16],
    pub encrypted_essence: bool,
    pub uses_hmac: bool,
    pub label_set: LabelSet,
}

/// A C boolean: zero is false, anything else true.
pub open spec fn c_bool(flag: int) -> bool {
    flag != 0
}

/// The C boolean that stands for `b`.
pub open spec fn c_flag(b: bool) -> int {
    if b {
        1
    } else {
        0
    }
}

impl WriterInfo {
    /// The C record carrying this writer info.
    pub open spec fn spec_to_ffi(self) -> crate::sys::AsdcpWriterInfo {
        crate::sys::AsdcpWriterInfo {
            product_uuid: self.product_uuid,
            asset_uuid: self.asset_uuid,
            context_id: self.context_id,
            cryptographic_key_id: self.cryptographic_key_id,
            encrypted_essence: c_flag(self.encrypted_essence) as i32,
            uses_hmac: c_flag(self.uses_hmac) as i32,
            label_set_type: self.label_set.spec_code(),
        }
    }

    /// The writer info a C record carries.
    pub open spec fn spec_from_ffi(ffi: crate::sys::AsdcpWriterInfo) -> WriterInfo {
        WriterInfo {
            product_uuid: ffi.product_uuid,
            asset_uuid: ffi.asset_uuid,
            context_id: ffi.context_id,
            cryptographic_key_id: ffi.cryptographic_key_id,
            encrypted_essence: c_bool(ffi.encrypted_essence as int),
            uses_hmac: c_bool(ffi.uses_hmac as int),
            label_set: LabelSet::spec_from_code(ffi.label_set_type),
        }
    }

    pub fn to_ffi(&self) -> (ffi: crate::sys::AsdcpWriterInfo)
        ensures
            ffi == self.spec_to_ffi(),
    {
        crate::sys::AsdcpWriterInfo {
            product_uuid: self.product_uuid,
            asset_uuid: self.asset_uuid,
            context_id: self.context_id,
            cryptographic_key_id: self.cryptographic_key_id,
            encrypted_essence: if self.encrypted_essence {
                1
            } else {
                0
            },
            uses_hmac: if self.uses_hmac {
                1
            } else {
                0
            },
            label_set_type: self.label_set.code(),
        }
    }

    pub fn from_ffi(ffi: &crate::sys::AsdcpWriterInfo) -> (info: WriterInfo)
        ensures
            info == WriterInfo::spec_from_ffi(*ffi),
    {
        WriterInfo {
            product_uuid: ffi.product_uuid,
            asset_uuid: ffi.asset_uuid,
            context_id: ffi.context_id,
            cryptographic_key_id: ffi.cryptographic_key_id,
            encrypted_essence: ffi.encrypted_essence != 0,
            uses_hmac: ffi.uses_hmac != 0,
            label_set: LabelSet::from_code(ffi.label_set_type),
        }
    }
}

impl Default for WriterInfo {
    /// All identifiers zero, no encryption, no HMAC, SMPTE labels.
    fn default() -> (info: Self)
        ensures
            info.product_uuid@ == seq![0u8; 16],
            info.asset_uuid@ == seq![0u8; 16],
            info.context_id@ == seq![0u8; 16],
            info.cryptographic_key_id@ == seq![0u8; 16],
            !info.encrypted_essence,
            !info.uses_hmac,
            info.label_set == LabelSet::Smpte,
    {
        WriterInfo {
            product_uuid: [0; 16],
            asset_uuid: [0; 16],
            context_id: [0; 16],
            cryptographic_key_id: [0; 16],
            encrypted_essence: false,
            uses_hmac: false,
            label_set: LabelSet::Smpte,
        }
    }
}

/// The writer-info record carries each item in the field of the same name:
/// product UUID in `product_uuid`, asset UUID in `asset_uuid`, context ID in
/// `context_id`, key ID in `cryptographic_key_id`, the encryption and HMAC
/// flags as 1 or 0, and the label set's number; reading takes each item from
/// the field of the same name, a nonzero flag as true.
pub proof fn lemma_writer_info_record_fields(info: WriterInfo, ffi: crate::sys::AsdcpWriterInfo)
    ensures
        info.spec_to_ffi().product_uuid == info.product_uuid,
        info.spec_to_ffi().asset_uuid == info.asset_uuid,
        info.spec_to_ffi().context_id == info.context_id,
        info.spec_to_ffi().cryptographic_key_id == info.cryptographic_key_id,
        info.spec_to_ffi().encrypted_essence == (if info.encrypted_essence { 1i32 } else { 0i32 }),
        info.spec_to_ffi().uses_hmac == (if info.uses_hmac { 1i32 } else { 0i32 }),
        info.spec_to_ffi().label_set_type == info.label_set.spec_code(),
        WriterInfo::spec_from_ffi(ffi).product_uuid == ffi.product_uuid,
        WriterInfo::spec_from_ffi(ffi).asset_uuid == ffi.asset_uuid,
        WriterInfo::spec_from_ffi(ffi).context_id == ffi.context_id,
        WriterInfo::spec_from_ffi(ffi).cryptographic_key_id == ffi.cryptographic_key_id,
        WriterInfo::spec_from_ffi(ffi).encrypted_essence == (ffi.encrypted_essence != 0),
        WriterInfo::spec_from_ffi(ffi).uses_hmac == (ffi.uses_hmac != 0),
        WriterInfo::spec_from_ffi(ffi).label_set == LabelSet::spec_from_code(ffi.label_set_type),
{
}

/// Writer info read back from the C record it was written as is the writer
/// info itself.
pub proof fn lemma_writer_info_roundtrip(info: WriterInfo)
    ensures
        WriterInfo::spec_from_ffi(info.spec_to_ffi()) == info,
{
    lemma_label_set_code_roundtrip(info.label_set);
}

/// Rational number (e.g., frame rate, sample rate).
#[derive(Debug, Clone, Copy, PartialEq, Eq, Structural)]
pub struct Rational {
    pub numerator: i32,
    pub denominator: i32,
}

impl Rational {
    pub fn new(n: i32, d: i32) -> (r: Self)
        ensures
            r.numerator == n,
            r.denominator == d,
    {
        Rational { numerator: n, denominator: d }
    }

    /// The C record carrying this rational.
    pub open spec fn spec_to_ffi(self) -> crate::sys::AsdcpRational {
        crate::sys::AsdcpRational { numerator: self.numerator, denominator: self.denominator }
    }

    /// The rational a C record carries.
    pub open spec fn spec_from_ffi(ffi: crate::sys::AsdcpRational) -> Rational {
        Rational { numerator: ffi.numerator, denominator: ffi.denominator }
    }

    pub fn to_ffi(self) -> (ffi: crate::sys::AsdcpRational)
        ensures
            ffi == self.spec_to_ffi(),
    {
        crate::sys::AsdcpRational { numerator: self.numerator, denominator: self.denominator }
    }

    pub fn from_ffi(ffi: &crate::sys::AsdcpRational) -> (r: Self)
        ensures
            r == Rational::spec_from_ffi(*ffi),
    {
        Rational { numerator: ffi.numerator, denominator: ffi.denominator }
    }
}

/// A rational read back from its C record is the rational itself.
pub proof fn lemma_rational_roundtrip(r: Rational)
    ensures
        Rational::spec_from_ffi(r.spec_to_ffi()) == r,
{
}

/// A rational's record carries its numerator in `numerator` and its
/// denominator in `denominator`, and a rational read from a record takes each
/// from the field of the same name.
pub proof fn lemma_rational_record_fields(r: Rational, ffi: crate::sys::AsdcpRational)
    ensures
        r.spec_to_ffi().numerator == r.numerator,
        r.spec_to_ffi().denominator == r.denominator,
        Rational::spec_from_ffi(ffi).numerator == ffi.numerator,
        Rational::spec_from_ffi(ffi).denominator == ffi.denominator,
{
}

/// The label sets carry asdcplib's numbers: Unknown 0, Interop 1, SMPTE 2;
/// and those numbers read back as those label sets, every other number as
/// Unknown.
pub proof fn lemma_label_set_codes(code: i32)
    ensures
        LabelSet::Unknown.spec_code() == 0,
        LabelSet::Interop.spec_code() == 1,
        LabelSet::Smpte.spec_code() == 2,
        LabelSet::spec_from_code(1) == LabelSet::Interop,
        LabelSet::spec_from_code(2) == LabelSet::Smpte,
        code != 1 && code != 2 ==> LabelSet::spec_from_code(code) == LabelSet::Unknown,
{
}

/// Each asdcplib `EssenceType_t` code reads as the variant of the same
/// position: 1 MPEG-2 VES, 2 JPEG 2000, 3 PCM 24-bit 48 kHz, 4 PCM 24-bit
/// 96 kHz, 5 timed text, 6 stereoscopic JPEG 2000, 7 unknown D-Cinema data,
/// 8 Dolby Atmos data, 9 to 16 the AS-02 JPEG 2000, PCM 48 kHz, PCM 96 kHz,
/// timed text, ISXD, ACES, IAB and JPEG XS, 17 JPEG XS; every other code
/// reads as `Unknown`.
pub proof fn lemma_essence_type_codes(code: i32)
    ensures
        essence_type_of_code(1) == EssenceType::Mpeg2Ves,
        essence_type_of_code(2) == EssenceType::Jpeg2000,
        essence_type_of_code(3) == EssenceType::Pcm24b48k,
        essence_type_of_code(4) == EssenceType::Pcm24b96k,
        essence_type_of_code(5) == EssenceType::TimedText,
        essence_type_of_code(6) == EssenceType::Jpeg2000Stereo,
        essence_type_of_code(7) == EssenceType::DcDataUnknown,
        essence_type_of_code(8) == EssenceType::DcDataDolbyAtmos,
        essence_type_of_code(9) == EssenceType::As02Jpeg2000,
        essence_type_of_code(10) == EssenceType::As02Pcm24b48k,
        essence_type_of_code(11) == EssenceType::As02Pcm24b96k,
        essence_type_of_code(12) == EssenceType::As02TimedText,
        essence_type_of_code(13) == EssenceType::As02Isxd,
        essence_type_of_code(14) == EssenceType::As02Aces,
        essence_type_of_code(15) == EssenceType::As02Iab,
        essence_type_of_code(16) == EssenceType::As02JpegXs,
        essence_type_of_code(17) == EssenceType::JpegXs,
        (code < 1 || code > 17) ==> essence_type_of_code(code) == EssenceType::Unknown,
{
}

impl Rational {
    /// The 24/1 edit rate.
    pub fn edit_rate_24() -> (r: Rational)
        ensures
            r.numerator == 24,
            r.denominator == 1,
    {
        Rational { numerator: 24, denominator: 1 }
    }

    /// The 25/1 edit rate.
    pub fn edit_rate_25() -> (r: Rational)
        ensures
            r.numerator == 25,
            r.denominator == 1,
    {
        Rational { numerator: 25, denominator: 1 }
    }

    /// The 30/1 edit rate.
    pub fn edit_rate_30() -> (r: Rational)
        ensures
            r.numerator == 30,
            r.denominator == 1,
    {
        Rational { numerator: 30, denominator: 1 }
    }

    /// The 48/1 edit rate.
    pub fn edit_rate_48() -> (r: Rational)
        ensures
            r.numerator == 48,
            r.denominator == 1,
    {
        Rational { numerator: 48, denominator: 1 }
    }

    /// The 60/1 edit rate.
    pub fn edit_rate_60() -> (r: Rational)
        ensures
            r.numerator == 60,
            r.denominator == 1,
    {
        Rational { numerator: 60, denominator: 1 }
    }

    /// The 48000/1 sample rate.
    pub fn sample_rate_48k() -> (r: Rational)
        ensures
            r.numerator == 48000,
            r.denominator == 1,
    {
        Rational { numerator: 48000, denominator: 1 }
    }

    /// The 96000/1 sample rate.
    pub fn sample_rate_96k() -> (r: Rational)
        ensures
            r.numerator == 96000,
            r.denominator == 1,
    {
        Rational { numerator: 96000, denominator: 1 }
    }
}

} // verus!
