//! The object inspector: property names, and property values decoded for display.
use vstd::prelude::*;
use crate::container::{le16, le32};
use crate::format::{format_size, size_text};
use crate::state::owned;
use crate::text::{chars_of, decimal, decimal_string, hex, hex_string, push_char, push_str};

verus! {

/// An MTP object property code.
#[derive(Debug, Clone, Copy, PartialEq, Eq, Structural)]
pub enum PropertyCode {
    StorageId,
    ObjectFormat,
    ProtectionStatus,
    ObjectSize,
    ObjectFileName,
    DateCreated,
    DateModified,
    ParentObject,
    Name,
    /// Any other code.
    Unknown(u16),
}

/// An MTP object format code.
#[derive(Debug, Clone, Copy, PartialEq, Eq, Structural)]
pub enum FormatCode {
    Undefined,
    Association,
    Script,
    Executable,
    Text,
    Html,
    Dpof,
    Aiff,
    Wav,
    Mp3,
    Avi,
    Mpeg,
    Asf,
    Jpeg,
    Tiff,
    Gif,
    Bmp,
    Pict,
    Png,
    WmaAudio,
    OggAudio,
    AacAudio,
    FlacAudio,
    WmvVideo,
    Mp4Container,
    M4aAudio,
    /// Any other code.
    Unknown(u16),
}

/// A calendar date and time of day, as an MTP device reports it.
#[derive(Debug, Clone, Copy, PartialEq, Eq)]
pub struct DateTime {
    pub year: u16,
    pub month: u8,
    pub day: u8,
    pub hour: u8,
    pub minute: u8,
    pub second: u8,
}

/// The properties the inspector asks the device for, in display order.
pub fn inspector_properties() -> (v: Vec<PropertyCode>)
    ensures
        v@ == seq![
            PropertyCode::StorageId,
            PropertyCode::ObjectFormat,
            PropertyCode::ProtectionStatus,
            PropertyCode::ObjectSize,
            PropertyCode::ObjectFileName,
            PropertyCode::DateCreated,
            PropertyCode::DateModified,
            PropertyCode::ParentObject,
            PropertyCode::Name,
        ],
{
    vec![
        PropertyCode::StorageId,
        PropertyCode::ObjectFormat,
        PropertyCode::ProtectionStatus,
        PropertyCode::ObjectSize,
        PropertyCode::ObjectFileName,
        PropertyCode::DateCreated,
        PropertyCode::DateModified,
        PropertyCode::ParentObject,
        PropertyCode::Name,
    ]
}

/// `mtp_rs::Error`, the error of the unpacking functions; only told apart
/// from success here, never looked into.
#[verifier::external_type_specification]
#[verifier::external_body]
pub struct ExMtpError(mtp_rs::Error);

/// Unsigned 64-bit little-endian value at the start of `b`.
pub open spec fn le64(b: Seq<u8>) -> nat {
    le32(b, 0) + 0x1_0000_0000 * le32(b, 4)
}

/// `mtp_rs::ptp::unpack_u16`: the little-endian `u16` at the start of the
/// buffer; an error exactly when it holds fewer than two bytes.
pub assume_specification[mtp_rs::ptp::unpack_u16](buf: &[u8]) -> (r: Result<u16, mtp_rs::Error>)
    ensures
        r is Ok <==> buf@.len() >= 2,
        r matches Ok(v) ==> v == le16(buf@, 0),
;

/// `mtp_rs::ptp::unpack_u32`: the little-endian `u32` at the start of the
/// buffer; an error exactly when it holds fewer than four bytes.
pub assume_specification[mtp_rs::ptp::unpack_u32](buf: &[u8]) -> (r: Result<u32, mtp_rs::Error>)
    ensures
        r is Ok <==> buf@.len() >= 4,
        r matches Ok(v) ==> v == le32(buf@, 0),
;

/// `mtp_rs::ptp::unpack_u64`: the little-endian `u64` at the start of the
/// buffer; an error exactly when it holds fewer than eight bytes.
pub assume_specification[mtp_rs::ptp::unpack_u64](buf: &[u8]) -> (r: Result<u64, mtp_rs::Error>)
    ensures
        r is Ok <==> buf@.len() >= 8,
        r matches Ok(v) ==> v == le64(buf@),
;

/// What `mtp_rs::ptp::unpack_string` decodes from a buffer: the string, or
/// `None` for an error.
pub uninterp spec fn unpacked_string(buf: Seq<u8>) -> Option<Seq<char>>;

/// `mtp_rs::ptp::unpack_string`: decodes a PTP string (a length byte, then that
/// many UTF-16LE code units, a trailing NUL dropped), keeping the string and
/// dropping the count of bytes it took. Its result is named by `unpacked_string`;
/// the source shows that an empty buffer and a buffer too short for its length
/// byte are errors, and that a zero length byte gives the empty string. How the
/// code units decode is left to the name.
#[verifier::external_body]
fn unpack_string(buf: &[u8]) -> (r: Option<String>)
    ensures
        r matches Some(s) ==> unpacked_string(buf@) == Some(s@),
        r is None ==> unpacked_string(buf@) is None,
        buf@.len() == 0 ==> r is None,
        buf@.len() > 0 && buf@[0] == 0 ==> r is Some && r->0@.len() == 0,
        buf@.len() > 0 && buf@.len() < 1 + 2 * buf@[0] ==> r is None,
{
    mtp_rs::ptp::unpack_string(buf).ok().map(|(s, _)| s)
}

/// The display name of a property code.
pub open spec fn property_label(code: PropertyCode) -> Seq<char> {
    match code {
        PropertyCode::StorageId => "StorageId"@,
        PropertyCode::ObjectFormat => "ObjectFormat"@,
        PropertyCode::ProtectionStatus => "ProtectionStatus"@,
        PropertyCode::ObjectSize => "ObjectSize"@,
        PropertyCode::ObjectFileName => "ObjectFileName"@,
        PropertyCode::DateCreated => "DateCreated"@,
        PropertyCode::DateModified => "DateModified"@,
        PropertyCode::ParentObject => "ParentObject"@,
        PropertyCode::Name => "Name"@,
        PropertyCode::Unknown(c) => "0x"@ + hex(c as nat, 4, true),
    }
}

/// Two upper-case hex digits for a byte.
pub open spec fn byte_hex(b: u8) -> Seq<char> {
    hex(b as nat, 2, true)
}

/// The bytes of `s` in hex, separated by single spaces.
pub open spec fn hex_pairs(s: Seq<u8>) -> Seq<char>
    decreases s.len(),
{
    if s.len() == 0 {
        Seq::empty()
    } else if s.len() == 1 {
        byte_hex(s[0])
    } else {
        hex_pairs(s.drop_last()) + seq![' '] + byte_hex(s.last())
    }
}

/// Raw bytes for display: "(empty)", or the first 32 bytes in hex followed,
/// when there are more, by "... (N bytes total)".
pub open spec fn hex_dump_text(bytes: Seq<u8>) -> Seq<char> {
    if bytes.len() == 0 {
        "(empty)"@
    } else if bytes.len() > 32 {
        hex_pairs(bytes.take(32)) + "... ("@ + decimal(bytes.len()) + " bytes total)"@
    } else {
        hex_pairs(bytes)
    }
}

/// A decoded string property: "(empty)" for the empty string; the raw bytes
/// when it did not decode.
pub open spec fn string_value_text(unpacked: Option<Seq<char>>, bytes: Seq<u8>) -> Seq<char> {
    match unpacked {
        Some(s) => if s.len() == 0 {
            "(empty)"@
        } else {
            s
        },
        None => hex_dump_text(bytes),
    }
}

/// The text shown for the value `bytes` of property `code`; raw bytes when
/// the value is too short for its type.
pub open spec fn decoded_value(code: PropertyCode, bytes: Seq<u8>) -> Seq<char> {
    match code {
        PropertyCode::ObjectSize => if bytes.len() >= 8 {
            size_text(le64(bytes)) + " ("@ + decimal(le64(bytes)) + " bytes)"@
        } else {
            hex_dump_text(bytes)
        },
        PropertyCode::ObjectFormat | PropertyCode::ProtectionStatus => if bytes.len() >= 2 {
            "0x"@ + hex(le16(bytes, 0), 4, true)
        } else {
            hex_dump_text(bytes)
        },
        PropertyCode::StorageId | PropertyCode::ParentObject => if bytes.len() >= 4 {
            "0x"@ + hex(le32(bytes, 0), 8, true)
        } else {
            hex_dump_text(bytes)
        },
        PropertyCode::ObjectFileName
        | PropertyCode::DateCreated
        | PropertyCode::DateModified
        | PropertyCode::Name => string_value_text(unpacked_string(bytes), bytes),
        PropertyCode::Unknown(_) => hex_dump_text(bytes),
    }
}

/// The display label of an object format.
pub open spec fn format_label(code: FormatCode) -> Seq<char> {
    match code {
        FormatCode::Undefined => "Undefined (0x3000)"@,
        FormatCode::Association => "Association/Folder (0x3001)"@,
        FormatCode::Text => "Text (0x3004)"@,
        FormatCode::Html => "HTML (0x3005)"@,
        FormatCode::Jpeg => "JPEG (0x3801)"@,
        FormatCode::Png => "PNG (0x380B)"@,
        FormatCode::Gif => "GIF (0x3807)"@,
        FormatCode::Tiff => "TIFF (0x3804)"@,
        FormatCode::Bmp => "BMP (0x3808)"@,
        FormatCode::Mp3 => "MP3 (0x3009)"@,
        FormatCode::Wav => "WAV (0x3008)"@,
        FormatCode::Avi => "AVI (0x300A)"@,
        FormatCode::Mpeg => "MPEG (0x300B)"@,
        FormatCode::Mp4Container => "MP4 (0xB982)"@,
        FormatCode::M4aAudio => "M4A (0xB984)"@,
        FormatCode::WmaAudio => "WMA (0xB901)"@,
        FormatCode::WmvVideo => "WMV (0xB981)"@,
        FormatCode::FlacAudio => "FLAC (0xB906)"@,
        FormatCode::Unknown(c) => "Unknown(0x"@ + hex(c as nat, 4, true) + ")"@,
        FormatCode::Script => "Script"@,
        FormatCode::Executable => "Executable"@,
        FormatCode::Dpof => "Dpof"@,
        FormatCode::Aiff => "Aiff"@,
        FormatCode::Asf => "Asf"@,
        FormatCode::Pict => "Pict"@,
        FormatCode::OggAudio => "OggAudio"@,
        FormatCode::AacAudio => "AacAudio"@,
    }
}

/// `n` in decimal, padded on the left with zeros to at least `width` digits.
pub open spec fn zero_padded(n: nat, width: nat) -> Seq<char> {
    let d = decimal(n);
    if d.len() >= width {
        d
    } else {
        Seq::new((width - d.len()) as nat, |i: int| '0') + d
    }
}

/// "YYYY-MM-DD hh:mm:ss", each field zero-padded.
pub open spec fn datetime_text(dt: DateTime) -> Seq<char> {
    zero_padded(dt.year as nat, 4) + "-"@ + zero_padded(dt.month as nat, 2) + "-"@ + zero_padded(
        dt.day as nat,
        2,
    ) + " "@ + zero_padded(dt.hour as nat, 2) + ":"@ + zero_padded(dt.minute as nat, 2) + ":"@
        + zero_padded(dt.second as nat, 2)
}

/// The display name of a property code: its name, or "0xNNNN" for an unknown code.
pub fn prop_name(code: PropertyCode) -> (s: String)
    ensures
        s@ == property_label(code),
{
    match code {
        PropertyCode::StorageId => owned("StorageId"),
        PropertyCode::ObjectFormat => owned("ObjectFormat"),
        PropertyCode::ProtectionStatus => owned("ProtectionStatus"),
        PropertyCode::ObjectSize => owned("ObjectSize"),
        PropertyCode::ObjectFileName => owned("ObjectFileName"),
        PropertyCode::DateCreated => owned("DateCreated"),
        PropertyCode::DateModified => owned("DateModified"),
        PropertyCode::ParentObject => owned("ParentObject"),
        PropertyCode::Name => owned("Name"),
        PropertyCode::Unknown(c) => prefixed_hex("0x", c as u64, 4),
    }
}

/// `prefix` followed by `n` in upper-case hex, zero-padded to `width` digits.
fn prefixed_hex(prefix: &str, n: u64, width: u64) -> (s: String)
    ensures
        s@ == prefix@ + hex(n as nat, width as nat, true),
{
    let mut s = owned(prefix);
    let digits = hex_string(n, width, true);
    push_str(&mut s, digits.as_str());
    s
}

/// Raw bytes for display (see [`hex_dump_text`]).
pub fn hex_dump(bytes: &[u8]) -> (s: String)
    ensures
        s@ == hex_dump_text(bytes@),
{
    if bytes.len() == 0 {
        return owned("(empty)");
    }
    let shown: usize = if bytes.len() > 32 {
        32
    } else {
        bytes.len()
    };
    let mut s = String::new();
    let mut i: usize = 0;
    assert(bytes@.take(0) =~= Seq::<u8>::empty());
    while i < shown
        invariant
            shown <= bytes@.len(),
            i <= shown,
            s@ == hex_pairs(bytes@.take(i as int)),
        decreases shown - i,
    {
        let pair = hex_string(bytes[i] as u64, 2, true);
        if i > 0 {
            push_char(&mut s, ' ');
        }
        push_str(&mut s, pair.as_str());
        proof {
            let t = bytes@.take(i + 1);
            assert(t.drop_last() =~= bytes@.take(i as int));
            assert(t.last() == bytes@[i as int]);
            if i == 0 {
                assert(s@ =~= hex_pairs(t));
            } else {
                assert(s@ =~= hex_pairs(t));
            }
        }
        i = i + 1;
    }
    if bytes.len() > 32 {
        push_str(&mut s, "... (");
        let total = decimal_string(bytes.len() as u64);
        push_str(&mut s, total.as_str());
        push_str(&mut s, " bytes total)");
        assert(s@ == hex_dump_text(bytes@));
    } else {
        assert(bytes@.take(bytes@.len() as int) =~= bytes@);
    }
    s
}

/// The text for a string property whose decoding gave `unpacked` (see
/// [`string_value_text`]).
pub fn string_value(unpacked: Option<String>, bytes: &[u8]) -> (s: String)
    ensures
        s@ == string_value_text(
            match unpacked {
                Some(t) => Some(t@),
                None => None,
            },
            bytes@,
        ),
{
    match unpacked {
        Some(t) => if t.as_str().is_empty() {
            owned("(empty)")
        } else {
            t
        },
        None => hex_dump(bytes),
    }
}

/// The display text of the value `bytes` of property `code` (see [`decoded_value`]).
pub fn decode_prop_value(code: PropertyCode, bytes: &[u8]) -> (s: String)
    ensures
        s@ == decoded_value(code, bytes@),
{
    match code {
        PropertyCode::ObjectSize => match mtp_rs::ptp::unpack_u64(bytes) {
            Ok(v) => {
                let mut s = format_size(v);
                push_str(&mut s, " (");
                let d = decimal_string(v);
                push_str(&mut s, d.as_str());
                push_str(&mut s, " bytes)");
                s
            },
            Err(_) => hex_dump(bytes),
        },
        PropertyCode::ObjectFormat | PropertyCode::ProtectionStatus => match mtp_rs::ptp::unpack_u16(
            bytes,
        ) {
            Ok(v) => prefixed_hex("0x", v as u64, 4),
            Err(_) => hex_dump(bytes),
        },
        PropertyCode::StorageId | PropertyCode::ParentObject => match mtp_rs::ptp::unpack_u32(
            bytes,
        ) {
            Ok(v) => prefixed_hex("0x", v as u64, 8),
            Err(_) => hex_dump(bytes),
        },
        PropertyCode::ObjectFileName
        | PropertyCode::DateCreated
        | PropertyCode::DateModified
        | PropertyCode::Name => {
            let unpacked = unpack_string(bytes);
            string_value(unpacked, bytes)
        },
        PropertyCode::Unknown(_) => hex_dump(bytes),
    }
}

/// The display label of an object format (see [`format_label`]).
pub fn format_object_format(code: FormatCode) -> (s: String)
    ensures
        s@ == format_label(code),
{
    match code {
        FormatCode::Undefined => owned("Undefined (0x3000)"),
        FormatCode::Association => owned("Association/Folder (0x3001)"),
        FormatCode::Text => owned("Text (0x3004)"),
        FormatCode::Html => owned("HTML (0x3005)"),
        FormatCode::Jpeg => owned("JPEG (0x3801)"),
        FormatCode::Png => owned("PNG (0x380B)"),
        FormatCode::Gif => owned("GIF (0x3807)"),
        FormatCode::Tiff => owned("TIFF (0x3804)"),
        FormatCode::Bmp => owned("BMP (0x3808)"),
        FormatCode::Mp3 => owned("MP3 (0x3009)"),
        FormatCode::Wav => owned("WAV (0x3008)"),
        FormatCode::Avi => owned("AVI (0x300A)"),
        FormatCode::Mpeg => owned("MPEG (0x300B)"),
        FormatCode::Mp4Container => owned("MP4 (0xB982)"),
        FormatCode::M4aAudio => owned("M4A (0xB984)"),
        FormatCode::WmaAudio => owned("WMA (0xB901)"),
        FormatCode::WmvVideo => owned("WMV (0xB981)"),
        FormatCode::FlacAudio => owned("FLAC (0xB906)"),
        FormatCode::Unknown(c) => {
            let mut s = prefixed_hex("Unknown(0x", c as u64, 4);
            push_str(&mut s, ")");
            s
        },
        FormatCode::Script => owned("Script"),
        FormatCode::Executable => owned("Executable"),
        FormatCode::Dpof => owned("Dpof"),
        FormatCode::Aiff => owned("Aiff"),
        FormatCode::Asf => owned("Asf"),
        FormatCode::Pict => owned("Pict"),
        FormatCode::OggAudio => owned("OggAudio"),
        FormatCode::AacAudio => owned("AacAudio"),
    }
}

/// Appends `n` in decimal, zero-padded to at least `width` digits.
fn push_zero_padded(s: &mut String, n: u64, width: usize)
    ensures
        final(s)@ == old(s)@ + zero_padded(n as nat, width as nat),
{
    let d = decimal_string(n);
    let len = chars_of(d.as_str()).len();
    let ghost start = s@;
    if len < width {
        let mut k: usize = 0;
        while k < width - len
            invariant
                len < width,
                k <= width - len,
                s@ == start + Seq::new(k as nat, |i: int| '0'),
            decreases width - len - k,
        {
            push_char(s, '0');
            k = k + 1;
            assert(s@ =~= start + Seq::new(k as nat, |i: int| '0'));
        }
    }
    push_str(s, d.as_str());
    assert(s@ =~= start + zero_padded(n as nat, width as nat));
}

/// "YYYY-MM-DD hh:mm:ss" (see [`datetime_text`]).
pub fn format_datetime(dt: &DateTime) -> (s: String)
    ensures
        s@ == datetime_text(*dt),
{
    let mut s = String::new();
    push_zero_padded(&mut s, dt.year as u64, 4);
    push_str(&mut s, "-");
    push_zero_padded(&mut s, dt.month as u64, 2);
    push_str(&mut s, "-");
    push_zero_padded(&mut s, dt.day as u64, 2);
    push_str(&mut s, " ");
    push_zero_padded(&mut s, dt.hour as u64, 2);
    push_str(&mut s, ":");
    push_zero_padded(&mut s, dt.minute as u64, 2);
    push_str(&mut s, ":");
    push_zero_padded(&mut s, dt.second as u64, 2);
    assert(s@ =~= datetime_text(*dt));
    s
}

} // verus!
