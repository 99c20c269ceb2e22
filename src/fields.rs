//! Decoding tables for the bit fields of the base block and of the
//! CEA-861 extension.
use vstd::prelude::*;

verus! {

/// The bit-depth code of a digital `video_input` byte (bits 6-4).
pub open spec fn bit_depth_code(video_input: u8) -> u8 {
    video_input & 0x70u8
}

/// The interface code of a digital `video_input` byte (bits 3-0).
pub open spec fn interface_code(video_input: u8) -> u8 {
    video_input & 0x0fu8
}

/// Bits per pixel of a digital input: `Some(0)` when undefined, `None`
/// for the reserved code.
pub open spec fn bpp_of(video_input: u8) -> Option<usize> {
    let c = bit_depth_code(video_input);
    if c == 0x00 {
        Some(0)
    } else if c == 0x10 {
        Some(6)
    } else if c == 0x20 {
        Some(8)
    } else if c == 0x30 {
        Some(10)
    } else if c == 0x40 {
        Some(12)
    } else if c == 0x50 {
        Some(14)
    } else if c == 0x60 {
        Some(16)
    } else {
        None
    }
}

/// Name of the digital interface, `None` when the code is not recognized.
pub open spec fn interface_name(video_input: u8) -> Option<Seq<char>> {
    let c = interface_code(video_input);
    if c == 0 {
        Some("Undefined"@)
    } else if c == 2 {
        Some("HDMI-a"@)
    } else if c == 3 {
        Some("HDMI-b"@)
    } else if c == 4 {
        Some("MDDI"@)
    } else if c == 5 {
        Some("DisplayPort"@)
    } else {
        None
    }
}

/// Video white and sync levels of an analog input (bits 6-5).
pub open spec fn sync_levels_name(video_input: u8) -> Seq<char> {
    let c = video_input & 0x60u8;
    if c == 0x00 {
        "+0.7/−0.3 V"@
    } else if c == 0x20 {
        "+0.714/−0.286 V"@
    } else if c == 0x40 {
        "+1.0/−0.4 V"@
    } else {
        "+0.7/0 V"@
    }
}

/// Display color type of an analog display (`features` bits 4-3).
pub open spec fn display_type_name(features: u8) -> Seq<char> {
    let c = features & 0x18u8;
    if c == 0x00 {
        "Monochrome or grayscale"@
    } else if c == 0x08 {
        "RGB color"@
    } else if c == 0x10 {
        "Non-RGB color"@
    } else {
        "Undefined"@
    }
}

pub open spec fn supported_name(v: bool) -> Seq<char> {
    if v { "Supported"@ } else { "Unsupported"@ }
}

pub open spec fn yes_no_name(v: bool) -> Seq<char> {
    if v { "Yes"@ } else { "No"@ }
}

/// The audio format code that marks a reserved descriptor.
pub const AUDIO_RESERVED: u8 = 15;

/// The audio format code of linear PCM.
pub const AUDIO_LPCM: u8 = 1;

/// Audio format codes that are padding and never reported.
pub open spec fn is_suppressed_format(code: u8) -> bool {
    code == 0 || code == AUDIO_RESERVED
}

/// Canonical name of an audio format code.
pub open spec fn audio_format_name(code: u8) -> Seq<char> {
    if code == 1 {
        "LPCM"@
    } else if code == 2 {
        "AC-3"@
    } else if code == 3 {
        "MPEG-1"@
    } else if code == 4 {
        "MP3"@
    } else if code == 5 {
        "MPEG-2"@
    } else if code == 6 {
        "AAC"@
    } else if code == 7 {
        "DTS"@
    } else if code == 8 {
        "ATRAC"@
    } else if code == 9 {
        "DSD"@
    } else if code == 10 {
        "DD+"@
    } else if code == 11 {
        "DTS-HD"@
    } else if code == 12 {
        "Dolby TrueHD"@
    } else if code == 13 {
        "DST Audio"@
    } else if code == 14 {
        "WMA Pro"@
    } else {
        "Unknown"@
    }
}

/// Bits per pixel of a digital `video_input` byte.
pub fn bits_per_pixel(video_input: u8) -> (r: Option<usize>)
    ensures
        r == bpp_of(video_input),
{
    let c = video_input & 0x70u8;
    if c == 0x00 {
        Some(0)
    } else if c == 0x10 {
        Some(6)
    } else if c == 0x20 {
        Some(8)
    } else if c == 0x30 {
        Some(10)
    } else if c == 0x40 {
        Some(12)
    } else if c == 0x50 {
        Some(14)
    } else if c == 0x60 {
        Some(16)
    } else {
        None
    }
}

/// Interface of a digital `video_input` byte.
pub fn video_interface(video_input: u8) -> (r: Option<&'static str>)
    ensures
        r is Some <==> interface_name(video_input) is Some,
        r is Some ==> r->0@ == interface_name(video_input)->0,
{
    let c = video_input & 0x0fu8;
    if c == 0 {
        Some("Undefined")
    } else if c == 2 {
        Some("HDMI-a")
    } else if c == 3 {
        Some("HDMI-b")
    } else if c == 4 {
        Some("MDDI")
    } else if c == 5 {
        Some("DisplayPort")
    } else {
        None
    }
}

/// White and sync levels of an analog `video_input` byte.
pub fn video_white_sync_levels(video_input: u8) -> (r: &'static str)
    ensures
        r@ == sync_levels_name(video_input),
{
    let c = video_input & 0x60u8;
    if c == 0x00 {
        "+0.7/−0.3 V"
    } else if c == 0x20 {
        "+0.714/−0.286 V"
    } else if c == 0x40 {
        "+1.0/−0.4 V"
    } else {
        "+0.7/0 V"
    }
}

/// Color type of an analog display.
pub fn analog_display_type(features: u8) -> (r: &'static str)
    ensures
        r@ == display_type_name(features),
{
    let c = features & 0x18u8;
    if c == 0x00 {
        "Monochrome or grayscale"
    } else if c == 0x08 {
        "RGB color"
    } else if c == 0x10 {
        "Non-RGB color"
    } else {
        "Undefined"
    }
}

pub fn supported(v: bool) -> (r: &'static str)
    ensures
        r@ == supported_name(v),
{
    if v { "Supported" } else { "Unsupported" }
}

pub fn yes_or_no(v: bool) -> (r: &'static str)
    ensures
        r@ == yes_no_name(v),
{
    if v { "Yes" } else { "No" }
}

/// Canonical name of an audio format code.
pub fn audio_format_string(code: u8) -> (r: &'static str)
    ensures
        r@ == audio_format_name(code),
{
    if code == 1 {
        "LPCM"
    } else if code == 2 {
        "AC-3"
    } else if code == 3 {
        "MPEG-1"
    } else if code == 4 {
        "MP3"
    } else if code == 5 {
        "MPEG-2"
    } else if code == 6 {
        "AAC"
    } else if code == 7 {
        "DTS"
    } else if code == 8 {
        "ATRAC"
    } else if code == 9 {
        "DSD"
    } else if code == 10 {
        "DD+"
    } else if code == 11 {
        "DTS-HD"
    } else if code == 12 {
        "Dolby TrueHD"
    } else if code == 13 {
        "DST Audio"
    } else if code == 14 {
        "WMA Pro"
    } else {
        "Unknown"
    }
}

} // verus!
