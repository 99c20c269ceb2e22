//! The structured EDID record that the report is built from.
use vstd::prelude::*;
use crate::fields::AUDIO_LPCM;

verus! {

/// Manufacturer and product identification.
#[derive(Clone, Copy, Debug)]
pub struct Header {
    /// Year of manufacture minus 1990.
    pub year: u8,
    pub week: u8,
    pub product: u16,
    pub serial: u32,
    pub version: u8,
    pub revision: u8,
}

/// Basic display parameters.
#[derive(Clone, Copy, Debug)]
pub struct DisplayParameters {
    /// Width in centimeters.
    pub width: u8,
    /// Height in centimeters.
    pub height: u8,
    pub video_input: u8,
    pub features: u8,
}

/// A detailed timing definition.
#[derive(Clone, Copy, Debug)]
pub struct DetailedTiming {
    pub horizontal_active_pixels: u16,
    pub vertical_active_lines: u16,
    /// Width in millimeters.
    pub horizontal_size: u16,
    /// Height in millimeters.
    pub vertical_size: u16,
}

/// One of the descriptor slots of the base block.
#[derive(Clone, Debug)]
pub enum Descriptor {
    DetailedTiming(DetailedTiming),
    SerialNumber(String),
    UnspecifiedText(String),
    RangeLimits,
    ProductName(String),
    WhitePoint,
    StandardTiming,
    ColorManagement,
    TimingCodes,
    EstablishedTimings,
    Dummy,
    /// A descriptor with an unrecognized tag, with its raw bytes; the
    /// report shows the first.
    Unknown(Vec<u8>),
}

/// A short audio descriptor of a CEA-861 audio data block.
#[derive(Clone, Copy, Debug)]
pub struct ShortAudioDescriptor {
    /// Audio format code.
    pub format: u8,
    /// Number of channels.
    pub channels: u8,
    /// Third byte: bit depths for LPCM, bitrate in 8 kbps steps for
    /// the compressed formats up to ATRAC, format-specific otherwise.
    pub extension: u8,
}

/// A short video descriptor of a CEA-861 video data block.
#[derive(Clone, Copy, Debug)]
pub struct ShortVideoDescriptor {
    /// CEA-861 video format index.
    pub index: u8,
    /// Whether this is a native format of the display.
    pub native: bool,
}

/// A data block of a CEA-861 extension.
#[derive(Clone, Debug)]
pub enum DataBlock {
    AudioBlock(Vec<ShortAudioDescriptor>),
    VideoBlock(Vec<ShortVideoDescriptor>),
    VendorSpecific { identifier: [u8; 3], payload: Vec<u8> },
    /// Speaker allocation bitmask.
    SpeakerAllocation(u8),
    /// A block kind that is not decoded: its tag and payload.
    Other { tag: u8, payload: Vec<u8> },
}

/// A CEA-861 extension block.
#[derive(Clone, Debug)]
pub struct Extension {
    pub native_dtd: u8,
    pub blocks: Vec<DataBlock>,
    pub descriptors: Vec<DetailedTiming>,
}

/// A parsed EDID record.
#[derive(Clone, Debug)]
pub struct Edid {
    pub header: Header,
    pub display: DisplayParameters,
    pub descriptors: Vec<Descriptor>,
    pub extension: Option<Extension>,
}

/// LPCM bit-depth flags of a short audio descriptor.
pub const LPCM_16_BIT: u8 = 0x01;
pub const LPCM_20_BIT: u8 = 0x02;
pub const LPCM_24_BIT: u8 = 0x04;

/// Speaker allocation flags.
pub const FRONT_LEFT_RIGHT: u8 = 0x01;
pub const LFE: u8 = 0x02;
pub const FRONT_CENTER: u8 = 0x04;
pub const REAR_LEFT_RIGHT: u8 = 0x08;
pub const REAR_CENTER: u8 = 0x10;
pub const FRONT_LEFT_RIGHT_CENTER: u8 = 0x20;
pub const REAR_LEFT_RIGHT_CENTER: u8 = 0x40;

/// Capability flags of the extension's `native_dtd` byte.
pub const DTD_UNDERSCAN: u8 = 0x80;
pub const DTD_BASIC_AUDIO: u8 = 0x40;
pub const DTD_YUV444: u8 = 0x20;
pub const DTD_YUV422: u8 = 0x10;

impl ShortAudioDescriptor {
    /// The bit-depth mask, which only LPCM carries.
    pub open spec fn spec_bit_depths(self) -> Option<u8> {
        if self.format == AUDIO_LPCM {
            Some(self.extension & 0x07u8)
        } else {
            None
        }
    }

    /// The maximum bitrate in kbps, which only the formats 2 to 8 carry.
    pub open spec fn spec_bitrate(self) -> Option<u32> {
        if 2 <= self.format <= 8 {
            Some((self.extension as u32 * 8) as u32)
        } else {
            None
        }
    }

    pub fn bit_depths(&self) -> (r: Option<u8>)
        ensures
            r == self.spec_bit_depths(),
    {
        if self.format == AUDIO_LPCM {
            Some(self.extension & 0x07u8)
        } else {
            None
        }
    }

    pub fn bitrate(&self) -> (r: Option<u32>)
        ensures
            r == self.spec_bitrate(),
    {
        if 2 <= self.format && self.format <= 8 {
            Some(self.extension as u32 * 8)
        } else {
            None
        }
    }
}

} // verus!
