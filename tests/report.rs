use edid_report::base::{is_digital_byte, print_dtd};
use edid_report::cea::{audio_descriptor_string, bytes_string, speaker_string};
use edid_report::fields::{
    analog_display_type, audio_format_string, bits_per_pixel, supported, video_interface,
    video_white_sync_levels, yes_or_no,
};
use edid_report::record::{
    DataBlock, Descriptor, DetailedTiming, DisplayParameters, Edid, Extension, Header,
    ShortAudioDescriptor, ShortVideoDescriptor,
};
use edid_report::report::pretty_print;
use edid_report::text::{bin_string, dec_string, hex_string, spaces_string};

fn header() -> Header {
    Header { year: 27, week: 12, product: 0x1a2b, serial: 0xdeadbeef, version: 1, revision: 4 }
}

fn record(video_input: u8, features: u8, descriptors: Vec<Descriptor>, extension: Option<Extension>) -> Edid {
    Edid {
        header: header(),
        display: DisplayParameters { width: 52, height: 29, video_input, features },
        descriptors,
        extension,
    }
}

fn dummies() -> Vec<Descriptor> {
    vec![Descriptor::Dummy, Descriptor::Dummy, Descriptor::Dummy, Descriptor::Dummy]
}

fn has(lines: &[String], l: &str) -> bool {
    lines.iter().any(|x| x == l)
}

#[test]
fn digital_input_reports_depth_and_interface() {
    let lines = pretty_print(&record(0xA0, 0, dummies(), None), false);
    assert!(has(&lines, "  Type: Digital"));
    assert!(has(&lines, "  Bits depth: 8 bpp"));
    assert!(has(&lines, "  Video interface: Undefined"));
    assert!(!has(&lines, "  Type: Analog"));
}

#[test]
fn analog_input_reports_levels() {
    let lines = pretty_print(&record(0x00, 0, dummies(), None), false);
    assert!(has(&lines, "  Type: Analog"));
    assert!(has(&lines, "  Video white and sync levels: +0.7/−0.3 V"));
    assert!(has(&lines, "  Display type: Monochrome or grayscale"));
    assert!(!has(&lines, "  Type: Digital"));
}

#[test]
fn product_name_in_place() {
    let ds = vec![
        Descriptor::RangeLimits,
        Descriptor::ProductName("ACME LCD".to_string()),
        Descriptor::Dummy,
        Descriptor::WhitePoint,
    ];
    let lines = pretty_print(&record(0x80, 0, ds, None), false);
    let at = lines.iter().position(|l| l == "Descriptors:").unwrap();
    assert_eq!(lines[at + 1], "  RangeLimits");
    assert_eq!(lines[at + 2], "  ProductName: ACME LCD");
    assert_eq!(lines[at + 3], "  WhitePoint");
    assert_eq!(lines.len(), at + 4);
}

#[test]
fn extension_flags_underscan_and_audio() {
    let x = Extension { native_dtd: 0xC0, blocks: vec![], descriptors: vec![] };
    let lines = pretty_print(&record(0x80, 0, dummies(), Some(x)), false);
    assert!(has(&lines, "  Underscan: Supported"));
    assert!(has(&lines, "  Basic audio: Supported"));
    assert!(has(&lines, "  YCbCr 4:4:4: Unsupported"));
    assert!(has(&lines, "  YCbCr 4:2:2: Unsupported"));
    assert_eq!(lines.last().unwrap(), "  YCbCr 4:2:2: Unsupported");
}

#[test]
fn no_extension_no_extension_lines() {
    let lines = pretty_print(&record(0x80, 0, dummies(), None), true);
    assert!(!has(&lines, "Extension:"));
    assert_eq!(lines.last().unwrap(), "Descriptors:");
}

#[test]
fn speaker_order_is_canonical() {
    assert_eq!(speaker_string(0b0000011), " FL FR LFE");
    assert_eq!(speaker_string(0x7f), " FL FR LFE FC RL RR RC FLRC RLRC");
    assert_eq!(speaker_string(0x42), " LFE RLRC");
    assert_eq!(speaker_string(0), "");
    assert_eq!(speaker_string(0x80), "");
}

#[test]
fn rendering_twice_is_identical() {
    let x = Extension {
        native_dtd: 0x30,
        blocks: vec![DataBlock::SpeakerAllocation(5)],
        descriptors: vec![DetailedTiming {
            horizontal_active_pixels: 1920,
            vertical_active_lines: 1080,
            horizontal_size: 0,
            vertical_size: 0,
        }],
    };
    let e = record(0x95, 0xF8, dummies(), Some(x));
    assert_eq!(pretty_print(&e, true), pretty_print(&e, true));
    assert_eq!(pretty_print(&e, false), pretty_print(&e, false));
}

#[test]
fn audio_padding_is_not_reported() {
    let ads = vec![
        ShortAudioDescriptor { format: 0, channels: 2, extension: 7 },
        ShortAudioDescriptor { format: 1, channels: 2, extension: 0x05 },
        ShortAudioDescriptor { format: 15, channels: 8, extension: 0 },
        ShortAudioDescriptor { format: 2, channels: 6, extension: 80 },
    ];
    let x = Extension { native_dtd: 0, blocks: vec![DataBlock::AudioBlock(ads)], descriptors: vec![] };
    let lines = pretty_print(&record(0x80, 0, dummies(), Some(x)), false);
    let at = lines.iter().position(|l| l == "  Supported audio formats:").unwrap();
    assert_eq!(lines[at + 1], "    LPCM 2 channels 16 bit 24 bit");
    assert_eq!(lines[at + 2], "    AC-3 6 channels max bitrate 640 kbps");
    assert_eq!(lines.len(), at + 3);
}

#[test]
fn audio_format_names() {
    let names = [
        "LPCM", "AC-3", "MPEG-1", "MP3", "MPEG-2", "AAC", "DTS", "ATRAC", "DSD", "DD+", "DTS-HD",
        "Dolby TrueHD", "DST Audio", "WMA Pro",
    ];
    for (i, n) in names.iter().enumerate() {
        assert_eq!(audio_format_string(i as u8 + 1), *n);
    }
    for code in [0u8, 15, 16, 200, 255] {
        assert_eq!(audio_format_string(code), "Unknown");
    }
}

#[test]
fn audio_descriptor_text() {
    let a = ShortAudioDescriptor { format: 1, channels: 8, extension: 0xff };
    assert_eq!(audio_descriptor_string(&a), "LPCM 8 channels 16 bit 20 bit 24 bit");
    let b = ShortAudioDescriptor { format: 8, channels: 2, extension: 1 };
    assert_eq!(audio_descriptor_string(&b), "ATRAC 2 channels max bitrate 8 kbps");
    let c = ShortAudioDescriptor { format: 9, channels: 2, extension: 0xff };
    assert_eq!(audio_descriptor_string(&c), "DSD 2 channels");
    assert_eq!(a.bit_depths(), Some(7));
    assert_eq!(b.bit_depths(), None);
    assert_eq!(b.bitrate(), Some(8));
    assert_eq!(c.bitrate(), None);
}

#[test]
fn every_video_input_byte_decodes() {
    for v in 0..=255u8 {
        let expected_bpp = match v & 0x70 {
            0x00 => Some(0),
            0x10 => Some(6),
            0x20 => Some(8),
            0x30 => Some(10),
            0x40 => Some(12),
            0x50 => Some(14),
            0x60 => Some(16),
            _ => None,
        };
        assert_eq!(bits_per_pixel(v), expected_bpp);
        let expected_if = match v & 0x0f {
            0 => Some("Undefined"),
            2 => Some("HDMI-a"),
            3 => Some("HDMI-b"),
            4 => Some("MDDI"),
            5 => Some("DisplayPort"),
            _ => None,
        };
        assert_eq!(video_interface(v), expected_if);
        let expected_levels = match v & 0x60 {
            0x00 => "+0.7/−0.3 V",
            0x20 => "+0.714/−0.286 V",
            0x40 => "+1.0/−0.4 V",
            _ => "+0.7/0 V",
        };
        assert_eq!(video_white_sync_levels(v), expected_levels);
        assert_eq!(is_digital_byte(v), v >= 0x80);
        let lines = pretty_print(&record(v, 0, dummies(), None), false);
        if v >= 0x80 {
            assert_eq!(lines[9], "  Type: Digital");
        } else {
            assert_eq!(lines[9], "  Type: Analog");
        }
    }
}

#[test]
fn unknown_codes_are_labelled() {
    let lines = pretty_print(&record(0xF1, 0, dummies(), None), false);
    assert!(has(&lines, "  Bits depth: Unknown (112)"));
    assert!(has(&lines, "  Video interface: Unknown (1)"));
    let lines = pretty_print(&record(0x80, 0, dummies(), None), false);
    assert!(has(&lines, "  Bits depth: Undefined"));
}

#[test]
fn every_features_byte_stays_in_its_table() {
    for f in 0..=255u8 {
        let digital = pretty_print(&record(0x80, f, dummies(), None), false);
        let analog = pretty_print(&record(0x00, f, dummies(), None), false);
        assert!(!digital.iter().any(|l| l.starts_with("  Display type:")));
        assert!(!analog.iter().any(|l| l.starts_with("  YCrCb")));
        let y444 = if f & 0x10 != 0 { "Supported" } else { "Unsupported" };
        let y422 = if f & 0x08 != 0 { "Supported" } else { "Unsupported" };
        assert!(has(&digital, &format!("  YCrCb 4:4:4: {}", y444)));
        assert!(has(&digital, &format!("  YCrCb 4:2:2: {}", y422)));
        let kind = match f & 0x18 {
            0x00 => "Monochrome or grayscale",
            0x08 => "RGB color",
            0x10 => "Non-RGB color",
            _ => "Undefined",
        };
        assert_eq!(analog_display_type(f), kind);
        assert!(has(&analog, &format!("  Display type: {}", kind)));
        for l in [&digital, &analog] {
            assert!(has(l, &format!("  Standby: {}", supported(f & 0x80 != 0))));
            assert!(has(l, &format!("  Suspend: {}", supported(f & 0x40 != 0))));
            assert!(has(l, &format!("  Active-off: {}", supported(f & 0x20 != 0))));
        }
    }
}

#[test]
fn full_report_digital_raw() {
    let ds = vec![
        Descriptor::DetailedTiming(DetailedTiming {
            horizontal_active_pixels: 2560,
            vertical_active_lines: 1440,
            horizontal_size: 597,
            vertical_size: 336,
        }),
        Descriptor::SerialNumber("SN123".to_string()),
        Descriptor::UnspecifiedText("hello".to_string()),
        Descriptor::Unknown(vec![0x0f, 0, 1]),
    ];
    let x = Extension {
        native_dtd: 0xF2,
        blocks: vec![
            DataBlock::VideoBlock(vec![
                ShortVideoDescriptor { index: 16, native: true },
                ShortVideoDescriptor { index: 4, native: false },
            ]),
            DataBlock::VendorSpecific { identifier: [0x03, 0x0c, 0x00], payload: vec![0x10] },
            DataBlock::SpeakerAllocation(0x0b),
            DataBlock::Other { tag: 7, payload: vec![0xab, 0x01] },
        ],
        descriptors: vec![DetailedTiming {
            horizontal_active_pixels: 1280,
            vertical_active_lines: 720,
            horizontal_size: 0,
            vertical_size: 0,
        }],
    };
    let lines = pretty_print(&record(0xA5, 0xE8, ds, Some(x)), true);
    let expected = vec![
        "Header:",
        "  Year: 2017",
        "  Week: 12",
        "  Product: 1a2b",
        "  Serial: deadbeef",
        "  Version: 1.4",
        "",
        "Display:",
        "  Size: 52x29 cm",
        "  Type: Digital",
        "  Bits depth: 8 bpp",
        "  Video interface: DisplayPort",
        "  YCrCb 4:4:4: Unsupported",
        "  YCrCb 4:2:2: Supported",
        "  Standby: Supported",
        "  Suspend: Supported",
        "  Active-off: Supported",
        "",
        "  Video input: a5 (10100101)",
        "  Features: e8 (11101000)",
        "",
        "Descriptors:",
        "  Detailed timing:",
        "    Resolution: 2560x1440",
        "    Size: 597x336 mm",
        "  Serial Number: SN123",
        "  Text: hello",
        "  Unknown: 000f",
        "",
        "Extension:",
        "  Underscan: Supported",
        "  Basic audio: Supported",
        "  YCbCr 4:4:4: Supported",
        "  YCbCr 4:2:2: Supported",
        "  native_dtd: 11110010",
        "",
        "Blocks:",
        "  Supported video formats:",
        "    16 (native)",
        "    4",
        "  Vendor specific: 03 0c 00",
        "  Speaker allocation: FL FR LFE RL RR",
        "  Data block 07: ab 01",
        "",
        "Detailed timing descriptors:",
        "  Resolution: 1280x720",
    ];
    assert_eq!(lines, expected);
}

#[test]
fn full_report_analog() {
    let lines = pretty_print(&record(0x7F, 0x10, vec![Descriptor::EstablishedTimings, Descriptor::Unknown(vec![])], None), false);
    let expected = vec![
        "Header:",
        "  Year: 2017",
        "  Week: 12",
        "  Product: 1a2b",
        "  Serial: deadbeef",
        "  Version: 1.4",
        "",
        "Display:",
        "  Size: 52x29 cm",
        "  Type: Analog",
        "  Video white and sync levels: +0.7/0 V",
        "  Blank-to-black setup (pedestal): Expected",
        "  Separate sync: Supported",
        "  Composite sync: Supported",
        "  Sync on green: Supported",
        "  VSync pulse must be serrated: Yes",
        "  Display type: Non-RGB color",
        "  Standby: Unsupported",
        "  Suspend: Unsupported",
        "  Active-off: Unsupported",
        "",
        "Descriptors:",
        "  EstablishedTimings",
        "  Unknown",
    ];
    assert_eq!(lines, expected);
}

#[test]
fn other_descriptor_labels() {
    let ds = vec![Descriptor::StandardTiming, Descriptor::ColorManagement, Descriptor::TimingCodes, Descriptor::Dummy];
    let lines = pretty_print(&record(0x80, 0, ds, None), false);
    let n = lines.len();
    assert_eq!(&lines[n - 3..], &["  StandardTiming", "  ColorManagement", "  TimingCodes"]);
}

#[test]
fn dtd_at_depth() {
    let mut out = Vec::new();
    let dt = DetailedTiming { horizontal_active_pixels: 800, vertical_active_lines: 600, horizontal_size: 10, vertical_size: 20 };
    print_dtd(&mut out, 2, &dt);
    assert_eq!(out, vec!["    Detailed timing:", "      Resolution: 800x600", "      Size: 10x20 mm"]);
}

#[test]
fn number_formatting() {
    assert_eq!(dec_string(0), "0");
    assert_eq!(dec_string(1990 + 255), "2245");
    assert_eq!(dec_string(u64::MAX), "18446744073709551615");
    assert_eq!(hex_string(0xab, 4), "00ab");
    assert_eq!(hex_string(0x12345, 4), "12345");
    assert_eq!(hex_string(0, 2), "00");
    assert_eq!(bin_string(5, 8), "00000101");
    assert_eq!(bin_string(0xff, 8), "11111111");
    assert_eq!(spaces_string(3), "   ");
    assert_eq!(bytes_string(&vec![]), "");
    assert_eq!(bytes_string(&vec![1, 0xfe]), " 01 fe");
}

#[test]
fn flag_words() {
    assert_eq!(supported(true), "Supported");
    assert_eq!(supported(false), "Unsupported");
    assert_eq!(yes_or_no(true), "Yes");
    assert_eq!(yes_or_no(false), "No");
}
