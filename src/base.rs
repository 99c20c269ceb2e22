//! Report sections of the base block: header, display parameters and
//! descriptors.
use vstd::prelude::*;
use crate::fields::{
    analog_display_type, bit_depth_code, bits_per_pixel, bpp_of,
    display_type_name, interface_code, interface_name, supported, supported_name,
    sync_levels_name, video_interface, video_white_sync_levels, yes_no_name, yes_or_no,
};
use crate::lines::{cat, emit, emit_title, line, view_lines};
use crate::record::{Descriptor, DetailedTiming, DisplayParameters, Header};
use crate::text::{bin, bin_string, dec, dec_string, hex, hex_string};

verus! {

pub open spec fn header_lines(h: Header) -> Seq<Seq<char>> {
    seq![
        "Header:"@,
        line(1, "Year: "@ + dec(1990 + h.year as nat)),
        line(1, "Week: "@ + dec(h.week as nat)),
        line(1, "Product: "@ + hex(h.product as nat, 4)),
        line(1, "Serial: "@ + hex(h.serial as nat, 8)),
        line(1, "Version: "@ + dec(h.version as nat) + "."@ + dec(h.revision as nat)),
        ""@,
    ]
}

/// Bit 7 of `video_input` selects the digital interpretation.
pub open spec fn is_digital(video_input: u8) -> bool {
    video_input & 0x80u8 != 0
}

pub open spec fn bpp_text(video_input: u8) -> Seq<char> {
    match bpp_of(video_input) {
        Some(v) => if v == 0 {
            "Undefined"@
        } else {
            dec(v as nat) + " bpp"@
        },
        None => "Unknown ("@ + dec(bit_depth_code(video_input) as nat) + ")"@,
    }
}

pub open spec fn interface_text(video_input: u8) -> Seq<char> {
    match interface_name(video_input) {
        Some(n) => n,
        None => "Unknown ("@ + dec(interface_code(video_input) as nat) + ")"@,
    }
}

/// The digital sub-report: `features` is read for its YCrCb flags only.
pub open spec fn digital_lines(video_input: u8, features: u8) -> Seq<Seq<char>> {
    seq![
        line(1, "Type: Digital"@),
        line(1, "Bits depth: "@ + bpp_text(video_input)),
        line(1, "Video interface: "@ + interface_text(video_input)),
        line(1, "YCrCb 4:4:4: "@ + supported_name(features & 0x10u8 != 0)),
        line(1, "YCrCb 4:2:2: "@ + supported_name(features & 0x08u8 != 0)),
    ]
}

pub open spec fn pedestal_name(video_input: u8) -> Seq<char> {
    if video_input & 0x10u8 != 0 {
        "Expected"@
    } else {
        "Not set"@
    }
}

/// The analog sub-report: `features` is read for its color type only.
pub open spec fn analog_lines(video_input: u8, features: u8) -> Seq<Seq<char>> {
    seq![
        line(1, "Type: Analog"@),
        line(1, "Video white and sync levels: "@ + sync_levels_name(video_input)),
        line(1, "Blank-to-black setup (pedestal): "@ + pedestal_name(video_input)),
        line(1, "Separate sync: "@ + supported_name(video_input & 0x08u8 != 0)),
        line(1, "Composite sync: "@ + supported_name(video_input & 0x04u8 != 0)),
        line(1, "Sync on green: "@ + supported_name(video_input & 0x02u8 != 0)),
        line(1, "VSync pulse must be serrated: "@ + yes_no_name(video_input & 0x01u8 != 0)),
        line(1, "Display type: "@ + display_type_name(features)),
    ]
}

/// Power management flags, shared by both interpretations.
pub open spec fn power_lines(features: u8) -> Seq<Seq<char>> {
    seq![
        line(1, "Standby: "@ + supported_name(features & 0x80u8 != 0)),
        line(1, "Suspend: "@ + supported_name(features & 0x40u8 != 0)),
        line(1, "Active-off: "@ + supported_name(features & 0x20u8 != 0)),
    ]
}

/// Hexadecimal and binary dump of a byte.
pub open spec fn byte_dump(b: u8) -> Seq<char> {
    hex(b as nat, 2) + " ("@ + bin(b as nat, 8) + ")"@
}

pub open spec fn raw_display_lines(video_input: u8, features: u8) -> Seq<Seq<char>> {
    seq![
        ""@,
        line(1, "Video input: "@ + byte_dump(video_input)),
        line(1, "Features: "@ + byte_dump(features)),
    ]
}

pub open spec fn display_lines(d: DisplayParameters, raw: bool) -> Seq<Seq<char>> {
    seq![
        "Display:"@,
        line(1, "Size: "@ + dec(d.width as nat) + "x"@ + dec(d.height as nat) + " cm"@),
    ] + (if is_digital(d.video_input) {
        digital_lines(d.video_input, d.features)
    } else {
        analog_lines(d.video_input, d.features)
    }) + power_lines(d.features) + (if raw {
        raw_display_lines(d.video_input, d.features)
    } else {
        seq![]
    }) + seq![""@]
}

pub open spec fn dtd_lines(depth: nat, dt: DetailedTiming) -> Seq<Seq<char>> {
    seq![
        line(depth, "Detailed timing:"@),
        line(
            depth + 1,
            "Resolution: "@ + dec(dt.horizontal_active_pixels as nat) + "x"@ + dec(
                dt.vertical_active_lines as nat,
            ),
        ),
        line(
            depth + 1,
            "Size: "@ + dec(dt.horizontal_size as nat) + "x"@ + dec(dt.vertical_size as nat)
                + " mm"@,
        ),
    ]
}

pub open spec fn unknown_text(b: Seq<u8>) -> Seq<char> {
    if b.len() > 0 {
        "Unknown: "@ + hex(b[0] as nat, 4)
    } else {
        "Unknown"@
    }
}

/// The lines of one descriptor; filler descriptors give none.
pub open spec fn descriptor_lines(d: Descriptor) -> Seq<Seq<char>> {
    match d {
        Descriptor::Dummy => seq![],
        Descriptor::DetailedTiming(dt) => dtd_lines(1, dt),
        Descriptor::SerialNumber(s) => seq![line(1, "Serial Number: "@ + s@)],
        Descriptor::UnspecifiedText(s) => seq![line(1, "Text: "@ + s@)],
        Descriptor::RangeLimits => seq![line(1, "RangeLimits"@)],
        Descriptor::ProductName(s) => seq![line(1, "ProductName: "@ + s@)],
        Descriptor::WhitePoint => seq![line(1, "WhitePoint"@)],
        Descriptor::StandardTiming => seq![line(1, "StandardTiming"@)],
        Descriptor::ColorManagement => seq![line(1, "ColorManagement"@)],
        Descriptor::TimingCodes => seq![line(1, "TimingCodes"@)],
        Descriptor::EstablishedTimings => seq![line(1, "EstablishedTimings"@)],
        Descriptor::Unknown(b) => seq![line(1, unknown_text(b@))],
    }
}

/// The lines of each descriptor, in order.
pub open spec fn descriptors_lines(ds: Seq<Descriptor>) -> Seq<Seq<char>>
    decreases ds.len(),
{
    if ds.len() == 0 {
        seq![]
    } else {
        descriptors_lines(ds.drop_last()) + descriptor_lines(ds.last())
    }
}

/// Appends the header section.
pub fn header_section(out: &mut Vec<String>, h: &Header)
    ensures
        view_lines(final(out)@) == view_lines(old(out)@) + header_lines(*h),
{
    let ghost start = view_lines(out@);
    emit_title(out, "Header:");
    emit(out, 1, cat("Year: ", dec_string(1990 + h.year as u64).as_str()));
    emit(out, 1, cat("Week: ", dec_string(h.week as u64).as_str()));
    emit(out, 1, cat("Product: ", hex_string(h.product as u64, 4).as_str()));
    emit(out, 1, cat("Serial: ", hex_string(h.serial as u64, 8).as_str()));
    let v = cat("Version: ", dec_string(h.version as u64).as_str()).concat(".").concat(
        dec_string(h.revision as u64).as_str(),
    );
    emit(out, 1, v);
    emit_title(out, "");
    assert(view_lines(out@) =~= start + header_lines(*h));
}

/// Whether `video_input` describes a digital input.
pub fn is_digital_byte(video_input: u8) -> (r: bool)
    ensures
        r == is_digital(video_input),
{
    video_input & 0x80u8 != 0
}

fn bpp_string(video_input: u8) -> (r: String)
    ensures
        r@ == bpp_text(video_input),
{
    match bits_per_pixel(video_input) {
        Some(v) => if v == 0 {
            String::from_str("Undefined")
        } else {
            dec_string(v as u64).concat(" bpp")
        },
        None => cat("Unknown (", dec_string((video_input & 0x70u8) as u64).as_str()).concat(")"),
    }
}

fn interface_string(video_input: u8) -> (r: String)
    ensures
        r@ == interface_text(video_input),
{
    match video_interface(video_input) {
        Some(n) => String::from_str(n),
        None => cat("Unknown (", dec_string((video_input & 0x0fu8) as u64).as_str()).concat(")"),
    }
}

/// Appends the digital sub-report.
pub fn digital_section(out: &mut Vec<String>, video_input: u8, features: u8)
    ensures
        view_lines(final(out)@) == view_lines(old(out)@) + digital_lines(video_input, features),
{
    let ghost start = view_lines(out@);
    emit(out, 1, String::from_str("Type: Digital"));
    emit(out, 1, cat("Bits depth: ", bpp_string(video_input).as_str()));
    emit(out, 1, cat("Video interface: ", interface_string(video_input).as_str()));
    emit(out, 1, cat("YCrCb 4:4:4: ", supported(features & 0x10u8 != 0)));
    emit(out, 1, cat("YCrCb 4:2:2: ", supported(features & 0x08u8 != 0)));
    assert(view_lines(out@) =~= start + digital_lines(video_input, features));
}

/// Appends the analog sub-report.
pub fn analog_section(out: &mut Vec<String>, video_input: u8, features: u8)
    ensures
        view_lines(final(out)@) == view_lines(old(out)@) + analog_lines(video_input, features),
{
    let ghost start = view_lines(out@);
    emit(out, 1, String::from_str("Type: Analog"));
    emit(out, 1, cat("Video white and sync levels: ", video_white_sync_levels(video_input)));
    let pedestal = if video_input & 0x10u8 != 0 {
        "Expected"
    } else {
        "Not set"
    };
    emit(out, 1, cat("Blank-to-black setup (pedestal): ", pedestal));
    emit(out, 1, cat("Separate sync: ", supported(video_input & 0x08u8 != 0)));
    emit(out, 1, cat("Composite sync: ", supported(video_input & 0x04u8 != 0)));
    emit(out, 1, cat("Sync on green: ", supported(video_input & 0x02u8 != 0)));
    emit(out, 1, cat("VSync pulse must be serrated: ", yes_or_no(video_input & 0x01u8 != 0)));
    emit(out, 1, cat("Display type: ", analog_display_type(features)));
    assert(view_lines(out@) =~= start + analog_lines(video_input, features));
}

fn byte_dump_string(b: u8) -> (r: String)
    ensures
        r@ == byte_dump(b),
{
    hex_string(b as u64, 2).concat(" (").concat(bin_string(b as u64, 8).as_str()).concat(")")
}

/// Appends the power management flags.
pub fn power_section(out: &mut Vec<String>, features: u8)
    ensures
        view_lines(final(out)@) == view_lines(old(out)@) + power_lines(features),
{
    let ghost start = view_lines(out@);
    emit(out, 1, cat("Standby: ", supported(features & 0x80u8 != 0)));
    emit(out, 1, cat("Suspend: ", supported(features & 0x40u8 != 0)));
    emit(out, 1, cat("Active-off: ", supported(features & 0x20u8 != 0)));
    assert(view_lines(out@) =~= start + power_lines(features));
}

/// Appends the raw dump of the two display bytes.
pub fn raw_display_section(out: &mut Vec<String>, video_input: u8, features: u8)
    ensures
        view_lines(final(out)@) == view_lines(old(out)@) + raw_display_lines(video_input, features),
{
    let ghost start = view_lines(out@);
    emit_title(out, "");
    emit(out, 1, cat("Video input: ", byte_dump_string(video_input).as_str()));
    emit(out, 1, cat("Features: ", byte_dump_string(features).as_str()));
    assert(view_lines(out@) =~= start + raw_display_lines(video_input, features));
}

/// Appends the display section.
pub fn display_section(out: &mut Vec<String>, d: &DisplayParameters, raw: bool)
    ensures
        view_lines(final(out)@) == view_lines(old(out)@) + display_lines(*d, raw),
{
    let ghost start = view_lines(out@);
    emit_title(out, "Display:");
    let size = cat("Size: ", dec_string(d.width as u64).as_str()).concat("x").concat(
        dec_string(d.height as u64).as_str(),
    ).concat(" cm");
    emit(out, 1, size);
    let ghost head = view_lines(out@);
    assert(head =~= start + seq![
        "Display:"@,
        line(1, "Size: "@ + dec(d.width as nat) + "x"@ + dec(d.height as nat) + " cm"@),
    ]);
    if is_digital_byte(d.video_input) {
        digital_section(out, d.video_input, d.features);
    } else {
        analog_section(out, d.video_input, d.features);
    }
    power_section(out, d.features);
    let ghost mid = view_lines(out@);
    if raw {
        raw_display_section(out, d.video_input, d.features);
    }
    let ghost tail: Seq<Seq<char>> = if raw {
        raw_display_lines(d.video_input, d.features)
    } else {
        seq![]
    };
    assert(view_lines(out@) =~= mid + tail);
    emit_title(out, "");
    assert(view_lines(out@) =~= start + display_lines(*d, raw));
}

fn resolution_string(dt: &DetailedTiming) -> (r: String)
    ensures
        r@ == "Resolution: "@ + dec(dt.horizontal_active_pixels as nat) + "x"@ + dec(
            dt.vertical_active_lines as nat,
        ),
{
    cat("Resolution: ", dec_string(dt.horizontal_active_pixels as u64).as_str()).concat("x").concat(
        dec_string(dt.vertical_active_lines as u64).as_str(),
    )
}

/// Appends a detailed timing definition at `depth`.
pub fn print_dtd(out: &mut Vec<String>, depth: usize, dt: &DetailedTiming)
    requires
        depth <= (usize::MAX - 2) / 2,
    ensures
        view_lines(final(out)@) == view_lines(old(out)@) + dtd_lines(depth as nat, *dt),
{
    let ghost start = view_lines(out@);
    emit(out, depth, String::from_str("Detailed timing:"));
    emit(out, depth + 1, resolution_string(dt));
    let size = cat("Size: ", dec_string(dt.horizontal_size as u64).as_str()).concat("x").concat(
        dec_string(dt.vertical_size as u64).as_str(),
    ).concat(" mm");
    emit(out, depth + 1, size);
    assert(view_lines(out@) =~= start + dtd_lines(depth as nat, *dt));
}

/// Appends the lines of one descriptor.
pub fn descriptor_section(out: &mut Vec<String>, d: &Descriptor)
    ensures
        view_lines(final(out)@) == view_lines(old(out)@) + descriptor_lines(*d),
{
    let ghost start = view_lines(out@);
    match d {
        Descriptor::Dummy => {},
        Descriptor::DetailedTiming(dt) => print_dtd(out, 1, dt),
        Descriptor::SerialNumber(s) => emit(out, 1, cat("Serial Number: ", s.as_str())),
        Descriptor::UnspecifiedText(s) => emit(out, 1, cat("Text: ", s.as_str())),
        Descriptor::RangeLimits => emit(out, 1, String::from_str("RangeLimits")),
        Descriptor::ProductName(s) => emit(out, 1, cat("ProductName: ", s.as_str())),
        Descriptor::WhitePoint => emit(out, 1, String::from_str("WhitePoint")),
        Descriptor::StandardTiming => emit(out, 1, String::from_str("StandardTiming")),
        Descriptor::ColorManagement => emit(out, 1, String::from_str("ColorManagement")),
        Descriptor::TimingCodes => emit(out, 1, String::from_str("TimingCodes")),
        Descriptor::EstablishedTimings => emit(out, 1, String::from_str("EstablishedTimings")),
        Descriptor::Unknown(b) => {
            if b.len() > 0 {
                emit(out, 1, cat("Unknown: ", hex_string(b[0] as u64, 4).as_str()));
            } else {
                emit(out, 1, String::from_str("Unknown"));
            }
        },
    }
    assert(view_lines(out@) =~= start + descriptor_lines(*d));
}

/// Appends the lines of each descriptor, in order.
pub fn descriptors_section(out: &mut Vec<String>, ds: &Vec<Descriptor>)
    ensures
        view_lines(final(out)@) == view_lines(old(out)@) + descriptors_lines(ds@),
{
    let ghost start = view_lines(out@);
    let mut i: usize = 0;
    while i < ds.len()
        invariant
            i <= ds@.len(),
            view_lines(out@) == start + descriptors_lines(ds@.take(i as int)),
        decreases ds@.len() - i,
    {
        let ghost before = view_lines(out@);
        descriptor_section(out, &ds[i]);
        proof {
            let next = ds@.take(i as int + 1);
            assert(next.drop_last() =~= ds@.take(i as int));
            assert(next.last() == ds@[i as int]);
            assert(view_lines(out@) =~= start + descriptors_lines(next));
        }
        i = i + 1;
    }
    assert(ds@.take(ds@.len() as int) =~= ds@);
}

} // verus!
