//! Properties of the report that hold for every input.
use vstd::prelude::*;
use crate::base::{
    analog_lines, bpp_text, byte_dump, descriptor_lines, descriptors_lines, digital_lines,
    display_lines, header_lines, interface_text, is_digital, pedestal_name, power_lines,
    raw_display_lines,
};
use crate::cea::{
    audio_line, audio_lines, block_lines, blocks_lines, extension_flag_lines, resolution_line,
    speaker_text, timings_lines, video_line, video_lines,
};
use crate::fields::{
    audio_format_name, bit_depth_code, bpp_of, display_type_name, is_suppressed_format,
    supported_name, sync_levels_name, yes_no_name,
};
use crate::lines::{line, view_lines};
use crate::record::{
    DataBlock, Descriptor, DetailedTiming, DisplayParameters, Edid, Extension,
    ShortAudioDescriptor,
};
use crate::report::{optional_extension_lines, report};
use crate::text::{dec, hex};

verus! {

/// Bit 7 of `video_input` alone selects which sub-report follows the size
/// line: the digital one when it is set, the analog one otherwise.
pub proof fn lemma_branch_selection(d: DisplayParameters, raw: bool)
    ensures
        is_digital(d.video_input) <==> d.video_input >= 0x80,
        is_digital(d.video_input) ==> display_lines(d, raw).subrange(2, 7) == digital_lines(
            d.video_input,
            d.features,
        ),
        !is_digital(d.video_input) ==> display_lines(d, raw).subrange(2, 10) == analog_lines(
            d.video_input,
            d.features,
        ),
{
    let v = d.video_input;
    assert((v & 0x80u8 != 0) <==> v >= 0x80) by (bit_vector);
    if is_digital(v) {
        assert(display_lines(d, raw).subrange(2, 7) =~= digital_lines(v, d.features));
    } else {
        assert(display_lines(d, raw).subrange(2, 10) =~= analog_lines(v, d.features));
    }
}

/// Every bit-depth code but the reserved 0x70 is in the table.
pub proof fn lemma_bit_depth_total(video_input: u8)
    ensures
        bpp_of(video_input) is None <==> bit_depth_code(video_input) == 0x70,
{
    let v = video_input;
    assert(v & 0x70u8 == 0x00 || v & 0x70u8 == 0x10 || v & 0x70u8 == 0x20 || v & 0x70u8 == 0x30
        || v & 0x70u8 == 0x40 || v & 0x70u8 == 0x50 || v & 0x70u8 == 0x60 || v & 0x70u8 == 0x70)
        by (bit_vector);
}

/// Bits 6-5 take one of four values, and each has its own pair of levels.
pub proof fn lemma_sync_levels_total(video_input: u8)
    ensures
        video_input & 0x60u8 == 0x00 || video_input & 0x60u8 == 0x20 || video_input & 0x60u8 == 0x40
            || video_input & 0x60u8 == 0x60,
        video_input & 0x60u8 == 0x00 ==> sync_levels_name(video_input) == "+0.7/−0.3 V"@,
        video_input & 0x60u8 == 0x20 ==> sync_levels_name(video_input) == "+0.714/−0.286 V"@,
        video_input & 0x60u8 == 0x40 ==> sync_levels_name(video_input) == "+1.0/−0.4 V"@,
        video_input & 0x60u8 == 0x60 ==> sync_levels_name(video_input) == "+0.7/0 V"@,
{
    let v = video_input;
    assert(v & 0x60u8 == 0x00 || v & 0x60u8 == 0x20 || v & 0x60u8 == 0x40 || v & 0x60u8 == 0x60)
        by (bit_vector);
}

/// The analog sub-report reads `features` through bits 4-3 as one color
/// type, the digital one reads the same bits as two separate flags; no
/// other bit of `features` reaches either.
pub proof fn lemma_features_tables(video_input: u8, f1: u8, f2: u8)
    requires
        f1 & 0x18u8 == f2 & 0x18u8,
    ensures
        analog_lines(video_input, f1) == analog_lines(video_input, f2),
        digital_lines(video_input, f1) == digital_lines(video_input, f2),
        display_type_name(f1) == display_type_name(f2),
{
    assert((f1 & 0x10u8 != 0) == (f2 & 0x10u8 != 0)) by (bit_vector)
        requires
            f1 & 0x18u8 == f2 & 0x18u8,
    ;
    assert((f1 & 0x08u8 != 0) == (f2 & 0x08u8 != 0)) by (bit_vector)
        requires
            f1 & 0x18u8 == f2 & 0x18u8,
    ;
}

/// The padding codes, 0 and the reserved code, never give an audio line:
/// every line comes from a descriptor with another code, and a block of
/// padding alone gives none.
pub proof fn lemma_audio_padding_skipped(ads: Seq<ShortAudioDescriptor>)
    ensures
        forall|i: int|
            0 <= i < audio_lines(ads).len() ==> exists|j: int|
                0 <= j < ads.len() && !is_suppressed_format(#[trigger] ads[j].format)
                    && #[trigger] audio_lines(ads)[i] == audio_line(ads[j]),
        (forall|j: int| 0 <= j < ads.len() ==> is_suppressed_format(#[trigger] ads[j].format))
            ==> audio_lines(ads).len() == 0,
    decreases ads.len(),
{
    if ads.len() > 0 {
        let init = ads.drop_last();
        lemma_audio_padding_skipped(init);
        assert forall|i: int| 0 <= i < audio_lines(ads).len() implies exists|j: int|
            0 <= j < ads.len() && !is_suppressed_format(#[trigger] ads[j].format)
                && #[trigger] audio_lines(ads)[i] == audio_line(ads[j]) by {
            if i < audio_lines(init).len() {
                let j = choose|j: int|
                    0 <= j < init.len() && !is_suppressed_format(#[trigger] init[j].format)
                        && audio_lines(init)[i] == audio_line(init[j]);
                assert(ads[j] == init[j]);
            } else {
                let j = ads.len() - 1;
                assert(ads[j] == ads.last());
            }
        }
        if forall|j: int| 0 <= j < ads.len() ==> is_suppressed_format(#[trigger] ads[j].format) {
            assert forall|j: int| 0 <= j < init.len() implies is_suppressed_format(
                #[trigger] init[j].format,
            ) by {
                assert(init[j] == ads[j]);
            }
            assert(is_suppressed_format(ads[ads.len() - 1].format));
        }
    }
}

/// The fourteen defined audio codes have their own names, and no other
/// code borrows one of them.
pub proof fn lemma_audio_names(code: u8)
    ensures
        1 <= code <= 14 ==> audio_format_name(code) != "Unknown"@,
        !(1 <= code <= 14) ==> audio_format_name(code) == "Unknown"@,
{
    reveal_strlit("Unknown");
    reveal_strlit("LPCM");
    reveal_strlit("AC-3");
    reveal_strlit("MPEG-1");
    reveal_strlit("MP3");
    reveal_strlit("MPEG-2");
    reveal_strlit("AAC");
    reveal_strlit("DTS");
    reveal_strlit("ATRAC");
    reveal_strlit("DSD");
    reveal_strlit("DD+");
    reveal_strlit("DTS-HD");
    reveal_strlit("Dolby TrueHD");
    reveal_strlit("DST Audio");
    reveal_strlit("WMA Pro");
    if 1 <= code <= 14 {
        assert(audio_format_name(code)[0] != 'U' || audio_format_name(code).len() != 7);
    }
}

/// Front left/right come before the LFE whenever both are present,
/// whatever the other bits of the mask.
pub proof fn lemma_speaker_order(speakers: u8)
    requires
        speakers & 0x01u8 != 0,
        speakers & 0x02u8 != 0,
    ensures
        speaker_text(speakers).subrange(0, 10) == " FL FR LFE"@,
{
    reveal_strlit(" FL FR");
    reveal_strlit(" LFE");
    reveal_strlit(" FL FR LFE");
    let s = speaker_text(speakers);
    assert(s.subrange(0, 10) =~= " FL FR LFE"@);
}

/// Rendering a record twice with the same flag gives the same lines.
pub proof fn lemma_render_deterministic(e: Edid, raw: bool, a: Seq<String>, b: Seq<String>)
    requires
        view_lines(a) == report(e, raw),
        view_lines(b) == report(e, raw),
    ensures
        view_lines(a) == view_lines(b),
{
}

proof fn lemma_blocks_lines_append(a: Seq<DataBlock>, b: Seq<DataBlock>)
    ensures
        blocks_lines(a + b) == blocks_lines(a) + blocks_lines(b),
    decreases b.len(),
{
    if b.len() == 0 {
        assert(a + b =~= a);
        assert(blocks_lines(a) + blocks_lines(b) =~= blocks_lines(a));
    } else {
        let init = b.drop_last();
        lemma_blocks_lines_append(a, init);
        assert((a + b).drop_last() =~= a + init);
        assert((a + b).last() == b.last());
        assert(blocks_lines(a + b) =~= blocks_lines(a) + blocks_lines(b));
    }
}

/// Each data block of the extension appears in the full report as
/// exactly its own lines, in its place: for an audio block, its heading
/// and the lines of its non-padding descriptors; for a speaker allocation,
/// its one line with the positions in canonical order.
pub proof fn lemma_block_in_report(e: Edid, raw: bool, x: Extension, k: int)
    requires
        e.extension == Some(x),
        0 <= k < x.blocks@.len(),
    ensures
        exists|i: int|
            0 <= i && i + block_lines(x.blocks@[k]).len() <= report(e, raw).len()
                && #[trigger] report(e, raw).subrange(i, i + block_lines(x.blocks@[k]).len())
                == block_lines(x.blocks@[k]),
{
    let bs = x.blocks@;
    let b = bs[k];
    let before = bs.take(k);
    let after = bs.skip(k + 1);
    assert(bs =~= before + seq![b] + after);
    lemma_blocks_lines_append(before + seq![b], after);
    lemma_blocks_lines_append(before, seq![b]);
    assert(seq![b].drop_last() =~= Seq::<DataBlock>::empty());
    assert(blocks_lines(seq![b].drop_last()) =~= seq![]);
    assert(seq![b].last() == b);
    assert(blocks_lines(seq![b]) =~= block_lines(b));
    let r = report(e, raw);
    let head = header_lines(e.header) + display_lines(e.display, raw) + seq!["Descriptors:"@]
        + descriptors_lines(e.descriptors@) + extension_flag_lines(x.native_dtd, raw)
        + seq![""@, "Blocks:"@] + blocks_lines(before);
    let n = block_lines(b).len() as int;
    assert(r =~= head + block_lines(b) + (blocks_lines(after) + (if x.descriptors@.len() > 0 {
        seq![""@, "Detailed timing descriptors:"@] + crate::cea::timings_lines(x.descriptors@)
    } else {
        seq![]
    })));
    assert(r.subrange(head.len() as int, head.len() + n) =~= block_lines(b));
    assert(r.subrange(head.len() as int, head.len() as int + block_lines(x.blocks@[k]).len()) == block_lines(x.blocks@[k]));
}

/// `l` begins with `p`.
pub open spec fn starts_with(l: Seq<char>, p: Seq<char>) -> bool {
    p.len() <= l.len() && l.subrange(0, p.len() as int) == p
}

/// `l` is indented by one level and its text begins with `a`, `b`, `c`.
pub open spec fn head_is(l: Seq<char>, a: char, b: char, c: char) -> bool {
    l.len() >= 5 && l[0] == ' ' && l[1] == ' ' && l[2] == a && l[3] == b && l[4] == c
}

/// `l` is neither a type line, a display-type line nor a YCrCb line.
pub open spec fn plain(l: Seq<char>) -> bool {
    !head_is(l, 'T', 'y', 'p') && !head_is(l, 'D', 'i', 's') && !head_is(l, 'Y', 'C', 'r')
}

pub open spec fn all_plain(s: Seq<Seq<char>>) -> bool {
    forall|i: int| 0 <= i < s.len() ==> plain(#[trigger] s[i])
}

proof fn lemma_all_plain_add(a: Seq<Seq<char>>, b: Seq<Seq<char>>)
    requires
        all_plain(a),
        all_plain(b),
    ensures
        all_plain(a + b),
{
    assert forall|i: int| 0 <= i < (a + b).len() implies plain(#[trigger] (a + b)[i]) by {
        if i < a.len() {
            assert((a + b)[i] == a[i]);
        } else {
            assert((a + b)[i] == b[i - a.len()]);
        }
    }
}

proof fn lemma_deep_plain(d: nat, t: Seq<char>)
    requires
        d >= 2,
    ensures
        plain(line(d, t)),
{
    assert(line(d, t)[2] == ' ');
}

proof fn lemma_shallow_plain(t: Seq<char>)
    requires
        t.len() >= 3,
        !(t[0] == 'T' && t[1] == 'y' && t[2] == 'p'),
        !(t[0] == 'D' && t[1] == 'i' && t[2] == 's'),
        !(t[0] == 'Y' && t[1] == 'C' && t[2] == 'r'),
    ensures
        plain(line(1, t)),
{
    let l = line(1, t);
    assert(l[2] == t[0] && l[3] == t[1] && l[4] == t[2]);
}

proof fn lemma_prefix_plain(p: Seq<char>, q: Seq<char>)
    requires
        p.len() >= 3,
        !(p[0] == 'T' && p[1] == 'y' && p[2] == 'p'),
        !(p[0] == 'D' && p[1] == 'i' && p[2] == 's'),
        !(p[0] == 'Y' && p[1] == 'C' && p[2] == 'r'),
    ensures
        plain(line(1, p + q)),
{
    lemma_shallow_plain(p + q);
}

proof fn lemma_header_plain(e: Edid)
    ensures
        all_plain(header_lines(e.header)),
{
    reveal_strlit("Header:");
    reveal_strlit("Year: ");
    reveal_strlit("Week: ");
    reveal_strlit("Product: ");
    reveal_strlit("Serial: ");
    reveal_strlit("Version: ");
    reveal_strlit(".");
    reveal_strlit("");
    let h = e.header;
    lemma_prefix_plain("Year: "@, dec(1990 + h.year as nat));
    lemma_prefix_plain("Week: "@, dec(h.week as nat));
    lemma_prefix_plain("Product: "@, hex(h.product as nat, 4));
    lemma_prefix_plain("Serial: "@, hex(h.serial as nat, 8));
    lemma_prefix_plain(
        "Version: "@,
        dec(h.version as nat) + "."@ + dec(h.revision as nat),
    );
    assert("Version: "@ + dec(h.version as nat) + "."@ + dec(
        h.revision as nat,
    ) =~= "Version: "@ + (dec(h.version as nat) + "."@ + dec(
        h.revision as nat,
    )));
}

/// No line of `s` is indented by one level with a text beginning `a`,
/// `b`, `c`.
pub open spec fn no_head(s: Seq<Seq<char>>, a: char, b: char, c: char) -> bool {
    forall|i: int| 0 <= i < s.len() ==> !head_is(#[trigger] s[i], a, b, c)
}

proof fn lemma_no_head_add(s: Seq<Seq<char>>, t: Seq<Seq<char>>, a: char, b: char, c: char)
    requires
        no_head(s, a, b, c),
        no_head(t, a, b, c),
    ensures
        no_head(s + t, a, b, c),
{
    assert forall|i: int| 0 <= i < (s + t).len() implies !head_is(#[trigger] (s + t)[i], a, b, c) by {
        if i < s.len() {
            assert((s + t)[i] == s[i]);
        } else {
            assert((s + t)[i] == t[i - s.len()]);
        }
    }
}

proof fn lemma_plain_no_head(s: Seq<Seq<char>>)
    requires
        all_plain(s),
    ensures
        no_head(s, 'T', 'y', 'p'),
        no_head(s, 'D', 'i', 's'),
        no_head(s, 'Y', 'C', 'r'),
{
    assert forall|i: int| 0 <= i < s.len() implies !head_is(#[trigger] s[i], 'T', 'y', 'p') by {
        assert(plain(s[i]));
    }
    assert forall|i: int| 0 <= i < s.len() implies !head_is(#[trigger] s[i], 'D', 'i', 's') by {
        assert(plain(s[i]));
    }
    assert forall|i: int| 0 <= i < s.len() implies !head_is(#[trigger] s[i], 'Y', 'C', 'r') by {
        assert(plain(s[i]));
    }
}

/// The first characters of a line indented by one level.
proof fn lemma_head(p: Seq<char>, q: Seq<char>)
    requires
        p.len() >= 3,
    ensures
        line(1, p + q).len() >= 5,
        line(1, p + q)[0] == ' ',
        line(1, p + q)[1] == ' ',
        line(1, p + q)[2] == p[0],
        line(1, p + q)[3] == p[1],
        line(1, p + q)[4] == p[2],
{
}

proof fn lemma_head_lit(p: Seq<char>)
    requires
        p.len() >= 3,
    ensures
        line(1, p).len() >= 5,
        line(1, p)[0] == ' ',
        line(1, p)[1] == ' ',
        line(1, p)[2] == p[0],
        line(1, p)[3] == p[1],
        line(1, p)[4] == p[2],
{
}

proof fn lemma_power_raw_plain(d: DisplayParameters)
    ensures
        all_plain(power_lines(d.features)),
        all_plain(raw_display_lines(d.video_input, d.features)),
        all_plain(seq![""@]),
{
    reveal_strlit("Standby: ");
    reveal_strlit("Suspend: ");
    reveal_strlit("Active-off: ");
    reveal_strlit("Video input: ");
    reveal_strlit("Features: ");
    reveal_strlit("");
    let f = d.features;
    lemma_prefix_plain("Standby: "@, supported_name(f & 0x80u8 != 0));
    lemma_prefix_plain("Suspend: "@, supported_name(f & 0x40u8 != 0));
    lemma_prefix_plain("Active-off: "@, supported_name(f & 0x20u8 != 0));
    lemma_prefix_plain("Video input: "@, byte_dump(d.video_input));
    lemma_prefix_plain("Features: "@, byte_dump(f));
}

/// In the display section the third line is the one type line; the digital
/// form has no display-type line and the analog form no YCrCb line.
proof fn lemma_display_heads(d: DisplayParameters, raw: bool)
    ensures
        display_lines(d, raw).len() > 2,
        display_lines(d, raw)[2] == line(
            1,
            if is_digital(d.video_input) {
                "Type: Digital"@
            } else {
                "Type: Analog"@
            },
        ),
        no_head(display_lines(d, raw).take(2), 'T', 'y', 'p'),
        no_head(display_lines(d, raw).skip(3), 'T', 'y', 'p'),
        is_digital(d.video_input) ==> no_head(display_lines(d, raw), 'D', 'i', 's'),
        !is_digital(d.video_input) ==> no_head(display_lines(d, raw), 'Y', 'C', 'r'),
{
    reveal_strlit("Display:");
    reveal_strlit("Size: ");
    reveal_strlit("Type: Digital");
    reveal_strlit("Type: Analog");
    reveal_strlit("Bits depth: ");
    reveal_strlit("Video interface: ");
    reveal_strlit("YCrCb 4:4:4: ");
    reveal_strlit("YCrCb 4:2:2: ");
    reveal_strlit("Video white and sync levels: ");
    reveal_strlit("Blank-to-black setup (pedestal): ");
    reveal_strlit("Separate sync: ");
    reveal_strlit("Composite sync: ");
    reveal_strlit("Sync on green: ");
    reveal_strlit("VSync pulse must be serrated: ");
    reveal_strlit("Display type: ");
    let vi = d.video_input;
    let f = d.features;
    let size_rest = dec(d.width as nat) + "x"@ + dec(d.height as nat) + " cm"@;
    assert("Size: "@ + dec(d.width as nat) + "x"@ + dec(d.height as nat) + " cm"@ =~= "Size: "@
        + size_rest);
    lemma_prefix_plain("Size: "@, size_rest);
    let top: Seq<Seq<char>> = seq![
        "Display:"@,
        line(1, "Size: "@ + dec(d.width as nat) + "x"@ + dec(d.height as nat) + " cm"@),
    ];
    assert(all_plain(top));
    lemma_plain_no_head(top);
    lemma_power_raw_plain(d);
    let rawl: Seq<Seq<char>> = if raw {
        raw_display_lines(vi, f)
    } else {
        seq![]
    };
    let tail = power_lines(f) + rawl + seq![""@];
    lemma_all_plain_add(power_lines(f), rawl);
    lemma_all_plain_add(power_lines(f) + rawl, seq![""@]);
    lemma_plain_no_head(tail);
    let sub = if is_digital(vi) {
        digital_lines(vi, f)
    } else {
        analog_lines(vi, f)
    };
    let all = display_lines(d, raw);
    assert(all =~= top + sub + tail);
    if is_digital(vi) {
        lemma_head_lit("Type: Digital"@);
        lemma_head("Bits depth: "@, bpp_text(vi));
        lemma_head("Video interface: "@, interface_text(vi));
        lemma_head("YCrCb 4:4:4: "@, supported_name(f & 0x10u8 != 0));
        lemma_head("YCrCb 4:2:2: "@, supported_name(f & 0x08u8 != 0));
        assert(no_head(sub.skip(1), 'T', 'y', 'p'));
        assert(no_head(sub, 'D', 'i', 's'));
        lemma_no_head_add(top, sub, 'D', 'i', 's');
        lemma_no_head_add(top + sub, tail, 'D', 'i', 's');
    } else {
        lemma_head_lit("Type: Analog"@);
        lemma_head("Video white and sync levels: "@, crate::fields::sync_levels_name(vi));
        lemma_head("Blank-to-black setup (pedestal): "@, pedestal_name(vi));
        lemma_head("Separate sync: "@, supported_name(vi & 0x08u8 != 0));
        lemma_head("Composite sync: "@, supported_name(vi & 0x04u8 != 0));
        lemma_head("Sync on green: "@, supported_name(vi & 0x02u8 != 0));
        lemma_head("VSync pulse must be serrated: "@, yes_no_name(vi & 0x01u8 != 0));
        lemma_head("Display type: "@, display_type_name(f));
        assert(no_head(sub.skip(1), 'T', 'y', 'p'));
        assert(no_head(sub, 'Y', 'C', 'r'));
        lemma_no_head_add(top, sub, 'Y', 'C', 'r');
        lemma_no_head_add(top + sub, tail, 'Y', 'C', 'r');
    }
    assert(all.take(2) =~= top);
    assert(all.skip(3) =~= sub.skip(1) + tail);
    lemma_no_head_add(sub.skip(1), tail, 'T', 'y', 'p');
}

proof fn lemma_descriptor_plain(d: Descriptor)
    ensures
        all_plain(descriptor_lines(d)),
{
    reveal_strlit("Detailed timing:");
    reveal_strlit("Serial Number: ");
    reveal_strlit("Text: ");
    reveal_strlit("RangeLimits");
    reveal_strlit("ProductName: ");
    reveal_strlit("WhitePoint");
    reveal_strlit("StandardTiming");
    reveal_strlit("ColorManagement");
    reveal_strlit("TimingCodes");
    reveal_strlit("EstablishedTimings");
    reveal_strlit("Unknown: ");
    reveal_strlit("Unknown");
    match d {
        Descriptor::DetailedTiming(dt) => {
            let l = crate::base::dtd_lines(1, dt);
            lemma_head_lit("Detailed timing:"@);
            lemma_deep_plain(2, l[1].subrange(4, l[1].len() as int));
            lemma_deep_plain(2, l[2].subrange(4, l[2].len() as int));
            assert(l[1] =~= line(2, l[1].subrange(4, l[1].len() as int)));
            assert(l[2] =~= line(2, l[2].subrange(4, l[2].len() as int)));
        },
        Descriptor::SerialNumber(t) => lemma_prefix_plain("Serial Number: "@, t@),
        Descriptor::UnspecifiedText(t) => lemma_prefix_plain("Text: "@, t@),
        Descriptor::ProductName(t) => lemma_prefix_plain("ProductName: "@, t@),
        Descriptor::RangeLimits => lemma_head_lit("RangeLimits"@),
        Descriptor::WhitePoint => lemma_head_lit("WhitePoint"@),
        Descriptor::StandardTiming => lemma_head_lit("StandardTiming"@),
        Descriptor::ColorManagement => lemma_head_lit("ColorManagement"@),
        Descriptor::TimingCodes => lemma_head_lit("TimingCodes"@),
        Descriptor::EstablishedTimings => lemma_head_lit("EstablishedTimings"@),
        Descriptor::Unknown(b) => {
            if b@.len() > 0 {
                lemma_prefix_plain("Unknown: "@, hex(b@[0] as nat, 4));
            } else {
                lemma_head_lit("Unknown"@);
            }
        },
        Descriptor::Dummy => {},
    }
}

proof fn lemma_descriptors_plain(ds: Seq<Descriptor>)
    ensures
        all_plain(descriptors_lines(ds)),
    decreases ds.len(),
{
    if ds.len() > 0 {
        lemma_descriptors_plain(ds.drop_last());
        lemma_descriptor_plain(ds.last());
        lemma_all_plain_add(descriptors_lines(ds.drop_last()), descriptor_lines(ds.last()));
    }
}

proof fn lemma_audio_lines_plain(ads: Seq<ShortAudioDescriptor>)
    ensures
        all_plain(audio_lines(ads)),
    decreases ads.len(),
{
    if ads.len() > 0 {
        lemma_audio_lines_plain(ads.drop_last());
        let a = ads.last();
        let t = audio_line(a).subrange(4, audio_line(a).len() as int);
        assert(audio_line(a) =~= line(2, t));
        lemma_deep_plain(2, t);
        lemma_all_plain_add(audio_lines(ads.drop_last()), seq![audio_line(a)]);
        assert(audio_lines(ads.drop_last()).push(audio_line(a)) =~= audio_lines(ads.drop_last())
            + seq![audio_line(a)]);
    }
}

proof fn lemma_video_lines_plain(vs: Seq<crate::record::ShortVideoDescriptor>)
    ensures
        all_plain(video_lines(vs)),
    decreases vs.len(),
{
    if vs.len() > 0 {
        lemma_video_lines_plain(vs.drop_last());
        let v = vs.last();
        let t = video_line(v).subrange(4, video_line(v).len() as int);
        assert(video_line(v) =~= line(2, t));
        lemma_deep_plain(2, t);
        lemma_all_plain_add(video_lines(vs.drop_last()), seq![video_line(v)]);
        assert(video_lines(vs.drop_last()).push(video_line(v)) =~= video_lines(vs.drop_last())
            + seq![video_line(v)]);
    }
}

proof fn lemma_block_plain(b: DataBlock)
    ensures
        all_plain(block_lines(b)),
{
    reveal_strlit("Supported audio formats:");
    reveal_strlit("Supported video formats:");
    reveal_strlit("Vendor specific: ");
    reveal_strlit("Speaker allocation:");
    reveal_strlit("Data block ");
    match b {
        DataBlock::AudioBlock(v) => {
            lemma_head_lit("Supported audio formats:"@);
            lemma_audio_lines_plain(v@);
            lemma_all_plain_add(seq![line(1, "Supported audio formats:"@)], audio_lines(v@));
        },
        DataBlock::VideoBlock(v) => {
            lemma_head_lit("Supported video formats:"@);
            lemma_video_lines_plain(v@);
            lemma_all_plain_add(seq![line(1, "Supported video formats:"@)], video_lines(v@));
        },
        DataBlock::VendorSpecific { identifier, payload } => {
            let l = block_lines(b)[0];
            let t = l.subrange(2, l.len() as int);
            assert(l =~= line(1, t));
            assert(t[0] == 'V' && t[1] == 'e');
            lemma_shallow_plain(t);
        },
        DataBlock::SpeakerAllocation(m) => {
            lemma_prefix_plain("Speaker allocation:"@, speaker_text(m));
        },
        DataBlock::Other { tag, payload } => {
            let l = block_lines(b)[0];
            let t = l.subrange(2, l.len() as int);
            assert(l =~= line(1, t));
            assert(t[0] == 'D' && t[1] == 'a');
            lemma_shallow_plain(t);
        },
    }
}

proof fn lemma_blocks_plain(bs: Seq<DataBlock>)
    ensures
        all_plain(blocks_lines(bs)),
    decreases bs.len(),
{
    if bs.len() > 0 {
        lemma_blocks_plain(bs.drop_last());
        lemma_block_plain(bs.last());
        lemma_all_plain_add(blocks_lines(bs.drop_last()), block_lines(bs.last()));
    }
}

proof fn lemma_timings_plain(dts: Seq<DetailedTiming>)
    ensures
        all_plain(timings_lines(dts)),
    decreases dts.len(),
{
    reveal_strlit("Resolution: ");
    if dts.len() > 0 {
        lemma_timings_plain(dts.drop_last());
        let dt = dts.last();
        lemma_prefix_plain(
            "Resolution: "@,
            dec(dt.horizontal_active_pixels as nat) + "x"@ + dec(dt.vertical_active_lines as nat),
        );
        assert(resolution_line(dt) =~= line(
            1,
            "Resolution: "@ + (dec(dt.horizontal_active_pixels as nat) + "x"@ + dec(
                dt.vertical_active_lines as nat,
            )),
        ));
        lemma_all_plain_add(timings_lines(dts.drop_last()), seq![resolution_line(dt)]);
        assert(timings_lines(dts.drop_last()).push(resolution_line(dt)) =~= timings_lines(
            dts.drop_last(),
        ) + seq![resolution_line(dt)]);
    }
}

proof fn lemma_extension_plain(x: Option<Extension>, raw: bool)
    ensures
        all_plain(optional_extension_lines(x, raw)),
{
    reveal_strlit("");
    reveal_strlit("Extension:");
    reveal_strlit("Underscan: ");
    reveal_strlit("Basic audio: ");
    reveal_strlit("YCbCr 4:4:4: ");
    reveal_strlit("YCbCr 4:2:2: ");
    reveal_strlit("native_dtd: ");
    reveal_strlit("Blocks:");
    reveal_strlit("Detailed timing descriptors:");
    if let Some(x) = x {
        let nd = x.native_dtd;
        lemma_prefix_plain("Underscan: "@, supported_name(nd & 0x80u8 != 0));
        lemma_prefix_plain("Basic audio: "@, supported_name(nd & 0x40u8 != 0));
        lemma_prefix_plain("YCbCr 4:4:4: "@, supported_name(nd & 0x20u8 != 0));
        lemma_prefix_plain("YCbCr 4:2:2: "@, supported_name(nd & 0x10u8 != 0));
        lemma_prefix_plain("native_dtd: "@, crate::text::bin(nd as nat, 8));
        let flags = extension_flag_lines(nd, raw);
        assert(all_plain(flags));
        let heading: Seq<Seq<char>> = seq![""@, "Blocks:"@];
        assert(all_plain(heading));
        lemma_blocks_plain(x.blocks@);
        lemma_all_plain_add(heading, blocks_lines(x.blocks@));
        let theading: Seq<Seq<char>> = seq![""@, "Detailed timing descriptors:"@];
        assert(all_plain(theading));
        lemma_timings_plain(x.descriptors@);
        lemma_all_plain_add(theading, timings_lines(x.descriptors@));
        let bl: Seq<Seq<char>> = if x.blocks@.len() > 0 {
            heading + blocks_lines(x.blocks@)
        } else {
            seq![]
        };
        let tl: Seq<Seq<char>> = if x.descriptors@.len() > 0 {
            theading + timings_lines(x.descriptors@)
        } else {
            seq![]
        };
        lemma_all_plain_add(flags, bl);
        lemma_all_plain_add(flags + bl, tl);
    }
}

proof fn lemma_prefix_head(l: Seq<char>, p: Seq<char>)
    requires
        p.len() >= 5,
        starts_with(l, p),
    ensures
        head_is(l, p[2], p[3], p[4]) <== (p[0] == ' ' && p[1] == ' '),
{
    let k = p.len() as int;
    assert(l.subrange(0, k)[0] == l[0]);
    assert(l.subrange(0, k)[1] == l[1]);
    assert(l.subrange(0, k)[2] == l[2]);
    assert(l.subrange(0, k)[3] == l[3]);
    assert(l.subrange(0, k)[4] == l[4]);
}

/// Every report has exactly one line that begins with "  Type: ", the
/// tenth, which reads "  Type: Digital" when bit 7 of `video_input` is set
/// and "  Type: Analog" otherwise. A digital report has no line of the
/// analog color-type table, and an analog report no line of the digital
/// YCrCb flags.
pub proof fn lemma_report_type_lines(e: Edid, raw: bool)
    ensures
        report(e, raw).len() > 9,
        report(e, raw)[9] == (if is_digital(e.display.video_input) {
            "  Type: Digital"@
        } else {
            "  Type: Analog"@
        }),
        starts_with(report(e, raw)[9], "  Type: "@),
        forall|i: int|
            0 <= i < report(e, raw).len() && i != 9 ==> !starts_with(
                #[trigger] report(e, raw)[i],
                "  Type: "@,
            ),
        is_digital(e.display.video_input) ==> forall|i: int|
            0 <= i < report(e, raw).len() ==> !starts_with(
                #[trigger] report(e, raw)[i],
                "  Display type:"@,
            ),
        !is_digital(e.display.video_input) ==> forall|i: int|
            0 <= i < report(e, raw).len() ==> !starts_with(
                #[trigger] report(e, raw)[i],
                "  YCrCb"@,
            ),
{
    reveal_strlit("  Type: ");
    reveal_strlit("  Type: Digital");
    reveal_strlit("  Type: Analog");
    reveal_strlit("Type: Digital");
    reveal_strlit("Type: Analog");
    reveal_strlit("  Display type:");
    reveal_strlit("  YCrCb");
    reveal_strlit("Descriptors:");
    let r = report(e, raw);
    let h = header_lines(e.header);
    let d = display_lines(e.display, raw);
    let rest = seq!["Descriptors:"@] + descriptors_lines(e.descriptors@)
        + optional_extension_lines(e.extension, raw);
    lemma_header_plain(e);
    lemma_display_heads(e.display, raw);
    lemma_descriptors_plain(e.descriptors@);
    lemma_extension_plain(e.extension, raw);
    assert(all_plain(seq!["Descriptors:"@]));
    lemma_all_plain_add(seq!["Descriptors:"@], descriptors_lines(e.descriptors@));
    lemma_all_plain_add(
        seq!["Descriptors:"@] + descriptors_lines(e.descriptors@),
        optional_extension_lines(e.extension, raw),
    );
    lemma_plain_no_head(h);
    lemma_plain_no_head(rest);
    assert(r =~= h + d + rest);
    assert(h.len() == 7);
    let digital = is_digital(e.display.video_input);
    assert(r[9] == d[2]);
    if digital {
        assert(d[2] =~= "  Type: Digital"@);
    } else {
        assert(d[2] =~= "  Type: Analog"@);
    }
    assert(r[9].subrange(0, 8) =~= "  Type: "@);
    assert forall|i: int| 0 <= i < r.len() && i != 9 implies !starts_with(#[trigger] r[i], "  Type: "@) by {
        if starts_with(r[i], "  Type: "@) {
            lemma_prefix_head(r[i], "  Type: "@);
            if i < 7 {
                assert(r[i] == h[i]);
            } else if i < 9 {
                assert(r[i] == d.take(2)[i - 7]);
            } else if i < 7 + d.len() {
                assert(r[i] == d.skip(3)[i - 10]);
            } else {
                assert(r[i] == rest[i - 7 - d.len()]);
            }
        }
    }
    if digital {
        assert forall|i: int| 0 <= i < r.len() implies !starts_with(#[trigger] r[i], "  Display type:"@) by {
            if starts_with(r[i], "  Display type:"@) {
                lemma_prefix_head(r[i], "  Display type:"@);
                if i < 7 {
                    assert(r[i] == h[i]);
                } else if i < 7 + d.len() {
                    assert(r[i] == d[i - 7]);
                } else {
                    assert(r[i] == rest[i - 7 - d.len()]);
                }
            }
        }
    } else {
        assert forall|i: int| 0 <= i < r.len() implies !starts_with(#[trigger] r[i], "  YCrCb"@) by {
            if starts_with(r[i], "  YCrCb"@) {
                lemma_prefix_head(r[i], "  YCrCb"@);
                if i < 7 {
                    assert(r[i] == h[i]);
                } else if i < 7 + d.len() {
                    assert(r[i] == d[i - 7]);
                } else {
                    assert(r[i] == rest[i - 7 - d.len()]);
                }
            }
        }
    }
}

} // verus!
