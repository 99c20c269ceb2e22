//! Report sections of the CEA-861 extension: capability flags, data
//! blocks and the extension's detailed timings.
use vstd::prelude::*;
use crate::fields::{
    audio_format_name, audio_format_string, is_suppressed_format, supported, supported_name,
    AUDIO_RESERVED,
};
use crate::lines::{cat, emit, emit_title, line, view_lines};
use crate::record::{
    DataBlock, DetailedTiming, Extension, ShortAudioDescriptor, ShortVideoDescriptor,
    DTD_BASIC_AUDIO, DTD_UNDERSCAN, DTD_YUV422, DTD_YUV444, FRONT_CENTER, FRONT_LEFT_RIGHT,
    FRONT_LEFT_RIGHT_CENTER, LFE, LPCM_16_BIT, LPCM_20_BIT, LPCM_24_BIT, REAR_CENTER,
    REAR_LEFT_RIGHT, REAR_LEFT_RIGHT_CENTER,
};
use crate::text::{bin, bin_string, dec, dec_string, hex, hex_string};

verus! {

pub open spec fn extension_flag_lines(native_dtd: u8, raw: bool) -> Seq<Seq<char>> {
    seq![
        ""@,
        "Extension:"@,
        line(1, "Underscan: "@ + supported_name(native_dtd & DTD_UNDERSCAN != 0)),
        line(1, "Basic audio: "@ + supported_name(native_dtd & DTD_BASIC_AUDIO != 0)),
        line(1, "YCbCr 4:4:4: "@ + supported_name(native_dtd & DTD_YUV444 != 0)),
        line(1, "YCbCr 4:2:2: "@ + supported_name(native_dtd & DTD_YUV422 != 0)),
    ] + if raw {
        seq![line(1, "native_dtd: "@ + bin(native_dtd as nat, 8))]
    } else {
        seq![]
    }
}

pub open spec fn bitrate_text(a: ShortAudioDescriptor) -> Seq<char> {
    match a.spec_bitrate() {
        Some(v) => " max bitrate "@ + dec(v as nat) + " kbps"@,
        None => seq![],
    }
}

pub open spec fn flag_text(set: bool, text: Seq<char>) -> Seq<char> {
    if set {
        text
    } else {
        seq![]
    }
}

/// The LPCM bit depths that are flagged, in increasing order.
pub open spec fn depths_text(a: ShortAudioDescriptor) -> Seq<char> {
    let bd: u8 = match a.spec_bit_depths() {
        Some(b) => b,
        None => 0,
    };
    flag_text(bd & LPCM_16_BIT != 0, " 16 bit"@) + flag_text(bd & LPCM_20_BIT != 0, " 20 bit"@)
        + flag_text(bd & LPCM_24_BIT != 0, " 24 bit"@)
}

pub open spec fn audio_line(a: ShortAudioDescriptor) -> Seq<char> {
    line(
        2,
        audio_format_name(a.format) + " "@ + dec(a.channels as nat) + " channels"@ + bitrate_text(a)
            + depths_text(a),
    )
}

/// One line per descriptor whose format is not padding, in order.
pub open spec fn audio_lines(ads: Seq<ShortAudioDescriptor>) -> Seq<Seq<char>>
    decreases ads.len(),
{
    if ads.len() == 0 {
        seq![]
    } else if is_suppressed_format(ads.last().format) {
        audio_lines(ads.drop_last())
    } else {
        audio_lines(ads.drop_last()).push(audio_line(ads.last()))
    }
}

pub open spec fn video_line(v: ShortVideoDescriptor) -> Seq<char> {
    line(2, dec(v.index as nat) + flag_text(v.native, " (native)"@))
}

pub open spec fn video_lines(vs: Seq<ShortVideoDescriptor>) -> Seq<Seq<char>>
    decreases vs.len(),
{
    if vs.len() == 0 {
        seq![]
    } else {
        video_lines(vs.drop_last()).push(video_line(vs.last()))
    }
}

/// The speaker positions that `speakers` sets, in canonical order.
pub open spec fn speaker_text(speakers: u8) -> Seq<char> {
    flag_text(speakers & FRONT_LEFT_RIGHT != 0, " FL FR"@) + flag_text(speakers & LFE != 0, " LFE"@)
        + flag_text(speakers & FRONT_CENTER != 0, " FC"@) + flag_text(speakers & REAR_LEFT_RIGHT != 0, " RL RR"@)
        + flag_text(speakers & REAR_CENTER != 0, " RC"@) + flag_text(speakers & FRONT_LEFT_RIGHT_CENTER != 0, " FLRC"@)
        + flag_text(speakers & REAR_LEFT_RIGHT_CENTER != 0, " RLRC"@)
}

/// Each byte as a space and two hexadecimal digits.
pub open spec fn bytes_text(b: Seq<u8>) -> Seq<char>
    decreases b.len(),
{
    if b.len() == 0 {
        seq![]
    } else {
        bytes_text(b.drop_last()) + " "@ + hex(b.last() as nat, 2)
    }
}

pub open spec fn block_lines(b: DataBlock) -> Seq<Seq<char>> {
    match b {
        DataBlock::AudioBlock(v) => seq![line(1, "Supported audio formats:"@)] + audio_lines(v@),
        DataBlock::VideoBlock(v) => seq![line(1, "Supported video formats:"@)] + video_lines(v@),
        DataBlock::VendorSpecific { identifier, payload } => seq![
            line(
                1,
                "Vendor specific: "@ + hex(identifier@[0] as nat, 2) + " "@ + hex(
                    identifier@[1] as nat,
                    2,
                ) + " "@ + hex(identifier@[2] as nat, 2),
            ),
        ],
        DataBlock::SpeakerAllocation(s) => seq![line(1, "Speaker allocation:"@ + speaker_text(s))],
        DataBlock::Other { tag, payload } => seq![
            line(1, "Data block "@ + hex(tag as nat, 2) + ":"@ + bytes_text(payload@)),
        ],
    }
}

pub open spec fn blocks_lines(bs: Seq<DataBlock>) -> Seq<Seq<char>>
    decreases bs.len(),
{
    if bs.len() == 0 {
        seq![]
    } else {
        blocks_lines(bs.drop_last()) + block_lines(bs.last())
    }
}

pub open spec fn resolution_line(dt: DetailedTiming) -> Seq<char> {
    line(
        1,
        "Resolution: "@ + dec(dt.horizontal_active_pixels as nat) + "x"@ + dec(
            dt.vertical_active_lines as nat,
        ),
    )
}

pub open spec fn timings_lines(dts: Seq<DetailedTiming>) -> Seq<Seq<char>>
    decreases dts.len(),
{
    if dts.len() == 0 {
        seq![]
    } else {
        timings_lines(dts.drop_last()).push(resolution_line(dts.last()))
    }
}

/// The extension section: flags, then the blocks if there are any, then
/// the detailed timings if there are any.
pub open spec fn extension_lines(x: Extension, raw: bool) -> Seq<Seq<char>> {
    extension_flag_lines(x.native_dtd, raw) + (if x.blocks@.len() > 0 {
        seq![""@, "Blocks:"@] + blocks_lines(x.blocks@)
    } else {
        seq![]
    }) + (if x.descriptors@.len() > 0 {
        seq![""@, "Detailed timing descriptors:"@] + timings_lines(x.descriptors@)
    } else {
        seq![]
    })
}

/// Appends the extension's capability flags.
pub fn extension_flags_section(out: &mut Vec<String>, native_dtd: u8, raw: bool)
    ensures
        view_lines(final(out)@) == view_lines(old(out)@) + extension_flag_lines(native_dtd, raw),
{
    let ghost start = view_lines(out@);
    emit_title(out, "");
    emit_title(out, "Extension:");
    emit(out, 1, cat("Underscan: ", supported(native_dtd & DTD_UNDERSCAN != 0)));
    emit(out, 1, cat("Basic audio: ", supported(native_dtd & DTD_BASIC_AUDIO != 0)));
    emit(out, 1, cat("YCbCr 4:4:4: ", supported(native_dtd & DTD_YUV444 != 0)));
    emit(out, 1, cat("YCbCr 4:2:2: ", supported(native_dtd & DTD_YUV422 != 0)));
    if raw {
        emit(out, 1, cat("native_dtd: ", bin_string(native_dtd as u64, 8).as_str()));
    }
    assert(view_lines(out@) =~= start + extension_flag_lines(native_dtd, raw));
}

fn flag_string(s: String, set: bool, text: &str) -> (r: String)
    ensures
        r@ == s@ + flag_text(set, text@),
{
    if set {
        s.concat(text)
    } else {
        assert(s@ + flag_text(set, text@) =~= s@);
        s
    }
}

/// The text of an audio descriptor's line.
pub fn audio_descriptor_string(a: &ShortAudioDescriptor) -> (r: String)
    ensures
        line(2, r@) == audio_line(*a),
{
    let mut s = cat(audio_format_string(a.format), " ").concat(dec_string(a.channels as u64).as_str()).concat(
        " channels",
    );
    match a.bitrate() {
        Some(v) => {
            s = s.concat(" max bitrate ").concat(dec_string(v as u64).as_str()).concat(" kbps");
        },
        None => {},
    }
    let bd: u8 = match a.bit_depths() {
        Some(b) => b,
        None => 0,
    };
    let ghost before = s@;
    s = flag_string(s, bd & LPCM_16_BIT != 0, " 16 bit");
    s = flag_string(s, bd & LPCM_20_BIT != 0, " 20 bit");
    s = flag_string(s, bd & LPCM_24_BIT != 0, " 24 bit");
    assert(s@ =~= before + depths_text(*a));
    assert(s@ =~= audio_format_name(a.format) + " "@ + dec(a.channels as nat) + " channels"@
        + bitrate_text(*a) + depths_text(*a));
    s
}

/// Appends one line per reported audio descriptor.
pub fn audio_descriptors_section(out: &mut Vec<String>, ads: &Vec<ShortAudioDescriptor>)
    ensures
        view_lines(final(out)@) == view_lines(old(out)@) + audio_lines(ads@),
{
    let ghost start = view_lines(out@);
    let mut i: usize = 0;
    while i < ads.len()
        invariant
            i <= ads@.len(),
            view_lines(out@) == start + audio_lines(ads@.take(i as int)),
        decreases ads@.len() - i,
    {
        let a = &ads[i];
        if !(a.format == 0 || a.format == AUDIO_RESERVED) {
            emit(out, 2, audio_descriptor_string(a));
        }
        proof {
            let next = ads@.take(i as int + 1);
            assert(next.drop_last() =~= ads@.take(i as int));
            assert(next.last() == ads@[i as int]);
            assert(view_lines(out@) =~= start + audio_lines(next));
        }
        i = i + 1;
    }
    assert(ads@.take(ads@.len() as int) =~= ads@);
}

/// Appends one line per video descriptor.
pub fn video_descriptors_section(out: &mut Vec<String>, vs: &Vec<ShortVideoDescriptor>)
    ensures
        view_lines(final(out)@) == view_lines(old(out)@) + video_lines(vs@),
{
    let ghost start = view_lines(out@);
    let mut i: usize = 0;
    while i < vs.len()
        invariant
            i <= vs@.len(),
            view_lines(out@) == start + video_lines(vs@.take(i as int)),
        decreases vs@.len() - i,
    {
        let v = &vs[i];
        let text = flag_string(dec_string(v.index as u64), v.native, " (native)");
        emit(out, 2, text);
        proof {
            let next = vs@.take(i as int + 1);
            assert(next.drop_last() =~= vs@.take(i as int));
            assert(next.last() == vs@[i as int]);
            assert(view_lines(out@) =~= start + video_lines(next));
        }
        i = i + 1;
    }
    assert(vs@.take(vs@.len() as int) =~= vs@);
}

/// The speaker positions that `speakers` sets, each after a space, in
/// canonical order.
pub fn speaker_string(speakers: u8) -> (r: String)
    ensures
        r@ == speaker_text(speakers),
{
    let mut s = String::new();
    let ghost empty = s@;
    s = flag_string(s, speakers & FRONT_LEFT_RIGHT != 0, " FL FR");
    s = flag_string(s, speakers & LFE != 0, " LFE");
    s = flag_string(s, speakers & FRONT_CENTER != 0, " FC");
    s = flag_string(s, speakers & REAR_LEFT_RIGHT != 0, " RL RR");
    s = flag_string(s, speakers & REAR_CENTER != 0, " RC");
    s = flag_string(s, speakers & FRONT_LEFT_RIGHT_CENTER != 0, " FLRC");
    s = flag_string(s, speakers & REAR_LEFT_RIGHT_CENTER != 0, " RLRC");
    assert(s@ =~= speaker_text(speakers));
    s
}

/// Each byte as a space and two hexadecimal digits.
pub fn bytes_string(b: &Vec<u8>) -> (r: String)
    ensures
        r@ == bytes_text(b@),
{
    let mut s = String::new();
    let mut i: usize = 0;
    while i < b.len()
        invariant
            i <= b@.len(),
            s@ == bytes_text(b@.take(i as int)),
        decreases b@.len() - i,
    {
        s = s.concat(" ").concat(hex_string(b[i] as u64, 2).as_str());
        proof {
            let next = b@.take(i as int + 1);
            assert(next.drop_last() =~= b@.take(i as int));
        }
        i = i + 1;
    }
    assert(b@.take(b@.len() as int) =~= b@);
    s
}

/// Appends the lines of one data block.
pub fn block_section(out: &mut Vec<String>, b: &DataBlock)
    ensures
        view_lines(final(out)@) == view_lines(old(out)@) + block_lines(*b),
{
    let ghost start = view_lines(out@);
    match b {
        DataBlock::AudioBlock(v) => {
            emit(out, 1, String::from_str("Supported audio formats:"));
            audio_descriptors_section(out, v);
        },
        DataBlock::VideoBlock(v) => {
            emit(out, 1, String::from_str("Supported video formats:"));
            video_descriptors_section(out, v);
        },
        DataBlock::VendorSpecific { identifier, payload } => {
            let text = cat("Vendor specific: ", hex_string(identifier[0] as u64, 2).as_str()).concat(
                " ",
            ).concat(hex_string(identifier[1] as u64, 2).as_str()).concat(" ").concat(
                hex_string(identifier[2] as u64, 2).as_str(),
            );
            emit(out, 1, text);
        },
        DataBlock::SpeakerAllocation(sp) => {
            emit(out, 1, cat("Speaker allocation:", speaker_string(*sp).as_str()));
        },
        DataBlock::Other { tag, payload } => {
            let text = cat("Data block ", hex_string(*tag as u64, 2).as_str()).concat(":").concat(
                bytes_string(payload).as_str(),
            );
            emit(out, 1, text);
        },
    }
    assert(view_lines(out@) =~= start + block_lines(*b));
}

/// Appends the lines of each data block, in order.
pub fn blocks_section(out: &mut Vec<String>, bs: &Vec<DataBlock>)
    ensures
        view_lines(final(out)@) == view_lines(old(out)@) + blocks_lines(bs@),
{
    let ghost start = view_lines(out@);
    let mut i: usize = 0;
    while i < bs.len()
        invariant
            i <= bs@.len(),
            view_lines(out@) == start + blocks_lines(bs@.take(i as int)),
        decreases bs@.len() - i,
    {
        block_section(out, &bs[i]);
        proof {
            let next = bs@.take(i as int + 1);
            assert(next.drop_last() =~= bs@.take(i as int));
            assert(next.last() == bs@[i as int]);
            assert(view_lines(out@) =~= start + blocks_lines(next));
        }
        i = i + 1;
    }
    assert(bs@.take(bs@.len() as int) =~= bs@);
}

/// Appends the resolution of each of the extension's detailed timings.
pub fn timings_section(out: &mut Vec<String>, dts: &Vec<DetailedTiming>)
    ensures
        view_lines(final(out)@) == view_lines(old(out)@) + timings_lines(dts@),
{
    let ghost start = view_lines(out@);
    let mut i: usize = 0;
    while i < dts.len()
        invariant
            i <= dts@.len(),
            view_lines(out@) == start + timings_lines(dts@.take(i as int)),
        decreases dts@.len() - i,
    {
        let dt = &dts[i];
        let text = cat("Resolution: ", dec_string(dt.horizontal_active_pixels as u64).as_str()).concat(
            "x",
        ).concat(dec_string(dt.vertical_active_lines as u64).as_str());
        emit(out, 1, text);
        proof {
            let next = dts@.take(i as int + 1);
            assert(next.drop_last() =~= dts@.take(i as int));
            assert(next.last() == dts@[i as int]);
            assert(view_lines(out@) =~= start + timings_lines(next));
        }
        i = i + 1;
    }
    assert(dts@.take(dts@.len() as int) =~= dts@);
}

/// Appends the extension section.
pub fn extension_section(out: &mut Vec<String>, x: &Extension, raw: bool)
    ensures
        view_lines(final(out)@) == view_lines(old(out)@) + extension_lines(*x, raw),
{
    let ghost start = view_lines(out@);
    extension_flags_section(out, x.native_dtd, raw);
    let ghost mid = view_lines(out@);
    if x.blocks.len() > 0 {
        emit_title(out, "");
        emit_title(out, "Blocks:");
        blocks_section(out, &x.blocks);
    }
    let ghost blocks: Seq<Seq<char>> = if x.blocks@.len() > 0 {
        seq![""@, "Blocks:"@] + blocks_lines(x.blocks@)
    } else {
        seq![]
    };
    assert(view_lines(out@) =~= mid + blocks);
    let ghost mid2 = view_lines(out@);
    if x.descriptors.len() > 0 {
        emit_title(out, "");
        emit_title(out, "Detailed timing descriptors:");
        timings_section(out, &x.descriptors);
    }
    let ghost timings: Seq<Seq<char>> = if x.descriptors@.len() > 0 {
        seq![""@, "Detailed timing descriptors:"@] + timings_lines(x.descriptors@)
    } else {
        seq![]
    };
    assert(view_lines(out@) =~= mid2 + timings);
    assert(view_lines(out@) =~= start + extension_lines(*x, raw));
}

} // verus!
