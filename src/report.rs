//! The whole report: header, display, descriptors and, when present, the
//! extension.
use vstd::prelude::*;
use crate::base::{descriptors_lines, descriptors_section, display_lines, display_section, header_lines, header_section};
use crate::cea::{extension_lines, extension_section};
use crate::lines::{emit_title, view_lines};
use crate::record::{Edid, Extension};

verus! {

/// The report of `e`; `raw` adds hexadecimal and binary dumps of the
/// bit fields.
pub open spec fn report(e: Edid, raw: bool) -> Seq<Seq<char>> {
    header_lines(e.header) + display_lines(e.display, raw) + seq!["Descriptors:"@]
        + descriptors_lines(e.descriptors@) + optional_extension_lines(e.extension, raw)
}

/// Nothing at all when there is no extension.
pub open spec fn optional_extension_lines(x: Option<Extension>, raw: bool) -> Seq<Seq<char>> {
    match x {
        Some(x) => extension_lines(x, raw),
        None => seq![],
    }
}

/// Renders `e` as a sequence of lines.
pub fn pretty_print(e: &Edid, raw: bool) -> (r: Vec<String>)
    ensures
        view_lines(r@) == report(*e, raw),
{
    let mut out: Vec<String> = Vec::new();
    assert(view_lines(out@) =~= seq![]);
    header_section(&mut out, &e.header);
    display_section(&mut out, &e.display, raw);
    emit_title(&mut out, "Descriptors:");
    descriptors_section(&mut out, &e.descriptors);
    let ghost before = view_lines(out@);
    match &e.extension {
        Some(x) => extension_section(&mut out, x, raw),
        None => {},
    }
    assert(view_lines(out@) =~= before + optional_extension_lines(e.extension, raw));
    assert(view_lines(out@) =~= report(*e, raw));
    out
}

} // verus!
