//! Rendering entries as colorized text.
//!
//! One shared formatter produces the text for a single entry — color by
//! kind, and in long mode a type glyph, nine colored permission characters,
//! and a decimal-truncated size column — and both output paths are built
//! from it: the listing of an enumerated directory, and the single-entry
//! render of a trailing path argument. Every piece is specified character
//! for character.
//!
//! The size column keeps the tool's own scale: byte counts below one
//! thousand are printed as bytes, and everything above is integer-divided
//! by the next power-of-ten divisor up (10^6 for `KB`, 10^9 for `MB`,
//! 10^12 for `GB`, 10^15 for `TB`), so most sub-megabyte sizes show as
//! `0KB`.

use crate::entry::EntryInfo;
use crate::entry::EntryKind;
use crate::entry::EntryView;
use crate::entry::included;
use crate::entry::spec_included;
use crate::options::DisplayOptions;
use crate::options::FilteringOptions;
use crate::text::push_char;
use crate::text::push_padded_decimal;
use crate::text::push_spaces;
use crate::text::spec_decimal;
use crate::text::spec_pad_left;
use crate::text::spec_spaces;
use vstd::prelude::*;
use vstd::string::StrSliceExecFns;
use vstd::string::StringExecFns;

verus! {

/// The escape sequence that opens an entry name: bold blue for a
/// directory, bold cyan for a symbolic link, bare bold otherwise.
pub open spec fn spec_entry_color(kind: EntryKind) -> Seq<char> {
    match kind {
        EntryKind::Directory => "\x1b[1;34m"@,
        EntryKind::Symlink => "\x1b[1;96m"@,
        EntryKind::File => "\x1b[1m"@,
    }
}

fn entry_color(kind: EntryKind) -> (r: &'static str)
    ensures
        r@ == spec_entry_color(kind),
{
    match kind {
        EntryKind::Directory => "\x1b[1;34m",
        EntryKind::Symlink => "\x1b[1;96m",
        EntryKind::File => "\x1b[1m",
    }
}

/// The type glyph of the long table: `d`, `-` or `l`.
pub open spec fn spec_glyph(kind: EntryKind) -> Seq<char> {
    match kind {
        EntryKind::Directory => "d"@,
        EntryKind::Symlink => "l"@,
        EntryKind::File => "-"@,
    }
}

/// The glyph wrapped in the entry's color.
pub open spec fn spec_glyph_cell(kind: EntryKind) -> Seq<char> {
    spec_entry_color(kind) + spec_glyph(kind) + "\x1b[0m"@
}

fn push_glyph_cell(out: &mut String, kind: EntryKind)
    ensures
        final(out)@ == old(out)@ + spec_glyph_cell(kind),
{
    out.append(entry_color(kind));
    match kind {
        EntryKind::Directory => out.append("d"),
        EntryKind::Symlink => out.append("l"),
        EntryKind::File => out.append("-"),
    }
    out.append("\x1b[0m");
    proof {
        assert(final(out)@ =~= old(out)@ + spec_glyph_cell(kind));
    }
}

/// One permission character: its color (bolded for the owner triplet), the
/// character if the bit is set and `-` otherwise, then a reset.
pub open spec fn spec_perm_cell(bold: bool, color: Seq<char>, set: bool, ch: Seq<char>) -> Seq<
    char,
> {
    (if bold {
        "\x1b[1m"@
    } else {
        Seq::<char>::empty()
    }) + color + (if set {
        ch
    } else {
        "-"@
    }) + "\x1b[0m"@
}

fn push_perm_cell(out: &mut String, bold: bool, color: &str, set: bool, ch: &str)
    ensures
        final(out)@ == old(out)@ + spec_perm_cell(bold, color@, set, ch@),
{
    if bold {
        out.append("\x1b[1m");
    }
    out.append(color);
    if set {
        out.append(ch);
    } else {
        out.append("-");
    }
    out.append("\x1b[0m");
    proof {
        assert(final(out)@ =~= old(out)@ + spec_perm_cell(bold, color@, set, ch@));
    }
}

/// One read/write/execute triplet: read in yellow, write in red, execute
/// in green, bolded for the owner triplet.
pub open spec fn spec_perm_triplet(bold: bool, rs: bool, ws: bool, xs: bool) -> Seq<char> {
    spec_perm_cell(bold, "\x1b[33m"@, rs, "r"@) + spec_perm_cell(bold, "\x1b[31m"@, ws, "w"@)
        + spec_perm_cell(bold, "\x1b[32m"@, xs, "x"@)
}

fn push_perm_triplet(out: &mut String, bold: bool, rs: bool, ws: bool, xs: bool)
    ensures
        final(out)@ == old(out)@ + spec_perm_triplet(bold, rs, ws, xs),
{
    push_perm_cell(out, bold, "\x1b[33m", rs, "r");
    push_perm_cell(out, bold, "\x1b[31m", ws, "w");
    push_perm_cell(out, bold, "\x1b[32m", xs, "x");
    proof {
        assert(final(out)@ =~= old(out)@ + spec_perm_triplet(bold, rs, ws, xs));
    }
}

/// The nine permission characters, owner then group then other, the owner
/// triplet bolded.
pub open spec fn spec_perm_row(mode: u32) -> Seq<char> {
    spec_perm_triplet(
        true,
        mode & 0b100000000 == 0b100000000,
        mode & 0b010000000 == 0b010000000,
        mode & 0b001000000 == 0b001000000,
    ) + spec_perm_triplet(
        false,
        mode & 0b000100000 == 0b000100000,
        mode & 0b000010000 == 0b000010000,
        mode & 0b000001000 == 0b000001000,
    ) + spec_perm_triplet(
        false,
        mode & 0b000000100 == 0b000000100,
        mode & 0b000000010 == 0b000000010,
        mode & 0b000000001 == 0b000000001,
    )
}

fn push_perm_row(out: &mut String, mode: u32)
    ensures
        final(out)@ == old(out)@ + spec_perm_row(mode),
{
    let ghost o = out@;
    let ghost t1 = spec_perm_triplet(
        true,
        mode & 0b100000000 == 0b100000000,
        mode & 0b010000000 == 0b010000000,
        mode & 0b001000000 == 0b001000000,
    );
    let ghost t2 = spec_perm_triplet(
        false,
        mode & 0b000100000 == 0b000100000,
        mode & 0b000010000 == 0b000010000,
        mode & 0b000001000 == 0b000001000,
    );
    let ghost t3 = spec_perm_triplet(
        false,
        mode & 0b000000100 == 0b000000100,
        mode & 0b000000010 == 0b000000010,
        mode & 0b000000001 == 0b000000001,
    );
    push_perm_triplet(
        out,
        true,
        mode & 0b100000000 == 0b100000000,
        mode & 0b010000000 == 0b010000000,
        mode & 0b001000000 == 0b001000000,
    );
    push_perm_triplet(
        out,
        false,
        mode & 0b000100000 == 0b000100000,
        mode & 0b000010000 == 0b000010000,
        mode & 0b000001000 == 0b000001000,
    );
    push_perm_triplet(
        out,
        false,
        mode & 0b000000100 == 0b000000100,
        mode & 0b000000010 == 0b000000010,
        mode & 0b000000001 == 0b000000001,
    );
    proof {
        crate::text::lemma_concat_assoc(o, t1, t2);
        crate::text::lemma_concat_assoc(o, t1 + t2, t3);
        assert(out@ == o + spec_perm_row(mode));
    }
}

/// The human-scaled size text of a non-directory entry: plain bytes below
/// one thousand, otherwise integer division by the tool's decimal divisors.
pub open spec fn spec_size_field(size: u64) -> Seq<char> {
    if size < 1000 {
        spec_pad_left(spec_decimal(size), 4) + "B"@
    } else if size < 1000000 {
        spec_pad_left(spec_decimal(size / 1000000), 3) + "KB"@
    } else if size < 1000000000 {
        spec_pad_left(spec_decimal(size / 1000000000), 3) + "MB"@
    } else if size < 1000000000000 {
        spec_pad_left(spec_decimal(size / 1000000000000), 3) + "GB"@
    } else {
        spec_pad_left(spec_decimal(size / 1000000000000000), 3) + "TB"@
    }
}

/// Append the size text of a non-directory entry.
pub fn push_size_field(out: &mut String, size: u64)
    ensures
        final(out)@ == old(out)@ + spec_size_field(size),
{
    if size < 1000 {
        push_padded_decimal(out, size, 4);
        out.append("B");
    } else if size < 1000000 {
        push_padded_decimal(out, size / 1000000, 3);
        out.append("KB");
    } else if size < 1000000000 {
        push_padded_decimal(out, size / 1000000000, 3);
        out.append("MB");
    } else if size < 1000000000000 {
        push_padded_decimal(out, size / 1000000000000, 3);
        out.append("GB");
    } else {
        push_padded_decimal(out, size / 1000000000000000, 3);
        out.append("TB");
    }
    proof {
        assert(final(out)@ =~= old(out)@ + spec_size_field(size));
    }
}

/// The size column: directories show a right-aligned dash, everything
/// else its size text.
pub open spec fn spec_size_column(kind: EntryKind, size: u64) -> Seq<char> {
    if kind == EntryKind::Directory {
        spec_spaces(4).push('-')
    } else {
        spec_size_field(size)
    }
}

fn push_size_column(out: &mut String, kind: EntryKind, size: u64)
    ensures
        final(out)@ == old(out)@ + spec_size_column(kind, size),
{
    if matches!(kind, EntryKind::Directory) {
        push_spaces(out, 4);
        push_char(out, '-');
        proof {
            assert(final(out)@ =~= old(out)@ + spec_size_column(kind, size));
        }
    } else {
        push_size_field(out, size);
    }
}

/// The metadata fields of the long table: glyph, permissions, two spaces,
/// size column, two spaces.
pub open spec fn spec_long_fields(e: EntryView) -> Seq<char> {
    spec_glyph_cell(e.kind) + spec_perm_row(e.mode) + "  "@ + spec_size_column(e.kind, e.size)
        + "  "@
}

/// The name field: in long mode a symbolic link shows `name -> target`
/// with the target in plain red; everything else shows the colored name
/// with five trailing spaces.
pub open spec fn spec_name_field(e: EntryView, long: bool) -> Seq<char> {
    if long && e.kind == EntryKind::Symlink {
        spec_entry_color(e.kind) + e.name + "\x1b[0m"@ + " -> "@ + "\x1b[0;31m"@
            + e.link_target->Some_0 + "\x1b[0m"@
    } else {
        spec_entry_color(e.kind) + e.name + "     "@ + "\x1b[0m"@
    }
}

/// The text of one entry, before any line break: the long-table fields if
/// long mode is on, then the name field.
pub open spec fn spec_entry_body(e: EntryView, d: DisplayOptions) -> Seq<char> {
    (if d.long {
        spec_long_fields(e)
    } else {
        Seq::<char>::empty()
    }) + spec_name_field(e, d.long)
}

/// An entry that is rendered as a symbolic link in long mode must carry
/// its resolved target.
pub open spec fn link_target_present(e: EntryView, d: DisplayOptions) -> bool {
    d.long && e.kind == EntryKind::Symlink ==> e.link_target is Some
}

#[verifier::rlimit(60)]
fn push_entry_body(out: &mut String, e: &EntryInfo, d: &DisplayOptions)
    requires
        link_target_present(e@, *d),
    ensures
        final(out)@ == old(out)@ + spec_entry_body(e@, *d),
{
    if d.long {
        push_glyph_cell(out, e.kind);
        push_perm_row(out, e.mode);
        out.append("  ");
        push_size_column(out, e.kind, e.size);
        out.append("  ");
    }
    if d.long && matches!(e.kind, EntryKind::Symlink) {
        out.append(entry_color(e.kind));
        out.append(e.name.as_str());
        out.append("\x1b[0m");
        out.append(" -> ");
        out.append("\x1b[0;31m");
        match &e.link_target {
            Some(t) => out.append(t.as_str()),
            None => {},
        }
        out.append("\x1b[0m");
    } else {
        out.append(entry_color(e.kind));
        out.append(e.name.as_str());
        out.append("     ");
        out.append("\x1b[0m");
    }
    proof {
        assert(final(out)@ =~= old(out)@ + spec_entry_body(e@, *d));
    }
}

/// The text of one listed entry: its body, with a line break after it in
/// long and one-per-line modes (grid mode concatenates bodies).
pub open spec fn spec_format_entry(e: EntryView, d: DisplayOptions) -> Seq<char> {
    spec_entry_body(e, d) + (if d.long || d.oneline {
        "\n"@
    } else {
        Seq::<char>::empty()
    })
}

/// Render one entry of a listing.
pub fn format_entry(e: &EntryInfo, d: &DisplayOptions) -> (r: String)
    requires
        link_target_present(e@, *d),
    ensures
        r@ == spec_format_entry(e@, *d),
{
    let mut out = String::new();
    push_entry_body(&mut out, e, d);
    if d.long || d.oneline {
        out.append("\n");
    }
    proof {
        assert(out@ =~= spec_format_entry(e@, *d));
    }
    out
}

/// The underlined column header of the long table, with its line break.
pub open spec fn spec_header_line() -> Seq<char> {
    "\x1b[4mPermissions\x1b[0m  \x1b[4mSize\x1b[0m  \x1b[4mName\x1b[0m"@ + "\n"@
}

/// Render the long table's header line.
pub fn header_line() -> (r: String)
    ensures
        r@ == spec_header_line(),
{
    let mut out = String::new();
    out.append("\x1b[4mPermissions\x1b[0m  \x1b[4mSize\x1b[0m  \x1b[4mName\x1b[0m");
    out.append("\n");
    proof {
        assert(out@ =~= spec_header_line());
    }
    out
}

/// The whole output for a target rendered as a single entry (a trailing
/// path argument that is not an enumerated directory): the header in long
/// mode, the entry body, and a final line break in every mode.
pub open spec fn spec_format_single_entry(e: EntryView, d: DisplayOptions) -> Seq<char> {
    (if d.long {
        spec_header_line()
    } else {
        Seq::<char>::empty()
    }) + spec_entry_body(e, d) + "\n"@
}

/// Render a target as a single entry.
pub fn format_single_entry(e: &EntryInfo, d: &DisplayOptions) -> (r: String)
    requires
        link_target_present(e@, *d),
    ensures
        r@ == spec_format_single_entry(e@, *d),
{
    let mut out = String::new();
    if d.long {
        out.append("\x1b[4mPermissions\x1b[0m  \x1b[4mSize\x1b[0m  \x1b[4mName\x1b[0m");
        out.append("\n");
    }
    push_entry_body(&mut out, e, d);
    out.append("\n");
    proof {
        assert(out@ =~= spec_format_single_entry(e@, *d));
    }
    out
}

/// The mathematical image of a list of entries.
pub open spec fn entry_views(s: Seq<EntryInfo>) -> Seq<EntryView> {
    s.map_values(|e: EntryInfo| e@)
}

/// The surviving entries from position `i` on, each rendered, in
/// enumeration order; excluded entries leave no trace.
pub open spec fn spec_render_entries(
    entries: Seq<EntryView>,
    d: DisplayOptions,
    f: FilteringOptions,
    i: int,
) -> Seq<char>
    decreases entries.len() - i,
{
    if i >= entries.len() {
        Seq::<char>::empty()
    } else {
        (if spec_included(entries[i].name, entries[i].kind, f) {
            spec_format_entry(entries[i], d)
        } else {
            Seq::<char>::empty()
        }) + spec_render_entries(entries, d, f, i + 1)
    }
}

/// The whole listing: the header in long mode, every surviving entry in
/// order, and a trailing line break in grid mode.
pub open spec fn spec_run(
    entries: Seq<EntryView>,
    d: DisplayOptions,
    f: FilteringOptions,
) -> Seq<char> {
    (if d.long {
        spec_header_line()
    } else {
        Seq::<char>::empty()
    }) + spec_render_entries(entries, d, f, 0) + (if d.grid {
        "\n"@
    } else {
        Seq::<char>::empty()
    })
}

/// Render a whole directory listing: filter and format each entry in
/// enumeration order under the resolved options.
pub fn run(entries: &Vec<EntryInfo>, d: DisplayOptions, f: FilteringOptions) -> (r: String)
    requires
        forall|k: int|
            0 <= k < entries@.len() ==> link_target_present(#[trigger] entries@[k]@, d),
    ensures
        r@ == spec_run(entry_views(entries@), d, f),
{
    let ghost ev = entry_views(entries@);
    let ghost hdr: Seq<char> = if d.long {
        spec_header_line()
    } else {
        Seq::<char>::empty()
    };
    let mut out = String::new();
    if d.long {
        let h = header_line();
        out.append(h.as_str());
    }
    proof {
        assert(out@ =~= hdr);
    }
    let n = entries.len();
    let mut i: usize = 0;
    while i < n
        invariant
            0 <= i <= n,
            n == entries@.len(),
            ev == entry_views(entries@),
            ev.len() == n,
            forall|k: int|
                0 <= k < entries@.len() ==> link_target_present(#[trigger] entries@[k]@, d),
            hdr == (if d.long {
                spec_header_line()
            } else {
                Seq::<char>::empty()
            }),
            out@ + spec_render_entries(ev, d, f, i as int) == hdr + spec_render_entries(
                ev,
                d,
                f,
                0,
            ),
        decreases n - i,
    {
        let e = &entries[i];
        proof {
            assert(ev[i as int] == e@);
        }
        if included(e.name.as_str(), e.kind, &f) {
            let piece = format_entry(e, &d);
            proof {
                assert((out@ + piece@) + spec_render_entries(ev, d, f, i as int + 1) =~= out@
                    + spec_render_entries(ev, d, f, i as int));
            }
            out.append(piece.as_str());
        } else {
            proof {
                assert(out@ + spec_render_entries(ev, d, f, i as int + 1) =~= out@
                    + spec_render_entries(ev, d, f, i as int));
            }
        }
        i = i + 1;
    }
    proof {
        assert(out@ =~= hdr + spec_render_entries(ev, d, f, 0));
    }
    if d.grid {
        out.append("\n");
    }
    proof {
        assert(out@ =~= spec_run(ev, d, f));
    }
    out
}

} // verus!
