//! The filter/render pipeline: applies the display options to a
//! sequence of records and produces one output line per visible entry,
//! in short or long form, plain or coloured.
use vstd::prelude::*;
use vstd::string::StringExecFns;

use crate::classify::Category;
use crate::color::bg_styled;
use crate::color::bold_styled;
use crate::color::dim_styled;
use crate::color::fg_styled;
use crate::color::italic_styled;
use crate::color::style_bg;
use crate::color::style_bold;
use crate::color::style_dimmed;
use crate::color::style_fg;
use crate::color::style_italic;
use crate::record::EntryKind;
use crate::record::EntryRecord;
use crate::strutil::contains_seq;
use crate::strutil::pad_left;
use crate::strutil::pad_left_spec;
use crate::strutil::str_contains;

verus! {

/// The display options, validated and fixed before the pipeline runs.
#[derive(Clone, Copy, Debug, PartialEq, Eq, Structural)]
pub struct Options {
    /// Long form: type, permissions, size, age and name per line.
    pub long: bool,
    /// Render hidden entries too.
    pub show_hidden: bool,
    /// Render only regular files.
    pub files_only: bool,
    /// Render only directories.
    pub dirs_only: bool,
    /// Render the full path instead of the name.
    pub full_path: bool,
    /// Colour the output.
    pub color: bool,
    /// Reset every other option to its default before rendering.
    pub override_all: bool,
}

/// The default options: everything off.
pub open spec fn spec_default_options() -> Options {
    Options {
        long: false,
        show_hidden: false,
        files_only: false,
        dirs_only: false,
        full_path: false,
        color: false,
        override_all: false,
    }
}

impl Default for Options {
    /// The default options: everything off.
    fn default() -> (d: Self)
        ensures
            d == spec_default_options(),
    {
        Options {
            long: false,
            show_hidden: false,
            files_only: false,
            dirs_only: false,
            full_path: false,
            color: false,
            override_all: false,
        }
    }
}

/// The options that actually reach filtering and rendering: setting
/// `override_all` resets every other option to its default.
pub open spec fn spec_normalize(o: Options) -> Options {
    if o.override_all {
        spec_default_options()
    } else {
        o
    }
}

/// Whether a record passes the three filters: hidden entries need
/// `show_hidden`, `files_only` keeps only regular files, and
/// `dirs_only` keeps only directories.
pub open spec fn spec_keeps(r: EntryRecord, o: Options) -> bool {
    &&& !r.hidden || o.show_hidden
    &&& !o.files_only || r.kind == EntryKind::File
    &&& !o.dirs_only || r.kind == EntryKind::Directory
}

/// The records that pass the filters, in their given order.
pub open spec fn spec_filter(rs: Seq<EntryRecord>, o: Options) -> Seq<EntryRecord>
    decreases rs.len(),
{
    if rs.len() == 0 {
        Seq::<EntryRecord>::empty()
    } else {
        let rest = spec_filter(rs.drop_last(), o);
        if spec_keeps(rs.last(), o) {
            rest.push(rs.last())
        } else {
            rest
        }
    }
}

/// A name styled for its category. Plain output leaves the name
/// untouched; coloured output wraps it in the category's escape
/// sequences, the special-file background appearing only in long form.
pub open spec fn spec_styled_name(nm: Seq<char>, cat: Category, long: bool, color: bool) -> Seq<
    char,
> {
    if !color {
        nm
    } else {
        match cat {
            Category::NoteInfo => fg_styled(bg_styled(nm, 198, 200, 209), 30, 33, 50),
            Category::NoteImportant => fg_styled(bg_styled(nm, 226, 164, 120), 30, 33, 50),
            Category::NoteWarning => fg_styled(bg_styled(nm, 226, 120, 120), 30, 33, 50),
            Category::Executable => fg_styled(bold_styled(nm), 226, 120, 120),
            Category::Special => if long {
                bg_styled(fg_styled(nm, 226, 164, 120), 22, 24, 33)
            } else {
                fg_styled(nm, 226, 164, 120)
            },
            Category::Programming => fg_styled(nm, 180, 190, 130),
            Category::Office => fg_styled(nm, 226, 120, 120),
            Category::Other => fg_styled(nm, 107, 112, 137),
            Category::Media => fg_styled(nm, 173, 160, 211),
            Category::Archive => fg_styled(nm, 137, 184, 194),
            Category::Regular => fg_styled(nm, 198, 200, 209),
            Category::Directory => bold_styled(fg_styled(nm, 109, 144, 217)),
            Category::Symlink => dim_styled(italic_styled(nm)),
        }
    }
}

/// The name or path that the options select for display.
pub open spec fn spec_selected_name(r: EntryRecord, o: Options) -> Seq<char> {
    if o.full_path {
        r.path@
    } else {
        r.name@
    }
}

/// A record's short-form line: just its styled name.
pub open spec fn spec_short_line(r: EntryRecord, o: Options) -> Seq<char> {
    spec_styled_name(spec_selected_name(r, o), r.category, false, o.color)
}

/// The type glyph that opens a long-form line.
pub open spec fn spec_glyph(k: EntryKind) -> Seq<char> {
    match k {
        EntryKind::File => seq!['.'],
        EntryKind::Directory => seq!['d'],
        EntryKind::Symlink => seq!['s'],
    }
}

/// The permission pair of a long-form line; read-only entries show it
/// in the warning colour when colouring is on.
pub open spec fn spec_perm_part(r: EntryRecord, o: Options) -> Seq<char> {
    if o.color && contains_seq(r.permissions.write@, seq!['-']) {
        fg_styled(r.permissions.read@, 250, 0, 104) + fg_styled(r.permissions.write@, 250, 0, 104)
    } else {
        r.permissions.read@ + r.permissions.write@
    }
}

/// A field of a long-form line under its per-field colour.
pub open spec fn spec_field(s: Seq<char>, color: bool, r: u8, g: u8, b: u8) -> Seq<char> {
    if color {
        fg_styled(s, r, g, b)
    } else {
        s
    }
}

/// A record's long-form line: type glyph, permission pair, then the
/// size magnitude right-aligned to 30 characters, the size unit, the
/// age right-aligned to 35 characters and the styled name, separated as
/// fixed columns. Styling is applied before alignment.
pub open spec fn spec_long_line(r: EntryRecord, o: Options) -> Seq<char> {
    spec_glyph(r.kind) + spec_perm_part(r, o) + seq!['\t'] + pad_left_spec(
        spec_field(r.size_magnitude@, o.color, 102, 255, 179),
        30,
    ) + spec_field(r.size_unit@, o.color, 50, 170, 130) + seq![' ', ' '] + pad_left_spec(
        spec_field(r.age@, o.color, 97, 88, 111),
        35,
    ) + seq![' ', ' '] + spec_styled_name(spec_selected_name(r, o), r.category, true, o.color)
}

/// A record's output line under already-normalized options.
pub open spec fn spec_line(r: EntryRecord, o: Options) -> Seq<char> {
    if o.long {
        spec_long_line(r, o)
    } else {
        spec_short_line(r, o)
    }
}

/// The lines that rendering produces: the options are normalized, the
/// records filtered, and each remaining record becomes one line.
pub open spec fn spec_render(rs: Seq<EntryRecord>, o: Options) -> Seq<Seq<char>> {
    let n = spec_normalize(o);
    spec_filter(rs, n).map_values(|r: EntryRecord| spec_line(r, n))
}

fn styled_name(nm: &str, cat: Category, long: bool, color: bool) -> (s: String)
    ensures
        s@ == spec_styled_name(nm@, cat, long, color),
{
    if !color {
        String::from_str(nm)
    } else {
        match cat {
            Category::NoteInfo => style_fg(style_bg(nm, 198, 200, 209).as_str(), 30, 33, 50),
            Category::NoteImportant => style_fg(style_bg(nm, 226, 164, 120).as_str(), 30, 33, 50),
            Category::NoteWarning => style_fg(style_bg(nm, 226, 120, 120).as_str(), 30, 33, 50),
            Category::Executable => style_fg(style_bold(nm).as_str(), 226, 120, 120),
            Category::Special => {
                if long {
                    style_bg(style_fg(nm, 226, 164, 120).as_str(), 22, 24, 33)
                } else {
                    style_fg(nm, 226, 164, 120)
                }
            },
            Category::Programming => style_fg(nm, 180, 190, 130),
            Category::Office => style_fg(nm, 226, 120, 120),
            Category::Other => style_fg(nm, 107, 112, 137),
            Category::Media => style_fg(nm, 173, 160, 211),
            Category::Archive => style_fg(nm, 137, 184, 194),
            Category::Regular => style_fg(nm, 198, 200, 209),
            Category::Directory => style_bold(style_fg(nm, 109, 144, 217).as_str()),
            Category::Symlink => style_dimmed(style_italic(nm).as_str()),
        }
    }
}

/// Renders one record in short form.
pub fn short_line(r: &EntryRecord, o: &Options) -> (s: String)
    ensures
        s@ == spec_short_line(*r, *o),
{
    let nm = if o.full_path {
        r.path.as_str()
    } else {
        r.name.as_str()
    };
    styled_name(nm, r.category, false, o.color)
}

fn field(s: &str, color: bool, r: u8, g: u8, b: u8) -> (t: String)
    ensures
        t@ == spec_field(s@, color, r, g, b),
{
    if color {
        style_fg(s, r, g, b)
    } else {
        String::from_str(s)
    }
}

/// Renders one record in long form.
pub fn long_line(r: &EntryRecord, o: &Options) -> (s: String)
    ensures
        s@ == spec_long_line(*r, *o),
{
    let mut line = match r.kind {
        EntryKind::File => String::from_str("."),
        EntryKind::Directory => String::from_str("d"),
        EntryKind::Symlink => String::from_str("s"),
    };
    proof {
        reveal_strlit(".");
        reveal_strlit("d");
        reveal_strlit("s");
        assert(line@ =~= spec_glyph(r.kind));
    }
    proof {
        reveal_strlit("-");
        assert("-"@ =~= seq!['-']);
    }
    if o.color && str_contains(r.permissions.write.as_str(), "-") {
        line.append(style_fg(r.permissions.read.as_str(), 250, 0, 104).as_str());
        line.append(style_fg(r.permissions.write.as_str(), 250, 0, 104).as_str());
    } else {
        line.append(r.permissions.read.as_str());
        line.append(r.permissions.write.as_str());
    }
    proof {
        assert(line@ =~= spec_glyph(r.kind) + spec_perm_part(*r, *o));
    }
    line.append("\t");
    proof {
        reveal_strlit("\t");
        assert(line@ =~= spec_glyph(r.kind) + spec_perm_part(*r, *o) + seq!['\t']);
    }
    let mag = field(r.size_magnitude.as_str(), o.color, 102, 255, 179);
    line.append(pad_left(mag.as_str(), 30).as_str());
    let unit = field(r.size_unit.as_str(), o.color, 50, 170, 130);
    line.append(unit.as_str());
    line.append("  ");
    proof {
        reveal_strlit("  ");
        assert("  "@ =~= seq![' ', ' ']);
    }
    let age = field(r.age.as_str(), o.color, 97, 88, 111);
    line.append(pad_left(age.as_str(), 35).as_str());
    line.append("  ");
    let nm = if o.full_path {
        r.path.as_str()
    } else {
        r.name.as_str()
    };
    line.append(styled_name(nm, r.category, true, o.color).as_str());
    proof {
        assert(line@ =~= spec_long_line(*r, *o));
    }
    line
}

/// Renders a sequence of records under the given options: normalizes
/// the options, filters the records and produces one line per record
/// that remains, in the records' order.
pub fn render(records: &Vec<EntryRecord>, options: &Options) -> (lines: Vec<String>)
    ensures
        lines.deep_view() == spec_render(records@, *options),
{
    let o: Options = if options.override_all {
        Options::default()
    } else {
        *options
    };
    proof {
        assert(o == spec_normalize(*options));
    }
    let mut lines: Vec<String> = Vec::new();
    let mut i: usize = 0;
    proof {
        assert(records@.take(0) =~= Seq::<EntryRecord>::empty());
        assert(lines.deep_view() =~= spec_filter(records@.take(0), o).map_values(
            |r: EntryRecord| spec_line(r, o),
        ));
    }
    while i < records.len()
        invariant
            o == spec_normalize(*options),
            0 <= i <= records@.len(),
            lines.deep_view() =~= spec_filter(records@.take(i as int), o).map_values(
                |r: EntryRecord| spec_line(r, o),
            ),
        decreases records@.len() - i,
    {
        let r = &records[i];
        let keep = (!r.hidden || o.show_hidden) && (!o.files_only || matches!(
            r.kind,
            EntryKind::File
        )) && (!o.dirs_only || matches!(r.kind, EntryKind::Directory));
        proof {
            assert(keep == spec_keeps(records@[i as int], o));
            assert(records@.take(i + 1).drop_last() =~= records@.take(i as int));
            assert(records@.take(i + 1).last() == records@[i as int]);
        }
        if keep {
            let line = if o.long {
                long_line(r, &o)
            } else {
                short_line(r, &o)
            };
            let ghost prev = lines.deep_view();
            let ghost line_view = line@;
            lines.push(line);
            proof {
                assert(line_view == spec_line(records@[i as int], o));
                assert(lines.deep_view() =~= prev.push(line_view));
                assert(spec_filter(records@.take(i + 1), o) =~= spec_filter(
                    records@.take(i as int),
                    o,
                ).push(records@[i as int]));
                assert(spec_filter(records@.take(i + 1), o).map_values(
                    |r: EntryRecord| spec_line(r, o),
                ) =~= spec_filter(records@.take(i as int), o).map_values(
                    |r: EntryRecord| spec_line(r, o),
                ).push(line_view));
                assert(lines.deep_view() =~= spec_filter(records@.take(i + 1), o).map_values(
                    |r: EntryRecord| spec_line(r, o),
                ));
            }
        } else {
            proof {
                assert(lines.deep_view() =~= spec_filter(records@.take(i + 1), o).map_values(
                    |r: EntryRecord| spec_line(r, o),
                ));
            }
        }
        i += 1;
    }
    proof {
        assert(records@.take(records@.len() as int) =~= records@);
        assert(lines.deep_view() =~~= spec_render(records@, *options));
    }
    lines
}

/// Renders the records of one listed directory, taking the display
/// flags one by one, with no override in play.
pub fn list_dirs(
    records: &Vec<EntryRecord>,
    long_flag: bool,
    hidden_flag: bool,
    fullpath_flag: bool,
    colour_flag: bool,
    files_flag: bool,
    dirs_flag: bool,
) -> (lines: Vec<String>)
    ensures
        lines.deep_view() == spec_render(
            records@,
            (Options {
                long: long_flag,
                show_hidden: hidden_flag,
                files_only: files_flag,
                dirs_only: dirs_flag,
                full_path: fullpath_flag,
                color: colour_flag,
                override_all: false,
            }),
        ),
{
    let o = Options {
        long: long_flag,
        show_hidden: hidden_flag,
        files_only: files_flag,
        dirs_only: dirs_flag,
        full_path: fullpath_flag,
        color: colour_flag,
        override_all: false,
    };
    render(records, &o)
}

/// Filtering is idempotent: the records that pass the filters all pass
/// them again, so filtering a second time with the same options changes
/// nothing.
pub proof fn lemma_filter_idempotent(rs: Seq<EntryRecord>, o: Options)
    ensures
        spec_filter(spec_filter(rs, o), o) == spec_filter(rs, o),
    decreases rs.len(),
{
    if rs.len() == 0 {
        assert(spec_filter(rs, o) =~= Seq::<EntryRecord>::empty());
    } else {
        lemma_filter_idempotent(rs.drop_last(), o);
        let rest = spec_filter(rs.drop_last(), o);
        if spec_keeps(rs.last(), o) {
            let whole = rest.push(rs.last());
            assert(whole.drop_last() =~= rest);
            assert(whole.last() == rs.last());
        }
    }
}

/// Applying the same options twice yields identical output: the
/// records that survive the filters render to the very same lines when
/// they are filtered and rendered again.
pub proof fn lemma_render_idempotent(rs: Seq<EntryRecord>, o: Options)
    ensures
        spec_render(spec_filter(rs, spec_normalize(o)), o) == spec_render(rs, o),
{
    lemma_filter_idempotent(rs, spec_normalize(o));
}

/// Override wins: rendering with `override_all` set equals rendering
/// with the default options, whatever the other options say.
pub proof fn lemma_override_resets(rs: Seq<EntryRecord>, o: Options)
    requires
        o.override_all,
    ensures
        spec_render(rs, o) == spec_render(rs, spec_default_options()),
{
}

/// Asking for files only and directories only at once excludes every
/// record: no record is both a regular file and a directory.
pub proof fn lemma_files_dirs_exclusive(rs: Seq<EntryRecord>, o: Options)
    requires
        o.files_only,
        o.dirs_only,
        !o.override_all,
    ensures
        spec_render(rs, o) == Seq::<Seq<char>>::empty(),
    decreases rs.len(),
{
    if rs.len() == 0 {
        assert(spec_filter(rs, o) =~= Seq::<EntryRecord>::empty());
    } else {
        lemma_files_dirs_exclusive(rs.drop_last(), o);
        assert(spec_filter(rs.drop_last(), o).map_values(|r: EntryRecord| spec_line(r, o))
            =~= Seq::<Seq<char>>::empty());
        assert(spec_filter(rs.drop_last(), o) =~= Seq::<EntryRecord>::empty());
        assert(!spec_keeps(rs.last(), o));
        assert(spec_filter(rs, o) =~= Seq::<EntryRecord>::empty());
        assert(spec_render(rs, o) =~= Seq::<Seq<char>>::empty());
    }
}

} // verus!
