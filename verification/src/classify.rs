//! Maps an entry's name and extension to its display category.
//!
//! Name-marker rules come first (matched case-insensitively against the
//! whole name), then exact, case-sensitive extension table lookups, in a
//! fixed priority order; directories and symlinks bypass all rules.
use vstd::prelude::*;

use crate::record::EntryKind;
use crate::strutil::contains_seq;
use crate::strutil::lower_seq;
use crate::strutil::str_contains_lower;
use crate::strutil::str_eq;

verus! {

/// A colouring bucket for one directory entry.
#[derive(Clone, Copy, Debug, PartialEq, Eq, Structural)]
pub enum Category {
    NoteInfo,
    NoteImportant,
    NoteWarning,
    Executable,
    Special,
    Programming,
    Office,
    Other,
    Media,
    Archive,
    Regular,
    Directory,
    Symlink,
}

/// Whether the lowercased name carries an informational note marker.
pub open spec fn is_note_info_name(n: Seq<char>) -> bool {
    contains_seq(lower_seq(n), "todo"@) || contains_seq(lower_seq(n), "info"@)
}

/// Whether the lowercased name carries an importance note marker.
pub open spec fn is_note_important_name(n: Seq<char>) -> bool {
    contains_seq(lower_seq(n), "readme"@) || contains_seq(lower_seq(n), "important"@)
}

/// Whether the lowercased name carries a warning note marker.
pub open spec fn is_note_warning_name(n: Seq<char>) -> bool {
    contains_seq(lower_seq(n), "fixme"@) || contains_seq(lower_seq(n), "warn"@) || contains_seq(
        lower_seq(n),
        "warning"@,
    )
}

/// Extensions of executable and installer files.
pub open spec fn is_executable_ext(e: Seq<char>) -> bool {
    e == "exe"@ || e == "msi"@ || e == "bat"@
}

/// Extensions of configuration and markup files.
pub open spec fn is_special_ext(e: Seq<char>) -> bool {
    e == "md"@ || e == "cgf"@ || e == "conf"@ || e == "config"@ || e == "ini"@ || e == "json"@
        || e == "tml"@ || e == "toml"@ || e == "yaml"@ || e == "yml"@ || e == "csv"@ || e
        == "markdown"@ || e == "org"@ || e == "rst"@ || e == "xml"@
}

/// Extensions of programming-language source files.
pub open spec fn is_programming_ext(e: Seq<char>) -> bool {
    e == "py"@ || e == "pl"@ || e == "rs"@ || e == "c"@ || e == "cpp"@ || e == "awk"@ || e == "vb"@
        || e == "cabal"@ || e == "clj"@ || e == "cs"@ || e == "csx"@ || e == "css"@ || e == "h"@
        || e == "hpp"@ || e == "dart"@ || e == "ex"@ || e == "exs"@ || e == "elc"@ || e == "elm"@
        || e == "erl"@ || e == "fs"@ || e == "go"@ || e == "hs"@ || e == "ipynb"@ || e == "java"@
        || e == "bsh"@ || e == "js"@ || e == "jl"@ || e == "kt"@ || e == "tex"@ || e == "lisp"@
        || e == "lua"@ || e == "matlab"@ || e == "pas"@ || e == "p"@ || e == "php"@ || e == "ps1"@
        || e == "r"@ || e == "rb"@ || e == "scala"@ || e == "sh"@ || e == "bash"@ || e == "zsh"@
        || e == "fish"@ || e == "sql"@ || e == "swift"@ || e == "ts"@ || e == "tsx"@ || e == "vim"@
        || e == "cmake"@ || e == "make"@
}

/// Extensions of media files.
pub open spec fn is_media_ext(e: Seq<char>) -> bool {
    e == "bmp"@ || e == "gif"@ || e == "jpeg"@ || e == "jpg"@ || e == "png"@ || e == "svg"@ || e
        == "avi"@ || e == "mp4"@ || e == "wmv"@ || e == "wma"@ || e == "mp3"@ || e == "wav"@ || e
        == "mid"@ || e == "ttf"@
}

/// Extensions of office-document files.
pub open spec fn is_office_ext(e: Seq<char>) -> bool {
    e == "doc"@ || e == "docx"@ || e == "epub"@ || e == "odt"@ || e == "pdf"@ || e == "ps"@ || e
        == "xls"@ || e == "xlsx"@ || e == "ods"@ || e == "xlr"@ || e == "ppt"@ || e == "pptx"@ || e
        == "odp"@ || e == "pps"@ || e == "ics"@
}

/// Extensions of archive and image files.
pub open spec fn is_archive_ext(e: Seq<char>) -> bool {
    e == "apk"@ || e == "deb"@ || e == "rpm"@ || e == "xbps"@ || e == "bag"@ || e == "bin"@ || e
        == "dmg"@ || e == "img"@ || e == "iso"@ || e == "toast"@ || e == "vcd"@ || e == "7z"@ || e
        == "arj"@ || e == "gz"@ || e == "zip"@ || e == "pkg"@ || e == "tar"@ || e == "jar"@ || e
        == "rar"@ || e == "tgz"@ || e == "z"@ || e == "zst"@ || e == "xz"@
}

/// Extensions and suffixes of temporary or tool-internal files.
pub open spec fn is_other_ext(e: Seq<char>) -> bool {
    e == "~"@ || e == "git"@ || e == "gitignore"@ || e == "tmp"@ || e == "lock"@
}

/// The category of an entry, by the fixed priority order: directories
/// and symlinks take their own categories regardless of name and
/// extension; a regular file falls to the first matching name-marker
/// rule, then to the first matching extension table, then to
/// [`Category::Regular`].
pub open spec fn spec_classify(kind: EntryKind, name: Seq<char>, ext: Seq<char>) -> Category {
    match kind {
        EntryKind::Directory => Category::Directory,
        EntryKind::Symlink => Category::Symlink,
        EntryKind::File => if is_note_info_name(name) {
            Category::NoteInfo
        } else if is_note_important_name(name) {
            Category::NoteImportant
        } else if is_note_warning_name(name) {
            Category::NoteWarning
        } else if is_executable_ext(ext) {
            Category::Executable
        } else if is_special_ext(ext) {
            Category::Special
        } else if is_programming_ext(ext) {
            Category::Programming
        } else if is_office_ext(ext) {
            Category::Office
        } else if is_other_ext(ext) {
            Category::Other
        } else if is_media_ext(ext) {
            Category::Media
        } else if is_archive_ext(ext) {
            Category::Archive
        } else {
            Category::Regular
        },
    }
}

fn ext_is_executable(e: &str) -> (r: bool)
    ensures
        r == is_executable_ext(e@),
{
    str_eq(e, "exe") || str_eq(e, "msi") || str_eq(e, "bat")
}

fn ext_is_special(e: &str) -> (r: bool)
    ensures
        r == is_special_ext(e@),
{
    str_eq(e, "md") || str_eq(e, "cgf") || str_eq(e, "conf") || str_eq(e, "config") || str_eq(
        e,
        "ini",
    ) || str_eq(e, "json") || str_eq(e, "tml") || str_eq(e, "toml") || str_eq(e, "yaml") || str_eq(
        e,
        "yml",
    ) || str_eq(e, "csv") || str_eq(e, "markdown") || str_eq(e, "org") || str_eq(e, "rst")
        || str_eq(e, "xml")
}

fn ext_is_programming(e: &str) -> (r: bool)
    ensures
        r == is_programming_ext(e@),
{
    str_eq(e, "py") || str_eq(e, "pl") || str_eq(e, "rs") || str_eq(e, "c") || str_eq(e, "cpp")
        || str_eq(e, "awk") || str_eq(e, "vb") || str_eq(e, "cabal") || str_eq(e, "clj") || str_eq(
        e,
        "cs",
    ) || str_eq(e, "csx") || str_eq(e, "css") || str_eq(e, "h") || str_eq(e, "hpp") || str_eq(
        e,
        "dart",
    ) || str_eq(e, "ex") || str_eq(e, "exs") || str_eq(e, "elc") || str_eq(e, "elm") || str_eq(
        e,
        "erl",
    ) || str_eq(e, "fs") || str_eq(e, "go") || str_eq(e, "hs") || str_eq(e, "ipynb") || str_eq(
        e,
        "java",
    ) || str_eq(e, "bsh") || str_eq(e, "js") || str_eq(e, "jl") || str_eq(e, "kt") || str_eq(
        e,
        "tex",
    ) || str_eq(e, "lisp") || str_eq(e, "lua") || str_eq(e, "matlab") || str_eq(e, "pas")
        || str_eq(e, "p") || str_eq(e, "php") || str_eq(e, "ps1") || str_eq(e, "r") || str_eq(
        e,
        "rb",
    ) || str_eq(e, "scala") || str_eq(e, "sh") || str_eq(e, "bash") || str_eq(e, "zsh") || str_eq(
        e,
        "fish",
    ) || str_eq(e, "sql") || str_eq(e, "swift") || str_eq(e, "ts") || str_eq(e, "tsx") || str_eq(
        e,
        "vim",
    ) || str_eq(e, "cmake") || str_eq(e, "make")
}

fn ext_is_media(e: &str) -> (r: bool)
    ensures
        r == is_media_ext(e@),
{
    str_eq(e, "bmp") || str_eq(e, "gif") || str_eq(e, "jpeg") || str_eq(e, "jpg") || str_eq(
        e,
        "png",
    ) || str_eq(e, "svg") || str_eq(e, "avi") || str_eq(e, "mp4") || str_eq(e, "wmv") || str_eq(
        e,
        "wma",
    ) || str_eq(e, "mp3") || str_eq(e, "wav") || str_eq(e, "mid") || str_eq(e, "ttf")
}

fn ext_is_office(e: &str) -> (r: bool)
    ensures
        r == is_office_ext(e@),
{
    str_eq(e, "doc") || str_eq(e, "docx") || str_eq(e, "epub") || str_eq(e, "odt") || str_eq(
        e,
        "pdf",
    ) || str_eq(e, "ps") || str_eq(e, "xls") || str_eq(e, "xlsx") || str_eq(e, "ods") || str_eq(
        e,
        "xlr",
    ) || str_eq(e, "ppt") || str_eq(e, "pptx") || str_eq(e, "odp") || str_eq(e, "pps") || str_eq(
        e,
        "ics",
    )
}

fn ext_is_archive(e: &str) -> (r: bool)
    ensures
        r == is_archive_ext(e@),
{
    str_eq(e, "apk") || str_eq(e, "deb") || str_eq(e, "rpm") || str_eq(e, "xbps") || str_eq(
        e,
        "bag",
    ) || str_eq(e, "bin") || str_eq(e, "dmg") || str_eq(e, "img") || str_eq(e, "iso") || str_eq(
        e,
        "toast",
    ) || str_eq(e, "vcd") || str_eq(e, "7z") || str_eq(e, "arj") || str_eq(e, "gz") || str_eq(
        e,
        "zip",
    ) || str_eq(e, "pkg") || str_eq(e, "tar") || str_eq(e, "jar") || str_eq(e, "rar") || str_eq(
        e,
        "tgz",
    ) || str_eq(e, "z") || str_eq(e, "zst") || str_eq(e, "xz")
}

fn ext_is_other(e: &str) -> (r: bool)
    ensures
        r == is_other_ext(e@),
{
    str_eq(e, "~") || str_eq(e, "git") || str_eq(e, "gitignore") || str_eq(e, "tmp") || str_eq(
        e,
        "lock",
    )
}

fn name_is_note_info(n: &str) -> (r: bool)
    ensures
        r == is_note_info_name(n@),
{
    str_contains_lower(n, "todo") || str_contains_lower(n, "info")
}

fn name_is_note_important(n: &str) -> (r: bool)
    ensures
        r == is_note_important_name(n@),
{
    str_contains_lower(n, "readme") || str_contains_lower(n, "important")
}

fn name_is_note_warning(n: &str) -> (r: bool)
    ensures
        r == is_note_warning_name(n@),
{
    str_contains_lower(n, "fixme") || str_contains_lower(n, "warn") || str_contains_lower(
        n,
        "warning",
    )
}

/// Classifies one entry into its display category.
pub fn classify(kind: EntryKind, name: &str, extension: &str) -> (c: Category)
    ensures
        c == spec_classify(kind, name@, extension@),
{
    match kind {
        EntryKind::Directory => Category::Directory,
        EntryKind::Symlink => Category::Symlink,
        EntryKind::File => {
            if name_is_note_info(name) {
                Category::NoteInfo
            } else if name_is_note_important(name) {
                Category::NoteImportant
            } else if name_is_note_warning(name) {
                Category::NoteWarning
            } else if ext_is_executable(extension) {
                Category::Executable
            } else if ext_is_special(extension) {
                Category::Special
            } else if ext_is_programming(extension) {
                Category::Programming
            } else if ext_is_office(extension) {
                Category::Office
            } else if ext_is_other(extension) {
                Category::Other
            } else if ext_is_media(extension) {
                Category::Media
            } else if ext_is_archive(extension) {
                Category::Archive
            } else {
                Category::Regular
            }
        },
    }
}

} // verus!
