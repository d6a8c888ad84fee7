//! The normalized record built for each directory entry, and its
//! construction from the raw values the operating system reports.
use vstd::prelude::*;
use vstd::string::StringExecFns;

use crate::classify::classify;
use crate::classify::spec_classify;
use crate::classify::Category;
use crate::humanize::humanize_age;
use crate::humanize::humanize_size;
use crate::humanize::spec_age;
use crate::humanize::spec_size_magnitude;
use crate::humanize::spec_size_unit;

verus! {

/// The kind of a directory entry. Anything that is neither a regular
/// file nor a directory counts as a symlink.
#[derive(Clone, Copy, Debug, PartialEq, Eq, Structural)]
pub enum EntryKind {
    File,
    Directory,
    Symlink,
}

/// A directory entry as the operating system reports it, already
/// reduced to plain values: the caller enumerates the directory and
/// reads each entry's metadata before building one of these.
pub struct RawEntry {
    /// The entry's file name.
    pub name: String,
    /// The entry's full path.
    pub path: String,
    /// Whether the entry is a regular file.
    pub is_file: bool,
    /// Whether the entry is a directory.
    pub is_dir: bool,
    /// The entry's size in bytes.
    pub size: u64,
    /// Whether the entry is hidden.
    pub hidden: bool,
    /// Whether the entry is read-only.
    pub readonly: bool,
    /// Seconds elapsed since the entry was last modified.
    pub modified_secs: u64,
    /// The entry's file extension, empty when it has none.
    pub extension: String,
}

/// The permission pair shown in the long form.
pub struct Perms {
    /// `"r"`: every listed entry is readable.
    pub read: String,
    /// `"w"`, or `"-"` when the entry is read-only.
    pub write: String,
}

/// One enriched directory entry, immutable once built.
pub struct EntryRecord {
    /// The entry's file name.
    pub name: String,
    /// The entry's full path.
    pub path: String,
    /// The entry's kind.
    pub kind: EntryKind,
    /// The humanized size magnitude (`"-"` for an empty entry).
    pub size_magnitude: String,
    /// The humanized size unit (empty for an empty entry).
    pub size_unit: String,
    /// Whether the entry is hidden.
    pub hidden: bool,
    /// The humanized age of the entry's last modification.
    pub age: String,
    /// The permission pair.
    pub permissions: Perms,
    /// The colouring category.
    pub category: Category,
    /// The entry's file extension.
    pub extension: String,
}

/// The kind derived from the two type flags: a regular file wins, then
/// a directory; everything else is taken for a symlink.
pub open spec fn spec_kind(is_file: bool, is_dir: bool) -> EntryKind {
    if is_file {
        EntryKind::File
    } else if is_dir {
        EntryKind::Directory
    } else {
        EntryKind::Symlink
    }
}

/// Builds the normalized record for one raw entry: derives the kind,
/// humanizes size and age, fixes the permission pair and assigns the
/// display category. Pure; it never fails.
pub fn enrich(raw: &RawEntry) -> (r: EntryRecord)
    ensures
        r.name@ == raw.name@,
        r.path@ == raw.path@,
        r.kind == spec_kind(raw.is_file, raw.is_dir),
        r.size_magnitude@ == spec_size_magnitude(raw.size),
        r.size_unit@ == spec_size_unit(raw.size),
        r.hidden == raw.hidden,
        r.age@ == spec_age(raw.modified_secs),
        r.permissions.read@ == "r"@,
        r.permissions.write@ == (if raw.readonly {
            "-"@
        } else {
            "w"@
        }),
        r.category == spec_classify(spec_kind(raw.is_file, raw.is_dir), raw.name@, raw.extension@),
        r.extension@ == raw.extension@,
        r.age@.len() > 0,
{
    let kind = if raw.is_file {
        EntryKind::File
    } else if raw.is_dir {
        EntryKind::Directory
    } else {
        EntryKind::Symlink
    };
    let (magnitude, unit) = humanize_size(raw.size);
    let age = humanize_age(raw.modified_secs);
    let permissions = if raw.readonly {
        Perms { read: String::from_str("r"), write: String::from_str("-") }
    } else {
        Perms { read: String::from_str("r"), write: String::from_str("w") }
    };
    let category = classify(kind, raw.name.as_str(), raw.extension.as_str());
    proof {
        crate::humanize::lemma_age_nonempty(raw.modified_secs);
    }
    EntryRecord {
        name: raw.name.clone(),
        path: raw.path.clone(),
        kind,
        size_magnitude: magnitude,
        size_unit: unit,
        hidden: raw.hidden,
        age,
        permissions,
        category,
        extension: raw.extension.clone(),
    }
}

/// Whether the hidden attribute bit is set in a raw attribute word, as
/// reported by operating systems that flag hidden files with bit 1.
pub fn is_hidden(attributes: u32) -> (r: bool)
    ensures
        r == ((attributes & 2) != 0),
{
    (attributes & 2) > 0
}

} // verus!
