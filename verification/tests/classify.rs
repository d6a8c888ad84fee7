use sl::classify::classify;
use sl::classify::Category;
use sl::record::EntryKind;

#[test]
fn note_markers_beat_extension_tables() {
    // "TODO.md" carries the informational marker, so the Special table
    // entry for "md" never gets a look.
    assert_eq!(
        classify(EntryKind::File, "TODO.md", "md"),
        Category::NoteInfo
    );
}

#[test]
fn note_markers_match_case_insensitively() {
    assert_eq!(
        classify(EntryKind::File, "ToDo.txt", "txt"),
        Category::NoteInfo
    );
    assert_eq!(
        classify(EntryKind::File, "README", ""),
        Category::NoteImportant
    );
    assert_eq!(
        classify(EntryKind::File, "important-notes.doc", "doc"),
        Category::NoteImportant
    );
    assert_eq!(
        classify(EntryKind::File, "FIXME.rs", "rs"),
        Category::NoteWarning
    );
    assert_eq!(
        classify(EntryKind::File, "warnings.log", "log"),
        Category::NoteWarning
    );
}

#[test]
fn note_marker_order_info_important_warning() {
    // A name holding several markers falls to the first rule in order.
    assert_eq!(
        classify(EntryKind::File, "todo-readme-fixme", ""),
        Category::NoteInfo
    );
    assert_eq!(
        classify(EntryKind::File, "readme-fixme", ""),
        Category::NoteImportant
    );
}

#[test]
fn extension_tables_cover_their_categories() {
    assert_eq!(classify(EntryKind::File, "setup.exe", "exe"), Category::Executable);
    assert_eq!(classify(EntryKind::File, "app.cfg.json", "json"), Category::Special);
    assert_eq!(classify(EntryKind::File, "main.rs", "rs"), Category::Programming);
    assert_eq!(classify(EntryKind::File, "paper.pdf", "pdf"), Category::Office);
    assert_eq!(classify(EntryKind::File, "scratch.tmp", "tmp"), Category::Other);
    assert_eq!(classify(EntryKind::File, "photo.jpg", "jpg"), Category::Media);
    assert_eq!(classify(EntryKind::File, "bundle.zip", "zip"), Category::Archive);
    assert_eq!(classify(EntryKind::File, "mystery.xyz", "xyz"), Category::Regular);
    assert_eq!(classify(EntryKind::File, "plain", ""), Category::Regular);
}

#[test]
fn extension_match_is_case_sensitive() {
    // The raw extension is matched without normalization: an
    // upper-case media extension stays in the default bucket.
    assert_eq!(classify(EntryKind::File, "photo.JPG", "JPG"), Category::Regular);
}

#[test]
fn directories_and_symlinks_bypass_all_rules() {
    assert_eq!(
        classify(EntryKind::Directory, "TODO.md", "md"),
        Category::Directory
    );
    assert_eq!(
        classify(EntryKind::Symlink, "readme.zip", "zip"),
        Category::Symlink
    );
}
