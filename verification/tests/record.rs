use sl::classify::Category;
use sl::record::enrich;
use sl::record::is_hidden;
use sl::record::EntryKind;
use sl::record::RawEntry;

fn raw(name: &str, is_file: bool, is_dir: bool, size: u64) -> RawEntry {
    RawEntry {
        name: name.to_string(),
        path: format!("/tmp/{}", name),
        is_file,
        is_dir,
        size,
        hidden: false,
        readonly: false,
        modified_secs: 90,
        extension: name.rsplit('.').next().unwrap_or("").to_string(),
    }
}

#[test]
fn enrich_keeps_name_and_path() {
    let r = enrich(&raw("a.txt", true, false, 500));
    assert_eq!(r.name, "a.txt");
    assert_eq!(r.path, "/tmp/a.txt");
    assert_eq!(r.extension, "txt");
}

#[test]
fn enrich_derives_the_kind() {
    assert_eq!(enrich(&raw("a", true, false, 0)).kind, EntryKind::File);
    assert_eq!(enrich(&raw("d", false, true, 0)).kind, EntryKind::Directory);
    assert_eq!(enrich(&raw("s", false, false, 0)).kind, EntryKind::Symlink);
    // The file flag wins over a stray directory flag.
    assert_eq!(enrich(&raw("x", true, true, 0)).kind, EntryKind::File);
}

#[test]
fn enrich_humanizes_size_and_age() {
    let r = enrich(&raw("a.txt", true, false, 1536));
    assert_eq!(r.size_magnitude, "1.5");
    assert_eq!(r.size_unit, "K");
    assert_eq!(r.age, "2 mins ago");
    let empty = enrich(&raw("empty", true, false, 0));
    assert_eq!(empty.size_magnitude, "-");
    assert_eq!(empty.size_unit, "");
}

#[test]
fn enrich_fixes_the_permission_pair() {
    let mut e = raw("a.txt", true, false, 1);
    let writable = enrich(&e);
    assert_eq!(writable.permissions.read, "r");
    assert_eq!(writable.permissions.write, "w");
    e.readonly = true;
    let readonly = enrich(&e);
    assert_eq!(readonly.permissions.read, "r");
    assert_eq!(readonly.permissions.write, "-");
}

#[test]
fn enrich_assigns_the_category() {
    let mut e = raw("main.rs", true, false, 10);
    assert_eq!(enrich(&e).category, Category::Programming);
    e.name = "TODO.md".to_string();
    e.extension = "md".to_string();
    assert_eq!(enrich(&e).category, Category::NoteInfo);
    let d = raw("src", false, true, 0);
    assert_eq!(enrich(&d).category, Category::Directory);
}

#[test]
fn enrich_keeps_the_hidden_flag() {
    let mut e = raw(".secret", true, false, 1);
    e.hidden = true;
    assert!(enrich(&e).hidden);
    assert!(!enrich(&raw("open", true, false, 1)).hidden);
}

#[test]
fn hidden_attribute_bit_is_bit_one() {
    assert!(is_hidden(2));
    assert!(is_hidden(3));
    assert!(is_hidden(0x22));
    assert!(!is_hidden(0));
    assert!(!is_hidden(1));
    assert!(!is_hidden(4));
}
