use sl::record::enrich;
use sl::record::EntryRecord;
use sl::record::RawEntry;
use sl::render::list_dirs;
use sl::render::long_line;
use sl::render::render;
use sl::render::short_line;
use sl::render::Options;

fn raw_entry(
    name: &str,
    is_file: bool,
    is_dir: bool,
    size: u64,
    hidden: bool,
    readonly: bool,
    modified_secs: u64,
    extension: &str,
) -> RawEntry {
    RawEntry {
        name: name.to_string(),
        path: format!("/tmp/{}", name),
        is_file,
        is_dir,
        size,
        hidden,
        readonly,
        modified_secs,
        extension: extension.to_string(),
    }
}

fn sample_records() -> Vec<EntryRecord> {
    vec![
        enrich(&raw_entry("a.txt", true, false, 500, false, false, 10, "txt")),
        enrich(&raw_entry(".secret", true, false, 20, true, false, 10, "")),
        enrich(&raw_entry("sub", false, true, 0, false, false, 10, "")),
    ]
}

#[test]
fn default_options_render_two_plain_lines() {
    // A visible file, a hidden file and a directory: the default
    // options hide the hidden file and style nothing.
    let records = sample_records();
    let lines = render(&records, &Options::default());
    assert_eq!(lines, vec!["a.txt".to_string(), "sub".to_string()]);
}

#[test]
fn show_hidden_keeps_every_record() {
    let records = sample_records();
    let mut options = Options::default();
    options.show_hidden = true;
    let lines = render(&records, &options);
    assert_eq!(
        lines,
        vec![
            "a.txt".to_string(),
            ".secret".to_string(),
            "sub".to_string()
        ]
    );
}

#[test]
fn files_only_and_dirs_only_filter_by_kind() {
    let records = sample_records();
    let mut files = Options::default();
    files.files_only = true;
    assert_eq!(render(&records, &files), vec!["a.txt".to_string()]);
    let mut dirs = Options::default();
    dirs.dirs_only = true;
    assert_eq!(render(&records, &dirs), vec!["sub".to_string()]);
}

#[test]
fn files_only_with_dirs_only_renders_nothing() {
    let records = sample_records();
    let mut options = Options::default();
    options.files_only = true;
    options.dirs_only = true;
    options.show_hidden = true;
    assert_eq!(render(&records, &options), Vec::<String>::new());
}

#[test]
fn full_path_selects_the_path() {
    let records = sample_records();
    let mut options = Options::default();
    options.full_path = true;
    let lines = render(&records, &options);
    assert_eq!(
        lines,
        vec!["/tmp/a.txt".to_string(), "/tmp/sub".to_string()]
    );
}

#[test]
fn rendering_twice_gives_identical_output() {
    let records = sample_records();
    let mut options = Options::default();
    options.long = true;
    options.color = true;
    options.show_hidden = true;
    let first = render(&records, &options);
    let second = render(&records, &options);
    assert_eq!(first, second);
}

#[test]
fn override_resets_every_other_option() {
    let records = sample_records();
    let options = Options {
        long: true,
        show_hidden: true,
        files_only: true,
        dirs_only: false,
        full_path: true,
        color: true,
        override_all: true,
    };
    assert_eq!(
        render(&records, &options),
        render(&records, &Options::default())
    );
}

#[test]
fn list_dirs_matches_render_with_the_same_flags() {
    let records = sample_records();
    let lines = list_dirs(&records, true, true, false, false, false, false);
    let options = Options {
        long: true,
        show_hidden: true,
        files_only: false,
        dirs_only: false,
        full_path: false,
        color: false,
        override_all: false,
    };
    assert_eq!(lines, render(&records, &options));
}

#[test]
fn long_form_lays_out_fixed_columns() {
    let records = sample_records();
    let mut options = Options::default();
    options.long = true;
    let lines = render(&records, &options);
    assert_eq!(
        lines[0],
        format!(".rw\t{:>30}B  {:>35}  a.txt", "500", "10 secs ago")
    );
    assert_eq!(
        lines[1],
        format!("drw\t{:>30}  {:>35}  sub", "-", "10 secs ago")
    );
}

#[test]
fn long_form_marks_read_only_entries() {
    let entry = enrich(&raw_entry("locked", true, false, 1, false, true, 5, ""));
    let mut options = Options::default();
    options.long = true;
    let line = long_line(&entry, &options);
    assert!(line.starts_with(".r-\t"));
}

#[test]
fn colored_short_line_wraps_the_name_in_escapes() {
    // A regular file gets the default foreground colour; if the
    // styling calls handed their text back unchanged this would fail.
    let entry = enrich(&raw_entry("a.txt", true, false, 500, false, false, 10, "txt"));
    let mut options = Options::default();
    options.color = true;
    let line = short_line(&entry, &options);
    assert_eq!(line, "\u{1b}[38;2;198;200;209ma.txt\u{1b}[39m");
}

#[test]
fn colored_directory_is_bold_blue() {
    let entry = enrich(&raw_entry("sub", false, true, 0, false, false, 10, ""));
    let mut options = Options::default();
    options.color = true;
    let line = short_line(&entry, &options);
    assert_eq!(
        line,
        "\u{1b}[1m\u{1b}[38;2;109;144;217msub\u{1b}[39m\u{1b}[0m"
    );
}

#[test]
fn colored_symlink_is_dim_italic() {
    let entry = enrich(&raw_entry("link", false, false, 0, false, false, 10, ""));
    let mut options = Options::default();
    options.color = true;
    let line = short_line(&entry, &options);
    assert_eq!(line, "\u{1b}[2m\u{1b}[3mlink\u{1b}[0m\u{1b}[0m");
}

#[test]
fn colored_note_stacks_background_and_foreground() {
    let entry = enrich(&raw_entry("TODO.md", true, false, 10, false, false, 10, "md"));
    let mut options = Options::default();
    options.color = true;
    let line = short_line(&entry, &options);
    assert_eq!(
        line,
        "\u{1b}[38;2;30;33;50m\u{1b}[48;2;198;200;209mTODO.md\u{1b}[49m\u{1b}[39m"
    );
}

#[test]
fn long_form_special_file_gains_a_background() {
    let entry = enrich(&raw_entry("notes.md", true, false, 10, false, false, 10, "md"));
    let mut short_options = Options::default();
    short_options.color = true;
    let short = short_line(&entry, &short_options);
    assert_eq!(short, "\u{1b}[38;2;226;164;120mnotes.md\u{1b}[39m");
    let mut long_options = Options::default();
    long_options.color = true;
    long_options.long = true;
    let long = long_line(&entry, &long_options);
    assert!(long.ends_with(
        "\u{1b}[48;2;22;24;33m\u{1b}[38;2;226;164;120mnotes.md\u{1b}[39m\u{1b}[49m"
    ));
}

#[test]
fn plain_mode_emits_no_escape_bytes() {
    let records = sample_records();
    let mut options = Options::default();
    options.long = true;
    options.show_hidden = true;
    for line in render(&records, &options) {
        assert!(!line.contains('\u{1b}'));
    }
}
