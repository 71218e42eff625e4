use tree_icons::color::{parse_color, parse_hex_color, Rgb};
use tree_icons::entry::{DEFAULT_CLOSED_FOLDER_ICON, DEFAULT_FILE_ICON, DEFAULT_OPEN_FOLDER_ICON};
use tree_icons::store::IconStore;
use tree_icons::text::{basename, extension};
use tree_icons::theme::{RawCmp, RawCondEntry, RawEntry, RawIconSection, RawTheme};

fn entry(name: &str, text: &str, fg: Option<&str>) -> RawEntry {
    RawEntry {
        name: name.to_string(),
        text: text.to_string(),
        fg: fg.map(|s| s.to_string()),
    }
}

fn cond(condition: &str, text: &str, fg: Option<&str>) -> RawCondEntry {
    RawCondEntry {
        condition: condition.to_string(),
        text: text.to_string(),
        fg: fg.map(|s| s.to_string()),
    }
}

fn theme(dirs: Vec<RawEntry>, files: Vec<RawEntry>, exts: Vec<RawEntry>) -> RawTheme {
    RawTheme {
        cmp: RawCmp::default(),
        icon: RawIconSection {
            dirs,
            files,
            exts,
            conds: Vec::new(),
        },
    }
}

fn sample() -> IconStore {
    IconStore::load(theme(
        vec![entry("src", "S", Some("#00ff00")), entry(".git", "G", None)],
        vec![entry("Dockerfile", "D", Some("0000ff")), entry("Makefile", "M", None)],
        vec![
            entry("rs", "R", Some("#dea584")),
            entry("b.c", "BC", None),
            entry("c", "C", None),
            entry("tar.gz", "TGZ", None),
            entry("gz", "GZ", None),
        ],
    ))
}

#[test]
fn color_with_hash_parses() {
    assert_eq!(parse_color(Some("#1a2b3c")), Some(Rgb { r: 26, g: 43, b: 60 }));
}

#[test]
fn color_without_hash_parses() {
    assert_eq!(parse_hex_color("1A2B3C"), Some(Rgb { r: 26, g: 43, b: 60 }));
    assert_eq!(parse_hex_color("ffffff"), Some(Rgb { r: 255, g: 255, b: 255 }));
}

#[test]
fn color_of_wrong_length_or_digits_is_none() {
    assert_eq!(parse_color(Some("1a2b3")), None);
    assert_eq!(parse_color(Some("zz11ff")), None);
    assert_eq!(parse_color(Some("#1a2b3c4")), None);
    assert_eq!(parse_color(Some("##1a2b3c")), None);
    assert_eq!(parse_color(Some("")), None);
    assert_eq!(parse_color(None), None);
    assert_eq!(parse_hex_color("+f+f+f"), None);
}

#[test]
fn color_with_surrounding_space_is_none() {
    assert_eq!(parse_color(Some("  #102030\t")), None);
    assert_eq!(parse_color(Some("#102030 ")), None);
    assert_eq!(parse_color(Some("#102030")), Some(Rgb { r: 16, g: 32, b: 48 }));
}

#[test]
fn plain_file_name_is_its_own_name() {
    let store = sample();
    assert_eq!(store.file_icon("Dockerfile").glyph, "D");
    assert_eq!(store.file_icon("main.rs").glyph, "R");
}

#[test]
fn basename_takes_last_segment() {
    assert_eq!(basename("a/b/c"), "c");
    assert_eq!(basename("a\\b\\src"), "src");
    assert_eq!(basename("plain"), "plain");
    assert_eq!(basename("a/"), "");
    assert_eq!(basename(""), "");
}

#[test]
fn extension_follows_last_dot() {
    assert_eq!(extension("archive.tar.gz"), "gz");
    assert_eq!(extension(".gitignore"), "");
    assert_eq!(extension("README"), "");
    assert_eq!(extension("name."), "");
    assert_eq!(extension("..a"), "a");
}

#[test]
fn exact_file_name_wins() {
    let store = sample();
    let icon = store.file_icon("project/Dockerfile");
    assert_eq!(icon.glyph, "D");
    assert_eq!(icon.color, Some(Rgb { r: 0, g: 0, b: 255 }));
}

#[test]
fn file_name_case_variants_agree() {
    let store = sample();
    for v in ["Makefile", "makefile", "MAKEFILE", "mAkEfIlE"] {
        let icon = store.file_name_icon(v);
        assert_eq!(icon.glyph, "M");
        assert_eq!(icon.color, None);
    }
}

#[test]
fn folder_case_variants_agree() {
    let store = sample();
    for v in ["src", "SRC", "Src", "/home/me/SrC"] {
        let icon = store.folder_icon(v, false);
        assert_eq!(icon.glyph, "S");
        assert_eq!(icon.color, Some(Rgb { r: 0, g: 255, b: 0 }));
    }
}

#[test]
fn open_and_closed_folder_share_entry() {
    let store = sample();
    let open = store.folder_icon("src", true);
    let closed = store.folder_icon("SRC", false);
    assert_eq!(open.color, closed.color);
    assert_eq!(open.color, Some(Rgb { r: 0, g: 255, b: 0 }));
    assert_eq!(closed.glyph, "S");
    assert_eq!(open.glyph, DEFAULT_OPEN_FOLDER_ICON);
}

#[test]
fn leftmost_dot_suffix_wins() {
    let store = sample();
    assert_eq!(store.file_icon("a.b.c").glyph, "BC");
    assert_eq!(store.file_icon("x.c").glyph, "C");
    assert_eq!(store.file_icon("dist/archive.tar.gz").glyph, "TGZ");
    assert_eq!(store.file_icon("archive.gz").glyph, "GZ");
}

#[test]
fn extension_lookup_ignores_case() {
    let store = sample();
    let icon = store.file_icon("src/MAIN.RS");
    assert_eq!(icon.glyph, "R");
    assert_eq!(icon.color, Some(Rgb { r: 0xde, g: 0xa5, b: 0x84 }));
}

#[test]
fn unmatched_file_gets_default() {
    let store = sample();
    let icon = store.file_icon("notes.txt");
    assert_eq!(icon.glyph, DEFAULT_FILE_ICON);
    assert_eq!(icon.color, None);
    assert_eq!(store.file_icon("README").glyph, DEFAULT_FILE_ICON);
}

#[test]
fn unmatched_folder_gets_default() {
    let store = sample();
    assert_eq!(store.folder_icon("docs", false).glyph, DEFAULT_CLOSED_FOLDER_ICON);
    assert_eq!(store.folder_icon("docs", true).glyph, DEFAULT_OPEN_FOLDER_ICON);
}

#[test]
fn no_overrides_gives_only_defaults() {
    let store = IconStore::load(RawTheme::default());
    for name in ["", "/", ".gitignore", "a.b.c", "Dockerfile", "x/y.rs", "\\"] {
        let f = store.file_icon(name);
        assert_eq!(f.glyph, DEFAULT_FILE_ICON);
        assert_eq!(f.color, None);
        let d = store.folder_icon(name, false);
        assert_eq!(d.glyph, DEFAULT_CLOSED_FOLDER_ICON);
        assert_eq!(d.color, None);
        assert_eq!(store.folder_icon(name, true).glyph, DEFAULT_OPEN_FOLDER_ICON);
    }
}

#[test]
fn odd_names_do_not_fail() {
    let store = sample();
    assert_eq!(store.file_icon("").glyph, DEFAULT_FILE_ICON);
    assert_eq!(store.file_icon("/").glyph, DEFAULT_FILE_ICON);
    assert_eq!(store.file_icon(".gitignore").glyph, DEFAULT_FILE_ICON);
    assert_eq!(store.file_icon("name.").glyph, DEFAULT_FILE_ICON);
    assert_eq!(store.folder_icon("", false).glyph, DEFAULT_CLOSED_FOLDER_ICON);
    assert_eq!(store.folder_icon("/", false).glyph, DEFAULT_CLOSED_FOLDER_ICON);
    assert_eq!(store.folder_icon(".git", false).glyph, "G");
}

#[test]
fn building_twice_gives_equal_stores() {
    assert_eq!(sample(), sample());
    let a = IconStore::load(RawTheme::default());
    let b = IconStore::load(RawTheme::default());
    assert_eq!(a, b);
}

#[test]
fn conditional_rules_set_defaults() {
    let mut raw = theme(Vec::new(), Vec::new(), Vec::new());
    raw.icon.conds = vec![
        cond("!dir", "F", Some("#010203")),
        cond("dir", "D", Some("#0a0b0c")),
        cond("dir", "X", None),
    ];
    raw.cmp.icon_file = Some("legacy-file".to_string());
    raw.cmp.icon_folder = Some("legacy-folder".to_string());
    let store = IconStore::load(raw);
    let f = store.file_icon("anything");
    assert_eq!(f.glyph, "F");
    assert_eq!(f.color, Some(Rgb { r: 1, g: 2, b: 3 }));
    let d = store.folder_icon("anything", false);
    assert_eq!(d.glyph, "D");
    assert_eq!(d.color, Some(Rgb { r: 10, g: 11, b: 12 }));
    assert_eq!(store.folder_icon("anything", true).glyph, DEFAULT_OPEN_FOLDER_ICON);
}

#[test]
fn legacy_glyphs_used_without_rules() {
    let mut raw = theme(Vec::new(), Vec::new(), Vec::new());
    raw.cmp.icon_file = Some("legacy-file".to_string());
    raw.cmp.icon_folder = Some("legacy-folder".to_string());
    let store = IconStore::load(raw);
    assert_eq!(store.file_icon("a").glyph, "legacy-file");
    assert_eq!(store.folder_icon("a", false).glyph, "legacy-folder");
    assert_eq!(store.folder_icon("a", true).glyph, DEFAULT_OPEN_FOLDER_ICON);
}

#[test]
fn cond_icon_takes_first_matching_rule() {
    let section = RawIconSection {
        dirs: Vec::new(),
        files: Vec::new(),
        exts: Vec::new(),
        conds: vec![cond("dir", "one", None), cond("dir", "two", Some("#ffffff"))],
    };
    let e = section.cond_icon("dir").unwrap();
    assert_eq!(e.as_icon().glyph, "one");
    assert_eq!(e.as_open_icon().glyph, DEFAULT_OPEN_FOLDER_ICON);
    assert!(section.cond_icon("!dir").is_none());
}

#[test]
fn first_name_keeps_lowercase_slot() {
    let store = IconStore::load(theme(
        Vec::new(),
        vec![entry("README", "UP", None), entry("ReadMe", "MIXED", None)],
        Vec::new(),
    ));
    assert_eq!(store.file_name_icon("README").glyph, "UP");
    assert_eq!(store.file_name_icon("ReadMe").glyph, "MIXED");
    assert_eq!(store.file_name_icon("readme").glyph, "UP");
    assert_eq!(store.file_name_icon("rEADME").glyph, "UP");
}

#[test]
fn exact_lowercase_name_replaces_shadow() {
    let store = IconStore::load(theme(
        Vec::new(),
        vec![entry("README", "UP", None), entry("readme", "LOW", None)],
        Vec::new(),
    ));
    assert_eq!(store.file_name_icon("README").glyph, "UP");
    assert_eq!(store.file_name_icon("readme").glyph, "LOW");
    assert_eq!(store.file_name_icon("Readme").glyph, "LOW");
}

#[test]
fn later_duplicate_name_wins() {
    let store = IconStore::load(theme(
        vec![entry("build", "B1", None), entry("build", "B2", None)],
        Vec::new(),
        Vec::new(),
    ));
    assert_eq!(store.folder_icon("build", false).glyph, "B2");
}
