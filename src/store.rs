//! The icon store: built once from a theme document, then queried for
//! files and directories.
use vstd::prelude::*;
use crate::color::parse_color;
use crate::entry::{
    shown_glyph, EntryModel, Icon, IconEntry, DEFAULT_CLOSED_FOLDER_ICON, DEFAULT_FILE_ICON,
    DEFAULT_OPEN_FOLDER_ICON,
};
use crate::table::{lookup_spec, IconTable};
use crate::text::{
    ascii_lower, basename, basename_spec, extension, extension_spec, path_file_name, plain_file_name, to_ascii_lower,
};
use crate::theme::{cond_entry, entry_model, opt_as_str, RawEntry, RawTheme};

verus! {

/// What a store holds, as values.
pub struct StoreModel {
    pub file: EntryModel,
    pub folder: EntryModel,
    pub dirs: Map<Seq<char>, EntryModel>,
    pub files: Map<Seq<char>, EntryModel>,
    pub exts: Map<Seq<char>, EntryModel>,
}

/// Binds `name` to `e`, and also its lowercased form when that differs and
/// is not bound yet.
pub open spec fn shadow_insert(
    m: Map<Seq<char>, EntryModel>,
    name: Seq<char>,
    e: EntryModel,
) -> Map<Seq<char>, EntryModel> {
    let m1 = m.insert(name, e);
    let l = ascii_lower(name);
    if l == name || m1.contains_key(l) {
        m1
    } else {
        m1.insert(l, e)
    }
}

/// The table that a list of overrides builds, taken in order.
pub open spec fn table_spec(entries: Seq<RawEntry>) -> Map<Seq<char>, EntryModel>
    decreases entries.len(),
{
    if entries.len() == 0 {
        Map::empty()
    } else {
        shadow_insert(
            table_spec(entries.drop_last()),
            entries.last().name@,
            entry_model(entries.last()),
        )
    }
}

/// The default entry for files: the `!dir` rule, else the legacy flat
/// glyph, else the built-in one.
pub open spec fn file_default_spec(raw: RawTheme) -> EntryModel {
    match cond_entry(raw.icon.conds@, "!dir"@) {
        Some(e) => e,
        None => EntryModel {
            glyph: match raw.cmp.icon_file {
                Some(s) => s@,
                None => DEFAULT_FILE_ICON@,
            },
            color: None,
            open_glyph: None,
        },
    }
}

/// The default entry for directories: the `dir` rule, else the legacy flat
/// glyph, else the built-in one; its open glyph is always the built-in one.
pub open spec fn folder_default_spec(raw: RawTheme) -> EntryModel {
    let base = match cond_entry(raw.icon.conds@, "dir"@) {
        Some(e) => e,
        None => EntryModel {
            glyph: match raw.cmp.icon_folder {
                Some(s) => s@,
                None => DEFAULT_CLOSED_FOLDER_ICON@,
            },
            color: None,
            open_glyph: None,
        },
    };
    EntryModel { open_glyph: Some(DEFAULT_OPEN_FOLDER_ICON@), ..base }
}

/// The store that a theme document builds.
pub open spec fn store_spec(raw: RawTheme) -> StoreModel {
    StoreModel {
        file: file_default_spec(raw),
        folder: folder_default_spec(raw),
        dirs: table_spec(raw.icon.dirs@),
        files: table_spec(raw.icon.files@),
        exts: table_spec(raw.icon.exts@),
    }
}

/// The entry for a directory: its last path segment looked up in `dirs`,
/// else the directory default.
pub open spec fn folder_entry(m: StoreModel, name: Seq<char>) -> EntryModel {
    match lookup_spec(m.dirs, basename_spec(name)) {
        Some(e) => e,
        None => m.folder,
    }
}

/// The first match in `exts` of the text after a `.` of `name`, trying the
/// dots from position `i` on, left to right; a `.` that ends the name is
/// skipped.
pub open spec fn suffix_from(m: Map<Seq<char>, EntryModel>, name: Seq<char>, i: int) -> Option<
    EntryModel,
>
    decreases name.len() - i,
{
    if i < 0 || i >= name.len() {
        None
    } else if name[i] == '.' && i + 1 < name.len() && lookup_spec(
        m,
        name.subrange(i + 1, name.len() as int),
    ) is Some {
        lookup_spec(m, name.subrange(i + 1, name.len() as int))
    } else {
        suffix_from(m, name, i + 1)
    }
}

/// The entry for a file name: the name in `files`; else the first suffix
/// after a dot, leftmost dot first, in `exts`; else the extension in `exts`;
/// else the file default.
pub open spec fn name_entry(m: StoreModel, name: Seq<char>) -> EntryModel {
    match lookup_spec(m.files, name) {
        Some(e) => e,
        None => match suffix_from(m.exts, name, 0) {
            Some(e) => e,
            None => match lookup_spec(m.exts, extension_spec(name)) {
                Some(e) => e,
                None => m.file,
            },
        },
    }
}

/// Case-normalized lookup tables and the two defaults.
#[derive(Clone, Debug, PartialEq)]
pub struct IconStore {
    file: IconEntry,
    folder: IconEntry,
    dirs: IconTable,
    files: IconTable,
    exts: IconTable,
}

impl View for IconStore {
    type V = StoreModel;

    closed spec fn view(&self) -> StoreModel {
        StoreModel {
            file: self.file@,
            folder: self.folder@,
            dirs: self.dirs@,
            files: self.files@,
            exts: self.exts@,
        }
    }
}

impl IconStore {
    /// Builds the store from a theme document.
    pub fn load(raw: RawTheme) -> (r: IconStore)
        ensures
            r@ == store_spec(raw),
    {
        let cmp = raw.cmp;
        let icon = raw.icon;
        let file = match icon.cond_icon("!dir") {
            Some(e) => e,
            None => {
                let glyph = match cmp.icon_file {
                    Some(s) => s,
                    None => DEFAULT_FILE_ICON.to_owned(),
                };
                IconEntry::new(glyph, None)
            },
        };
        let folder = match icon.cond_icon("dir") {
            Some(e) => e,
            None => {
                let glyph = match cmp.icon_folder {
                    Some(s) => s,
                    None => DEFAULT_CLOSED_FOLDER_ICON.to_owned(),
                };
                IconEntry::new(glyph, None)
            },
        };
        let folder = folder.with_open_glyph(DEFAULT_OPEN_FOLDER_ICON.to_owned());
        IconStore {
            file,
            folder,
            dirs: Self::build_icon_map(icon.dirs),
            files: Self::build_icon_map(icon.files),
            exts: Self::build_icon_map(icon.exts),
        }
    }

    /// Builds the table of a list of overrides, in order.
    pub fn build_icon_map(entries: Vec<RawEntry>) -> (r: IconTable)
        ensures
            r@ == table_spec(entries@),
    {
        let mut map = IconTable::new();
        let n = entries.len();
        let mut i: usize = 0;
        while i < n
            invariant
                i <= n,
                n == entries@.len(),
                map@ == table_spec(entries@.subrange(0, i as int)),
            decreases n - i,
        {
            let entry = &entries[i];
            let icon = IconEntry::new(entry.text.clone(), parse_color(opt_as_str(&entry.fg)));
            Self::insert_icon(&mut map, entry.name.clone(), icon);
            assert(entries@.subrange(0, i + 1).drop_last() =~= entries@.subrange(0, i as int));
            i = i + 1;
        }
        assert(entries@.subrange(0, n as int) =~= entries@);
        map
    }

    /// Binds `name` to `icon`, and its lowercased form too unless that is
    /// the same or already bound.
    pub fn insert_icon(map: &mut IconTable, name: String, icon: IconEntry)
        ensures
            final(map)@ == shadow_insert(old(map)@, name@, icon@),
    {
        let lower = to_ascii_lower(name.as_str());
        let same = lower == name;
        map.insert(name, icon.duplicate());
        if !same {
            map.insert_if_absent(lower, icon);
        }
    }

    /// The glyph and color of a directory, given its name or path.
    pub fn folder_icon(&self, name: &str, open: bool) -> (r: Icon<'_>)
        ensures
            r.glyph@ == shown_glyph(folder_entry(self@, name@), open),
            r.color == folder_entry(self@, name@).color,
    {
        let name = basename(name);
        let entry = match self.dirs.lookup_name(name) {
            Some(e) => e,
            None => &self.folder,
        };
        if open {
            entry.as_open_icon()
        } else {
            entry.as_icon()
        }
    }

    /// The glyph and color of a file, given its path: those of its file name,
    /// as the platform's path rules give it. A path that is a plain file name
    /// is its own file name.
    pub fn file_icon(&self, path: &str) -> (r: Icon<'_>)
        ensures
            plain_file_name(path@) ==> r.glyph@ == name_entry(self@, path@).glyph && r.color
                == name_entry(self@, path@).color,
            exists|name: Seq<char>|
                r.glyph@ == (#[trigger] name_entry(self@, name)).glyph && r.color == name_entry(
                    self@,
                    name,
                ).color,
    {
        self.file_name_icon(path_file_name(path))
    }

    /// The glyph and color of a file, given its file name.
    pub fn file_name_icon(&self, name: &str) -> (r: Icon<'_>)
        ensures
            r.glyph@ == name_entry(self@, name@).glyph,
            r.color == name_entry(self@, name@).color,
    {
        if let Some(entry) = self.files.lookup_name(name) {
            return entry.as_icon();
        }
        if let Some(entry) = self.lookup_by_suffix(name) {
            return entry.as_icon();
        }
        match self.lookup_extension(name) {
            Some(entry) => entry.as_icon(),
            None => self.file.as_icon(),
        }
    }

    /// The entry in `exts` of the extension of the file name `name`.
    pub fn lookup_extension(&self, name: &str) -> (r: Option<&IconEntry>)
        ensures
            match r {
                Some(e) => lookup_spec(self@.exts, extension_spec(name@)) == Some(e@),
                None => lookup_spec(self@.exts, extension_spec(name@)) is None,
            },
    {
        self.exts.lookup_name(extension(name))
    }

    /// The entry in `exts` of the first text after a `.` of `name` that has
    /// one, trying the dots from left to right.
    pub fn lookup_by_suffix(&self, name: &str) -> (r: Option<&IconEntry>)
        ensures
            match r {
                Some(e) => suffix_from(self@.exts, name@, 0) == Some(e@),
                None => suffix_from(self@.exts, name@, 0) is None,
            },
    {
        let n = name.unicode_len();
        let mut i: usize = 0;
        while i < n
            invariant
                i <= n,
                n == name@.len(),
                suffix_from(self@.exts, name@, 0) == suffix_from(self@.exts, name@, i as int),
            decreases n - i,
        {
            if name.get_char(i) == '.' && i + 1 < n {
                let ext = name.substring_char(i + 1, n);
                if let Some(entry) = self.exts.lookup_name(ext) {
                    return Some(entry);
                }
            }
            i = i + 1;
        }
        None
    }
}

} // verus!
