//! The sections of an icon theme document, as typed records.
use vstd::prelude::*;
use crate::color::{color_spec, parse_color};
use crate::entry::{EntryModel, IconEntry, DEFAULT_OPEN_FOLDER_ICON, opt_view};

verus! {

/// An override for one name: a directory name, a file name or an extension.
#[derive(Clone, Debug)]
pub struct RawEntry {
    pub name: String,
    pub text: String,
    pub fg: Option<String>,
}

/// A conditional default rule: a condition tag (`dir`, `!dir`), a glyph and
/// an optional color.
#[derive(Clone, Debug)]
pub struct RawCondEntry {
    pub condition: String,
    pub text: String,
    pub fg: Option<String>,
}

/// The legacy section with flat default glyphs.
#[derive(Clone, Debug, Default)]
pub struct RawCmp {
    pub icon_file: Option<String>,
    pub icon_folder: Option<String>,
}

/// The icon section: conditional defaults and the three override lists.
#[derive(Clone, Debug, Default)]
pub struct RawIconSection {
    pub dirs: Vec<RawEntry>,
    pub files: Vec<RawEntry>,
    pub exts: Vec<RawEntry>,
    pub conds: Vec<RawCondEntry>,
}

/// A whole theme document.
#[derive(Clone, Debug, Default)]
pub struct RawTheme {
    pub cmp: RawCmp,
    pub icon: RawIconSection,
}

/// The entry that an override describes.
pub open spec fn entry_model(e: RawEntry) -> EntryModel {
    EntryModel { glyph: e.text@, color: color_spec(opt_view(e.fg)), open_glyph: None }
}

/// The first rule of `conds` whose condition is `cond`.
pub open spec fn first_cond(conds: Seq<RawCondEntry>, cond: Seq<char>) -> Option<RawCondEntry>
    decreases conds.len(),
{
    if conds.len() == 0 {
        None
    } else if conds[0].condition@ == cond {
        Some(conds[0])
    } else {
        first_cond(conds.drop_first(), cond)
    }
}

/// The entry that the first rule for `cond` gives; a `dir` rule carries the
/// built-in open glyph.
pub open spec fn cond_entry(conds: Seq<RawCondEntry>, cond: Seq<char>) -> Option<EntryModel> {
    match first_cond(conds, cond) {
        Some(c) => Some(
            EntryModel {
                glyph: c.text@,
                color: color_spec(opt_view(c.fg)),
                open_glyph: if cond == "dir"@ {
                    Some(DEFAULT_OPEN_FOLDER_ICON@)
                } else {
                    None
                },
            },
        ),
        None => None,
    }
}

/// The view of an optional borrowed text.
pub open spec fn opt_str_view(s: Option<&str>) -> Option<Seq<char>> {
    match s {
        Some(t) => Some(t@),
        None => None,
    }
}

/// Borrows the text of an optional string.
pub fn opt_as_str(s: &Option<String>) -> (r: Option<&str>)
    ensures
        opt_str_view(r) == opt_view(*s),
{
    match s {
        Some(t) => Some(t.as_str()),
        None => None,
    }
}

impl RawIconSection {
    /// The entry of the first conditional rule whose condition is `cond`.
    pub fn cond_icon(&self, cond: &str) -> (r: Option<IconEntry>)
        ensures
            match r {
                Some(e) => cond_entry(self.conds@, cond@) == Some(e@),
                None => cond_entry(self.conds@, cond@) is None,
            },
    {
        let n = self.conds.len();
        let mut i: usize = 0;
        assert(self.conds@.subrange(0, n as int) =~= self.conds@);
        while i < n
            invariant
                i <= n,
                n == self.conds@.len(),
                first_cond(self.conds@, cond@) == first_cond(
                    self.conds@.subrange(i as int, n as int),
                    cond@,
                ),
            decreases n - i,
        {
            let entry = &self.conds[i];
            assert(self.conds@.subrange(i as int, n as int).drop_first() =~= self.conds@.subrange(
                i + 1,
                n as int,
            ));
            assert(self.conds@.subrange(i as int, n as int)[0] == self.conds@[i as int]);
            if entry.condition.as_str().eq(cond) {
                let fg = parse_color(opt_as_str(&entry.fg));
                let icon = IconEntry::new(entry.text.clone(), fg);
                if cond.eq("dir") {
                    return Some(icon.with_open_glyph(DEFAULT_OPEN_FOLDER_ICON.to_owned()));
                } else {
                    return Some(icon);
                }
            }
            i = i + 1;
        }
        None
    }
}

} // verus!
