//! One resolved visual: a glyph, an optional color, and for directories an
//! optional glyph shown when the directory is open.
use vstd::prelude::*;
use crate::color::Rgb;

verus! {

/// Glyph of a file that nothing else matches.
pub const DEFAULT_FILE_ICON: &'static str = "\u{f15b}";

/// Glyph of a closed directory that nothing else matches.
pub const DEFAULT_CLOSED_FOLDER_ICON: &'static str = "\u{f07b}";

/// Glyph of an open directory.
pub const DEFAULT_OPEN_FOLDER_ICON: &'static str = "\u{f114}";

/// What an entry holds, as values.
pub struct EntryModel {
    pub glyph: Seq<char>,
    pub color: Option<Rgb>,
    pub open_glyph: Option<Seq<char>>,
}

/// The view of an optional text.
pub open spec fn opt_view(s: Option<String>) -> Option<Seq<char>> {
    match s {
        Some(t) => Some(t@),
        None => None,
    }
}

/// The glyph an entry shows for an open directory: its own open glyph, or
/// the built-in one.
pub open spec fn open_glyph_of(e: EntryModel) -> Seq<char> {
    match e.open_glyph {
        Some(g) => g,
        None => DEFAULT_OPEN_FOLDER_ICON@,
    }
}

/// The glyph an entry shows, open or not.
pub open spec fn shown_glyph(e: EntryModel, open: bool) -> Seq<char> {
    if open {
        open_glyph_of(e)
    } else {
        e.glyph
    }
}

/// What a query hands to the renderer: a glyph and an optional color.
pub struct Icon<'a> {
    pub glyph: &'a str,
    pub color: Option<Rgb>,
}

/// The visual bound to one key of the theme.
#[derive(Clone, Debug, PartialEq)]
pub struct IconEntry {
    glyph: String,
    color: Option<Rgb>,
    open_glyph: Option<String>,
}

impl View for IconEntry {
    type V = EntryModel;

    closed spec fn view(&self) -> EntryModel {
        EntryModel { glyph: self.glyph@, color: self.color, open_glyph: opt_view(self.open_glyph) }
    }
}

impl IconEntry {
    /// An entry with the given glyph and color and no open glyph.
    pub fn new(glyph: String, color: Option<Rgb>) -> (r: IconEntry)
        ensures
            r@ == (EntryModel { glyph: glyph@, color, open_glyph: None }),
    {
        IconEntry { glyph, color, open_glyph: None }
    }

    /// The same entry with `glyph` as its open glyph.
    pub fn with_open_glyph(self, glyph: String) -> (r: IconEntry)
        ensures
            r@ == (EntryModel { open_glyph: Some(glyph@), ..self@ }),
    {
        IconEntry { open_glyph: Some(glyph), ..self }
    }

    /// A copy of this entry.
    pub fn duplicate(&self) -> (r: IconEntry)
        ensures
            r@ == self@,
    {
        let open_glyph = match &self.open_glyph {
            Some(g) => Some(g.clone()),
            None => None,
        };
        IconEntry { glyph: self.glyph.clone(), color: self.color, open_glyph }
    }

    /// The glyph and color shown for a file or a closed directory.
    pub fn as_icon(&self) -> (r: Icon<'_>)
        ensures
            r.glyph@ == self@.glyph,
            r.color == self@.color,
    {
        Icon { glyph: self.glyph.as_str(), color: self.color }
    }

    /// The glyph and color shown for an open directory.
    pub fn as_open_icon(&self) -> (r: Icon<'_>)
        ensures
            r.glyph@ == open_glyph_of(self@),
            r.color == self@.color,
    {
        let glyph = match &self.open_glyph {
            Some(g) => g.as_str(),
            None => DEFAULT_OPEN_FOLDER_ICON,
        };
        Icon { glyph, color: self.color }
    }
}

} // verus!
