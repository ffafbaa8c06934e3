//! Where to look for the font that the bar is configured with.
use vstd::prelude::*;

use crate::text::{trim, trimmed};

verus! {

/// A place where the configured font may be found.
#[derive(Debug, Clone, PartialEq, Eq)]
pub enum FontCandidate {
    /// The configured name itself, read as a path.
    AsGiven,
    /// A file of this name in the system's font directory.
    InFontsDir(String),
}

pub enum FontCandidateModel {
    AsGiven,
    InFontsDir(Seq<char>),
}

impl View for FontCandidate {
    type V = FontCandidateModel;

    open spec fn view(&self) -> FontCandidateModel {
        match self {
            FontCandidate::AsGiven => FontCandidateModel::AsGiven,
            FontCandidate::InFontsDir(name) => FontCandidateModel::InFontsDir(name@),
        }
    }
}

pub open spec fn candidates_view(c: Seq<FontCandidate>) -> Seq<FontCandidateModel> {
    c.map_values(|x: FontCandidate| x@)
}

/// `s` without its space characters (U+0020).
pub open spec fn without_spaces(s: Seq<char>) -> Seq<char>
    decreases s.len(),
{
    if s.len() == 0 {
        s
    } else if s.last() == ' ' {
        without_spaces(s.drop_last())
    } else {
        without_spaces(s.drop_last()).push(s.last())
    }
}

/// The file names tried in the font directory: the trimmed name, then the
/// trimmed name without spaces, each with `.ttf`, `.ttc` and `.otf`.
pub open spec fn font_file_names(font: Seq<char>) -> Seq<Seq<char>> {
    let t = trimmed(font);
    let c = without_spaces(t);
    seq![t + ".ttf"@, t + ".ttc"@, t + ".otf"@, c + ".ttf"@, c + ".ttc"@, c + ".otf"@]
}

/// The places tried, in order, for a configured font: none for a blank
/// name; else the name itself, then, on Windows, the font directory's files.
pub open spec fn font_candidates_spec(font: Seq<char>, on_windows: bool) -> Seq<FontCandidateModel> {
    if trimmed(font).len() == 0 {
        Seq::empty()
    } else if on_windows {
        seq![FontCandidateModel::AsGiven] + font_file_names(font).map_values(
            |n: Seq<char>| FontCandidateModel::InFontsDir(n),
        )
    } else {
        seq![FontCandidateModel::AsGiven]
    }
}

/// The first candidate marked as an existing file; a candidate without a
/// mark counts as missing.
pub open spec fn first_found(c: Seq<FontCandidateModel>, found: Seq<bool>) -> Option<FontCandidateModel>
    decreases c.len(),
{
    if c.len() == 0 || found.len() == 0 {
        None
    } else if found[0] {
        Some(c[0])
    } else {
        first_found(c.drop_first(), found.drop_first())
    }
}

fn remove_spaces(s: &str) -> (r: String)
    ensures
        r@ == without_spaces(s@),
{
    let len = s.unicode_len();
    let mut out = String::new();
    let mut i: usize = 0;
    while i < len
        invariant
            len == s@.len(),
            i <= len,
            out@ == without_spaces(s@.take(i as int)),
        decreases len - i,
    {
        assert(s@.take(i + 1).drop_last() =~= s@.take(i as int));
        let c = s.get_char(i);
        if c != ' ' {
            out.append(s.substring_char(i, i + 1));
            assert(s@.subrange(i as int, i + 1) =~= seq![c]);
        }
        i = i + 1;
    }
    assert(s@.take(len as int) =~= s@);
    out
}

fn with_extension(stem: &str, ext: &str) -> (r: FontCandidate)
    ensures
        r@ == FontCandidateModel::InFontsDir(stem@ + ext@),
{
    FontCandidate::InFontsDir(String::from_str(stem).concat(ext))
}

/// The places to look for a configured font, in the order in which they are
/// tried.
pub fn font_candidates(font: &str, on_windows: bool) -> (r: Vec<FontCandidate>)
    ensures
        candidates_view(r@) == font_candidates_spec(font@, on_windows),
{
    let t = trim(font);
    let mut r: Vec<FontCandidate> = Vec::new();
    if t.unicode_len() == 0 {
        assert(candidates_view(r@) =~= font_candidates_spec(font@, on_windows));
        return r;
    }
    r.push(FontCandidate::AsGiven);
    if on_windows {
        let compact = remove_spaces(t);
        r.push(with_extension(t, ".ttf"));
        r.push(with_extension(t, ".ttc"));
        r.push(with_extension(t, ".otf"));
        r.push(with_extension(compact.as_str(), ".ttf"));
        r.push(with_extension(compact.as_str(), ".ttc"));
        r.push(with_extension(compact.as_str(), ".otf"));
    }
    assert(candidates_view(r@) =~= font_candidates_spec(font@, on_windows));
    r
}

/// Picks the font to load: the first place, in the order of
/// `font_candidates`, that `is_file` marks as an existing file (the marks
/// are given in that order); `None` for a blank name or when none exists.
pub fn resolve_font_path(font: &str, on_windows: bool, is_file: &Vec<bool>) -> (r: Option<FontCandidate>)
    ensures
        match r {
            Some(c) => first_found(font_candidates_spec(font@, on_windows), is_file@) == Some(c@),
            None => first_found(font_candidates_spec(font@, on_windows), is_file@) is None,
        },
{
    let mut candidates = font_candidates(font, on_windows);
    let ghost all = candidates_view(candidates@);
    let mut i: usize = 0;
    assert(all.skip(0) =~= all);
    assert(is_file@.skip(0) =~= is_file@);
    while i < candidates.len() && i < is_file.len()
        invariant
            all == candidates_view(candidates@),
            all == font_candidates_spec(font@, on_windows),
            i <= candidates@.len(),
            i <= is_file@.len(),
            all.len() == candidates@.len(),
            first_found(all, is_file@) == first_found(all.skip(i as int), is_file@.skip(i as int)),
        decreases candidates@.len() - i,
    {
        assert(all.skip(i as int).drop_first() =~= all.skip(i + 1));
        if is_file[i] {
            assert(all.skip(i as int)[0] == candidates@[i as int]@);
            return Some(candidates.remove(i));
        }
        assert(is_file@.skip(i as int).drop_first() =~= is_file@.skip(i + 1));
        i = i + 1;
    }
    assert(all.skip(i as int).len() == 0 || is_file@.skip(i as int).len() == 0);
    None
}

} // verus!
