//! The closed set of support categories and their display attributes.

use vstd::prelude::*;

verus! {

/// One of the four kinds of support conversation a user can open.
#[derive(Clone, Copy, PartialEq, Eq, Structural, Debug)]
pub enum CategoryKind {
    Help,
    Question,
    Bug,
    Feature,
}

/// An opaque 24-bit colour, one byte per channel.
#[derive(Clone, Copy, PartialEq, Eq, Structural, Debug)]
pub struct Rgb {
    pub red: u8,
    pub green: u8,
    pub blue: u8,
}

/// The emoji shown beside everything belonging to this category.
pub open spec fn spec_emoji(k: CategoryKind) -> Seq<char> {
    match k {
        CategoryKind::Help => "\u{1f91d}"@,
        CategoryKind::Question => "\u{1f64b}"@,
        CategoryKind::Bug => "\u{1f41e}"@,
        CategoryKind::Feature => "\u{1f4a1}"@,
    }
}

/// The short label naming this category in the finalized summary title.
pub open spec fn spec_label(k: CategoryKind) -> Seq<char> {
    match k {
        CategoryKind::Help => "Help"@,
        CategoryKind::Question => "Question"@,
        CategoryKind::Bug => "Bug"@,
        CategoryKind::Feature => "Feature"@,
    }
}

/// The noun phrase used when asking the user to describe their request.
pub open spec fn spec_noun(k: CategoryKind) -> Seq<char> {
    match k {
        CategoryKind::Question => "question"@,
        CategoryKind::Feature => "feature suggestion"@,
        _ => "problem"@,
    }
}

/// The embed colour attached to this category.
pub open spec fn spec_colour(k: CategoryKind) -> Rgb {
    match k {
        CategoryKind::Help => Rgb { red: 255, green: 213, blue: 97 },
        CategoryKind::Question => Rgb { red: 253, green: 103, blue: 63 },
        CategoryKind::Bug => Rgb { red: 220, green: 40, blue: 63 },
        CategoryKind::Feature => Rgb { red: 254, green: 194, blue: 83 },
    }
}

impl CategoryKind {
    /// The emoji shown beside everything belonging to this category.
    pub fn emoji(&self) -> (r: &'static str)
        ensures
            r@ == spec_emoji(*self),
    {
        match self {
            CategoryKind::Help => "\u{1f91d}",
            CategoryKind::Question => "\u{1f64b}",
            CategoryKind::Bug => "\u{1f41e}",
            CategoryKind::Feature => "\u{1f4a1}",
        }
    }

    /// The short label naming this category in the finalized summary title.
    pub fn label(&self) -> (r: &'static str)
        ensures
            r@ == spec_label(*self),
    {
        match self {
            CategoryKind::Help => "Help",
            CategoryKind::Question => "Question",
            CategoryKind::Bug => "Bug",
            CategoryKind::Feature => "Feature",
        }
    }

    /// The noun phrase used when asking the user to describe their request.
    pub fn noun(&self) -> (r: &'static str)
        ensures
            r@ == spec_noun(*self),
    {
        match self {
            CategoryKind::Question => "question",
            CategoryKind::Feature => "feature suggestion",
            _ => "problem",
        }
    }

    /// The embed colour attached to this category.
    pub fn colour(&self) -> (r: Rgb)
        ensures
            r == spec_colour(*self),
    {
        match self {
            CategoryKind::Help => Rgb { red: 255, green: 213, blue: 97 },
            CategoryKind::Question => Rgb { red: 253, green: 103, blue: 63 },
            CategoryKind::Bug => Rgb { red: 220, green: 40, blue: 63 },
            CategoryKind::Feature => Rgb { red: 254, green: 194, blue: 83 },
        }
    }
}

} // verus!
