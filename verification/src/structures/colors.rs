//! The palette: three named colors and sixteen numbered ones.

use vstd::prelude::*;
use crate::structures::color::Color;
use crate::text::{decimal, push_decimal};

verus! {

/// A palette. The numbered colors stand at their number.
#[derive(Clone, Copy, Debug, PartialEq, Eq, Hash, PartialOrd, Ord)]
pub struct Colors {
    pub background: Color,
    pub foreground: Color,
    pub cursor: Color,
    pub colors: [Color; 16],
}

/// A palette as a mathematical value; `colors` has sixteen entries.
pub struct ColorsView {
    pub background: Color,
    pub foreground: Color,
    pub cursor: Color,
    pub colors: Seq<Color>,
}

impl View for Colors {
    type V = ColorsView;

    open spec fn view(&self) -> ColorsView {
        ColorsView {
            background: self.background,
            foreground: self.foreground,
            cursor: self.cursor,
            colors: self.colors@,
        }
    }
}

impl ColorsView {
    /// The palette in which every slot holds opaque black.
    pub open spec fn default_palette() -> ColorsView {
        ColorsView {
            background: Color::spec_default(),
            foreground: Color::spec_default(),
            cursor: Color::spec_default(),
            colors: Seq::new(16, |i: int| Color::spec_default()),
        }
    }
}

impl Default for Colors {
    /// Every slot opaque black.
    fn default() -> (p: Colors)
        ensures
            p@ == ColorsView::default_palette(),
    {
        let black = Color::default();
        let p = Colors { background: black, foreground: black, cursor: black, colors: [black; 16] };
        assert(p@.colors =~= ColorsView::default_palette().colors);
        p
    }
}

/// The name of a numbered slot: `color` and the number.
pub open spec fn numbered_name(index: nat) -> Seq<char> {
    "color"@ + decimal(index)
}

/// The name of a numbered slot.
pub fn numbered(index: u8) -> (name: String)
    ensures
        name@ == numbered_name(index as nat),
{
    let mut name = String::from_str("color");
    push_decimal(&mut name, index);
    name
}

impl ColorsView {
    /// A palette has sixteen numbered colors.
    pub open spec fn well_formed(self) -> bool {
        self.colors.len() == 16
    }
}

/// Every palette's view is well-formed, and so is the default palette.
pub proof fn lemma_view_well_formed(p: Colors)
    ensures
        p@.well_formed(),
        ColorsView::default_palette().well_formed(),
{
}

} // verus!
