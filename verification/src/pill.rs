//! Pills: the small boxes that the bar is made of.

use vstd::prelude::*;

verus! {

/// A pill as it is drawn: its style classes, its tooltip, its glyph and its text.
#[derive(Debug)]
pub struct Pill {
    pub class: String,
    pub title: Option<String>,
    pub icon: &'static str,
    pub text: String,
}

/// What a pill shows.
#[verifier::ext_equal]
pub struct PillModel {
    pub class: Seq<char>,
    pub title: Option<Seq<char>>,
    pub icon: Seq<char>,
    pub text: Seq<char>,
}

impl View for Pill {
    type V = PillModel;

    open spec fn view(&self) -> PillModel {
        PillModel {
            class: self.class@,
            title: match self.title {
                Some(title) => Some(title@),
                None => None,
            },
            icon: self.icon@,
            text: self.text@,
        }
    }
}

/// The value behind an optional reference.
pub open spec fn option_copied<T>(o: Option<&T>) -> Option<T> {
    match o {
        Some(x) => Some(*x),
        None => None,
    }
}

} // verus!
