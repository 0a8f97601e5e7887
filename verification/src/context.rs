//! The state that the elements of the user interface share: the loaded fonts.

use vstd::prelude::*;
use crate::font::Fonts;
use crate::store::FontStorage;

verus! {

/// Top-level structure containing all state of the user interface.
pub struct UiContext<'s> {
    fonts: Fonts<'s>,
}

impl<'s> UiContext<'s> {
    /// The registry of loaded fonts.
    pub closed spec fn spec_fonts(&self) -> Fonts<'s> {
        self.fonts
    }

    /// A context with no font loaded, over the store that font files are
    /// opened through.
    pub fn new(storage: &'s FontStorage) -> (r: Self)
        ensures
            r.spec_fonts().wf(),
            r.spec_fonts().entries().len() == 0,
            r.spec_fonts().storage() == storage,
    {
        Self { fonts: Fonts::new(storage) }
    }

    /// The loaded fonts.
    pub fn fonts(&self) -> (r: &Fonts<'s>)
        ensures
            *r == self.spec_fonts(),
    {
        &self.fonts
    }

    /// The loaded fonts, to load more or to render glyphs.
    pub fn fonts_mut(&mut self) -> (r: &mut Fonts<'s>)
        ensures
            *r == old(self).spec_fonts(),
            final(self).spec_fonts() == *final(r),
    {
        &mut self.fonts
    }
}

} // verus!
