//! A font with its glyph cache, and the registry of loaded fonts.

use vstd::prelude::*;
use skrifa::FontRef;
use std::collections::HashMap;
use std::path::PathBuf;
use crate::attribute::Attributes;
use crate::data::{
    bitmap_sized, family_of, parse_outcome, parse_outcome_at, render_post, FontDrawData,
};
use crate::error::FontError;
use crate::family::{
    eq_ignore_ascii_case, lemma_same_family_reflexive, lemma_same_family_symmetric,
    lemma_same_family_transitive, same_family, trim, trimmed,
};
use crate::glyph::{lemma_key_injective, Glyph, RenderedGlyph};
use crate::slots::{
    has_id, new_slots, slot_count, slot_entries, slot_get, slot_get_mut, slot_ids, slot_insert,
    FontId, FontSlots, SLOT_LIMIT,
};
use crate::store::{FontBuffer, FontStorage};
use crate::tables::{attributes_of, glyph_of};

verus! {

broadcast use vstd::std_specs::hash::group_hash_axioms;

/// A font together with every glyph of it that was rendered so far.
pub struct UiFont<'s> {
    data: FontDrawData<'s>,
    glyph_cache: HashMap<u64, RenderedGlyph>,
    rasterized: u64,
}

/// The glyph that a result refers to, taken out of the reference.
pub open spec fn owned(r: Result<&RenderedGlyph, FontError>) -> Result<RenderedGlyph, FontError> {
    match r {
        Ok(g) => Ok(*g),
        Err(e) => Err(e),
    }
}

/// One more, as far as the counter goes.
pub open spec fn counted(n: u64) -> u64 {
    if n < u64::MAX {
        (n + 1) as u64
    } else {
        n
    }
}

/// What a request for a glyph does to a font, and what it returns.
///
/// A hit returns the cached glyph and changes nothing. A miss runs the
/// rasterizer once and returns what it yields ([`render_post`]); a glyph is
/// cached under the key, a failure leaves the cache as it was.
pub open spec fn glyph_post(
    before: UiFont<'_>,
    glyph: Glyph,
    after: UiFont<'_>,
    r: Result<RenderedGlyph, FontError>,
) -> bool {
    &&& after.data() == before.data()
    &&& if before.cache().contains_key(glyph) {
        &&& r == Ok::<RenderedGlyph, FontError>(before.cache()[glyph])
        &&& after.cache() == before.cache()
        &&& after.rasterized() == before.rasterized()
    } else {
        &&& render_post(before.data().tables(), before.data().hinted(), glyph, r)
        &&& after.rasterized() == counted(before.rasterized())
        &&& match r {
            Ok(g) => after.cache() == before.cache().insert(glyph, g),
            Err(_) => after.cache() == before.cache(),
        }
    }
}

impl<'s> UiFont<'s> {
    /// The parsed font.
    pub closed spec fn data(&self) -> FontDrawData<'s> {
        self.data
    }

    /// The glyphs rendered so far, by their key.
    pub closed spec fn cache(&self) -> Map<Glyph, RenderedGlyph> {
        Map::new(
            |g: Glyph| self.glyph_cache@.contains_key(g.spec_key()),
            |g: Glyph| self.glyph_cache@[g.spec_key()],
        )
    }

    /// How often the rasterizer was run for this font.
    pub closed spec fn rasterized(&self) -> u64 {
        self.rasterized
    }

    /// The font is well formed, and every cached glyph is a well-formed
    /// glyph that rendering its key from this font yields, with a bitmap of
    /// the size that its bounding box gives it.
    pub open spec fn wf(&self) -> bool {
        &&& self.data().wf()
        &&& forall|g: Glyph| #[trigger]
            self.cache().contains_key(g) ==> {
                &&& self.cache()[g].wf()
                &&& render_post(
                    self.data().tables(),
                    self.data().hinted(),
                    g,
                    Ok(self.cache()[g]),
                )
                &&& bitmap_sized(self.data().tables(), self.data().hinted(), g, self.cache()[g])
            }
    }

    /// Reads a single font from the buffer, with nothing rendered yet.
    pub fn new(buf: &'s [u8]) -> (r: Result<Self, FontError>)
        ensures
            match parse_outcome(buf@) {
                Err(e) => r == Err::<Self, FontError>(e),
                Ok(tables) => r matches Ok(font) && fresh(font, tables),
            },
    {
        match FontDrawData::new(buf) {
            Ok(data) => Ok(Self::from_data(data)),
            Err(e) => Err(e),
        }
    }

    /// Reads the font at `index` of the buffer, which may hold a collection,
    /// with nothing rendered yet.
    pub fn from_index(buf: &'s [u8], index: u32) -> (r: Result<Self, FontError>)
        ensures
            match parse_outcome_at(buf@, index) {
                Err(e) => r == Err::<Self, FontError>(e),
                Ok(tables) => r matches Ok(font) && fresh(font, tables),
            },
    {
        match FontDrawData::from_index(buf, index) {
            Ok(data) => Ok(Self::from_data(data)),
            Err(e) => Err(e),
        }
    }

    /// Takes a parsed font, with nothing rendered yet.
    pub fn from_data(data: FontDrawData<'s>) -> (r: Self)
        requires
            data.wf(),
        ensures
            r.wf(),
            r.data() == data,
            r.cache() == Map::<Glyph, RenderedGlyph>::empty(),
            r.rasterized() == 0,
    {
        let r = Self { data, glyph_cache: HashMap::new(), rasterized: 0 };
        assert(r.cache() =~= Map::<Glyph, RenderedGlyph>::empty());
        r
    }

    /// The cached glyph for the key, or the glyph rasterized now and cached.
    ///
    /// A hit runs nothing and changes nothing. A miss runs the rasterizer
    /// once; what it renders is cached under the key, and a failure is
    /// returned without a trace in the cache, so that the next request tries
    /// again.
    pub fn glyph(&mut self, glyph: Glyph) -> (r: Result<&RenderedGlyph, FontError>)
        requires
            old(self).wf(),
        ensures
            final(self).wf(),
            glyph_post(*old(self), glyph, *final(self), owned(r)),
            r matches Ok(g) ==> g.wf() && bitmap_sized(
                old(self).data().tables(),
                old(self).data().hinted(),
                glyph,
                *g,
            ),
    {
        let key = glyph.key();
        if !self.glyph_cache.contains_key(&key) {
            if self.rasterized < u64::MAX {
                self.rasterized = self.rasterized + 1;
            }
            let rendered = match self.data.render_glyph(glyph) {
                Ok(rendered) => rendered,
                Err(e) => {
                    assert(self.cache() =~= old(self).cache());
                    return Err(e);
                },
            };
            let ghost kept = rendered;
            self.glyph_cache.insert(key, rendered);
            proof {
                assert forall|g: Glyph|
                    self.cache().contains_key(g) <==> old(self).cache().insert(
                        glyph,
                        kept,
                    ).contains_key(g) by {
                    lemma_key_injective(g, glyph);
                }
                assert forall|g: Glyph| self.cache().contains_key(g) implies self.cache()[g]
                    == old(self).cache().insert(glyph, kept)[g] by {
                    lemma_key_injective(g, glyph);
                }
                assert(self.cache() =~= old(self).cache().insert(glyph, kept));
            }
        } else {
            assert(self.cache() =~= old(self).cache());
        }
        Ok(self.glyph_cache.get(&key).unwrap())
    }

    /// The font's family name.
    pub fn family(&self) -> (r: &str)
        ensures
            r@ == self.data().spec_family(),
    {
        self.data.family()
    }

    /// The font's stretch, style and weight.
    pub fn attributes(&self) -> (r: Attributes)
        ensures
            r == self.data().spec_attr(),
    {
        self.data.attributes()
    }

    /// How often the rasterizer was run for this font.
    pub fn render_count(&self) -> (r: u64)
        ensures
            r == self.rasterized(),
    {
        self.rasterized
    }
}

/// A glyph that was returned once is returned again, unchanged, by every
/// later request for the same key, and the rasterizer is not run for it
/// again.
pub proof fn lemma_glyph_cached(
    first: UiFont<'_>,
    glyph: Glyph,
    second: UiFont<'_>,
    g: RenderedGlyph,
    third: UiFont<'_>,
    r: Result<RenderedGlyph, FontError>,
)
    requires
        glyph_post(first, glyph, second, Ok(g)),
        glyph_post(second, glyph, third, r),
    ensures
        r == Ok::<RenderedGlyph, FontError>(g),
        third.cache() == second.cache(),
        third.rasterized() == second.rasterized(),
{
}

/// A character that the font's character map lacks is answered with `NoMap`,
/// whatever was requested before; nothing is cached for it, and each request
/// runs the lookup anew.
pub proof fn lemma_unmapped_not_cached(
    before: UiFont<'_>,
    glyph: Glyph,
    after: UiFont<'_>,
    r: Result<RenderedGlyph, FontError>,
)
    requires
        before.wf(),
        glyph_of(before.data().tables(), glyph.character) is None,
        glyph_post(before, glyph, after, r),
    ensures
        r == Err::<RenderedGlyph, FontError>(FontError::NoMap(glyph.character)),
        after.cache() == before.cache(),
        !after.cache().contains_key(glyph),
        after.rasterized() == counted(before.rasterized()),
{
    if before.cache().contains_key(glyph) {
        assert(render_post(
            before.data().tables(),
            before.data().hinted(),
            glyph,
            Ok(before.cache()[glyph]),
        ));
    }
}

/// The loaded fonts, each under a handle of its own, no two of them of one
/// family (ASCII case aside) with the same attributes.
pub struct Fonts<'s> {
    storage: &'s FontStorage,
    loaded: FontSlots<'s>,
}

/// Whether a font is of the family, and has the attributes where some are
/// asked for.
pub open spec fn matches(font: UiFont<'_>, family: Seq<char>, attr: Option<Attributes>) -> bool {
    &&& attr matches Some(a) ==> a == font.data().spec_attr()
    &&& same_family(font.data().spec_family(), family)
}

/// Whether two fonts are one logical font: of one family, with the same
/// attributes.
pub open spec fn same_font(a: UiFont<'_>, b: UiFont<'_>) -> bool {
    matches(a, b.data().spec_family(), Some(b.data().spec_attr()))
}

/// The handles of the fonts that match, in the order of the entries.
pub open spec fn search_spec(
    entries: Seq<(FontId, UiFont<'_>)>,
    family: Seq<char>,
    attr: Option<Attributes>,
) -> Seq<FontId>
    decreases entries.len(),
{
    if entries.len() == 0 {
        Seq::empty()
    } else {
        let rest = search_spec(entries.drop_last(), family, attr);
        if matches(entries.last().1, family, attr) {
            rest.push(entries.last().0)
        } else {
            rest
        }
    }
}

/// A font as it is right after parsing `tables`: nothing rendered yet.
pub open spec fn fresh(font: UiFont<'_>, tables: FontRef<'_>) -> bool {
    &&& font.wf()
    &&& font.data().tables() == tables
    &&& font.data().hinted()
    &&& font.cache() == Map::<Glyph, RenderedGlyph>::empty()
    &&& font.rasterized() == 0
}

/// Whether the font that parsing yielded is in the registry already, as the
/// same logical font: of its family, with its attributes.
pub open spec fn registered(
    entries: Seq<(FontId, UiFont<'_>)>,
    outcome: Result<FontRef<'static>, FontError>,
) -> bool {
    outcome matches Ok(tables) && exists|i: int|
        0 <= i < entries.len() && matches(
            (#[trigger] entries[i]).1,
            family_of(tables).unwrap(),
            Some(attributes_of(tables)),
        )
}

/// Whether a registry can take the font that parsing yielded: it has room
/// for one more font, or holds the font already.
pub open spec fn can_load(
    entries: Seq<(FontId, UiFont<'_>)>,
    outcome: Result<FontRef<'static>, FontError>,
) -> bool {
    entries.len() < SLOT_LIMIT || registered(entries, outcome)
}

/// What loading a font does to a registry's entries, given what parsing its
/// buffer yields.
///
/// A buffer that does not parse changes nothing. A font that the registry
/// holds already, by family and attributes, is answered with the handle it
/// has, and nothing changes. Any other font is appended under a handle that
/// no entry had.
pub open spec fn load_post(
    before: Seq<(FontId, UiFont<'_>)>,
    outcome: Result<FontRef<'static>, FontError>,
    after: Seq<(FontId, UiFont<'_>)>,
    r: Result<FontId, FontError>,
) -> bool {
    match outcome {
        Err(e) => r == Err::<FontId, FontError>(e) && after == before,
        Ok(tables) => {
            let family = family_of(tables).unwrap();
            let attr = Some(attributes_of(tables));
            &&& r matches Ok(id)
            &&& if exists|i: int| 0 <= i < before.len() && matches(before[i].1, family, attr) {
                &&& after == before
                &&& exists|i: int|
                    0 <= i < before.len() && matches(before[i].1, family, attr) && (
                    #[trigger] before[i]).0 == id
            } else {
                &&& !has_id(before, id)
                &&& after.len() == before.len() + 1
                &&& after.drop_last() == before
                &&& after.last().0 == id
                &&& fresh(after.last().1, tables)
            }
        },
    }
}

/// Every font is well formed, no handle is used twice, and no two entries
/// are one logical font.
pub open spec fn registry_wf(entries: Seq<(FontId, UiFont<'_>)>) -> bool {
    &&& forall|i: int| 0 <= i < entries.len() ==> (#[trigger] entries[i]).1.wf()
    &&& forall|i: int, j: int|
        0 <= i < entries.len() && 0 <= j < entries.len() && i != j ==> (#[trigger] entries[i]).0 != (
        #[trigger] entries[j]).0
    &&& forall|i: int, j: int|
        0 <= i < entries.len() && 0 <= j < entries.len() && i != j ==> !same_font(
            (#[trigger] entries[i]).1,
            (#[trigger] entries[j]).1,
        )
}

/// A registry stays well formed when one of its fonts is replaced by a
/// well-formed font with the same parsed data, such as the font itself with
/// more glyphs cached.
pub proof fn lemma_update_keeps_wf(entries: Seq<(FontId, UiFont<'_>)>, i: int)
    requires
        registry_wf(entries),
        0 <= i < entries.len(),
    ensures
        forall|font: UiFont<'_>|
            font.wf() && font.data() == entries[i].1.data() ==> registry_wf(
                #[trigger] entries.update(i, (entries[i].0, font)),
            ),
{
    assert forall|font: UiFont<'_>|
        font.wf() && font.data() == entries[i].1.data() implies registry_wf(
        #[trigger] entries.update(i, (entries[i].0, font)),
    ) by {
        let after = entries.update(i, (entries[i].0, font));
        assert forall|a: int, b: int|
            0 <= a < after.len() && 0 <= b < after.len() && a != b implies !same_font(
            (#[trigger] after[a]).1,
            (#[trigger] after[b]).1,
        ) by {
            assert(!same_font(entries[a].1, entries[b].1));
        }
        assert forall|a: int, b: int|
            0 <= a < after.len() && 0 <= b < after.len() && a != b implies (#[trigger] after[a]).0
            != (#[trigger] after[b]).0 by {
            assert(entries[a].0 != entries[b].0);
        }
        assert forall|a: int| 0 <= a < after.len() implies (#[trigger] after[a]).1.wf() by {
            assert(entries[a].1.wf());
        }
    }
}

impl<'s> Fonts<'s> {
    /// The fonts with their handles, in the order they were loaded.
    pub closed spec fn entries(&self) -> Seq<(FontId, UiFont<'s>)> {
        slot_entries(self.loaded)
    }

    /// The store that `open` publishes buffers to.
    pub closed spec fn storage(&self) -> &'s FontStorage {
        self.storage
    }

    /// The entries are those of a well-formed registry ([`registry_wf`]).
    pub open spec fn wf(&self) -> bool {
        registry_wf(self.entries())
    }

    /// A registry with no font, over the store that font files are opened
    /// through.
    pub fn new(storage: &'s FontStorage) -> (r: Self)
        ensures
            r.wf(),
            r.entries().len() == 0,
            r.storage() == storage,
    {
        Self { storage, loaded: new_slots() }
    }

    /// The number of fonts.
    pub fn len(&self) -> (r: usize)
        ensures
            r == self.entries().len(),
    {
        slot_count(&self.loaded)
    }

    /// Whether the handle is one of this registry's.
    pub fn contains(&self, id: FontId) -> (r: bool)
        ensures
            r == has_id(self.entries(), id),
    {
        slot_get(&self.loaded, id).is_some()
    }

    /// Publishes the bytes read from a font file to the store, and loads the
    /// font from the bytes that the store keeps for the path.
    pub fn open(&mut self, path: PathBuf, buffer: FontBuffer) -> (r: Result<FontId, FontError>)
        requires
            old(self).wf(),
            old(self).entries().len() < SLOT_LIMIT,
        ensures
            final(self).wf(),
            final(self).storage() == old(self).storage(),
            old(self).storage().buffers().contains_key(path),
            load_post(
                old(self).entries(),
                parse_outcome(old(self).storage().buffers()[path].bytes()),
                final(self).entries(),
                r,
            ),
    {
        let loaded = self.storage.load(path, buffer);
        self.load(loaded.bytes)
    }

    /// Loads a single font from the buffer and returns its handle: that of
    /// the entry which is the same logical font, if there is one, else that
    /// of a new entry.
    pub fn load(&mut self, buf: &'s [u8]) -> (r: Result<FontId, FontError>)
        requires
            old(self).wf(),
            can_load(old(self).entries(), parse_outcome(buf@)),
        ensures
            final(self).wf(),
            final(self).storage() == old(self).storage(),
            load_post(old(self).entries(), parse_outcome(buf@), final(self).entries(), r),
    {
        match UiFont::new(buf) {
            Ok(font) => Ok(self.register(font, Ghost(parse_outcome(buf@).unwrap()))),
            Err(e) => Err(e),
        }
    }

    /// Loads the font at `index` of the buffer, which may hold a collection
    /// of fonts, and returns its handle, as [`Fonts::load`] does for a
    /// single font.
    pub fn load_index(&mut self, buf: &'s [u8], index: u32) -> (r: Result<FontId, FontError>)
        requires
            old(self).wf(),
            can_load(old(self).entries(), parse_outcome_at(buf@, index)),
        ensures
            final(self).wf(),
            final(self).storage() == old(self).storage(),
            load_post(
                old(self).entries(),
                parse_outcome_at(buf@, index),
                final(self).entries(),
                r,
            ),
    {
        match UiFont::from_index(buf, index) {
            Ok(font) => Ok(self.register(font, Ghost(parse_outcome_at(buf@, index).unwrap()))),
            Err(e) => Err(e),
        }
    }

    /// Finds the entry that is the same logical font as `font`, or enters
    /// `font` as a new one.
    fn register(&mut self, font: UiFont<'s>, Ghost(tables): Ghost<FontRef<'static>>) -> (id: FontId)
        requires
            old(self).wf(),
            can_load(old(self).entries(), Ok(tables)),
            fresh(font, tables),
        ensures
            final(self).wf(),
            final(self).storage() == old(self).storage(),
            load_post(
                old(self).entries(),
                Ok(tables),
                final(self).entries(),
                Ok::<FontId, FontError>(id),
            ),
    {
        let ghost family = font.data().spec_family();
        let ghost attr = Some(font.data().spec_attr());
        let ids = slot_ids(&self.loaded);
        let mut i: usize = 0;
        while i < ids.len()
            invariant
                i <= ids.len(),
                *self == *old(self),
                self.wf(),
                fresh(font, tables),
                family == font.data().spec_family(),
                attr == Some(font.data().spec_attr()),
                ids@.len() == self.entries().len(),
                forall|k: int| 0 <= k < ids@.len() ==> ids@[k] == (#[trigger] self.entries()[k]).0,
                forall|k: int| 0 <= k < i ==> !matches((#[trigger] self.entries()[k]).1, family, attr),
            decreases ids.len() - i,
        {
            let id = ids[i];
            let stored = slot_get(&self.loaded, id);
            assert(self.entries()[i as int].0 == id);
            let stored = stored.unwrap();
            assert(*stored == self.entries()[i as int].1);
            if stored.attributes() == font.attributes() && eq_ignore_ascii_case(
                stored.family(),
                font.family(),
            ) {
                assert(matches(self.entries()[i as int].1, family, attr));
                assert(family_of(tables) == Some(family));
                return id;
            }
            i += 1;
        }
        let ghost before = self.entries();
        let ghost added = font;
        let id = slot_insert(&mut self.loaded, font);
        proof {
            let after = self.entries();
            assert(after.drop_last() == before);
            assert forall|a: int, b: int|
                0 <= a < after.len() && 0 <= b < after.len() && a != b implies !same_font(
                (#[trigger] after[a]).1,
                (#[trigger] after[b]).1,
            ) by {
                if a == before.len() {
                    assert(!matches(before[b].1, family, attr));
                    lemma_same_family_symmetric(
                        added.data().spec_family(),
                        before[b].1.data().spec_family(),
                    );
                } else if b == before.len() {
                    assert(!matches(before[a].1, family, attr));
                } else {
                    assert(after[a] == before[a]);
                    assert(after[b] == before[b]);
                }
            }
            assert forall|a: int, b: int|
                0 <= a < after.len() && 0 <= b < after.len() && a != b implies (#[trigger] after[a]).0
                != (#[trigger] after[b]).0 by {
                if a == before.len() {
                    assert(before[b].0 != id);
                } else if b == before.len() {
                    assert(before[a].0 != id);
                } else {
                    assert(after[a] == before[a]);
                    assert(after[b] == before[b]);
                }
            }
        }
        id
    }

    /// The font with the given handle.
    pub fn get(&self, id: FontId) -> (r: &UiFont<'s>)
        requires
            has_id(self.entries(), id),
        ensures
            exists|i: int|
                0 <= i < self.entries().len() && #[trigger] self.entries()[i] == (id, *r),
    {
        slot_get(&self.loaded, id).unwrap()
    }

    /// The font with the given handle, to render glyphs from. The registry
    /// stays well formed if the font is left well formed and its parsed data
    /// is left as it was.
    pub fn get_mut(&mut self, id: FontId) -> (r: &mut UiFont<'s>)
        requires
            has_id(old(self).entries(), id),
        ensures
            final(self).storage() == old(self).storage(),
            exists|i: int|
                0 <= i < old(self).entries().len() && #[trigger] old(self).entries()[i] == (id, *r)
                    && final(self).entries() == old(self).entries().update(i, (id, *final(r))),
            old(self).wf() && final(r).wf() && final(r).data() == r.data() ==> final(self).wf(),
    {
        let r = slot_get_mut(&mut self.loaded, id);
        proof {
            if old(self).wf() {
                let before = old(self).entries();
                let i = choose|i: int| 0 <= i < before.len() && #[trigger] before[i] == (id, *r);
                lemma_update_keeps_wf(before, i);
            }
        }
        r
    }

    /// The handles of the fonts of a family, in the order they were loaded.
    ///
    /// The family is matched without regard to ASCII case or to white space
    /// around it. Where attributes are given, only fonts with exactly these
    /// are found.
    pub fn search(&self, family: &str, attr: Option<Attributes>) -> (r: Vec<FontId>)
        requires
            self.wf(),
        ensures
            r@ == search_spec(self.entries(), trimmed(family@), attr),
    {
        let family = trim(family);
        let ids = slot_ids(&self.loaded);
        let mut found: Vec<FontId> = Vec::new();
        let mut i: usize = 0;
        while i < ids.len()
            invariant
                i <= ids.len(),
                self.wf(),
                ids@.len() == self.entries().len(),
                forall|k: int| 0 <= k < ids@.len() ==> ids@[k] == (#[trigger] self.entries()[k]).0,
                found@ == search_spec(self.entries().take(i as int), family@, attr),
            decreases ids.len() - i,
        {
            let id = ids[i];
            proof {
                assert(self.entries().take(i + 1).drop_last() == self.entries().take(i as int));
                assert(self.entries().take(i + 1).last() == self.entries()[i as int]);
                assert(self.entries()[i as int].0 == id);
                assert(has_id(self.entries(), id));
            }
            match slot_get(&self.loaded, id) {
                Some(font) => {
                    assert(*font == self.entries()[i as int].1);
                    let wanted = match attr {
                        Some(a) => a == font.attributes(),
                        None => true,
                    };
                    if wanted && eq_ignore_ascii_case(font.family(), family) {
                        found.push(id);
                    }
                },
                None => {},
            }
            i += 1;
        }
        proof {
            assert(self.entries().take(i as int) == self.entries());
        }
        found
    }
}

/// Loading the same font twice gives the same handle both times, and the
/// second load changes nothing. Byte-identical buffers parse to the same
/// font, so this holds of two loads of the same bytes.
pub proof fn lemma_load_idempotent(
    first: Seq<(FontId, UiFont<'_>)>,
    outcome: Result<FontRef<'static>, FontError>,
    second: Seq<(FontId, UiFont<'_>)>,
    r1: Result<FontId, FontError>,
    third: Seq<(FontId, UiFont<'_>)>,
    r2: Result<FontId, FontError>,
)
    requires
        registry_wf(first),
        load_post(first, outcome, second, r1),
        load_post(second, outcome, third, r2),
    ensures
        r2 == r1,
        third == second,
{
    if let Ok(tables) = outcome {
        let family = family_of(tables).unwrap();
        let attr = Some(attributes_of(tables));
        if exists|i: int| 0 <= i < first.len() && matches(first[i].1, family, attr) {
            let i = choose|i: int|
                0 <= i < first.len() && matches(first[i].1, family, attr) && (
                #[trigger] first[i]).0 == r1.unwrap();
            let j = choose|j: int|
                0 <= j < second.len() && matches(second[j].1, family, attr) && (
                #[trigger] second[j]).0 == r2.unwrap();
            if i != j {
                lemma_same_family_symmetric(first[j].1.data().spec_family(), family);
                lemma_same_family_transitive(
                    first[i].1.data().spec_family(),
                    family,
                    first[j].1.data().spec_family(),
                );
                assert(same_font(first[i].1, first[j].1));
            }
        } else {
            let last = second.len() - 1;
            assert(second[last].1.data().wf());
            lemma_same_family_reflexive(family);
            assert(matches(second[last].1, family, attr));
            let j = choose|j: int|
                0 <= j < second.len() && matches(second[j].1, family, attr) && (
                #[trigger] second[j]).0 == r2.unwrap();
            if j != last {
                assert(second.drop_last()[j] == second[j]);
                assert(matches(first[j].1, family, attr));
            }
        }
    }
}

/// A registry that has loaded a font can load it again, however full it is:
/// the font is registered, so the second load adds nothing.
pub proof fn lemma_loaded_can_load_again(
    first: Seq<(FontId, UiFont<'_>)>,
    outcome: Result<FontRef<'static>, FontError>,
    second: Seq<(FontId, UiFont<'_>)>,
    r: Result<FontId, FontError>,
)
    requires
        load_post(first, outcome, second, r),
        r is Ok,
    ensures
        registered(second, outcome),
        can_load(second, outcome),
{
    let tables = outcome.unwrap();
    let family = family_of(tables).unwrap();
    let attr = Some(attributes_of(tables));
    if exists|i: int| 0 <= i < first.len() && matches(first[i].1, family, attr) {
        let i = choose|i: int| 0 <= i < first.len() && matches(first[i].1, family, attr);
        assert(matches(second[i].1, family, attr));
    } else {
        let last = second.len() - 1;
        assert(second[last].1.data().wf());
        lemma_same_family_reflexive(family);
        assert(matches(second[last].1, family, attr));
    }
}

/// Two buffers with the same bytes, loaded one after the other, give the
/// same handle, and the second load changes nothing.
pub proof fn lemma_same_bytes_one_handle(
    first: Seq<(FontId, UiFont<'_>)>,
    a: Seq<u8>,
    second: Seq<(FontId, UiFont<'_>)>,
    r1: Result<FontId, FontError>,
    b: Seq<u8>,
    third: Seq<(FontId, UiFont<'_>)>,
    r2: Result<FontId, FontError>,
)
    requires
        a == b,
        registry_wf(first),
        load_post(first, parse_outcome(a), second, r1),
        load_post(second, parse_outcome(b), third, r2),
    ensures
        r2 == r1,
        third == second,
{
    lemma_load_idempotent(first, parse_outcome(a), second, r1, third, r2);
}

/// Every handle that a search returns is that of an entry which matches, and
/// the handle of every entry that matches is returned.
pub proof fn lemma_search_exact(
    entries: Seq<(FontId, UiFont<'_>)>,
    family: Seq<char>,
    attr: Option<Attributes>,
    id: FontId,
)
    ensures
        search_spec(entries, family, attr).contains(id) <==> exists|i: int|
            0 <= i < entries.len() && (#[trigger] entries[i]).0 == id && matches(
                entries[i].1,
                family,
                attr,
            ),
    decreases entries.len(),
{
    let found = search_spec(entries, family, attr);
    if entries.len() > 0 {
        let init = entries.drop_last();
        let rest = search_spec(init, family, attr);
        let last = entries.len() - 1;
        lemma_search_exact(init, family, attr, id);
        if found.contains(id) {
            let k = choose|k: int| 0 <= k < found.len() && found[k] == id;
            if k < rest.len() {
                assert(rest[k] == id);
                assert(rest.contains(id));
                let i = choose|i: int|
                    0 <= i < init.len() && (#[trigger] init[i]).0 == id && matches(
                        init[i].1,
                        family,
                        attr,
                    );
                assert(entries[i] == init[i]);
            } else {
                assert(entries[last].0 == id);
            }
        }
        if exists|i: int|
            0 <= i < entries.len() && (#[trigger] entries[i]).0 == id && matches(
                entries[i].1,
                family,
                attr,
            ) {
            let i = choose|i: int|
                0 <= i < entries.len() && (#[trigger] entries[i]).0 == id && matches(
                    entries[i].1,
                    family,
                    attr,
                );
            if i < last {
                assert(init[i] == entries[i]);
                assert(rest.contains(id));
                let k = choose|k: int| 0 <= k < rest.len() && rest[k] == id;
                assert(found[k] == id);
            } else {
                assert(found[found.len() - 1] == id);
            }
        }
    }
}

} // verus!
