//! An index of font files: every font of every file, by family and
//! attributes, with the place in its file that it is read from.
//!
//! A file may be a collection of several fonts; each of them is indexed as a
//! font of its own.

use vstd::prelude::*;
use vstd::std_specs::iter::IteratorSpec;
use std::collections::BTreeMap;
use std::path::PathBuf;
use std::rc::Rc;
use swash::{FontDataRef, LocalizedString, StringId};
use crate::family::{eq_ignore_ascii_case, same_family};

verus! {

broadcast use vstd::std_specs::btree::group_btree_axioms;

#[verifier::external_type_specification]
#[verifier::external_body]
pub struct ExSwashFontRef<'a>(swash::FontRef<'a>);

#[verifier::external_type_specification]
#[verifier::external_body]
pub struct ExFontDataRef<'a>(FontDataRef<'a>);

#[verifier::external_type_specification]
#[verifier::external_body]
pub struct ExLocalizedString<'a>(LocalizedString<'a>);

#[verifier::external_type_specification]
#[verifier::external_body]
pub struct ExWalkdirError(walkdir::Error);

/// Why a file or a directory could not be indexed.
#[derive(Debug)]
pub enum FontError {
    /// The file could not be opened or mapped.
    IO(std::io::Error),
    /// The directory could not be walked.
    WalkDir(walkdir::Error),
    /// The file holds no font.
    ParseFont,
}

/// One indexed font.
#[derive(Debug, Clone)]
pub struct FontCacheEntry {
    pub family: String,
    /// Stretch, weight and style, packed into one number.
    pub attributes: u32,
    /// The file that holds the font.
    pub path: PathBuf,
    /// Where in the file the font's table directory starts.
    pub offset: u32,
    /// The file's bytes, once they are loaded.
    pub data: Option<Rc<[u8]>>,
}

/// The fonts found so far, each under the key that it was read with.
#[derive(Debug)]
pub struct FontCache {
    map: BTreeMap<u64, FontCacheEntry>,
}

/// The first four bytes as one number, the first byte highest.
pub open spec fn leading_tag(data: Seq<u8>) -> Option<u32> {
    if data.len() >= 4 {
        Some((data[0] * 0x100_0000 + data[1] * 0x1_0000 + data[2] * 0x100 + data[3]) as u32)
    } else {
        None
    }
}

/// Whether the bytes start like a font or like a collection of fonts: with
/// the version `0x00010000`, or with one of the tags `OTTO`, `true` and
/// `ttcf`.
pub open spec fn is_font_file(data: Seq<u8>) -> bool {
    leading_tag(data) matches Some(tag) && (tag == 0x0001_0000 || tag == 0x4F54_544F || tag
        == 0x7472_7565 || tag == 0x7474_6366)
}

/// The font file that the bytes are.
pub uninterp spec fn file_of(data: Seq<u8>) -> Option<FontDataRef<'static>>;

/// The number of fonts that a file says it holds.
pub uninterp spec fn len_of(file: FontDataRef<'_>) -> usize;

/// Whether the file has a font at the index: a place below the number it
/// says it holds, where a font's table directory starts.
pub uninterp spec fn has_font(file: FontDataRef<'_>, index: usize) -> bool;

/// Where the table directory of the file's font at the index starts.
pub uninterp spec fn offset_at(file: FontDataRef<'_>, index: usize) -> u32;

/// The record of the family name of the file's font at the index.
pub uninterp spec fn family_at(file: FontDataRef<'_>, index: usize) -> Option<
    LocalizedString<'static>,
>;

/// Stretch, weight and style of the file's font at the index, packed into
/// one number.
pub uninterp spec fn attributes_at(file: FontDataRef<'_>, index: usize) -> u32;

/// Whether `font` is the file's font at the index, in all but its key: it
/// starts where that font starts and has its family name and attributes.
pub open spec fn font_at(file: FontDataRef<'_>, index: usize, font: swash::FontRef<'_>) -> bool {
    &&& location(font).1 == offset_at(file, index)
    &&& family_record(font) == family_at(file, index)
    &&& attribute_bits(font) == attributes_at(file, index)
}

/// The number of fonts that walking the file from `from` on yields: those up
/// to the first index that has none.
pub open spec fn walk_from(file: FontDataRef<'_>, from: nat) -> nat
    decreases len_of(file) - from,
{
    if from < len_of(file) && has_font(file, from as usize) {
        1 + walk_from(file, from + 1)
    } else {
        0
    }
}

/// The number of fonts that walking the file yields.
pub open spec fn font_count(data: Seq<u8>) -> nat
    recommends
        file_of(data) is Some,
{
    walk_from(file_of(data).unwrap(), 0)
}

/// The record of a font's family name.
pub uninterp spec fn family_record(font: swash::FontRef<'_>) -> Option<LocalizedString<'static>>;

/// Whether a name record is in an encoding that can be read.
pub uninterp spec fn decodable(record: LocalizedString<'_>) -> bool;

/// The characters of a name record.
pub uninterp spec fn record_text(record: LocalizedString<'_>) -> Seq<char>;

/// A font's stretch, weight and style, packed into one number.
pub uninterp spec fn attribute_bits(font: swash::FontRef<'_>) -> u32;

/// The key that a font reference carries, and the offset of its table
/// directory in the file.
pub uninterp spec fn location(font: swash::FontRef<'_>) -> (u64, u32);

/// Whether two paths are equal by their components.
pub uninterp spec fn path_eq(a: PathBuf, b: PathBuf) -> bool;

/// Calls `FontDataRef::new`, which looks at the first four bytes
/// ([`is_font_file`]).
#[verifier::external_body]
fn font_file<'a>(data: &'a [u8]) -> (r: Option<FontDataRef<'a>>)
    ensures
        r == file_of(data@),
        r is Some <==> is_font_file(data@),
{
    FontDataRef::new(data)
}

/// Calls `FontDataRef::len`.
#[verifier::external_body]
fn file_len(file: &FontDataRef) -> (r: usize)
    ensures
        r == len_of(*file),
{
    file.len()
}

/// Calls `FontDataRef::get`. Whether there is a font at the index, where it
/// starts and what its tables hold depends on the file and the index alone;
/// only the key is the font reference's own, new with every call.
#[verifier::external_body]
fn file_font<'a>(file: &FontDataRef<'a>, index: usize) -> (r: Option<swash::FontRef<'a>>)
    ensures
        r is Some <==> has_font(*file, index),
        r matches Some(font) ==> location(font).1 == offset_at(*file, index),
        r matches Some(font) ==> family_record(font) == family_at(*file, index),
        r matches Some(font) ==> attribute_bits(font) == attributes_at(*file, index),
{
    file.get(index)
}

/// Calls `FontRef::localized_strings` and `LocalizedStrings::find_by_id` for
/// the family name, in any language.
#[verifier::external_body]
fn find_family<'a>(font: &swash::FontRef<'a>) -> (r: Option<LocalizedString<'a>>)
    ensures
        r == family_record(*font),
{
    font.localized_strings().find_by_id(StringId::Family, None)
}

/// Calls `LocalizedString::is_decodable`.
#[verifier::external_body]
fn is_decodable(record: &LocalizedString) -> (r: bool)
    ensures
        r == decodable(*record),
{
    record.is_decodable()
}

/// Calls `LocalizedString::chars` and collects the characters.
#[verifier::external_body]
fn collect_text(record: &LocalizedString) -> (r: String)
    ensures
        r@ == record_text(*record),
{
    record.chars().collect()
}

/// Calls `FontRef::attributes` and takes the packed number out.
#[verifier::external_body]
fn font_attribute_bits(font: &swash::FontRef) -> (r: u32)
    ensures
        r == attribute_bits(*font),
{
    font.attributes().0
}

/// Reads a font reference's key, through `CacheKey::value`, and its offset.
#[verifier::external_body]
fn font_location(font: &swash::FontRef) -> (r: (u64, u32))
    ensures
        r == location(*font),
{
    (font.key.value(), font.offset)
}

/// `PathBuf::clone`: the copy is the same path.
pub assume_specification[ <PathBuf as Clone>::clone ](path: &PathBuf) -> (r: PathBuf)
    ensures
        r == *path,
;

/// `PathBuf::eq`.
#[verifier::external_body]
fn same_path(a: &PathBuf, b: &PathBuf) -> (r: bool)
    ensures
        r == path_eq(*a, *b),
{
    a == b
}

/// Whether a font has a family name that can be read: only such fonts are
/// indexed.
pub open spec fn usable(font: swash::FontRef<'_>) -> bool {
    family_record(font) matches Some(record) && decodable(record)
}

/// The number of usable fonts among `fonts`.
pub open spec fn usable_count(fonts: Seq<swash::FontRef<'_>>) -> nat
    decreases fonts.len(),
{
    if fonts.len() == 0 {
        0
    } else {
        usable_count(fonts.drop_last()) + if usable(fonts.last()) {
            1nat
        } else {
            0nat
        }
    }
}

/// Whether `entry` is what is recorded for the usable font `font` of the
/// file at `path`.
pub open spec fn entry_for(entry: FontCacheEntry, path: PathBuf, font: swash::FontRef<'_>) -> bool {
    &&& entry.family@ == record_text(family_record(font).unwrap())
    &&& entry.attributes == attribute_bits(font)
    &&& entry.path == path
    &&& entry.offset == location(font).1
    &&& entry.data is None
}

/// What indexing one font does to the map: an unusable font is passed over;
/// a usable one is entered under its key, and nothing else changes.
pub open spec fn index_step(
    before: Map<u64, FontCacheEntry>,
    path: PathBuf,
    font: swash::FontRef<'_>,
    after: Map<u64, FontCacheEntry>,
) -> bool {
    if usable(font) {
        &&& after.dom() == before.dom().insert(location(font).0)
        &&& entry_for(after[location(font).0], path, font)
        &&& forall|k: u64| k != location(font).0 && before.contains_key(k) ==> after[k] == before[k]
    } else {
        after == before
    }
}

/// Whether some usable font among `fonts` carries the key.
pub open spec fn keyed(fonts: Seq<swash::FontRef<'_>>, key: u64) -> bool {
    exists|i: int| 0 <= i < fonts.len() && usable(#[trigger] fonts[i]) && location(fonts[i]).0 == key
}

/// Whether the font at `i` is usable and the last usable one with its key:
/// it is the one that the index keeps under the key.
pub open spec fn decides(fonts: Seq<swash::FontRef<'_>>, i: int) -> bool {
    &&& 0 <= i < fonts.len()
    &&& usable(fonts[i])
    &&& forall|j: int|
        i < j < fonts.len() && usable(#[trigger] fonts[j]) ==> location(fonts[j]).0 != location(
            fonts[i],
        ).0
}

/// What indexing the fonts of one file, first to last, does to the map: the
/// keys of the usable fonts are added to the keys; under each of them stands
/// the entry of the last usable font with that key; every other entry is
/// what it was.
pub open spec fn indexed(
    before: Map<u64, FontCacheEntry>,
    path: PathBuf,
    fonts: Seq<swash::FontRef<'_>>,
    after: Map<u64, FontCacheEntry>,
) -> bool {
    &&& forall|k: u64| #[trigger] after.contains_key(k) <==> before.contains_key(k) || keyed(fonts, k)
    &&& forall|k: u64| #[trigger] before.contains_key(k) && !keyed(fonts, k) ==> after[k] == before[k]
    &&& forall|i: int| #[trigger]
        decides(fonts, i) ==> entry_for(after[location(fonts[i]).0], path, fonts[i])
}

/// Indexing a file's fonts is indexing all but the last, and then the last.
pub proof fn lemma_indexed_step(
    before: Map<u64, FontCacheEntry>,
    path: PathBuf,
    fonts: Seq<swash::FontRef<'_>>,
    mid: Map<u64, FontCacheEntry>,
    after: Map<u64, FontCacheEntry>,
)
    requires
        fonts.len() > 0,
        indexed(before, path, fonts.drop_last(), mid),
        index_step(mid, path, fonts.last(), after),
    ensures
        indexed(before, path, fonts, after),
{
    let init = fonts.drop_last();
    let last = fonts.len() - 1;
    let font = fonts[last];
    let key = location(font).0;
    assert forall|k: u64| keyed(fonts, k) <==> keyed(init, k) || (usable(font) && k == key) by {
        if keyed(fonts, k) {
            let i = choose|i: int|
                0 <= i < fonts.len() && usable(#[trigger] fonts[i]) && location(fonts[i]).0 == k;
            if i < last {
                assert(init[i] == fonts[i]);
            }
        }
        if keyed(init, k) {
            let i = choose|i: int|
                0 <= i < init.len() && usable(#[trigger] init[i]) && location(init[i]).0 == k;
            assert(fonts[i] == init[i]);
        }
        if usable(font) && k == key {
            assert(usable(fonts[last]));
        }
    }
    assert forall|k: u64| #[trigger] after.contains_key(k) <==> before.contains_key(k) || keyed(
        fonts,
        k,
    ) by {
        assert(mid.contains_key(k) <==> before.contains_key(k) || keyed(init, k));
        if usable(font) {
            assert(after.dom().contains(k) <==> mid.dom().insert(key).contains(k));
        }
    }
    assert forall|k: u64| #[trigger] before.contains_key(k) && !keyed(fonts, k) implies after[k]
        == before[k] by {
        assert(!keyed(init, k));
        assert(mid.contains_key(k));
        assert(mid[k] == before[k]);
    }
    assert forall|i: int| #[trigger] decides(fonts, i) implies entry_for(
        after[location(fonts[i]).0],
        path,
        fonts[i],
    ) by {
        if i < last {
            assert(init[i] == fonts[i]);
            assert(decides(init, i)) by {
                assert forall|j: int| i < j < init.len() && usable(#[trigger] init[j]) implies location(
                    init[j],
                ).0 != location(init[i]).0 by {
                    assert(init[j] == fonts[j]);
                }
            }
            let ki = location(fonts[i]).0;
            assert(entry_for(mid[ki], path, init[i]));
            assert(keyed(init, ki));
            assert(mid.contains_key(ki));
            if usable(font) {
                assert(usable(fonts[last]));
                assert(ki != key);
            }
        }
    }
}

/// The keys of the usable fonts among `fonts`.
pub open spec fn keys_of(fonts: Seq<swash::FontRef<'_>>) -> Set<u64>
    decreases fonts.len(),
{
    if fonts.len() == 0 {
        Set::empty()
    } else if usable(fonts.last()) {
        keys_of(fonts.drop_last()).insert(location(fonts.last()).0)
    } else {
        keys_of(fonts.drop_last())
    }
}

/// Whether the usable fonts among `fonts` have keys that differ from each
/// other and from every key of `before`.
pub open spec fn fresh_keys(before: Map<u64, FontCacheEntry>, fonts: Seq<swash::FontRef<'_>>) -> bool {
    &&& forall|i: int|
        0 <= i < fonts.len() && usable(#[trigger] fonts[i]) ==> !before.contains_key(
            location(fonts[i]).0,
        )
    &&& forall|i: int, j: int|
        0 <= i < j < fonts.len() && usable(#[trigger] fonts[i]) && usable(#[trigger] fonts[j])
            ==> location(fonts[i]).0 != location(fonts[j]).0
}

/// The keys of the usable fonts are those that some usable font carries;
/// they are finitely many, and as many as the usable fonts where no two of
/// these share a key.
pub proof fn lemma_keys_of(fonts: Seq<swash::FontRef<'_>>)
    ensures
        keys_of(fonts).finite(),
        forall|k: u64| #[trigger] keys_of(fonts).contains(k) <==> keyed(fonts, k),
        (forall|i: int, j: int|
            0 <= i < j < fonts.len() && usable(#[trigger] fonts[i]) && usable(#[trigger] fonts[j])
                ==> location(fonts[i]).0 != location(fonts[j]).0) ==> keys_of(fonts).len()
            == usable_count(fonts),
    decreases fonts.len(),
{
    if fonts.len() > 0 {
        let init = fonts.drop_last();
        let last = fonts.len() - 1;
        lemma_keys_of(init);
        assert forall|k: u64| #[trigger] keys_of(fonts).contains(k) <==> keyed(fonts, k) by {
            if keyed(fonts, k) {
                let i = choose|i: int|
                    0 <= i < fonts.len() && usable(#[trigger] fonts[i]) && location(fonts[i]).0 == k;
                if i < last {
                    assert(init[i] == fonts[i]);
                    assert(keyed(init, k));
                }
            }
            if keys_of(init).contains(k) {
                let i = choose|i: int|
                    0 <= i < init.len() && usable(#[trigger] init[i]) && location(init[i]).0 == k;
                assert(fonts[i] == init[i]);
            }
            if usable(fonts[last]) && k == location(fonts[last]).0 {
                assert(keyed(fonts, k));
            }
        }
        if forall|i: int, j: int|
            0 <= i < j < fonts.len() && usable(#[trigger] fonts[i]) && usable(#[trigger] fonts[j])
                ==> location(fonts[i]).0 != location(fonts[j]).0 {
            assert forall|i: int, j: int|
                0 <= i < j < init.len() && usable(#[trigger] init[i]) && usable(
                    #[trigger] init[j],
                ) implies location(init[i]).0 != location(init[j]).0 by {
                assert(init[i] == fonts[i]);
                assert(init[j] == fonts[j]);
            }
            if usable(fonts[last]) {
                let key = location(fonts[last]).0;
                if keys_of(init).contains(key) {
                    let i = choose|i: int|
                        0 <= i < init.len() && usable(#[trigger] init[i]) && location(init[i]).0
                            == key;
                    assert(fonts[i] == init[i]);
                    assert(usable(fonts[i]) && usable(fonts[last]));
                }
            }
        }
    }
}

/// Where the keys of the usable fonts are new to the index and differ from
/// each other, indexing enters every usable font under its key, leaves what
/// was there as it was, and the index grows by the number of usable fonts.
pub proof fn lemma_indexed_grows(
    before: Map<u64, FontCacheEntry>,
    path: PathBuf,
    fonts: Seq<swash::FontRef<'_>>,
    after: Map<u64, FontCacheEntry>,
)
    requires
        before.dom().finite(),
        indexed(before, path, fonts, after),
        fresh_keys(before, fonts),
    ensures
        after.len() == before.len() + usable_count(fonts),
        forall|k: u64| #[trigger] before.contains_key(k) ==> after.contains_key(k) && after[k] == before[k],
        forall|i: int|
            0 <= i < fonts.len() && usable(#[trigger] fonts[i]) ==> after.contains_key(
                location(fonts[i]).0,
            ) && entry_for(after[location(fonts[i]).0], path, fonts[i]),
{
    lemma_keys_of(fonts);
    let added = keys_of(fonts);
    assert(after.dom() =~= before.dom() + added) by {
        assert forall|k: u64| after.dom().contains(k) <==> (before.dom() + added).contains(k) by {
            assert(after.contains_key(k) <==> before.contains_key(k) || keyed(fonts, k));
        }
    }
    assert(before.dom().disjoint(added)) by {
        assert forall|k: u64| !(before.dom().contains(k) && added.contains(k)) by {
            if added.contains(k) {
                let i = choose|i: int|
                    0 <= i < fonts.len() && usable(#[trigger] fonts[i]) && location(fonts[i]).0 == k;
            }
        }
    }
    vstd::set_lib::lemma_set_disjoint_lens(before.dom(), added);
    assert forall|k: u64| #[trigger] before.contains_key(k) implies after.contains_key(k) && after[k]
        == before[k] by {
        if keyed(fonts, k) {
            let i = choose|i: int|
                0 <= i < fonts.len() && usable(#[trigger] fonts[i]) && location(fonts[i]).0 == k;
        }
    }
    assert forall|i: int| 0 <= i < fonts.len() && usable(#[trigger] fonts[i]) implies after.contains_key(
        location(fonts[i]).0,
    ) && entry_for(after[location(fonts[i]).0], path, fonts[i]) by {
        assert(keyed(fonts, location(fonts[i]).0));
        assert(decides(fonts, i));
    }
}

/// The count of indexed fonts after one more file: a file that could not be
/// indexed adds nothing, and the walk goes on. The count stops at the
/// largest number.
pub fn tally(count: usize, indexed: Option<usize>) -> (r: usize)
    ensures
        r == match indexed {
            None => count,
            Some(n) => if count + n <= usize::MAX {
                (count + n) as usize
            } else {
                usize::MAX
            },
        },
{
    match indexed {
        None => count,
        Some(n) => if n <= usize::MAX - count {
            count + n
        } else {
            usize::MAX
        },
    }
}

/// Whether a file name extension is that of a font file: `ttf` or `otf`, in
/// any case.
pub fn is_font_extension(extension: &str) -> (r: bool)
    ensures
        r == (same_family(extension@, "ttf"@) || same_family(extension@, "otf"@)),
{
    eq_ignore_ascii_case(extension, "ttf") || eq_ignore_ascii_case(extension, "otf")
}

impl FontCache {
    /// The indexed fonts by key.
    pub closed spec fn entries(&self) -> Map<u64, FontCacheEntry> {
        self.map@
    }

    /// An index with no font in it.
    pub fn new() -> (r: Self)
        ensures
            r.entries() == Map::<u64, FontCacheEntry>::empty(),
    {
        FontCache { map: BTreeMap::new() }
    }

    /// The number of indexed fonts.
    pub fn len(&self) -> (r: usize)
        ensures
            r == self.entries().len(),
    {
        self.map.len()
    }

    /// The entry under a key.
    pub fn get(&self, key: u64) -> (r: Option<&FontCacheEntry>)
        ensures
            match r {
                Some(entry) => self.entries().contains_key(key) && *entry == self.entries()[key],
                None => !self.entries().contains_key(key),
            },
    {
        self.map.get(&key)
    }

    /// The keys of the indexed fonts.
    pub fn keys(&self) -> (r: Vec<u64>)
        ensures
            r@.to_set() == self.entries().dom(),
            r@.len() == self.entries().len(),
    {
        let ghost all = vstd::std_specs::btree::spec_keys_iter(&self.map).remaining();
        let mut keys: Vec<u64> = Vec::new();
        for key in it: self.map.keys()
            invariant
                it.seq() == all,
                keys@ == all.unref().take(it.index()),
        {
            proof {
                assert(all.unref().take(it.index() + 1) == all.unref().take(it.index()).push(*key));
            }
            keys.push(*key);
        }
        proof {
            assert(keys@ == all.unref());
        }
        keys
    }

    /// Whether some indexed font was read from the file at `path`.
    pub open spec fn holds_path(&self, path: PathBuf) -> bool {
        exists|k: u64| #[trigger]
            self.entries().contains_key(k) && path_eq(self.entries()[k].path, path)
    }

    /// Whether some indexed font was read from the file at `path`: such a
    /// file is not indexed again.
    pub fn has_path(&self, path: &PathBuf) -> (r: bool)
        ensures
            r == self.holds_path(*path),
    {
        let ghost all = vstd::std_specs::btree::spec_values_iter(&self.map).remaining();
        let ghost mut seen: int = 0;
        for entry in it: self.map.values()
            invariant
                it.seq() == all,
                seen == it.index(),
                all.unref().to_set() == self.map@.values(),
                forall|j: int| 0 <= j < seen ==> !path_eq((#[trigger] all[j]).path, *path),
        {
            if same_path(&entry.path, path) {
                proof {
                    assert(all.unref()[seen] == *entry);
                    assert(self.map@.values().contains(*entry));
                    let k = choose|k: u64| #[trigger]
                        self.map@.contains_key(k) && self.map@[k] == *entry;
                    assert(self.entries().contains_key(k) && path_eq(self.entries()[k].path, *path));
                }
                return true;
            }
            proof {
                seen = seen + 1;
            }
        }
        proof {
            assert forall|k: u64| #[trigger] self.entries().contains_key(k) implies !path_eq(
                self.entries()[k].path,
                *path,
            ) by {
                assert(self.map@.values().contains(self.map@[k]));
                let j = choose|j: int| 0 <= j < all.unref().len() && all.unref()[j] == self.map@[k];
                assert(*all[j] == self.map@[k]);
            }
        }
        false
    }

    /// Whether a file found on a walk is to be indexed: it has the extension
    /// of a font file, and no font was indexed from its path yet.
    pub fn wants(&self, extension: Option<&str>, path: &PathBuf) -> (r: bool)
        ensures
            r == (extension matches Some(e) && (same_family(e@, "ttf"@) || same_family(
                e@,
                "otf"@,
            )) && !self.holds_path(*path)),
    {
        match extension {
            Some(e) => is_font_extension(e) && !self.has_path(path),
            None => false,
        }
    }

    /// Indexes one font of the file at `font_path`, if it has a family name
    /// that can be read, and says whether it was entered.
    pub fn index_font(&mut self, font_path: &PathBuf, font: &swash::FontRef) -> (entered: bool)
        ensures
            entered == usable(*font),
            index_step(old(self).entries(), *font_path, *font, final(self).entries()),
    {
        match find_family(font) {
            Some(record) => {
                if is_decodable(&record) {
                    let family = collect_text(&record);
                    let place = font_location(font);
                    let entry = FontCacheEntry {
                        family,
                        attributes: font_attribute_bits(font),
                        path: font_path.clone(),
                        offset: place.1,
                        data: None,
                    };
                    self.map.insert(place.0, entry);
                    true
                } else {
                    false
                }
            },
            None => false,
        }
    }

    /// Indexes the fonts that were read from one file, and returns how many
    /// were entered: those with a family name that can be read.
    pub fn index_fonts(&mut self, font_path: &PathBuf, fonts: &Vec<swash::FontRef>) -> (loaded:
        usize)
        ensures
            loaded == usable_count(fonts@),
            indexed(old(self).entries(), *font_path, fonts@, final(self).entries()),
    {
        let mut loaded: usize = 0;
        let mut i: usize = 0;
        while i < fonts.len()
            invariant
                i <= fonts.len(),
                loaded == usable_count(fonts@.take(i as int)),
                loaded <= i,
                indexed(old(self).entries(), *font_path, fonts@.take(i as int), self.entries()),
            decreases fonts.len() - i,
        {
            let ghost mid = self.entries();
            proof {
                assert(fonts@.take(i + 1).drop_last() == fonts@.take(i as int));
                assert(fonts@.take(i + 1).last() == fonts@[i as int]);
            }
            if self.index_font(font_path, &fonts[i]) {
                loaded += 1;
            }
            proof {
                lemma_indexed_step(
                    old(self).entries(),
                    *font_path,
                    fonts@.take(i + 1),
                    mid,
                    self.entries(),
                );
            }
            i += 1;
        }
        proof {
            assert(fonts@.take(i as int) == fonts@);
        }
        loaded
    }

    /// Indexes the fonts of the file at `font_path`, whose bytes are `data`.
    ///
    /// Bytes that are no font file are refused with `ParseFont`, and nothing
    /// is entered. Else the file is walked from its first font to the first
    /// index that has none, every font on the way is indexed ([`indexed`]),
    /// and the number of fonts entered is returned. The fonts indexed are
    /// the file's, index by index ([`font_at`]).
    ///
    /// The key of each font is drawn from a counter of the process when the
    /// font is read, so no clause can say which keys they are, nor that they
    /// are new to the index. Where they are, the index grows by the number
    /// returned ([`lemma_indexed_grows`]).
    pub fn index(&mut self, font_path: &PathBuf, data: &[u8]) -> (r: Result<usize, FontError>)
        ensures
            !is_font_file(data@) ==> r == Err::<usize, FontError>(FontError::ParseFont)
                && final(self).entries() == old(self).entries(),
            is_font_file(data@) ==> r is Ok && exists|fonts: Seq<swash::FontRef<'_>>|
                {
                    &&& fonts.len() == font_count(data@)
                    &&& forall|i: int|
                        0 <= i < fonts.len() ==> font_at(
                            file_of(data@).unwrap(),
                            i as usize,
                            #[trigger] fonts[i],
                        )
                    &&& r == Ok::<usize, FontError>(usable_count(fonts) as usize)
                    &&& #[trigger] indexed(
                        old(self).entries(),
                        *font_path,
                        fonts,
                        final(self).entries(),
                    )
                },
    {
        let file = match font_file(data) {
            Some(file) => file,
            None => {
                return Err(FontError::ParseFont);
            },
        };
        let len = file_len(&file);
        let ghost mut fonts: Seq<swash::FontRef<'_>> = Seq::empty();
        let mut loaded: usize = 0;
        let mut i: usize = 0;
        let mut going = true;
        while going && i < len
            invariant
                i <= len,
                len == len_of(file),
                file_of(data@) == Some(file),
                fonts.len() <= i,
                forall|k: int| 0 <= k < fonts.len() ==> font_at(file, k as usize, #[trigger] fonts[k]),
                going ==> fonts.len() == i,
                going ==> walk_from(file, 0) == i + walk_from(file, i as nat),
                !going ==> walk_from(file, 0) == fonts.len(),
                loaded == usable_count(fonts),
                loaded <= fonts.len(),
                indexed(old(self).entries(), *font_path, fonts, self.entries()),
            decreases len - i + if going { 1int } else { 0int },
        {
            match file_font(&file, i) {
                Some(font) => {
                    let ghost mid = self.entries();
                    let ghost seen = fonts;
                    let entered = self.index_font(font_path, &font);
                    proof {
                        fonts = seen.push(font);
                        assert(fonts.drop_last() == seen);
                        lemma_indexed_step(
                            old(self).entries(),
                            *font_path,
                            fonts,
                            mid,
                            self.entries(),
                        );
                    }
                    if entered {
                        loaded += 1;
                    }
                    i += 1;
                },
                None => {
                    going = false;
                },
            }
        }
        proof {
            assert(fonts.len() == font_count(data@));
        }
        Ok(loaded)
    }
}

} // verus!
