//! The buffer store: the bytes of every font file that was loaded, kept for
//! as long as the store lives.

use vstd::prelude::*;
use std::path::PathBuf;
use std::rc::Rc;
use memmap2::Mmap;
use once_map::OnceMap;
use crate::error::FontError;

verus! {

#[verifier::external_type_specification]
#[verifier::external_body]
pub struct ExMmap(Mmap);

#[verifier::external_type_specification]
#[verifier::external_body]
pub struct ExPathBuf(PathBuf);

#[verifier::external_type_specification]
#[verifier::external_body]
#[verifier::reject_recursive_types(K)]
#[verifier::reject_recursive_types(V)]
#[verifier::reject_recursive_types(S)]
pub struct ExOnceMap<K, V, S>(OnceMap<K, V, S>);

#[verifier::external_type_specification]
#[verifier::external_body]
pub struct ExRandomState(once_map::RandomState);

/// The bytes of one font file: a mapping of the file, or a copy of it in
/// memory where the file could not be mapped.
pub enum FontBuffer {
    Mapped(Mmap),
    Memory(Vec<u8>),
}

/// What a load hands out: the bytes that the store keeps for the path, and
/// whether this load was the path's first.
#[derive(Clone, Copy, Debug)]
pub struct Loaded<'a> {
    /// The bytes kept for the path, for as long as the store lives.
    pub bytes: &'a [u8],
    /// Whether the store had no buffer for the path before this load, so
    /// that the bytes are those that this load published.
    pub first: bool,
}

/// Owner of the font buffers, by the path they were read from.
pub struct FontStorage {
    loaded: OnceMap<PathBuf, Rc<FontBuffer>>,
}

/// The capacity of the buffer that a file of unknown length is read into.
pub const DEFAULT_CAPACITY: usize = 65536;

/// Whether a failure says that the platform or the file system cannot map
/// files.
pub uninterp spec fn unsupported(error: std::io::Error) -> bool;

/// The bytes of a mapping. A file is mapped under the promise that it stays
/// as it is for as long as the mapping lives, and a mapping cannot be
/// written through; so its bytes are one value.
pub uninterp spec fn mapped(map: Mmap) -> Seq<u8>;

/// The buffers that a map keeps, by path. A path's buffer is set once and
/// never replaced or removed, so this is one value for the whole life of the
/// map: it holds every path that is ever loaded into the map.
pub uninterp spec fn kept(map: OnceMap<PathBuf, Rc<FontBuffer>>) -> Map<PathBuf, FontBuffer>;

/// Calls `std::io::Error::kind` and tells `ErrorKind::Unsupported` from the
/// other kinds.
#[verifier::external_body]
fn is_unsupported(error: &std::io::Error) -> (r: bool)
    ensures
        r == unsupported(*error),
{
    matches!(error.kind(), std::io::ErrorKind::Unsupported)
}

/// Calls `OnceMap::new`.
#[verifier::external_body]
fn new_map() -> (r: OnceMap<PathBuf, Rc<FontBuffer>>) {
    OnceMap::new()
}

/// Calls `OnceMap::contains_key` and then `OnceMap::insert`, which stores
/// the buffer unless the path has one already, and hands out the buffer that
/// the path has; with it, whether the path had one before. A path that had
/// none has the buffer that was passed.
#[verifier::external_body]
fn insert_once<'a>(
    map: &'a OnceMap<PathBuf, Rc<FontBuffer>>,
    path: PathBuf,
    buffer: FontBuffer,
) -> (r: (&'a FontBuffer, bool))
    ensures
        kept(*map).contains_pair(path, *r.0),
        !r.1 ==> *r.0 == buffer,
{
    let had = map.contains_key(&path);
    (map.insert(path, move |_| Rc::new(buffer)), had)
}

/// Calls `Mmap::as_ref`: the mapped bytes.
#[verifier::external_body]
fn mapped_bytes(map: &Mmap) -> (r: &[u8])
    ensures
        r@ == mapped(*map),
{
    map.as_ref()
}

/// What a failed mapping leads to: `Ok` asks for the file to be read into
/// memory instead, which is the answer to a platform that cannot map; any
/// other failure is the load's own.
pub fn map_failure(error: std::io::Error) -> (r: Result<(), FontError>)
    ensures
        unsupported(error) ==> r is Ok,
        !unsupported(error) ==> r == Err::<(), FontError>(FontError::IO(error)),
{
    if is_unsupported(&error) {
        Ok(())
    } else {
        Err(FontError::IO(error))
    }
}

/// The capacity to read a file with: its reported length where that is known
/// and fits, else [`DEFAULT_CAPACITY`].
pub fn read_capacity(len: Option<u64>) -> (r: usize)
    ensures
        r == match len {
            Some(l) if l <= usize::MAX => l as usize,
            _ => DEFAULT_CAPACITY,
        },
{
    match len {
        Some(l) => if l <= usize::MAX as u64 {
            l as usize
        } else {
            DEFAULT_CAPACITY
        },
        None => DEFAULT_CAPACITY,
    }
}

impl FontBuffer {
    /// The buffer's bytes, whichever way they are held.
    pub open spec fn bytes(self) -> Seq<u8> {
        match self {
            FontBuffer::Memory(bytes) => bytes@,
            FontBuffer::Mapped(map) => mapped(map),
        }
    }

    /// The buffer's bytes, whichever way they are held.
    pub fn as_ref(&self) -> (r: &[u8])
        ensures
            r@ == self.bytes(),
    {
        match self {
            FontBuffer::Mapped(map) => mapped_bytes(map),
            FontBuffer::Memory(bytes) => bytes.as_slice(),
        }
    }
}

impl FontStorage {
    /// The buffers that the store keeps, by path: every file that is ever
    /// loaded into it, with the buffer of its first load.
    pub closed spec fn buffers(&self) -> Map<PathBuf, FontBuffer> {
        kept(self.loaded)
    }

    /// What a load of `buffer` under `path` hands out: the bytes of the
    /// buffer that the store keeps for the path, which for a first load are
    /// the bytes of `buffer`.
    pub open spec fn loaded(&self, path: PathBuf, buffer: FontBuffer, bytes: Seq<u8>, first: bool) -> bool {
        &&& self.buffers().contains_key(path)
        &&& bytes == self.buffers()[path].bytes()
        &&& first ==> bytes == buffer.bytes()
    }

    /// A store with no file loaded.
    ///
    /// Files are loaded through a shared reference, so a store is one value
    /// from its making to its end, and [`FontStorage::buffers`] names what
    /// it keeps over that whole time. That it starts with nothing is
    /// therefore said by no clause: said of the value, it would deny every
    /// later load.
    pub fn new() -> (r: Self) {
        FontStorage { loaded: new_map() }
    }

    /// Publishes the bytes read from `path` and returns the bytes that the
    /// store keeps for that path: those of the first load of it. A first
    /// load is told as such, and returns the bytes that it published.
    pub fn load(&self, path: PathBuf, buffer: FontBuffer) -> (r: Loaded<'_>)
        ensures
            self.loaded(path, buffer, r.bytes@, r.first),
    {
        let (kept, had) = insert_once(&self.loaded, path, buffer);
        Loaded { bytes: kept.as_ref(), first: !had }
    }
}

impl Default for FontStorage {
    /// A store with no file loaded.
    fn default() -> (r: Self) {
        FontStorage::new()
    }
}

/// Two loads of one path into one store return the same bytes, whatever the
/// second load published.
pub proof fn lemma_loads_agree(
    storage: FontStorage,
    path: PathBuf,
    first: FontBuffer,
    first_bytes: Seq<u8>,
    first_new: bool,
    second: FontBuffer,
    second_bytes: Seq<u8>,
    second_new: bool,
)
    requires
        storage.loaded(path, first, first_bytes, first_new),
        storage.loaded(path, second, second_bytes, second_new),
    ensures
        second_bytes == first_bytes,
{
}

} // verus!
