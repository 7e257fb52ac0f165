//! A scratch file mapped into memory: it grows by doubling, and it is wiped
//! (zeroed in memory and on disk) before it is given up.
//!
//! Creating and deleting the file itself is the caller's part: this module
//! takes a mapped region and hands back the paths to delete.
use vstd::prelude::*;
use vstd::string::StringExecFns;

use memmap::MmapMut;
use rand::distributions::Alphanumeric;
use rand::Rng;
use zeroize::Zeroize;

verus! {

#[verifier::external_type_specification]
#[verifier::external_body]
pub struct ExMmapMut(memmap::MmapMut);

#[verifier::external_type_specification]
#[verifier::external_body]
pub struct ExIoError(std::io::Error);

/// The bytes that a mapped region holds.
pub uninterp spec fn region_bytes(m: MmapMut) -> Seq<u8>;

/// Whether a region is a shared mapping of a file (as `MmapMut::map_mut`
/// makes it), whose writes reach the file. An anonymous or copy-on-write
/// region is not. Writing to a region does not change what kind it is.
pub uninterp spec fn is_shared_file_map(m: MmapMut) -> bool;

/// What the file behind a shared file mapping durably holds; of any other
/// region nothing is said.
pub uninterp spec fn stored_bytes(m: MmapMut) -> Seq<u8>;

/// Relies on `MmapMut`'s `Deref` to `[u8]`: the length of the mapped region.
#[verifier::external_body]
fn region_len(m: &MmapMut) -> (r: usize)
    ensures
        r == region_bytes(*m).len(),
{
    m.len()
}

/// Relies on `MmapMut`'s `Deref` to `[u8]`: reads one byte.
#[verifier::external_body]
fn region_get(m: &MmapMut, i: usize) -> (r: u8)
    requires
        i < region_bytes(*m).len(),
    ensures
        r == region_bytes(*m)[i as int],
{
    m[i]
}

/// Relies on `MmapMut`'s `DerefMut` to `[u8]`: writes one byte.
#[verifier::external_body]
fn region_set(m: &mut MmapMut, i: usize, b: u8)
    requires
        i < region_bytes(*old(m)).len(),
    ensures
        region_bytes(*final(m)) == region_bytes(*old(m)).update(i as int, b),
        is_shared_file_map(*final(m)) == is_shared_file_map(*old(m)),
{
    m[i] = b;
}

/// Relies on `zeroize`'s `Zeroize` for `[u8]`: every byte of the region
/// becomes zero, by writes that the compiler does not remove.
#[verifier::external_body]
fn zeroize_region(m: &mut MmapMut)
    ensures
        region_bytes(*final(m)) == Seq::new(region_bytes(*old(m)).len(), |i: int| 0u8),
        is_shared_file_map(*final(m)) == is_shared_file_map(*old(m)),
{
    m[..].zeroize();
}

/// Relies on `zeroize`'s `Zeroize` for `usize`: the value becomes zero.
#[verifier::external_body]
fn zeroize_usize(x: &mut usize)
    ensures
        *final(x) == 0,
{
    x.zeroize();
}

/// Relies on `MmapMut::flush`: writes the region through and waits for it,
/// leaving its bytes as they are; on success every change to a file-backed
/// (shared) mapping is durably stored.
#[verifier::external_body]
fn flush_region(m: &mut MmapMut) -> (r: Result<(), std::io::Error>)
    ensures
        region_bytes(*final(m)) == region_bytes(*old(m)),
        is_shared_file_map(*final(m)) == is_shared_file_map(*old(m)),
        r is Ok && is_shared_file_map(*final(m)) ==> stored_bytes(*final(m)) == region_bytes(
            *final(m),
        ),
{
    m.flush()
}

/// The length of a mapped region.
pub fn mapped_len(m: &MmapMut) -> (r: usize)
    ensures
        r == region_bytes(*m).len(),
{
    region_len(m)
}

/// Whether `c` is an ASCII letter or digit.
pub open spec fn is_alphanumeric(c: char) -> bool {
    ('A' <= c && c <= 'Z') || ('a' <= c && c <= 'z') || ('0' <= c && c <= '9')
}

/// Relies on `rand`'s `Alphanumeric` distribution, drawn from the thread's
/// generator: one of `A`-`Z`, `a`-`z`, `0`-`9`.
#[verifier::external_body]
fn random_alphanumeric() -> (r: char)
    ensures
        is_alphanumeric(r),
{
    char::from(rand::thread_rng().sample(Alphanumeric))
}

/// How many random characters a scratch file name holds.
pub const TOKEN_LEN: usize = 24;

/// The name of a scratch file with random part `token`.
pub open spec fn scratch_name_of(token: Seq<char>, extension: Seq<char>) -> Seq<char> {
    "lkh_"@ + token + ".tmp."@ + extension
}

/// Whether `token` can be the random part of a scratch file name.
pub open spec fn is_token(token: Seq<char>) -> bool {
    token.len() == TOKEN_LEN && forall|i: int| 0 <= i < token.len() ==> is_alphanumeric(
        #[trigger] token[i],
    )
}

/// A fresh file name `lkh_<24 random letters and digits>.tmp.<extension>`,
/// to be placed in the temporary directory.
pub fn scratch_name(extension: &str) -> (r: String)
    ensures
        is_token(r@.subrange(4, 4 + TOKEN_LEN as int)),
        r@ == scratch_name_of(r@.subrange(4, 4 + TOKEN_LEN as int), extension@),
{
    let mut r = String::new();
    r.append("lkh_");
    proof {
        reveal_strlit("lkh_");
    }
    let ghost prefix = r@;
    for i in 0..TOKEN_LEN
        invariant
            prefix == "lkh_"@,
            r@.len() == 4 + i,
            r@.subrange(0, 4) == prefix,
            forall|k: int| 4 <= k < 4 + i ==> is_alphanumeric(#[trigger] r@[k]),
    {
        crate::text::push_char(&mut r, random_alphanumeric());
        assert(r@.subrange(0, 4) =~= prefix);
    }
    let ghost token = r@.subrange(4, 4 + TOKEN_LEN as int);
    assert(r@ =~= prefix + token);
    r.append(".tmp.");
    r.append(extension);
    assert(r@.subrange(4, 4 + TOKEN_LEN as int) =~= token);
    assert(is_token(token));
    r
}

/// A wipe whose write-through to disk failed: the region is zeroed in
/// memory, but the file at `path` may still hold what was written.
#[derive(Debug)]
pub struct WipeError {
    pub path: String,
    pub cause: std::io::Error,
}

/// A scratch file: its path, a write cursor, and the mapped region.
pub struct MemoryFile {
    path: String,
    cursor: usize,
    writer: MmapMut,
}

/// Zeros of length `n`.
pub open spec fn zeros(n: nat) -> Seq<u8> {
    Seq::new(n, |i: int| 0u8)
}

impl MemoryFile {
    /// The path of the file.
    pub closed spec fn spec_path(&self) -> Seq<char> {
        self.path@
    }

    /// Where the next write goes.
    pub closed spec fn spec_cursor(&self) -> nat {
        self.cursor as nat
    }

    /// What the region holds.
    pub closed spec fn bytes(&self) -> Seq<u8> {
        region_bytes(self.writer)
    }

    /// What the file behind the region durably holds, if the region is a
    /// shared mapping of a file.
    pub closed spec fn stored(&self) -> Seq<u8> {
        stored_bytes(self.writer)
    }

    /// Whether the region is a shared mapping of a file.
    pub closed spec fn file_backed(&self) -> bool {
        is_shared_file_map(self.writer)
    }

    /// The size of the region.
    pub open spec fn spec_capacity(&self) -> nat {
        self.bytes().len()
    }

    /// The cursor stands within the region, and nothing past it was written.
    pub open spec fn wf(&self) -> bool {
        &&& self.spec_cursor() <= self.spec_capacity()
        &&& forall|i: int|
            self.spec_cursor() <= i < self.spec_capacity() ==> #[trigger] self.bytes()[i] == 0
    }

    /// What was written so far.
    pub open spec fn written(&self) -> Seq<u8> {
        self.bytes().take(self.spec_cursor() as int)
    }

    /// Takes over the region mapped from the file at `path` and zero-fills it.
    pub fn new(path: String, writer: MmapMut) -> (r: Self)
        ensures
            r.wf(),
            r.spec_path() == path@,
            r.spec_cursor() == 0,
            r.bytes() == zeros(region_bytes(writer).len()),
    {
        let mut writer = writer;
        zeroize_region(&mut writer);
        MemoryFile { path, cursor: 0, writer }
    }

    /// The path of the file.
    pub fn path(&self) -> (r: &String)
        ensures
            r@ == self.spec_path(),
    {
        &self.path
    }

    /// Where the next write goes.
    pub fn cursor(&self) -> (r: usize)
        ensures
            r == self.spec_cursor(),
    {
        self.cursor
    }

    /// The size of the region.
    pub fn capacity(&self) -> (r: usize)
        ensures
            r == self.spec_capacity(),
    {
        region_len(&self.writer)
    }

    /// The byte at `i` in the region.
    pub fn byte_at(&self, i: usize) -> (r: u8)
        requires
            i < self.spec_capacity(),
        ensures
            r == self.bytes()[i as int],
    {
        region_get(&self.writer, i)
    }

    /// Whether `n` more bytes do not fit behind the cursor.
    pub fn needs_grow(&self, n: usize) -> (r: bool)
        requires
            self.wf(),
        ensures
            r == (self.spec_cursor() + n > self.spec_capacity()),
    {
        n > region_len(&self.writer) - self.cursor
    }

    /// The size that growing gives: twice the present one, if it fits a `usize`.
    pub fn grown_capacity(&self) -> (r: Option<usize>)
        ensures
            r matches Some(c) ==> c == 2 * self.spec_capacity(),
            r is None ==> 2 * self.spec_capacity() > usize::MAX,
    {
        region_len(&self.writer).checked_mul(2)
    }

    /// Zeroes the cursor and the whole region, then writes the region
    /// through to the file. The region is zeroed in memory whatever the
    /// write-through gives; its failure is reported with the path.
    pub fn wipe(&mut self) -> (r: Result<(), WipeError>)
        requires
            old(self).wf(),
        ensures
            final(self).wf(),
            final(self).spec_cursor() == 0,
            final(self).spec_capacity() == old(self).spec_capacity(),
            final(self).bytes() == zeros(old(self).spec_capacity()),
            final(self).spec_path() == old(self).spec_path(),
            final(self).file_backed() == old(self).file_backed(),
            r is Ok && old(self).file_backed() ==> final(self).stored() == zeros(
                old(self).spec_capacity(),
            ),
            r matches Err(e) ==> e.path@ == old(self).spec_path(),
    {
        zeroize_usize(&mut self.cursor);
        zeroize_region(&mut self.writer);
        match flush_region(&mut self.writer) {
            Ok(()) => Ok(()),
            Err(cause) => Err(WipeError { path: self.path.clone(), cause }),
        }
    }

    /// Writes the region through to the file.
    pub fn flush(&mut self) -> (r: Result<(), std::io::Error>)
        requires
            old(self).wf(),
        ensures
            final(self).wf(),
            final(self).bytes() == old(self).bytes(),
            final(self).spec_cursor() == old(self).spec_cursor(),
            final(self).spec_path() == old(self).spec_path(),
            final(self).file_backed() == old(self).file_backed(),
            r is Ok && final(self).file_backed() ==> final(self).stored() == final(self).bytes(),
    {
        flush_region(&mut self.writer)
    }

    /// Writes as much of `buf` as fits behind the cursor, and moves the
    /// cursor past it. Gives the number of bytes written.
    pub fn write(&mut self, buf: &[u8]) -> (n: usize)
        requires
            old(self).wf(),
        ensures
            final(self).wf(),
            n == if buf@.len() <= old(self).spec_capacity() - old(self).spec_cursor() {
                buf@.len()
            } else {
                (old(self).spec_capacity() - old(self).spec_cursor()) as nat
            },
            final(self).spec_cursor() == old(self).spec_cursor() + n,
            final(self).spec_capacity() == old(self).spec_capacity(),
            final(self).written() == old(self).written() + buf@.take(n as int),
            final(self).spec_path() == old(self).spec_path(),
            final(self).file_backed() == old(self).file_backed(),
    {
        let room = region_len(&self.writer) - self.cursor;
        let n = if buf.len() <= room {
            buf.len()
        } else {
            room
        };
        let start = self.cursor;
        let ghost before = self.bytes();
        let mut i: usize = 0;
        while i < n
            invariant
                0 <= i <= n <= buf@.len(),
                start == old(self).cursor,
                self.cursor == start,
                self.path == old(self).path,
                self.file_backed() == old(self).file_backed(),
                start + n <= self.bytes().len() == before.len() <= usize::MAX,
                before == old(self).bytes(),
                self.bytes().take(start as int) == before.take(start as int),
                forall|k: int| 0 <= k < i ==> #[trigger] self.bytes()[start + k] == buf@[k],
                forall|k: int| start + i <= k < before.len() ==> #[trigger] self.bytes()[k]
                    == before[k],
            decreases n - i,
        {
            region_set(&mut self.writer, start + i, buf[i]);
            assert(self.bytes().take(start as int) =~= before.take(start as int));
            i = i + 1;
        }
        self.cursor = start + n;
        assert forall|j: int| start <= j < start + n implies self.bytes()[j] == buf@[j - start] by {
            assert(self.bytes()[start + (j - start)] == buf@[j - start]);
        }
        assert(self.written() =~= old(self).written() + buf@.take(n as int));
        n
    }

    /// Moves to a new region mapped from the file at `path`: zero-fills it,
    /// copies what was written, wipes the old region, and adopts the new
    /// one and its path. Gives back the old path, which the caller deletes
    /// whatever the outcome of the wipe. The region never shrinks.
    pub fn resize(&mut self, path: String, writer: MmapMut) -> (r: Result<String, WipeError>)
        requires
            old(self).wf(),
            old(self).spec_capacity() <= region_bytes(writer).len(),
        ensures
            final(self).wf(),
            final(self).spec_path() == path@,
            final(self).file_backed() == is_shared_file_map(writer),
            final(self).spec_capacity() == region_bytes(writer).len(),
            final(self).spec_capacity() >= old(self).spec_capacity(),
            final(self).spec_cursor() == old(self).spec_cursor(),
            final(self).written() == old(self).written(),
            match r {
                Ok(p) => p@ == old(self).spec_path(),
                Err(e) => e.path@ == old(self).spec_path(),
            },
    {
        let mut fresh = writer;
        zeroize_region(&mut fresh);
        let n = self.cursor;
        let ghost zero = region_bytes(fresh);
        let mut i: usize = 0;
        while i < n
            invariant
                0 <= i <= n,
                n == self.cursor,
                self.wf(),
                n <= region_bytes(fresh).len() == zero.len(),
                zero == zeros(zero.len()),
                self.bytes() == old(self).bytes(),
                forall|k: int| 0 <= k < i ==> #[trigger] region_bytes(fresh)[k] == self.bytes()[k],
                forall|k: int| i <= k < zero.len() ==> #[trigger] region_bytes(fresh)[k] == 0,
                is_shared_file_map(fresh) == is_shared_file_map(writer),
            decreases n - i,
        {
            let b = region_get(&self.writer, i);
            region_set(&mut fresh, i, b);
            i = i + 1;
        }
        let outcome = self.wipe();
        let old_path = self.path.clone();
        self.path = path;
        self.writer = fresh;
        self.cursor = n;
        assert(self.written() =~= old(self).written());
        match outcome {
            Ok(()) => Ok(old_path),
            Err(e) => Err(e),
        }
    }

    /// Doubles the region: moves to `writer`, a region twice the size mapped
    /// from the file at `path`, keeping what was written (see `resize`).
    pub fn grow(&mut self, path: String, writer: MmapMut) -> (r: Result<String, WipeError>)
        requires
            old(self).wf(),
            region_bytes(writer).len() == 2 * old(self).spec_capacity(),
        ensures
            final(self).wf(),
            final(self).spec_path() == path@,
            final(self).file_backed() == is_shared_file_map(writer),
            final(self).spec_capacity() == 2 * old(self).spec_capacity(),
            old(self).spec_capacity() > 0 ==> final(self).spec_capacity() > old(self).spec_capacity(),
            final(self).spec_cursor() == old(self).spec_cursor(),
            final(self).written() == old(self).written(),
            match r {
                Ok(p) => p@ == old(self).spec_path(),
                Err(e) => e.path@ == old(self).spec_path(),
            },
    {
        self.resize(path, writer)
    }
}

} // verus!
