//! Build-context archiver: turns a walked directory into a compressed
//! archive stream for the engine's build capability.
//!
//! The unverified shell walks the context directory and hands over each
//! regular file as its path and content bytes; this module computes the
//! root-relative, forward-slash-normalized entry name for each file,
//! insists the name is a clean relative name (the archive encoder would
//! otherwise silently rewrite it), builds the archive with a canonical
//! file mode so builds are reproducible across hosts, and compresses the
//! result.  The archive and compression encoders are outside crates
//! consumed through trusted wrappers whose contracts name their results.

use vstd::prelude::*;

verus! {

/// The canonical mode every archived file gets; on-disk permissions are
/// deliberately not preserved, so builds do not vary with the host umask.
pub const CANONICAL_MODE: u32 = 0o644;

/// A path separator byte: forward slash or backslash.
pub open spec fn is_sep(b: u8) -> bool {
    b == 47 || b == 92  // '/' or '\\'
}

/// A byte of an entry name after normalization: backslashes become
/// forward slashes, every other byte is kept.
pub open spec fn norm_byte(b: u8) -> u8 {
    if b == 92 {
        47
    } else {
        b
    }
}

/// A path with its separators normalized to forward slashes.
pub open spec fn normalize_seps(s: Seq<u8>) -> Seq<u8> {
    s.map_values(|b: u8| norm_byte(b))
}

/// The entry name of a file at `full` under the context root `root`: the
/// part of `full` after the root and one separator (or after the root
/// alone, when the root already ends in a separator), normalized to
/// forward slashes.  `None` when `full` does not lie strictly under the
/// root.
pub open spec fn rel_path_spec(root: Seq<u8>, full: Seq<u8>) -> Option<Seq<u8>> {
    if root.len() > 0 && is_sep(root.last()) {
        if full.len() > root.len() && full.take(root.len() as int) == root {
            Some(normalize_seps(full.skip(root.len() as int)))
        } else {
            None
        }
    } else {
        if full.len() > root.len() + 1 && full.take(root.len() as int) == root && is_sep(
            full[root.len() as int],
        ) {
            Some(normalize_seps(full.skip(root.len() as int + 1)))
        } else {
            None
        }
    }
}

/// The name has the one-character component `.` at position `i`.
pub open spec fn dot_component_at(s: Seq<u8>, i: int) -> bool {
    &&& s[i] == 46  // '.'
    &&& (i == 0 || s[i - 1] == 47)
    &&& (i == s.len() - 1 || s[i + 1] == 47)
}

/// The name has the component `..` starting at position `i`.
pub open spec fn dotdot_component_at(s: Seq<u8>, i: int) -> bool {
    &&& s[i] == 46 && s[i + 1] == 46  // ".."
    &&& (i == 0 || s[i - 1] == 47)
    &&& (i + 2 == s.len() || s[i + 2] == 47)
}

/// A clean relative entry name: non-empty, made of non-empty
/// `/`-separated components none of which is `.` or `..`, with no
/// leading or trailing separator and no NUL or backslash byte.  The
/// archive encoder stores such a name byte for byte; anything else it
/// rewrites or refuses, so the archiver rejects it instead.
pub open spec fn clean_entry_name(s: Seq<u8>) -> bool {
    &&& s.len() > 0
    &&& s[0] != 47
    &&& s[s.len() - 1] != 47
    &&& forall|i: int| 0 <= i < s.len() ==> #[trigger] s[i] != 0
    &&& forall|i: int| 0 <= i < s.len() ==> #[trigger] s[i] != 92
    &&& forall|i: int| 0 <= i && i + 1 < s.len() ==> !(#[trigger] s[i] == 47 && s[i + 1] == 47)
    &&& forall|i: int| 0 <= i < s.len() ==> !(#[trigger] dot_component_at(s, i))
    &&& forall|i: int| 0 <= i && i + 1 < s.len() ==> !(#[trigger] dotdot_component_at(s, i))
}

/// One regular file of the build context: its path as handed over by the
/// directory walk, and its content.
pub struct ContextFile {
    /// The file's path in bytes, as found by the walk.
    pub path: Vec<u8>,
    /// The file's content, byte for byte.
    pub data: Vec<u8>,
}

/// The files as (path, content) byte sequences.
pub open spec fn files_view(files: Seq<ContextFile>) -> Seq<(Seq<u8>, Seq<u8>)> {
    files.map_values(|f: ContextFile| (f.path@, f.data@))
}

/// The file lies strictly under the root, and its entry name is clean
/// and one the archive encoder accepts.
pub open spec fn file_ok(root: Seq<u8>, f: (Seq<u8>, Seq<u8>)) -> bool {
    &&& rel_path_spec(root, f.0) is Some
    &&& clean_entry_name(rel_path_spec(root, f.0).unwrap())
    &&& encodable_name(rel_path_spec(root, f.0).unwrap())
}

/// The archive entries the files produce: one entry per regular file, in
/// walk order, named by its normalized root-relative path, with the
/// canonical mode and the file's exact content.
pub open spec fn entries_spec(root: Seq<u8>, fv: Seq<(Seq<u8>, Seq<u8>)>) -> Seq<
    (Seq<u8>, u32, Seq<u8>),
>
    recommends
        forall|i: int| 0 <= i < fv.len() ==> rel_path_spec(root, #[trigger] fv[i].0) is Some,
{
    fv.map_values(
        |f: (Seq<u8>, Seq<u8>)| (rel_path_spec(root, f.0).unwrap(), CANONICAL_MODE, f.1),
    )
}

/// Why packing failed.
#[derive(Debug)]
pub enum ArchiveError {
    /// A file's path does not lie strictly under the context root; the
    /// offending path is carried.
    PathOutsideRoot(Vec<u8>),
    /// A file's entry name is not a clean relative name (an empty, `.`
    /// or `..` component, a leading or trailing separator, a NUL); the
    /// offending name is carried.
    UncleanName(Vec<u8>),
    /// The archive encoder refused a clean entry name (one its header
    /// cannot take); its message is kept.  The in-memory encoders cannot
    /// fail in any other way.
    Io(String),
}

/// An in-memory archive builder (`tar::Builder` over a byte buffer),
/// opaque to the verifier; its contents are spoken of through
/// [`tar_entries`].
#[verifier::external_body]
pub struct TarSink {
    inner: tar::Builder<Vec<u8>>,
}

/// The entries held by an in-memory archive builder, in append order:
/// each entry's name, mode and content.
pub uninterp spec fn tar_entries(b: TarSink) -> Seq<(Seq<u8>, u32, Seq<u8>)>;

/// The finished archive stream produced from the given entries.  The
/// builder writes headers built from name, size and mode alone, with all
/// other fields zeroed, so the stream is a function of the entries.
pub uninterp spec fn tar_stream_of(entries: Seq<(Seq<u8>, u32, Seq<u8>)>) -> Seq<u8>;

/// Whether the archive encoder accepts a clean entry name: the header's
/// name field is finite and the name must be valid text, so acceptance
/// is a function of the name's bytes alone.
pub uninterp spec fn encodable_name(s: Seq<u8>) -> bool;

/// What decompressing a byte stream yields: the bytes a gzip decoder
/// (flate2's `GzDecoder`) recovers from it, or `None` when the stream is
/// not a well-formed gzip stream.
pub uninterp spec fn gunzip_of(z: Seq<u8>) -> Option<Seq<u8>>;

/// Relies on `tar::Builder::new`: a fresh builder over an in-memory
/// buffer holds no entries.
#[verifier::external_body]
fn tar_new() -> (b: TarSink)
    ensures
        tar_entries(b) == Seq::<(Seq<u8>, u32, Seq<u8>)>::empty(),
{
    TarSink { inner: tar::Builder::new(Vec::new()) }
}

/// Relies on `tar::Header` (`new_gnu`, `set_path`, `set_size`,
/// `set_mode`, `set_cksum`) and `tar::Builder::append`.  A clean
/// relative name `set_path` either stores byte for byte or refuses —
/// by the name's bytes alone (the header's name field is finite, and
/// the conversion here demands valid text): that acceptance is
/// [`encodable_name`].  On acceptance exactly one entry with the given
/// name, mode and content is appended; writing into the in-memory
/// buffer cannot fail, and a refused name leaves the builder untouched.
#[verifier::external_body]
fn tar_append_file(b: &mut TarSink, path: &[u8], mode: u32, data: &[u8]) -> (r: Result<
    (),
    String,
>)
    requires
        clean_entry_name(path@),
    ensures
        r is Ok <==> encodable_name(path@),
        r is Ok ==> tar_entries(*final(b)) == tar_entries(*old(b)).push((path@, mode, data@)),
        r is Err ==> tar_entries(*final(b)) == tar_entries(*old(b)),
{
    let p = match std::str::from_utf8(path) {
        Ok(p) => p,
        Err(e) => return Err(e.to_string()),
    };
    let mut header = tar::Header::new_gnu();
    if let Err(e) = header.set_path(p) {
        return Err(e.to_string());
    }
    header.set_size(data.len() as u64);
    header.set_mode(mode);
    header.set_cksum();
    match b.inner.append(&header, data) {
        Ok(()) => Ok(()),
        Err(e) => Err(e.to_string()),
    }
}

/// Relies on `tar::Builder::into_inner`: finishing writes the archive's
/// terminating blocks into the in-memory buffer — which cannot fail —
/// and returns the whole stream, a function of the appended entries
/// alone.
#[verifier::external_body]
fn tar_finish(b: TarSink) -> (r: Result<Vec<u8>, String>)
    ensures
        r is Ok,
        r matches Ok(v) ==> v@ == tar_stream_of(tar_entries(b)),
{
    match b.inner.into_inner() {
        Ok(v) => Ok(v),
        Err(e) => Err(e.to_string()),
    }
}

/// Relies on flate2's `write::GzEncoder` at the default compression
/// level: its output is a gzip encoding of exactly the bytes written, so
/// a gzip decoder recovers them; writing into the in-memory buffer
/// cannot fail.
#[verifier::external_body]
fn gzip_compress(data: &[u8]) -> (r: Result<Vec<u8>, String>)
    ensures
        r is Ok,
        r matches Ok(v) ==> gunzip_of(v@) == Some(data@),
{
    let mut enc = flate2::write::GzEncoder::new(Vec::new(), flate2::Compression::default());
    if let Err(e) = std::io::Write::write_all(&mut enc, data) {
        return Err(e.to_string());
    }
    match enc.finish() {
        Ok(v) => Ok(v),
        Err(e) => Err(e.to_string()),
    }
}

/// An owned copy of a byte vector.
fn copy_bytes(v: &Vec<u8>) -> (r: Vec<u8>)
    ensures
        r@ == v@,
{
    let mut out: Vec<u8> = Vec::new();
    let mut i: usize = 0;
    while i < v.len()
        invariant
            i <= v@.len(),
            out@ == v@.take(i as int),
        decreases v.len() - i,
    {
        out.push(v[i]);
        proof {
            assert(v@.take(i + 1) =~= v@.take(i as int).push(v@[i as int]));
        }
        i = i + 1;
    }
    proof {
        assert(v@.take(v@.len() as int) =~= v@);
    }
    out
}

/// The normalized root-relative entry name of `full` under `root`.
fn rel_path(root: &Vec<u8>, full: &Vec<u8>) -> (r: Option<Vec<u8>>)
    ensures
        match r {
            Some(v) => rel_path_spec(root@, full@) == Some(v@),
            None => rel_path_spec(root@, full@) is None,
        },
{
    let n = root.len();
    let root_ends_sep = n > 0 && {
        let b = root[n - 1];
        b == 47 || b == 92
    };
    // how many bytes of `full` precede the entry name
    let start: usize = if root_ends_sep {
        if full.len() <= n {
            return None;
        }
        n
    } else {
        if full.len() <= n {
            return None;
        }
        if full.len() - n < 2 {
            return None;
        }
        let b = full[n];
        if !(b == 47 || b == 92) {
            return None;
        }
        n + 1
    };
    // the first `n` bytes must be the root itself
    let mut i: usize = 0;
    while i < n
        invariant
            i <= n,
            n == root@.len(),
            full@.len() > n,
            forall|j: int| 0 <= j < i ==> full@[j] == root@[j],
        decreases n - i,
    {
        if full[i] != root[i] {
            proof {
                assert(full@.take(n as int)[i as int] != root@[i as int]);
            }
            return None;
        }
        i = i + 1;
    }
    proof {
        assert(full@.take(n as int) =~= root@);
    }
    // copy the rest, normalizing separators
    let mut out: Vec<u8> = Vec::new();
    let mut k: usize = start;
    while k < full.len()
        invariant
            start <= k <= full@.len(),
            out@.len() == k - start,
            forall|t: int| 0 <= t < out@.len() ==> out@[t] == norm_byte(full@[start + t]),
        decreases full.len() - k,
    {
        let b = full[k];
        if b == 92 {
            out.push(47);
        } else {
            out.push(b);
        }
        k = k + 1;
    }
    proof {
        assert(out@ =~= normalize_seps(full@.skip(start as int)));
    }
    Some(out)
}

/// Whether a computed entry name is clean, exactly as
/// [`clean_entry_name`] says.
fn is_clean_name(v: &Vec<u8>) -> (r: bool)
    ensures
        r == clean_entry_name(v@),
{
    let n = v.len();
    if n == 0 {
        return false;
    }
    if v[0] == 47 {
        return false;
    }
    if v[n - 1] == 47 {
        return false;
    }
    let mut i: usize = 0;
    while i < n
        invariant
            i <= n,
            n == v@.len(),
            forall|j: int| 0 <= j < i ==> #[trigger] v@[j] != 0,
            forall|j: int| 0 <= j < i ==> #[trigger] v@[j] != 92,
            forall|j: int| 0 <= j < i && j + 1 < n ==> !(#[trigger] v@[j] == 47 && v@[j + 1]
                == 47),
            forall|j: int| 0 <= j < i ==> !(#[trigger] dot_component_at(v@, j)),
            forall|j: int| 0 <= j < i && j + 1 < n ==> !(#[trigger] dotdot_component_at(v@, j)),
        decreases n - i,
    {
        let b = v[i];
        if b == 0 || b == 92 {
            return false;
        }
        if i + 1 < n && b == 47 && v[i + 1] == 47 {
            return false;
        }
        let at_start = i == 0 || v[i - 1] == 47;
        if b == 46 && at_start && (i + 1 == n || v[i + 1] == 47) {
            proof {
                assert(dot_component_at(v@, i as int));
            }
            return false;
        }
        if i + 1 < n && b == 46 && v[i + 1] == 46 && at_start && (i + 2 == n || v[i + 2] == 47) {
            proof {
                assert(dotdot_component_at(v@, i as int));
            }
            return false;
        }
        i = i + 1;
    }
    true
}

/// Packs the build context: one archive entry per handed-over regular
/// file, in order, named by its normalized root-relative path, with the
/// canonical mode and the file's exact content; the finished archive is
/// compressed.  Each error names the first offending file: one not
/// strictly under the root, one whose entry name is not a clean relative
/// name, or one whose clean name the archive encoder refuses; when every
/// file is acceptable the pack succeeds.
pub fn pack(root: &Vec<u8>, files: &Vec<ContextFile>) -> (r: Result<Vec<u8>, ArchiveError>)
    ensures
        ({
            let fv = files_view(files@);
            match r {
                Ok(v) => (forall|i: int| 0 <= i < fv.len() ==> file_ok(root@, #[trigger] fv[i]))
                    && gunzip_of(v@) == Some(tar_stream_of(entries_spec(root@, fv))),
                Err(ArchiveError::PathOutsideRoot(p)) => exists|j: int|
                    0 <= j < fv.len() && rel_path_spec(root@, #[trigger] fv[j].0) is None && p@
                        == fv[j].0 && (forall|k: int| 0 <= k < j ==> file_ok(root@, #[trigger] fv[k])),
                Err(ArchiveError::UncleanName(p)) => exists|j: int|
                    0 <= j < fv.len() && (rel_path_spec(root@, #[trigger] fv[j].0) matches Some(nm)
                        && p@ == nm && !clean_entry_name(nm)) && (forall|k: int|
                        0 <= k < j ==> file_ok(root@, #[trigger] fv[k])),
                Err(ArchiveError::Io(_)) => exists|j: int|
                    0 <= j < fv.len() && (rel_path_spec(root@, #[trigger] fv[j].0) matches Some(nm)
                        && clean_entry_name(nm) && !encodable_name(nm)) && (forall|k: int|
                        0 <= k < j ==> file_ok(root@, #[trigger] fv[k])),
            }
        }),
{
    let ghost fv = files_view(files@);
    let mut b = tar_new();
    let mut i: usize = 0;
    proof {
        assert(entries_spec(root@, fv.take(0)) =~= Seq::<(Seq<u8>, u32, Seq<u8>)>::empty());
    }
    while i < files.len()
        invariant
            i <= files@.len(),
            fv == files_view(files@),
            tar_entries(b) == entries_spec(root@, fv.take(i as int)),
            forall|k: int| 0 <= k < i ==> file_ok(root@, #[trigger] fv[k]),
        decreases files.len() - i,
    {
        proof {
            assert(fv[i as int] == (files@[i as int].path@, files@[i as int].data@));
        }
        let rel = rel_path(root, &files[i].path);
        match rel {
            None => {
                let p = copy_bytes(&files[i].path);
                proof {
                    assert(0 <= i < fv.len() && rel_path_spec(root@, fv[i as int].0) is None && p@
                        == fv[i as int].0 && (forall|k: int|
                        0 <= k < i ==> file_ok(root@, #[trigger] fv[k])));
                }
                return Err(ArchiveError::PathOutsideRoot(p));
            },
            Some(rp) => {
                if !is_clean_name(&rp) {
                    proof {
                        assert(0 <= i < fv.len() && (rel_path_spec(
                            root@,
                            fv[i as int].0,
                        ) matches Some(nm) && rp@ == nm && !clean_entry_name(nm)) && (forall|k: int|
                            0 <= k < i ==> file_ok(root@, #[trigger] fv[k])));
                    }
                    return Err(ArchiveError::UncleanName(rp));
                }
                let step = tar_append_file(
                    &mut b,
                    rp.as_slice(),
                    CANONICAL_MODE,
                    files[i].data.as_slice(),
                );
                match step {
                    Err(m) => {
                        proof {
                            assert(0 <= i < fv.len() && (rel_path_spec(
                                root@,
                                fv[i as int].0,
                            ) matches Some(nm) && clean_entry_name(nm) && !encodable_name(nm)) && (
                            forall|k: int| 0 <= k < i ==> file_ok(root@, #[trigger] fv[k])));
                        }
                        return Err(ArchiveError::Io(m));
                    },
                    Ok(()) => {
                        proof {
                            assert(file_ok(root@, fv[i as int]));
                            assert(fv.take(i + 1) =~= fv.take(i as int).push(fv[i as int]));
                            assert(entries_spec(root@, fv.take(i + 1)) =~= entries_spec(
                                root@,
                                fv.take(i as int),
                            ).push((rp@, CANONICAL_MODE, files@[i as int].data@)));
                        }
                    },
                }
            },
        }
        i = i + 1;
    }
    proof {
        assert(fv.take(files@.len() as int) =~= fv);
    }
    let raw = match tar_finish(b) {
        Ok(v) => v,
        Err(m) => {
            proof {
                assert(false);
            }
            return Err(ArchiveError::Io(m));
        },
    };
    match gzip_compress(raw.as_slice()) {
        Ok(z) => Ok(z),
        Err(m) => {
            proof {
                assert(false);
            }
            Err(ArchiveError::Io(m))
        },
    }
}

} // verus!
