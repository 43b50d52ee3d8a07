//! Atomically replace a file's contents.
//!
//! Callers bind an [`AtomicFile`] to a target path and an overwrite policy;
//! its `write` operation places the new content in a private scratch file
//! and commits it to the target in a single atomic step, so no reader ever
//! observes a half-written file and a failed call leaves the target exactly
//! as it was.
//!
//! The commit protocol itself — scratch placement, the sync discipline, the
//! atomic rename/link primitives and their failure semantics — is verified
//! here over an in-memory model of the filesystem ([`memfs::Fs`]). The
//! operating-system calls that realize the protocol live outside the
//! verified library.

use vstd::prelude::*;

pub mod laws;
pub mod memfs;
pub mod paths;

pub use memfs::{move_atomic, replace_atomic, Fs, IoErrorKind, Node, NodeView};
pub use paths::safe_parent;
pub use OverwriteBehavior::{AllowOverwrite, DisallowOverwrite};

verus! {

/// Whether to allow overwriting if the target file exists.
#[derive(Clone, Copy)]
pub enum OverwriteBehavior {
    /// Overwrite files silently.
    AllowOverwrite,
    /// Don't overwrite files. `AtomicFile::write` reports this condition only
    /// after the new content has already been produced in full.
    DisallowOverwrite,
}

/// An error raised by `AtomicFile::write`.
#[derive(Debug)]
pub enum Error<E> {
    /// The error originated in the library itself, while it was either
    /// creating the scratch file or moving the file into place.
    Internal(IoErrorKind),
    /// The error originated in the user-supplied callback.
    User(E),
}

/// Create a file and write to it atomically.
pub struct AtomicFile {
    /// Path of the final file that is atomically written.
    pub path: String,
    /// Policy applied when the target already exists.
    pub overwrite: OverwriteBehavior,
    /// Directory in which the scratch subdirectories are created. It must
    /// lie on the same filesystem as `path` for the commit to be atomic.
    pub tmpdir: String,
}

impl AtomicFile {
    /// Binds a target path and a policy. The scratch directory defaults to
    /// the parent directory of `path` (or `"."` for a bare file name), which
    /// keeps it on the same filesystem as the target.
    pub fn new(path: &str, overwrite: OverwriteBehavior) -> (r: AtomicFile)
        ensures
            r.path@ == path@,
            r.overwrite == overwrite,
            r.tmpdir@ == match paths::parent_spec(path@) {
                Some(d) => d,
                None => "."@,
            },
    {
        match paths::safe_parent(path) {
            Some(d) => AtomicFile::new_with_tmpdir(path, overwrite, d.as_str()),
            None => AtomicFile::new_with_tmpdir(path, overwrite, "."),
        }
    }

    /// Like `AtomicFile::new`, but the scratch subdirectories are created in
    /// `tmpdir`. The caller is responsible for `tmpdir` lying on the same
    /// filesystem as `path`.
    pub fn new_with_tmpdir(path: &str, overwrite: OverwriteBehavior, tmpdir: &str) -> (r:
        AtomicFile)
        ensures
            r.path@ == path@,
            r.overwrite == overwrite,
            r.tmpdir@ == tmpdir@,
    {
        AtomicFile {
            path: path.to_owned(),
            overwrite,
            tmpdir: tmpdir.to_owned(),
        }
    }

    /// The bound target path.
    pub fn path(&self) -> (r: &str)
        ensures
            r@ == self.path@,
    {
        self.path.as_str()
    }

    /// The scratch directory that a `write` call using scratch name `name`
    /// creates inside `tmpdir`.
    pub open spec fn scratch_dir_spec(&self, name: Seq<char>) -> Seq<char> {
        paths::join_spec(self.tmpdir@, name)
    }

    /// The scratch file inside that directory.
    pub open spec fn scratch_file_spec(&self, name: Seq<char>) -> Seq<char> {
        paths::join_spec(self.scratch_dir_spec(name), "tmpfile.tmp"@)
    }

    /// Moves the fully written, synced scratch file to `self.path` with the
    /// primitive the policy selects: unconditional atomic replacement under
    /// `AllowOverwrite`, atomic create-only placement under
    /// `DisallowOverwrite`. Called at most once per `write`.
    fn commit(&self, fs: &mut Fs, tmppath: &str) -> (r: Result<(), IoErrorKind>)
        requires
            memfs::is_file_at(old(fs)@, tmppath@),
        ensures
            self.overwrite is AllowOverwrite ==> r == Ok::<(), IoErrorKind>(()) && final(fs)@
                == old(fs)@.remove(tmppath@).insert(self.path@, old(fs)@[tmppath@]),
            self.overwrite is DisallowOverwrite && old(fs)@.contains_key(self.path@) ==> r
                == Err::<(), IoErrorKind>(IoErrorKind::AlreadyExists) && final(fs)@ == old(fs)@,
            self.overwrite is DisallowOverwrite && !old(fs)@.contains_key(self.path@) ==> r
                == Ok::<(), IoErrorKind>(()) && final(fs)@ == old(fs)@.remove(tmppath@).insert(
                self.path@,
                old(fs)@[tmppath@],
            ),
    {
        match self.overwrite {
            OverwriteBehavior::AllowOverwrite => memfs::replace_atomic(
                fs,
                tmppath,
                self.path.as_str(),
            ),
            OverwriteBehavior::DisallowOverwrite => memfs::move_atomic(
                fs,
                tmppath,
                self.path.as_str(),
            ),
        }
    }

    /// Runs one atomic-write call against the modeled filesystem `fs`.
    ///
    /// A real call opens a fresh scratch file and hands it to the caller's
    /// write callback; here the callback's outcome is handed in as a value:
    /// `Ok((t, data))` stands for a callback that wrote the bytes `data` and
    /// returned `t`, and `Err(e)` for one that failed with `e`.
    /// `scratch_name` is the unique name chosen for the scratch directory;
    /// the preconditions record exactly the guarantee of the scratch-naming
    /// facility, that the scratch paths collide with nothing.
    ///
    /// The target is never observable in a half-written state: on success it
    /// holds exactly the callback's bytes, durably synced; on any failure
    /// the whole filesystem — the target and everything else — is exactly
    /// as it was before the call, with no scratch remnants.
    ///
    /// The modeled filesystem itself cannot fail (it has no full disk and no
    /// permissions), so the one internal failure left is the already-exists
    /// refusal of a `DisallowOverwrite` commit; the machinery around the
    /// library surfaces the operating system's other failures.
    pub fn write<T, E>(
        &self,
        fs: &mut Fs,
        scratch_name: &str,
        outcome: Result<(T, Vec<u8>), E>,
    ) -> (r: Result<T, Error<E>>)
        requires
            !old(fs)@.contains_key(self.scratch_dir_spec(scratch_name@)),
            !old(fs)@.contains_key(self.scratch_file_spec(scratch_name@)),
            self.scratch_dir_spec(scratch_name@) != self.path@,
            self.scratch_file_spec(scratch_name@) != self.path@,
        ensures
            r is Ok <==> (outcome is Ok && write_succeeds(old(fs)@, self.overwrite, self.path@)),
            match r {
                Ok(t) => (outcome matches Ok(p) && p.0 == t) && final(fs)@ == write_success_post(
                    old(fs)@,
                    self.path@,
                    outcome->Ok_0.1@,
                ),
                Err(Error::User(e)) => (outcome matches Err(e0) && e == e0) && final(fs)@ == old(
                    fs,
                )@,
                Err(Error::Internal(k)) => k == IoErrorKind::AlreadyExists && outcome is Ok
                    && self.overwrite is DisallowOverwrite && old(fs)@.contains_key(self.path@)
                    && final(fs)@ == old(fs)@,
            },
    {
        let ghost m0 = fs@;
        let scratch_dir = paths::join(self.tmpdir.as_str(), scratch_name);
        let tmp_path = paths::join(scratch_dir.as_str(), "tmpfile.tmp");
        proof {
            assert(tmp_path@.len() > scratch_dir@.len());
        }
        match fs.create_dir(scratch_dir.as_str()) {
            Ok(()) => {},
            Err(k) => {
                return Err(Error::Internal(k));
            },
        }
        match fs.create_file(tmp_path.as_str()) {
            Ok(()) => {},
            Err(k) => {
                return Err(Error::Internal(k));
            },
        }
        match outcome {
            Err(e) => {
                // the callback failed: no commit is attempted, the scratch
                // state is discarded
                match fs.remove_file(tmp_path.as_str()) {
                    Ok(()) => {},
                    Err(k) => {
                        return Err(Error::Internal(k));
                    },
                }
                match fs.remove_dir(scratch_dir.as_str()) {
                    Ok(()) => {},
                    Err(k) => {
                        return Err(Error::Internal(k));
                    },
                }
                proof {
                    assert(fs@ =~= m0);
                }
                Err(Error::User(e))
            },
            Ok((t, data)) => {
                let ghost bytes = data@;
                match fs.write_file(tmp_path.as_str(), data) {
                    Ok(()) => {},
                    Err(k) => {
                        return Err(Error::Internal(k));
                    },
                }
                match fs.sync_file(tmp_path.as_str()) {
                    Ok(()) => {},
                    Err(k) => {
                        return Err(Error::Internal(k));
                    },
                }
                match self.commit(fs, tmp_path.as_str()) {
                    Ok(()) => {
                        // the scratch file now lives at the target path;
                        // only the emptied scratch directory is left to drop
                        match fs.remove_dir(scratch_dir.as_str()) {
                            Ok(()) => {},
                            Err(k) => {
                                return Err(Error::Internal(k));
                            },
                        }
                        proof {
                            assert(fs@ =~= write_success_post(m0, self.path@, bytes));
                        }
                        Ok(t)
                    },
                    Err(k) => {
                        match fs.remove_file(tmp_path.as_str()) {
                            Ok(()) => {},
                            Err(k2) => {
                                return Err(Error::Internal(k2));
                            },
                        }
                        match fs.remove_dir(scratch_dir.as_str()) {
                            Ok(()) => {},
                            Err(k2) => {
                                return Err(Error::Internal(k2));
                            },
                        }
                        proof {
                            assert(fs@ =~= m0);
                        }
                        Err(Error::Internal(k))
                    },
                }
            },
        }
    }
}

/// When a `write` call can succeed: always under `AllowOverwrite`, and only
/// onto a target that does not exist yet under `DisallowOverwrite`.
pub open spec fn write_succeeds(
    m: Map<Seq<char>, NodeView>,
    overwrite: OverwriteBehavior,
    path: Seq<char>,
) -> bool {
    overwrite is AllowOverwrite || !m.contains_key(path)
}

/// The one filesystem outcome of a successful `write`: the target path maps
/// to exactly the new bytes, durably synced, and every other path is as it
/// was before.
pub open spec fn write_success_post(
    m0: Map<Seq<char>, NodeView>,
    path: Seq<char>,
    data: Seq<u8>,
) -> Map<Seq<char>, NodeView> {
    m0.insert(path, NodeView::File { data, synced: true })
}

} // verus!
