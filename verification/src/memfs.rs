//! In-memory model of the slice of the filesystem that the library touches.
//!
//! The model is a flat map from full path names to nodes; a node is either a
//! regular file (its bytes plus a mark saying whether they have been durably
//! synced) or a directory. Paths are treated as atoms: the model does not
//! tie a file to the directory entries along its path. This is exactly the
//! state the atomic-commit protocol manipulates, and the contracts of
//! [`replace_atomic`] and [`move_atomic`] state the protocol's one-step
//! visibility guarantee over it.

use vstd::prelude::*;
use vstd::hash_map::StringHashMap;
use vstd::string::StringExecFns;

verus! {

/// The failure cases of the modeled filesystem operations, mirroring the
/// kinds of I/O error the protocol distinguishes.
#[derive(Clone, Copy, Debug, PartialEq, Eq, Structural)]
pub enum IoErrorKind {
    /// The destination of a create-only operation already exists. Callers
    /// branch on this case, so it is kept apart from all other failures.
    AlreadyExists,
    /// The named path does not exist.
    NotFound,
    /// Any other failure (for instance, a file operation applied to a
    /// directory).
    Other,
}

/// What a path names: a regular file with its bytes and durability mark, or
/// a directory.
pub enum Node {
    /// A regular file. `synced` records whether `data` has been durably
    /// flushed to storage.
    File { data: Vec<u8>, synced: bool },
    /// A directory.
    Dir,
}

/// Spec-level picture of a [`Node`].
#[verifier::ext_equal]
pub enum NodeView {
    /// A regular file's bytes and durability mark.
    File { data: Seq<u8>, synced: bool },
    /// A directory.
    Dir,
}

impl View for Node {
    type V = NodeView;

    open spec fn view(&self) -> NodeView {
        match self {
            Node::File { data, synced } => NodeView::File { data: data@, synced: *synced },
            Node::Dir => NodeView::Dir,
        }
    }
}

/// `true` when `m` holds a regular file at `p`.
pub open spec fn is_file_at(m: Map<Seq<char>, NodeView>, p: Seq<char>) -> bool {
    m.contains_key(p) && m[p] is File
}

/// `true` when `m` holds a directory at `p`.
pub open spec fn is_dir_at(m: Map<Seq<char>, NodeView>, p: Seq<char>) -> bool {
    m.contains_key(p) && m[p] is Dir
}

/// The bytes of the file at `p` in `m`.
pub open spec fn file_data(m: Map<Seq<char>, NodeView>, p: Seq<char>) -> Seq<u8> {
    m[p]->File_data
}

/// The modeled filesystem: a map from path names to nodes.
pub struct Fs {
    files: StringHashMap<Node>,
}

impl View for Fs {
    type V = Map<Seq<char>, NodeView>;

    closed spec fn view(&self) -> Map<Seq<char>, NodeView> {
        self.files@.map_values(|n: Node| n@)
    }
}

fn clone_bytes(v: &Vec<u8>) -> (r: Vec<u8>)
    ensures
        r@ == v@,
{
    let mut r: Vec<u8> = Vec::new();
    let mut i: usize = 0;
    while i < v.len()
        invariant
            i <= v.len(),
            r@ == v@.subrange(0, i as int),
        decreases v.len() - i,
    {
        r.push(v[i]);
        proof {
            assert(v@.subrange(0, i + 1 as int) =~= v@.subrange(0, i as int).push(v@[i as int]));
        }
        i = i + 1;
    }
    proof {
        assert(r@ =~= v@);
    }
    r
}

impl Fs {
    /// An empty filesystem.
    pub fn new() -> (fs: Fs)
        ensures
            fs@ == Map::<Seq<char>, NodeView>::empty(),
    {
        let fs = Fs { files: StringHashMap::new() };
        proof {
            assert(fs@ =~= Map::<Seq<char>, NodeView>::empty());
        }
        fs
    }

    /// `true` when `path` names a file or a directory.
    pub fn contains(&self, path: &str) -> (r: bool)
        ensures
            r == self@.contains_key(path@),
    {
        self.files.contains_key(path)
    }

    /// Creates the directory `path`. Fails with `AlreadyExists` if anything
    /// already bears that name.
    pub fn create_dir(&mut self, path: &str) -> (r: Result<(), IoErrorKind>)
        ensures
            old(self)@.contains_key(path@) ==> r == Err::<(), IoErrorKind>(
                IoErrorKind::AlreadyExists,
            ) && final(self)@ == old(self)@,
            !old(self)@.contains_key(path@) ==> r == Ok::<(), IoErrorKind>(()) && final(self)@
                == old(self)@.insert(path@, NodeView::Dir),
    {
        if self.files.contains_key(path) {
            Err(IoErrorKind::AlreadyExists)
        } else {
            self.files.insert(String::from_str(path), Node::Dir);
            proof {
                assert(self@ =~= old(self)@.insert(path@, NodeView::Dir));
            }
            Ok(())
        }
    }

    /// Creates an empty, not-yet-synced file at `path`, truncating a file
    /// already there. Fails with `Other` if `path` names a directory.
    pub fn create_file(&mut self, path: &str) -> (r: Result<(), IoErrorKind>)
        ensures
            is_dir_at(old(self)@, path@) ==> r == Err::<(), IoErrorKind>(IoErrorKind::Other)
                && final(self)@ == old(self)@,
            !is_dir_at(old(self)@, path@) ==> r == Ok::<(), IoErrorKind>(()) && final(self)@
                == old(self)@.insert(
                path@,
                NodeView::File { data: Seq::empty(), synced: false },
            ),
    {
        match self.files.get(path) {
            Some(node) => {
                if let Node::Dir = node {
                    return Err(IoErrorKind::Other);
                }
            },
            None => {},
        }
        self.files.insert(String::from_str(path), Node::File { data: Vec::new(), synced: false });
        proof {
            assert(self@ =~= old(self)@.insert(
                path@,
                NodeView::File { data: Seq::empty(), synced: false },
            ));
        }
        Ok(())
    }

    /// Replaces the bytes of the file at `path` with `data`, marking it
    /// not yet synced. Fails with `NotFound` if nothing bears that name and
    /// with `Other` if `path` names a directory.
    pub fn write_file(&mut self, path: &str, data: Vec<u8>) -> (r: Result<(), IoErrorKind>)
        ensures
            !old(self)@.contains_key(path@) ==> r == Err::<(), IoErrorKind>(IoErrorKind::NotFound)
                && final(self)@ == old(self)@,
            is_dir_at(old(self)@, path@) ==> r == Err::<(), IoErrorKind>(IoErrorKind::Other)
                && final(self)@ == old(self)@,
            is_file_at(old(self)@, path@) ==> r == Ok::<(), IoErrorKind>(()) && final(self)@
                == old(self)@.insert(path@, NodeView::File { data: data@, synced: false }),
    {
        match self.files.get(path) {
            None => Err(IoErrorKind::NotFound),
            Some(node) => {
                if let Node::Dir = node {
                    return Err(IoErrorKind::Other);
                }
                self.files.insert(
                    String::from_str(path),
                    Node::File { data, synced: false },
                );
                proof {
                    assert(self@ =~= old(self)@.insert(
                        path@,
                        NodeView::File { data: data@, synced: false },
                    ));
                }
                Ok(())
            },
        }
    }

    /// Durably syncs the file at `path`: its bytes are kept and marked
    /// synced. Fails with `NotFound` if nothing bears that name and with
    /// `Other` if `path` names a directory.
    pub fn sync_file(&mut self, path: &str) -> (r: Result<(), IoErrorKind>)
        ensures
            !old(self)@.contains_key(path@) ==> r == Err::<(), IoErrorKind>(IoErrorKind::NotFound)
                && final(self)@ == old(self)@,
            is_dir_at(old(self)@, path@) ==> r == Err::<(), IoErrorKind>(IoErrorKind::Other)
                && final(self)@ == old(self)@,
            is_file_at(old(self)@, path@) ==> r == Ok::<(), IoErrorKind>(()) && final(self)@
                == old(self)@.insert(
                path@,
                NodeView::File { data: file_data(old(self)@, path@), synced: true },
            ),
    {
        match self.files.get(path) {
            None => Err(IoErrorKind::NotFound),
            Some(node) => {
                match node {
                    Node::Dir => Err(IoErrorKind::Other),
                    Node::File { data, synced: _ } => {
                        let copied = clone_bytes(data);
                        self.files.insert(
                            String::from_str(path),
                            Node::File { data: copied, synced: true },
                        );
                        proof {
                            assert(self@ =~= old(self)@.insert(
                                path@,
                                NodeView::File {
                                    data: file_data(old(self)@, path@),
                                    synced: true,
                                },
                            ));
                        }
                        Ok(())
                    },
                }
            },
        }
    }

    /// The bytes of the file at `path`. Fails with `NotFound` if nothing
    /// bears that name and with `Other` if `path` names a directory.
    pub fn read_file<'a>(&'a self, path: &str) -> (r: Result<&'a Vec<u8>, IoErrorKind>)
        ensures
            !self@.contains_key(path@) ==> r == Err::<&'a Vec<u8>, IoErrorKind>(
                IoErrorKind::NotFound,
            ),
            is_dir_at(self@, path@) ==> r == Err::<&'a Vec<u8>, IoErrorKind>(IoErrorKind::Other),
            is_file_at(self@, path@) ==> (r matches Ok(d) && d@ == file_data(self@, path@)),
    {
        match self.files.get(path) {
            None => Err(IoErrorKind::NotFound),
            Some(node) => match node {
                Node::Dir => Err(IoErrorKind::Other),
                Node::File { data, synced: _ } => Ok(data),
            },
        }
    }

    /// Removes the file at `path`. Fails with `NotFound` if nothing bears
    /// that name and with `Other` if `path` names a directory.
    pub fn remove_file(&mut self, path: &str) -> (r: Result<(), IoErrorKind>)
        ensures
            !old(self)@.contains_key(path@) ==> r == Err::<(), IoErrorKind>(IoErrorKind::NotFound)
                && final(self)@ == old(self)@,
            is_dir_at(old(self)@, path@) ==> r == Err::<(), IoErrorKind>(IoErrorKind::Other)
                && final(self)@ == old(self)@,
            is_file_at(old(self)@, path@) ==> r == Ok::<(), IoErrorKind>(()) && final(self)@
                == old(self)@.remove(path@),
    {
        match self.files.get(path) {
            None => Err(IoErrorKind::NotFound),
            Some(node) => {
                if let Node::Dir = node {
                    return Err(IoErrorKind::Other);
                }
                self.files.remove(path);
                proof {
                    assert(self@ =~= old(self)@.remove(path@));
                }
                Ok(())
            },
        }
    }

    /// Removes the directory at `path`. Fails with `NotFound` if nothing
    /// bears that name and with `Other` if `path` names a file. Since the
    /// model ties no file to the directories along its path, emptiness is
    /// not checked.
    pub fn remove_dir(&mut self, path: &str) -> (r: Result<(), IoErrorKind>)
        ensures
            !old(self)@.contains_key(path@) ==> r == Err::<(), IoErrorKind>(IoErrorKind::NotFound)
                && final(self)@ == old(self)@,
            is_file_at(old(self)@, path@) ==> r == Err::<(), IoErrorKind>(IoErrorKind::Other)
                && final(self)@ == old(self)@,
            is_dir_at(old(self)@, path@) ==> r == Ok::<(), IoErrorKind>(()) && final(self)@
                == old(self)@.remove(path@),
    {
        match self.files.get(path) {
            None => Err(IoErrorKind::NotFound),
            Some(node) => {
                if let Node::File { .. } = node {
                    return Err(IoErrorKind::Other);
                }
                self.files.remove(path);
                proof {
                    assert(self@ =~= old(self)@.remove(path@));
                }
                Ok(())
            },
        }
    }

    fn take_node(&mut self, path: &str) -> (r: Option<Node>)
        ensures
            old(self)@.contains_key(path@) ==> (r matches Some(n) && n@ == old(self)@[path@]
                && final(self)@ == old(self)@.remove(path@)),
            !old(self)@.contains_key(path@) ==> r is None && final(self)@ == old(self)@,
    {
        match self.files.get(path) {
            None => {
                proof {
                    assert(self@ =~= old(self)@);
                }
                None
            },
            Some(node) => {
                let owned = match node {
                    Node::Dir => Node::Dir,
                    Node::File { data, synced } => Node::File {
                        data: clone_bytes(data),
                        synced: *synced,
                    },
                };
                self.files.remove(path);
                proof {
                    assert(self@ =~= old(self)@.remove(path@));
                }
                Some(owned)
            },
        }
    }
}

/// Moves `src` to `dst` in one visible step, silently replacing anything at
/// `dst`. Mirrors an atomic rename: no state is ever observable in which
/// `dst` is missing or partially written.
pub fn replace_atomic(fs: &mut Fs, src: &str, dst: &str) -> (r: Result<(), IoErrorKind>)
    ensures
        !old(fs)@.contains_key(src@) ==> r == Err::<(), IoErrorKind>(IoErrorKind::NotFound)
            && final(fs)@ == old(fs)@,
        old(fs)@.contains_key(src@) ==> r == Ok::<(), IoErrorKind>(()) && final(fs)@ == old(
            fs,
        )@.remove(src@).insert(dst@, old(fs)@[src@]),
{
    match fs.take_node(src) {
        None => Err(IoErrorKind::NotFound),
        Some(node) => {
            fs.put_node(dst, node);
            Ok(())
        },
    }
}

/// Moves `src` to `dst` in one visible step, but only if nothing bears the
/// name `dst`; otherwise fails with `AlreadyExists` and leaves both `src`
/// and `dst` completely untouched. Mirrors an atomic create-only move
/// (a hard link followed by removal of the source).
pub fn move_atomic(fs: &mut Fs, src: &str, dst: &str) -> (r: Result<(), IoErrorKind>)
    ensures
        old(fs)@.contains_key(dst@) ==> r == Err::<(), IoErrorKind>(IoErrorKind::AlreadyExists)
            && final(fs)@ == old(fs)@,
        !old(fs)@.contains_key(dst@) && !old(fs)@.contains_key(src@) ==> r == Err::<
            (),
            IoErrorKind,
        >(IoErrorKind::NotFound) && final(fs)@ == old(fs)@,
        !old(fs)@.contains_key(dst@) && old(fs)@.contains_key(src@) ==> r == Ok::<
            (),
            IoErrorKind,
        >(()) && final(fs)@ == old(fs)@.remove(src@).insert(dst@, old(fs)@[src@]),
{
    if fs.contains(dst) {
        return Err(IoErrorKind::AlreadyExists);
    }
    match fs.take_node(src) {
        None => Err(IoErrorKind::NotFound),
        Some(node) => {
            fs.put_node(dst, node);
            Ok(())
        },
    }
}

impl Fs {
    fn put_node(&mut self, path: &str, node: Node)
        ensures
            final(self)@ == old(self)@.insert(path@, node@),
    {
        self.files.insert(String::from_str(path), node);
        proof {
            assert(self@ =~= old(self)@.insert(path@, node@));
        }
    }
}

} // verus!
