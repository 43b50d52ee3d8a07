use atomicwrites::{
    move_atomic, replace_atomic, safe_parent, AllowOverwrite, AtomicFile, DisallowOverwrite, Error,
    Fs, IoErrorKind,
};

fn ok_outcome(bytes: &[u8]) -> Result<((), Vec<u8>), ()> {
    Ok(((), bytes.to_vec()))
}

#[test]
fn test_simple_allow_override() {
    let mut fs = Fs::new();
    fs.create_dir("wd").unwrap();
    let path = "wd/haha";

    let af = AtomicFile::new(path, AllowOverwrite);
    af.write::<(), ()>(&mut fs, "scratch-0", ok_outcome(b"HELLO")).unwrap();
    af.write::<(), ()>(&mut fs, "scratch-1", ok_outcome(b"HELLO")).unwrap();

    assert_eq!(fs.read_file(path).unwrap().as_slice(), b"HELLO");
}

#[test]
fn test_simple_disallow_override() {
    let mut fs = Fs::new();
    fs.create_dir("wd").unwrap();
    let path = "wd/haha";

    let af = AtomicFile::new(path, DisallowOverwrite);
    af.write::<(), ()>(&mut fs, "scratch-0", ok_outcome(b"HELLO")).unwrap();
    assert!(af.write::<(), ()>(&mut fs, "scratch-1", ok_outcome(b"HELLO")).is_err());

    assert_eq!(fs.read_file(path).unwrap().as_slice(), b"HELLO");
}

#[test]
fn test_allowed_pathtypes() {
    AtomicFile::new("haha", DisallowOverwrite);
    let owned = String::from("haha");
    AtomicFile::new(owned.as_str(), DisallowOverwrite);
    AtomicFile::new(&owned, DisallowOverwrite);
}

#[test]
fn test_unicode() {
    let dmitri = "Дмитрий";
    let greeting = format!("HELLO {}", dmitri);

    let mut fs = Fs::new();
    let af = AtomicFile::new(dmitri, DisallowOverwrite);
    af.write::<(), ()>(&mut fs, "scratch-0", ok_outcome(greeting.as_bytes())).unwrap();

    assert_eq!(fs.read_file(dmitri).unwrap().as_slice(), greeting.as_bytes());
}

#[test]
fn test_write_returns_callback_value() {
    let mut fs = Fs::new();
    let af = AtomicFile::new("out.txt", AllowOverwrite);
    let outcome: Result<(u32, Vec<u8>), ()> = Ok((42, b"x".to_vec()));
    let got = af.write(&mut fs, "scratch-0", outcome).unwrap();
    assert_eq!(got, 42);
}

#[test]
fn test_new_default_tmpdir_is_parent() {
    let af = AtomicFile::new("a/b/c.txt", AllowOverwrite);
    assert_eq!(af.path(), "a/b/c.txt");
    assert_eq!(af.tmpdir.as_str(), "a/b");

    let bare = AtomicFile::new("c.txt", AllowOverwrite);
    assert_eq!(bare.tmpdir.as_str(), ".");

    let rooted = AtomicFile::new("/c.txt", AllowOverwrite);
    assert_eq!(rooted.tmpdir.as_str(), "/");
}

#[test]
fn test_safe_parent() {
    assert_eq!(safe_parent("a/b").as_deref(), Some("a"));
    assert_eq!(safe_parent("a/b/c").as_deref(), Some("a/b"));
    assert_eq!(safe_parent("x").as_deref(), Some("."));
    assert_eq!(safe_parent("/x").as_deref(), Some("/"));
    assert_eq!(safe_parent("/"), None);
    assert_eq!(safe_parent(""), None);
}

// The scenario of the overwrite policy: "HELLO" then "WORLD", last write wins.
#[test]
fn test_scenario_allow_overwrite_hello_world() {
    let mut fs = Fs::new();
    let af = AtomicFile::new("out.txt", AllowOverwrite);
    af.write::<(), ()>(&mut fs, "scratch-0", ok_outcome(b"HELLO")).unwrap();
    assert_eq!(fs.read_file("out.txt").unwrap().as_slice(), b"HELLO");
    af.write::<(), ()>(&mut fs, "scratch-1", ok_outcome(b"WORLD")).unwrap();
    assert_eq!(fs.read_file("out.txt").unwrap().as_slice(), b"WORLD");
}

// The scenario of the create-only policy: a pre-existing target is never
// clobbered, and the failure is the already-exists kind.
#[test]
fn test_scenario_disallow_preexisting() {
    let mut fs = Fs::new();
    fs.create_file("out.txt").unwrap();
    fs.write_file("out.txt", b"OLD".to_vec()).unwrap();

    let af = AtomicFile::new("out.txt", DisallowOverwrite);
    let r = af.write::<(), ()>(&mut fs, "scratch-0", ok_outcome(b"NEW"));
    assert!(matches!(r, Err(Error::Internal(IoErrorKind::AlreadyExists))));
    assert_eq!(fs.read_file("out.txt").unwrap().as_slice(), b"OLD");
}

// Create-once: on a fresh path exactly one create-only write lands.
#[test]
fn test_create_once() {
    let mut fs = Fs::new();
    let af = AtomicFile::new("fresh.txt", DisallowOverwrite);
    af.write::<(), ()>(&mut fs, "scratch-0", ok_outcome(b"FIRST")).unwrap();
    let r = af.write::<(), ()>(&mut fs, "scratch-1", ok_outcome(b"SECOND"));
    assert!(matches!(r, Err(Error::Internal(IoErrorKind::AlreadyExists))));
    assert_eq!(fs.read_file("fresh.txt").unwrap().as_slice(), b"FIRST");
}

// Callback isolation: a failing callback leaves the target (created or not)
// exactly as it was, and the error is reported as the caller's own.
#[test]
fn test_callback_error_leaves_target_untouched() {
    let mut fs = Fs::new();
    fs.create_file("out.txt").unwrap();
    fs.write_file("out.txt", b"KEEP".to_vec()).unwrap();

    let af = AtomicFile::new("out.txt", AllowOverwrite);
    let outcome: Result<((), Vec<u8>), &str> = Err("boom");
    let r = af.write(&mut fs, "scratch-0", outcome);
    assert!(matches!(r, Err(Error::User("boom"))));
    assert_eq!(fs.read_file("out.txt").unwrap().as_slice(), b"KEEP");

    let af2 = AtomicFile::new("absent.txt", AllowOverwrite);
    let outcome2: Result<((), Vec<u8>), &str> = Err("boom");
    assert!(af2.write(&mut fs, "scratch-1", outcome2).is_err());
    assert!(!fs.contains("absent.txt"));
}

// Temp cleanup: no scratch directory or file survives a call, whatever its
// outcome.
#[test]
fn test_temp_cleanup() {
    let mut fs = Fs::new();
    let af = AtomicFile::new_with_tmpdir("out.txt", AllowOverwrite, "t");
    af.write::<(), ()>(&mut fs, "s0", ok_outcome(b"DATA")).unwrap();
    assert!(!fs.contains("t/s0"));
    assert!(!fs.contains("t/s0/tmpfile.tmp"));

    let failing: Result<((), Vec<u8>), ()> = Err(());
    let _ = af.write(&mut fs, "s1", failing);
    assert!(!fs.contains("t/s1"));
    assert!(!fs.contains("t/s1/tmpfile.tmp"));

    let af2 = AtomicFile::new_with_tmpdir("out.txt", DisallowOverwrite, "t");
    let r = af2.write::<(), ()>(&mut fs, "s2", ok_outcome(b"LATE"));
    assert!(r.is_err());
    assert!(!fs.contains("t/s2"));
    assert!(!fs.contains("t/s2/tmpfile.tmp"));
}

// Round trip through the primitives directly: replace_atomic moves content
// and consumes the source.
#[test]
fn test_replace_atomic() {
    let mut fs = Fs::new();
    fs.create_file("src.txt").unwrap();
    fs.write_file("src.txt", b"NEW".to_vec()).unwrap();
    fs.create_file("dst.txt").unwrap();
    fs.write_file("dst.txt", b"OLD".to_vec()).unwrap();

    replace_atomic(&mut fs, "src.txt", "dst.txt").unwrap();
    assert_eq!(fs.read_file("dst.txt").unwrap().as_slice(), b"NEW");
    assert!(!fs.contains("src.txt"));

    let r = replace_atomic(&mut fs, "missing.txt", "dst.txt");
    assert_eq!(r, Err(IoErrorKind::NotFound));
    assert_eq!(fs.read_file("dst.txt").unwrap().as_slice(), b"NEW");
}

#[test]
fn test_move_atomic() {
    let mut fs = Fs::new();
    fs.create_file("src.txt").unwrap();
    fs.write_file("src.txt", b"NEW".to_vec()).unwrap();

    move_atomic(&mut fs, "src.txt", "dst.txt").unwrap();
    assert_eq!(fs.read_file("dst.txt").unwrap().as_slice(), b"NEW");
    assert!(!fs.contains("src.txt"));

    fs.create_file("src2.txt").unwrap();
    fs.write_file("src2.txt", b"LOSER".to_vec()).unwrap();
    let r = move_atomic(&mut fs, "src2.txt", "dst.txt");
    assert_eq!(r, Err(IoErrorKind::AlreadyExists));
    assert_eq!(fs.read_file("dst.txt").unwrap().as_slice(), b"NEW");
    assert_eq!(fs.read_file("src2.txt").unwrap().as_slice(), b"LOSER");

    let r = move_atomic(&mut fs, "missing.txt", "elsewhere.txt");
    assert_eq!(r, Err(IoErrorKind::NotFound));
}

// Each error kind of the modeled filesystem operations.
#[test]
fn test_memfs_error_kinds() {
    let mut fs = Fs::new();
    fs.create_dir("d").unwrap();
    assert_eq!(fs.create_dir("d"), Err(IoErrorKind::AlreadyExists));
    assert_eq!(fs.create_file("d"), Err(IoErrorKind::Other));
    assert_eq!(fs.write_file("d", b"x".to_vec()), Err(IoErrorKind::Other));
    assert_eq!(fs.write_file("nope", b"x".to_vec()), Err(IoErrorKind::NotFound));
    assert_eq!(fs.sync_file("nope"), Err(IoErrorKind::NotFound));
    assert_eq!(fs.read_file("nope"), Err(IoErrorKind::NotFound));
    assert_eq!(fs.read_file("d"), Err(IoErrorKind::Other));
    assert_eq!(fs.remove_file("d"), Err(IoErrorKind::Other));
    assert_eq!(fs.remove_dir("nope"), Err(IoErrorKind::NotFound));

    fs.create_file("f").unwrap();
    assert_eq!(fs.remove_dir("f"), Err(IoErrorKind::Other));
    fs.remove_file("f").unwrap();
    assert!(!fs.contains("f"));
    fs.remove_dir("d").unwrap();
    assert!(!fs.contains("d"));
}

// create_file truncates an existing file, like opening for writing anew.
#[test]
fn test_create_file_truncates() {
    let mut fs = Fs::new();
    fs.create_file("f").unwrap();
    fs.write_file("f", b"LONG CONTENT".to_vec()).unwrap();
    fs.create_file("f").unwrap();
    assert_eq!(fs.read_file("f").unwrap().as_slice(), b"");
}
