use filekit::error::FileError;
use filekit::options::FileOptions;

#[test]
fn check_open_rejects_uninitialized() {
    let o = FileOptions::new();
    let r = o.check_open("file.txt");
    match r {
        Ok(_) => panic!("an uninitialized option set must be rejected"),
        Err(e) => {
            assert_eq!(e.message, "Options uninitialized");
            assert_eq!(e.file_name, "file.txt");
            assert_eq!(e.file_options, o);
        }
    }
}

#[test]
fn check_open_accepts_create_write() {
    let o = FileOptions::new().create(true).write(true);
    let r = o.check_open("file.txt");
    match r {
        Ok(m) => {
            assert!(m.create && m.write);
            assert!(!m.read && !m.create_new && !m.truncate && !m.append);
        }
        Err(_) => panic!("Create|Write must be accepted"),
    }
}

#[test]
fn check_open_accepts_read_only() {
    let o = FileOptions::new().read(true);
    let r = o.check_open("README.md");
    match r {
        Ok(m) => {
            assert!(m.read);
            assert!(!m.write && !m.create && !m.create_new && !m.truncate && !m.append);
        }
        Err(_) => panic!("Read must be accepted"),
    }
}

#[test]
fn check_open_translates_every_intent() {
    let o = FileOptions::new()
        .read(true)
        .write(true)
        .create(true)
        .exclusive_create(true)
        .truncate(true)
        .append(true);
    let r = o.check_open("file.txt");
    match r {
        Ok(m) => {
            assert!(m.read && m.write && m.create && m.create_new && m.truncate && m.append);
        }
        Err(_) => panic!("a fully initialized option set must be accepted"),
    }
}

#[test]
fn from_io_preserves_context() {
    let o = FileOptions::new().read(true);
    let underlying = std::io::Error::new(std::io::ErrorKind::NotFound, "no such file");
    let e = FileError::from_io(
        "no such file".to_string(),
        o,
        "missing.txt".to_string(),
        underlying,
    );
    assert_eq!(e.message, "no such file");
    assert_eq!(e.file_name, "missing.txt");
    assert_eq!(e.file_options, o);
    assert_eq!(e.underlying_error.kind(), std::io::ErrorKind::NotFound);
}
