use filekit::options::FileOptions;

#[test]
fn new_is_uninitialized() {
    let o = FileOptions::new();
    assert!(!o.is_initialized());
    let m = o.open_mode();
    assert!(!m.read && !m.write && !m.create && !m.create_new && !m.truncate && !m.append);
}

#[test]
fn read_sets_flag() {
    let o = FileOptions::new().read(true);
    assert!(o.is_initialized());
    let m = o.open_mode();
    assert!(m.read);
    assert!(!m.write && !m.create && !m.create_new && !m.truncate && !m.append);
}

#[test]
fn write_sets_flag() {
    let o = FileOptions::new().write(true);
    assert!(o.is_initialized());
    let m = o.open_mode();
    assert!(m.write);
    assert!(!m.read && !m.create && !m.create_new && !m.truncate && !m.append);
}

#[test]
fn create_sets_flag() {
    let o = FileOptions::new().create(true);
    assert!(o.is_initialized());
    let m = o.open_mode();
    assert!(m.create);
    assert!(!m.read && !m.write && !m.create_new && !m.truncate && !m.append);
}

#[test]
fn exclusive_create_sets_flag() {
    let o = FileOptions::new().exclusive_create(true);
    assert!(o.is_initialized());
    let m = o.open_mode();
    assert!(m.create_new);
    assert!(!m.read && !m.write && !m.create && !m.truncate && !m.append);
}

#[test]
fn truncate_sets_flag() {
    let o = FileOptions::new().truncate(true);
    assert!(o.is_initialized());
    let m = o.open_mode();
    assert!(m.truncate);
    assert!(!m.read && !m.write && !m.create && !m.create_new && !m.append);
}

#[test]
fn append_sets_flag() {
    let o = FileOptions::new().append(true);
    assert!(o.is_initialized());
    let m = o.open_mode();
    assert!(m.append);
    assert!(!m.read && !m.write && !m.create && !m.create_new && !m.truncate);
}

#[test]
fn setter_false_is_noop_on_fresh_set() {
    let o = FileOptions::new();
    assert_eq!(o.read(false), o);
    assert_eq!(o.write(false), o);
    assert_eq!(o.create(false), o);
    assert_eq!(o.exclusive_create(false), o);
    assert_eq!(o.truncate(false), o);
    assert_eq!(o.append(false), o);
    assert!(!o.read(false).is_initialized());
}

#[test]
fn setter_false_never_clears_a_set_flag() {
    let o = FileOptions::new().write(true);
    let p = o.write(false);
    assert_eq!(p, o);
    assert!(p.open_mode().write);
}

#[test]
fn flags_accumulate_across_setters() {
    let o = FileOptions::new().create(true).write(true).truncate(true);
    assert!(o.is_initialized());
    let m = o.open_mode();
    assert!(m.create && m.write && m.truncate);
    assert!(!m.read && !m.create_new && !m.append);
}

#[test]
fn combine_merges_intents() {
    let a = FileOptions::new().create(true);
    let b = FileOptions::new().write(true);
    let c = a.combine(b);
    assert!(c.is_initialized());
    let m = c.open_mode();
    assert!(m.create && m.write);
    assert!(!m.read && !m.create_new && !m.truncate && !m.append);
}

#[test]
fn combine_keeps_uninitialized_sentinel() {
    let a = FileOptions::new();
    let b = FileOptions::new().write(true);
    assert!(!a.combine(b).is_initialized());
    assert!(!b.combine(a).is_initialized());
    assert!(!a.combine(a).is_initialized());
}
