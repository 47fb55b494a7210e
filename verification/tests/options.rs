use actix_fs::{FsOperation, OpenOptions};

fn blank() -> OpenOptions {
    OpenOptions {
        read: false,
        write: false,
        append: false,
        truncate: false,
        create: false,
        create_new: false,
    }
}

#[test]
fn new_options_are_all_false() {
    assert_eq!(OpenOptions::new(), blank());
}

#[test]
fn read_sets_only_the_read_flag() {
    let mut o = OpenOptions::new();
    o.read(true);
    assert_eq!(o, OpenOptions { read: true, ..blank() });
    o.read(false);
    assert_eq!(o, blank());
}

#[test]
fn write_sets_only_the_write_flag() {
    let mut o = OpenOptions::new();
    o.write(true);
    assert_eq!(o, OpenOptions { write: true, ..blank() });
}

#[test]
fn append_sets_only_the_append_flag() {
    let mut o = OpenOptions::new();
    o.append(true);
    assert_eq!(o, OpenOptions { append: true, ..blank() });
}

#[test]
fn truncate_sets_only_the_truncate_flag() {
    let mut o = OpenOptions::new();
    o.truncate(true);
    assert_eq!(o, OpenOptions { truncate: true, ..blank() });
}

#[test]
fn create_sets_only_the_create_flag() {
    let mut o = OpenOptions::new();
    o.create(true);
    assert_eq!(o, OpenOptions { create: true, ..blank() });
}

#[test]
fn create_new_sets_only_the_create_new_flag() {
    let mut o = OpenOptions::new();
    o.create_new(true);
    assert_eq!(o, OpenOptions { create_new: true, ..blank() });
}

#[test]
fn setters_chain_on_the_same_builder() {
    let o = *OpenOptions::new().read(true).write(true).create(true);
    assert_eq!(
        o,
        OpenOptions { read: true, write: true, create: true, ..blank() }
    );
}

#[test]
fn open_snapshots_the_flags_at_the_moment_of_the_call() {
    let mut o = OpenOptions::new();
    o.write(true);
    let op = o.open(String::from("a.txt"));
    o.append(true);
    let snapshot = OpenOptions { write: true, ..blank() };
    assert_eq!(op, FsOperation::Open(String::from("a.txt"), snapshot));
    assert_eq!(o, OpenOptions { write: true, append: true, ..blank() });
}
