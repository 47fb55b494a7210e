use actix_fs::{
    create_dir, create_dir_all, remove_dir, remove_file, rename, File, FsOperation, OpenOptions,
};

#[test]
fn create_dir_builds_owned_unit_of_work() {
    let op = create_dir(String::from("foo"));
    assert_eq!(op, FsOperation::CreateDir(String::from("foo")));
}

#[test]
fn create_dir_all_builds_owned_unit_of_work() {
    let op = create_dir_all(String::from("foo/bar"));
    assert_eq!(op, FsOperation::CreateDirAll(String::from("foo/bar")));
}

#[test]
fn remove_dir_builds_owned_unit_of_work() {
    let op = remove_dir(String::from("foo"));
    assert_eq!(op, FsOperation::RemoveDir(String::from("foo")));
}

#[test]
fn remove_file_builds_owned_unit_of_work() {
    let op = remove_file(String::from("a.txt"));
    assert_eq!(op, FsOperation::RemoveFile(String::from("a.txt")));
}

#[test]
fn rename_keeps_source_and_destination_in_order() {
    let op = rename(String::from("a"), String::from("b"));
    assert_eq!(op, FsOperation::Rename(String::from("a"), String::from("b")));
}

#[test]
fn file_open_snapshots_read_only_flags() {
    let op = File::<u32>::open(String::from("a.txt"));
    let expected = OpenOptions {
        read: true,
        write: false,
        append: false,
        truncate: false,
        create: false,
        create_new: false,
    };
    assert_eq!(op, FsOperation::Open(String::from("a.txt"), expected));
}

#[test]
fn file_create_truncates_rather_than_appends() {
    let op = File::<u32>::create(String::from("a.txt"));
    let expected = OpenOptions {
        read: false,
        write: true,
        append: false,
        truncate: true,
        create: true,
        create_new: false,
    };
    assert_eq!(op, FsOperation::Open(String::from("a.txt"), expected));
}
