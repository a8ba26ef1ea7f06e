use rustle::db::fs::{get_all_policies, FsPolicy as PolicyRow};
use rustle::external::fs::interface::{check_path, FileTarget, FsProvider};
use rustle::external::fs::local::{join_path, LocalFs, PathMeta};
use rustle::external::fs::{policy_step, FsService, FsUserError, PolicyStep, DEFAULT_POLICY_ID};
use rustle::types::service::AppService;
use std::path::Path;

fn row(id: i32, extension: &str, meta: &[(&str, &str)]) -> PolicyRow {
    PolicyRow {
        id,
        name: format!("policy {id}"),
        extension: String::from(extension),
        meta: meta.iter().map(|(k, v)| (String::from(*k), String::from(*v))).collect(),
    }
}

fn place(r: Result<FileTarget, rustle::types::err::AppError>) -> String {
    match r {
        Ok(FileTarget::Local(p)) => p,
        Ok(FileTarget::Extension) => panic!("extension"),
        Err(e) => panic!("{}", e.message()),
    }
}

#[test]
fn path_must_be_absolute() {
    for bad in ["", "a", "a/b", "./a", "../a", "__", "__/a"] {
        assert!(!check_path(bad));
    }
    for good in ["/", "/a", "/a/b", "//a", "/.", "/..", "/a/__"] {
        assert!(check_path(good));
    }
}

#[test]
fn first_name_must_not_be_two_underscores() {
    for bad in ["/__", "/__/", "/__/a", "//__", "/./__", "/././/__/x"] {
        assert!(!check_path(bad));
    }
    for good in ["/__user/avatar", "/___", "/_", "/a/__/b", "/../__", "/ __", "/__ "] {
        assert!(check_path(good));
    }
}

#[test]
fn check_path_agrees_with_std_paths() {
    for p in [
        "", "/", "a", "/a", "/__", "/__/x", "/__x", "//__//x", "/./__", "/../__", "/a/../__",
        "__", "/.__", "/__/.", "/./.", "/.//./a",
    ] {
        let path = Path::new(p);
        let expected =
            !path.strip_prefix("/").map_or(true, |x| x.starts_with("__")) && path.is_absolute();
        assert_eq!(check_path(p), expected);
    }
}

#[test]
fn paths_are_joined_as_std_joins_them() {
    for (base, more) in [
        ("/data/", "5"),
        ("/data", "5"),
        ("", "5"),
        ("/data/5", "__user/avatar"),
        ("/data/5", "/etc/passwd"),
        ("/data/5", ""),
        ("/data/5/", ""),
        ("", ""),
        ("/", "a"),
    ] {
        let expected = Path::new(base).join(more);
        assert_eq!(join_path(String::from(base), more), expected.to_str().unwrap());
    }
}

#[test]
fn local_fs_needs_a_writable_directory() {
    let dir = Some(PathMeta { is_dir: true, readonly: false });
    assert_eq!(LocalFs::initialize(String::from("/data"), dir).unwrap().path, "/data/");
    assert_eq!(LocalFs::initialize(String::from("/data/"), dir).unwrap().path, "/data/");
    assert_eq!(LocalFs::initialize(String::from(""), dir).unwrap().path, "/");
    assert!(LocalFs::initialize(String::from("/data"), None).is_err());
    let file = Some(PathMeta { is_dir: false, readonly: false });
    assert!(LocalFs::initialize(String::from("/data"), file).is_err());
    let locked = Some(PathMeta { is_dir: true, readonly: true });
    assert!(LocalFs::initialize(String::from("/data"), locked).is_err());
}

#[test]
fn local_fs_keeps_each_user_in_a_directory() {
    let fs = LocalFs { path: String::from("/data/") };
    assert_eq!(fs.file_path(5, "__user/avatar"), "/data/5/__user/avatar");
    assert_eq!(fs.file_path(-5, "a.txt"), "/data/-5/a.txt");
    assert_eq!(fs.file_path(5, ""), "/data/5/");
    assert_eq!(fs.file_path(5, "/abs/x"), "/abs/x");
    assert_eq!(LocalFs::EXTENSION_NAME, "rustle.builtin.fs.local");
}

#[test]
fn policy_step_reads_the_path_of_local_policies() {
    let local = LocalFs::EXTENSION_NAME;
    assert!(matches!(policy_step(&row(1, "other", &[("path", "/x")])), PolicyStep::Unsupported));
    assert!(matches!(policy_step(&row(1, local, &[])), PolicyStep::Skip));
    assert!(matches!(policy_step(&row(1, local, &[("Path", "/x")])), PolicyStep::Skip));
    match policy_step(&row(1, local, &[("a", "b"), ("path", "/x"), ("path", "/y")])) {
        PolicyStep::Local(p) => assert_eq!(p, "/x"),
        _ => panic!("expected a local policy"),
    }
    let r = row(1, local, &[("a", "b"), ("path", "/x")]);
    assert_eq!(r.meta_get("a"), Some(&String::from("b")));
    assert_eq!(r.meta_get("b"), None);
}

#[test]
fn service_finds_policies_by_id() {
    let mut service = FsService::new();
    assert!(service.get(DEFAULT_POLICY_ID).is_none());
    let fs = LocalFs { path: String::from("/data/") };
    service.register(row(1, LocalFs::EXTENSION_NAME, &[]), FsProvider::LocalProvider(fs));
    service.register(row(2, "ext", &[]), FsProvider::ExtensionProvider {});
    let first = service.get(1).unwrap();
    assert_eq!(first.info.id, 1);
    assert_eq!(first.info.name, "policy 1");
    assert!(matches!(first.instance, FsProvider::LocalProvider(_)));
    assert!(matches!(service.get(2).unwrap().instance, FsProvider::ExtensionProvider {}));
    assert!(service.get(3).is_none());
    let other = LocalFs { path: String::from("/other/") };
    service.register(row(1, LocalFs::EXTENSION_NAME, &[]), FsProvider::LocalProvider(other));
    assert_eq!(place(FsProvider::get_file(&service, 1, 9, "f")), "/other/9/f");
    assert_eq!(FsService::name(), "FsService");
}

#[test]
fn upload_checks_the_path_of_a_user() {
    let mut service = FsService::new();
    let fs = LocalFs { path: String::from("/data/") };
    service.register(row(1, LocalFs::EXTENSION_NAME, &[]), FsProvider::LocalProvider(fs));
    let invalid = FsUserError::PathNameNotValid.to_error();
    assert_eq!(FsProvider::upload_file(&service, 1, 5, "rel/x").err(), Some(invalid));
    assert_eq!(FsProvider::upload_file(&service, 1, 5, "/__/x").err(), Some(invalid));
    assert_eq!(FsProvider::upload_file(&service, 9, 5, "rel/x").err(), Some(invalid));
    let missing = FsUserError::PolicyNotFound.to_error();
    assert_eq!(FsProvider::upload_file(&service, 9, 5, "/a").err(), Some(missing));
    assert_eq!(FsProvider::upload_file_internal(&service, 9, 5, "a").err(), Some(missing));
    assert_eq!(place(FsProvider::upload_file(&service, 1, 5, "/a/b")), "/a/b");
    assert_eq!(
        place(FsProvider::upload_file_internal(&service, 1, 5, "__user/avatar")),
        "/data/5/__user/avatar"
    );
    assert_eq!(place(FsProvider::get_file(&service, 1, 5, "__user/avatar")), "/data/5/__user/avatar");
}

#[test]
fn extension_policies_have_no_place() {
    let mut service = FsService::new();
    service.register(row(2, "ext", &[]), FsProvider::ExtensionProvider {});
    assert!(matches!(
        FsProvider::upload_file_internal(&service, 2, 5, "a"),
        Ok(FileTarget::Extension)
    ));
}

#[test]
fn policies_are_read_with_one_statement() {
    let q = get_all_policies();
    assert_eq!(q.sql, "SELECT * FROM fs_policies");
    assert!(q.binds.is_empty());
}
