use portfolio::error::{AppError, IoErrorKind};
use portfolio::json::parse_string_list;
use portfolio::paths::{
    collision_step, file_name_of, is_absolute_path, join_path, resolve_filename_collision, split_stem_extension,
    MAX_COLLISION_COUNTER,
};
use portfolio::pictures::{image_to_remove, pictures_json, project_images_dir, remove_picture, ImageUpload};

#[test]
fn stems_and_extensions_follow_std() {
    assert_eq!(split_stem_extension("a.tar.gz"), ("a.tar".to_string(), Some("gz".to_string())));
    assert_eq!(split_stem_extension(".bashrc"), (".bashrc".to_string(), None));
    assert_eq!(split_stem_extension("a."), ("a".to_string(), Some("".to_string())));
    assert_eq!(split_stem_extension("noext"), ("noext".to_string(), None));
    for name in ["a.tar.gz", ".bashrc", "a.", "noext", "...", "x.y"] {
        let p = std::path::Path::new(name);
        let (stem, ext) = split_stem_extension(name);
        assert_eq!(Some(stem.as_str()), p.file_stem().and_then(|s| s.to_str()));
        assert_eq!(ext.as_deref(), p.extension().and_then(|s| s.to_str()));
    }
}

#[test]
fn absolute_paths() {
    assert!(is_absolute_path("/srv/db"));
    assert!(!is_absolute_path("srv/db"));
    assert!(!is_absolute_path(""));
}

#[test]
fn join_adds_a_component() {
    assert_eq!(join_path("/srv", "a.jpg"), "/srv/a.jpg");
    assert_eq!(join_path("/srv/", "a.jpg"), "/srv/a.jpg");
    assert_eq!(join_path("/srv", "/abs"), "/abs");
}

#[test]
fn free_name_is_kept() {
    let dir = "/nonexistent_portfolio_dir";
    assert_eq!(resolve_filename_collision(dir, "photo.jpg").0, "/nonexistent_portfolio_dir/photo.jpg");
    assert_eq!(resolve_filename_collision(dir, "photo").0, "/nonexistent_portfolio_dir/photo");
    assert_eq!(resolve_filename_collision(dir, "").0, "/nonexistent_portfolio_dir/file");
    assert_eq!(resolve_filename_collision(dir, "..").0, "/nonexistent_portfolio_dir/file");
    assert_eq!(resolve_filename_collision(dir, "sub/pic.png").0, "/nonexistent_portfolio_dir/pic.png");
    assert_eq!(resolve_filename_collision(dir, "../x.jpg").0, "/nonexistent_portfolio_dir/x.jpg");
}

#[test]
fn taken_name_gets_a_number() {
    // `/tmp` exists on every Unix system; `/tmp_1` normally does not.
    let r = resolve_filename_collision("/", "tmp").0;
    assert!(r.starts_with("/tmp_"));
    assert_ne!(r, "/tmp");
}

#[test]
fn images_folder() {
    assert_eq!(project_images_dir("/srv", "abc123"), "/srv/templates/static/images/abc123");
}

#[test]
fn upload_appends_new_pictures_after_old_ones() {
    let mut up = ImageUpload::start("/nonexistent_root", "d1", "[\"a.jpg\"]");
    assert_eq!(up.images_dir, "/nonexistent_root/templates/static/images/d1");
    assert_eq!(up.saved_files, vec!["a.jpg".to_string()]);
    assert!(ImageUpload::accepts(Some("images")));
    assert!(!ImageUpload::accepts(Some("files")));
    assert!(!ImageUpload::accepts(None));
    let (path, name, _) = up.target("my pic!.jpg");
    assert_eq!(name, "mypic.jpg");
    assert_eq!(path, "/nonexistent_root/templates/static/images/d1/mypic.jpg");
    up.record(name);
    let (resp, json) = up.finish();
    assert_eq!(resp.saved_files, vec!["a.jpg".to_string(), "mypic.jpg".to_string()]);
    assert_eq!(json, "[\"a.jpg\",\"mypic.jpg\"]");
}

#[test]
fn unreadable_picture_list_counts_as_empty_for_upload() {
    let up = ImageUpload::start("/r", "d", "not json");
    assert!(up.saved_files.is_empty());
}

#[test]
fn deleting_a_picture() {
    let (saved, path) = image_to_remove("/r", "d", "[\"a.jpg\",\"b.jpg\"]", "b.jpg").ok().unwrap();
    assert_eq!(saved, vec!["a.jpg".to_string(), "b.jpg".to_string()]);
    assert_eq!(path, "/r/templates/static/images/d/b.jpg");
    let (resp, json) = remove_picture(saved, "b.jpg");
    assert_eq!(resp.saved_files, vec!["a.jpg".to_string()]);
    assert_eq!(json, "[\"a.jpg\"]");
}

#[test]
fn deleting_removes_every_copy_and_keeps_order() {
    let saved = vec!["x".to_string(), "y".to_string(), "x".to_string(), "z".to_string()];
    let (resp, _) = remove_picture(saved, "x");
    assert_eq!(resp.saved_files, vec!["y".to_string(), "z".to_string()]);
}

#[test]
fn deleting_an_unknown_picture_is_an_error() {
    match image_to_remove("/r", "d", "[\"a.jpg\"]", "b.jpg") {
        Err(AppError::FileSystem(f)) => {
            assert_eq!(f.kind, IoErrorKind::NotFound);
            assert_eq!(f.message, "Image not found in project");
        },
        _ => panic!("expected a file system error"),
    }
    match image_to_remove("/r", "d", "{oops", "b.jpg") {
        Err(AppError::Json(m)) => assert!(!m.is_empty()),
        _ => panic!("expected a JSON error"),
    }
}

#[test]
fn remove_after_upload_restores_the_list() {
    let mut up = ImageUpload::start("/nonexistent_root", "d", "[\"a.jpg\",\"b.jpg\"]");
    let (_, name, _) = up.target("new.png");
    up.record(name.clone());
    let (resp, _) = up.finish();
    let (after, json) = remove_picture(resp.saved_files, &name);
    assert_eq!(after.saved_files, vec!["a.jpg".to_string(), "b.jpg".to_string()]);
    assert_eq!(json, "[\"a.jpg\",\"b.jpg\"]");
}

#[test]
fn picture_list_json() {
    assert_eq!(pictures_json(&vec![]), "[]");
    assert_eq!(pictures_json(&vec!["q\"x".to_string()]), "[\"q\\\"x\"]");
}

#[test]
fn upload_to_a_taken_name_gets_a_number() {
    // `/etc` exists on every Unix system; `/etc_1` normally does not.
    let up = ImageUpload { images_dir: "/".to_string(), saved_files: vec![], newly_added: vec![] };
    let (path, name, _) = up.target("e t c");
    assert!(name.starts_with("etc_"));
    assert_eq!(path, format!("/{}", name));
}

#[test]
fn search_steps_on_only_while_taken() {
    assert_eq!(collision_step(0, true), Some(1));
    assert_eq!(collision_step(0, false), None);
    assert_eq!(collision_step(41, true), Some(42));
    assert_eq!(collision_step(MAX_COLLISION_COUNTER - 1, true), Some(MAX_COLLISION_COUNTER));
    assert_eq!(collision_step(MAX_COLLISION_COUNTER, true), None);
    assert_eq!(collision_step(MAX_COLLISION_COUNTER, false), None);
}

#[test]
fn final_components_follow_std() {
    for p in ["../x.jpg", "foo.txt/.", "foo.txt/.//", "a/..", "..", ".", "", "/", "a//b", "/usr/bin/", "./a", "./."] {
        let expected = std::path::Path::new(p).file_name().and_then(|n| n.to_str()).map(|n| n.to_string());
        assert_eq!(file_name_of(p), expected, "path {:?}", p);
    }
    assert_eq!(file_name_of("../x.jpg"), Some("x.jpg".to_string()));
    assert_eq!(file_name_of("foo.txt/."), Some("foo.txt".to_string()));
    assert_eq!(file_name_of(".."), None);
    assert_eq!(file_name_of(""), None);
}

#[test]
fn joins_follow_std() {
    assert_eq!(join_path("", "a"), "a");
    assert_eq!(join_path("d", ""), "d/");
    assert_eq!(join_path("d/", "/e"), "/e");
}

#[test]
fn stored_picture_list_reads_back() {
    let list = vec!["a.jpg".to_string(), "q\"x\\y".to_string(), "\u{1}\n\u{e9}".to_string()];
    let text = pictures_json(&list);
    assert_eq!(parse_string_list(&text), Ok(list.clone()));
    let (resp, json) = remove_picture(list, "a.jpg");
    assert_eq!(parse_string_list(&json), Ok(resp.saved_files));
}

#[test]
fn empty_folder_keeps_the_name() {
    let dir = "/nonexistent_portfolio_dir/img_dir";
    assert_eq!(resolve_filename_collision(dir, "test.jpg").0, format!("{}/test.jpg", dir));
    let up = ImageUpload { images_dir: dir.to_string(), saved_files: vec![], newly_added: vec![] };
    let (path, name, _) = up.target("test.jpg");
    assert_eq!(name, "test.jpg");
    assert_eq!(path, format!("{}/test.jpg", dir));
    let (path, name, _) = up.target("../../etc/passwd");
    assert_eq!(name, "....etcpasswd");
    assert_eq!(path, format!("{}/....etcpasswd", dir));
}

#[test]
fn counter_goes_before_the_last_extension() {
    assert_eq!(resolve_filename_collision("/nonexistent_portfolio_dir", "archive.tar.gz").0, "/nonexistent_portfolio_dir/archive.tar.gz");
    // `/tmp` exists; `/tmp_1` normally does not.
    assert_eq!(resolve_filename_collision("/", "tmp").0, "/tmp_1");
}
