use portfolio::auth::{admin_gate, login, LoginOutcome};
use portfolio::form::{FieldAction, FieldKind, ProjectForm, kind_of_field};
use portfolio::group::{delete_exhibitions_by_year, exhibitions_by_year, text_less, year_string};
use portfolio::models::{DeleteExhibitionAdminTemp, Exhibition, LoginForm};

#[test]
fn new_form_is_empty_with_a_fresh_folder() {
    let f = ProjectForm::start(false, "/srv");
    assert_eq!(f.dir.chars().count(), 6);
    assert!(f.dir.chars().all(|c| c.is_ascii_alphanumeric() || c == '_' || c == '-'));
    assert_eq!(f.folder, format!("/srv/templates/static/images/{}", f.dir));
    assert_eq!(f.id, 0);
    assert!(f.title.is_empty() && f.video_link.is_none() && f.saved_files.is_empty());
}

#[test]
fn field_actions() {
    let new = ProjectForm::start(false, "/srv");
    let edit = ProjectForm::start(true, "/srv");
    assert_eq!(new.on_field(Some("title")), FieldAction::ReadValue);
    assert_eq!(new.on_field(Some("files")), FieldAction::SaveFile);
    assert_eq!(edit.on_field(Some("files")), FieldAction::Skip);
    assert_eq!(new.on_field(Some("unknown")), FieldAction::Skip);
    assert_eq!(new.on_field(None), FieldAction::Skip);
    assert_eq!(kind_of_field("video_link"), FieldKind::VideoLink);
}

#[test]
fn form_fields_fill_the_project() {
    let mut f = ProjectForm::start(true, "/srv");
    f.set_text("id", &b"42".to_vec());
    f.set_text("title", &b"First".to_vec());
    f.set_text("title", &b"New Title".to_vec());
    f.set_text("date", &b"2026-02".to_vec());
    f.set_text("video_link", &b"https://v.example".to_vec());
    f.set_text("medium", &b"New Medium".to_vec());
    f.set_text("duration", &b"9:99".to_vec());
    f.set_text("concept", &vec![b'a', 0xff, b'b']);
    f.set_text("dir", &b"old_dir".to_vec());
    f.set_text("other", &b"ignored".to_vec());
    let p = f.finish();
    assert_eq!(p.id, 42);
    assert_eq!(p.title, "New Title");
    assert_eq!(p.date, "2026-02");
    assert_eq!(p.video_link.as_deref(), Some("https://v.example"));
    assert_eq!(p.medium.as_deref(), Some("New Medium"));
    assert_eq!(p.duration.as_deref(), Some("9:99"));
    assert_eq!(p.concept, "a\u{fffd}b");
    assert_eq!(p.dir, "old_dir");
}

#[test]
fn strict_fields_are_checked() {
    assert!(ProjectForm::can_take("id", &b"12".to_vec()));
    assert!(!ProjectForm::can_take("id", &b"x".to_vec()));
    assert!(!ProjectForm::can_take("date", &vec![0xff]));
    assert!(ProjectForm::can_take("title", &vec![0xff]));
}

#[test]
fn stored_files_are_listed() {
    let mut f = ProjectForm::start(false, "/srv");
    let (path, name) = f.file_target(Some("a.jpg"));
    assert_eq!(name, "a.jpg");
    assert_eq!(path, format!("{}/a.jpg", f.folder));
    f.record_file(name);
    let (_, unnamed) = f.file_target(None);
    assert_eq!(unnamed, "pic");
    f.record_file(unnamed);
    assert_eq!(f.finish().saved_files, vec!["a.jpg".to_string(), "pic".to_string()]);
}

fn exhibition(title: &str, start: &str) -> Exhibition {
    Exhibition {
        id: None,
        title: title.to_string(),
        location: None,
        link: None,
        kind: 0,
        start_date: start.to_string(),
        till: String::new(),
    }
}

#[test]
fn exhibitions_grouped_newest_year_first() {
    let groups = exhibitions_by_year(vec![
        exhibition("a", "2024-05-01"),
        exhibition("b", "2026-01-01"),
        exhibition("c", "2024-01-01"),
        exhibition("d", "2025-03-03"),
        exhibition("e", "2026-12-12"),
    ]);
    let years: Vec<&str> = groups.iter().map(|g| g.year.as_str()).collect();
    assert_eq!(years, vec!["2026", "2025", "2024"]);
    let titles: Vec<Vec<&str>> =
        groups.iter().map(|g| g.items.iter().map(|e| e.title.as_str()).collect()).collect();
    assert_eq!(titles, vec![vec!["b", "e"], vec!["d"], vec!["a", "c"]]);
}

#[test]
fn short_dates_are_their_own_year() {
    let groups = exhibitions_by_year(vec![exhibition("x", "99"), exhibition("y", "")]);
    let years: Vec<&str> = groups.iter().map(|g| g.year.as_str()).collect();
    assert_eq!(years, vec!["99", ""]);
    assert!(exhibitions_by_year(vec![]).is_empty());
}

#[test]
fn admin_exhibitions_grouped() {
    let groups = delete_exhibitions_by_year(vec![
        DeleteExhibitionAdminTemp { id: 1, name: "n".to_string(), start_date: "2020-01".to_string() },
        DeleteExhibitionAdminTemp { id: 2, name: "m".to_string(), start_date: "2021-01".to_string() },
    ]);
    assert_eq!(groups[0].year, "2021");
    assert_eq!(groups[1].items[0].id, 1);
}

#[test]
fn year_and_order() {
    assert_eq!(year_string("2026-01-01"), "2026");
    assert_eq!(year_string("26"), "26");
    assert!(text_less("2024", "2025"));
    assert!(text_less("202", "2024"));
    assert!(!text_less("2025", "2025"));
    assert!(!text_less("b", "a"));
    for (a, b) in [("a", "b"), ("ab", "a"), ("", "x"), ("é", "e")] {
        assert_eq!(text_less(a, b), a < b);
    }
}

#[test]
fn login_needs_the_site_password() {
    let form = LoginForm { password: "test-password".to_string() };
    assert_eq!(login(&form, "test-password"), LoginOutcome::Granted);
    let wrong = LoginForm { password: "wrong".to_string() };
    assert_eq!(login(&wrong, "test-password"), LoginOutcome::Denied);
}

#[test]
fn admin_routes_need_a_login() {
    assert!(admin_gate(true).is_none());
    let r = admin_gate(false).unwrap();
    assert_eq!(r.status, 302);
    assert_eq!(r.location, "/admin");
}
