use portfolio::error::api_err::{ApiError, ApiErrorKind};
use portfolio::error::app_err::{AppError as HandlerError, AppErrorKind};
use portfolio::error::{AppError, IoErrorKind, IoFailure};
use portfolio::json::pictures_or_empty;
use portfolio::queries::{
    admin_delete_exhibitions, admin_delete_projects, admin_edit_project_list, admin_latest_project,
    fetch_project, list_exhibitions, list_projects_index, project_pictures_row, return_project_checked,
};
use portfolio::sql::{
    column_index, get_i8, get_opt_text, get_text, get_u16, sql_error_text, InvalidUtf8, QueryResult,
    SqlError, SqlType, SqlValue,
};

fn cols(names: &[&str]) -> Vec<String> {
    names.iter().map(|s| s.to_string()).collect()
}

fn text(s: &str) -> SqlValue {
    SqlValue::Text(s.as_bytes().to_vec())
}

#[test]
fn column_reads() {
    let c = cols(&["id", "title"]);
    let row = vec![SqlValue::Integer(7), text("Hello")];
    assert_eq!(get_u16(&c, &row, 0).ok(), Some(7));
    assert_eq!(get_text(&c, &row, 1).ok(), Some("Hello".to_string()));
    assert!(matches!(get_u16(&c, &row, 2), Err(SqlError::InvalidColumnIndex(2))));
    match get_text(&c, &row, 0) {
        Err(SqlError::InvalidColumnType(0, n, SqlType::Integer)) => assert_eq!(n, "id"),
        _ => panic!("expected a type error"),
    }
    let big = vec![SqlValue::Integer(70000), SqlValue::Integer(-200)];
    assert!(matches!(get_u16(&c, &big, 0), Err(SqlError::IntegralValueOutOfRange(0, 70000))));
    assert!(matches!(get_i8(&c, &big, 1), Err(SqlError::IntegralValueOutOfRange(1, -200))));
    let bad = vec![SqlValue::Null, SqlValue::Text(vec![0xff, 0xfe])];
    assert!(matches!(get_text(&c, &bad, 1), Err(SqlError::Utf8Error(1, _))));
    assert_eq!(get_opt_text(&c, &bad, 0).ok(), Some(None));
    match get_text(&c, &bad, 0) {
        Err(SqlError::InvalidColumnType(0, _, SqlType::Null)) => {}
        _ => panic!("NULL is no text"),
    }
}

#[test]
fn columns_by_name_ignore_ascii_case() {
    let c = cols(&["id", "Title", "title"]);
    assert_eq!(column_index(&c, "TITLE").ok(), Some(1));
    assert_eq!(column_index(&c, "id").ok(), Some(0));
    match column_index(&c, "missing") {
        Err(SqlError::InvalidColumnName(n)) => assert_eq!(n, "missing"),
        _ => panic!("expected a missing column"),
    }
}

#[test]
fn project_index_rows() {
    let r = QueryResult {
        columns: cols(&["id", "title"]),
        rows: vec![vec![SqlValue::Integer(1), text("One")], vec![SqlValue::Integer(2), text("Two")]],
    };
    let v = list_projects_index(&r).ok().unwrap();
    assert_eq!(v.len(), 2);
    assert_eq!((v[0].id, v[0].title.as_str()), (1, "One"));
    assert_eq!((v[1].id, v[1].title.as_str()), (2, "Two"));

    let edit = admin_edit_project_list(&r).ok().unwrap();
    assert_eq!((edit[1].project_id, edit[1].project_title.as_str()), (2, "Two"));
}

#[test]
fn first_bad_row_is_the_error() {
    let r = QueryResult {
        columns: cols(&["id", "title"]),
        rows: vec![
            vec![SqlValue::Integer(1), text("One")],
            vec![SqlValue::Integer(100000), text("Two")],
            vec![SqlValue::Real, text("Three")],
        ],
    };
    match list_projects_index(&r) {
        Err(AppError::Database(SqlError::IntegralValueOutOfRange(0, 100000))) => {}
        _ => panic!("expected the second row's error"),
    }
}

#[test]
fn exhibitions_rows() {
    let r = QueryResult {
        columns: cols(&["id", "title", "location", "link", "type", "start_date", "till"]),
        rows: vec![vec![
            SqlValue::Integer(3),
            text("Show"),
            SqlValue::Null,
            text("https://example.com"),
            SqlValue::Integer(1),
            text("2026-01-01"),
            text("2026-02-01"),
        ]],
    };
    let v = list_exhibitions(&r).ok().unwrap();
    assert_eq!(v[0].id, Some(3));
    assert_eq!(v[0].location, None);
    assert_eq!(v[0].link.as_deref(), Some("https://example.com"));
    assert_eq!(v[0].kind, 1);
    assert_eq!(v[0].till, "2026-02-01");

    let d = QueryResult {
        columns: cols(&["id", "title", "start_date"]),
        rows: vec![vec![SqlValue::Integer(3), text("Show"), text("2026-01-01")]],
    };
    let del = admin_delete_exhibitions(&d).ok().unwrap();
    assert_eq!((del[0].id, del[0].name.as_str(), del[0].start_date.as_str()), (3, "Show", "2026-01-01"));
}

#[test]
fn delete_project_rows_allow_missing_title() {
    let r = QueryResult {
        columns: cols(&["id", "dir", "title"]),
        rows: vec![vec![SqlValue::Integer(4), text("abc123"), SqlValue::Null]],
    };
    let v = admin_delete_projects(&r).ok().unwrap();
    assert_eq!((v[0].id, v[0].folder_path.as_str(), v[0].name.clone()), (4, "abc123", None));
}

fn project_row(pictures: SqlValue) -> QueryResult {
    QueryResult {
        columns: cols(&["title", "pictures", "video", "concept", "dir", "medium", "duration", "release", "id"]),
        rows: vec![vec![
            text("Json Project"),
            pictures,
            text(""),
            text("Json Concept"),
            text("json_dir"),
            SqlValue::Null,
            text("1:23"),
            text("2026-01"),
            SqlValue::Integer(5),
        ]],
    }
}

#[test]
fn fetch_project_reads_a_row() {
    let p = fetch_project(&project_row(text("[\"a.jpg\",\"b.jpg\"]"))).ok().unwrap();
    assert_eq!(p.title, "Json Project");
    assert_eq!(p.concept, "Json Concept");
    assert_eq!(p.dir, "json_dir");
    assert_eq!(p.id, 5);
    assert_eq!(p.medium, None);
    assert_eq!(p.duration.as_deref(), Some("1:23"));
    assert_eq!(p.saved_files, vec!["a.jpg".to_string(), "b.jpg".to_string()]);

    let p = fetch_project(&project_row(text("garbage"))).ok().unwrap();
    assert!(p.saved_files.is_empty());

    let none = QueryResult { columns: cols(&["title"]), rows: vec![] };
    assert!(matches!(fetch_project(&none), Err(SqlError::QueryReturnedNoRows)));
}

#[test]
fn strict_project_read_refuses_bad_picture_lists() {
    assert!(return_project_checked(&project_row(text("garbage"))).is_none());
    let p = return_project_checked(&project_row(text("[]"))).unwrap().ok().unwrap();
    assert!(p.saved_files.is_empty());
}

#[test]
fn latest_project_by_column_names() {
    let r = QueryResult {
        columns: cols(&["ID", "title", "pictures", "video", "concept", "collaborators", "medium", "duration", "release", "dir"]),
        rows: vec![vec![
            SqlValue::Integer(9),
            text("Latest"),
            text("[\"x.png\"]"),
            SqlValue::Null,
            text("C"),
            SqlValue::Null,
            text("Oil"),
            SqlValue::Null,
            text("2025"),
            text("dd"),
        ]],
    };
    let p = admin_latest_project(&r).ok().unwrap();
    assert_eq!(p.id, 9);
    assert_eq!(p.title, "Latest");
    assert_eq!(p.date, "2025");
    assert_eq!(p.dir, "dd");
    assert_eq!(p.medium.as_deref(), Some("Oil"));
    assert_eq!(p.saved_files, vec!["x.png".to_string()]);

    let missing = QueryResult { columns: cols(&["id"]), rows: vec![vec![SqlValue::Integer(1)]] };
    match admin_latest_project(&missing) {
        Err(AppError::Database(SqlError::InvalidColumnName(n))) => assert_eq!(n, "title"),
        _ => panic!("expected a missing column"),
    }
}

#[test]
fn pictures_row_reads_dir_and_list() {
    let r = QueryResult { columns: cols(&["dir", "pictures"]), rows: vec![vec![text("d"), text("[]")]] };
    assert_eq!(project_pictures_row(&r).ok(), Some(("d".to_string(), "[]".to_string())));
}

#[test]
fn stored_lists() {
    assert_eq!(pictures_or_empty("[\"a\"]"), vec!["a".to_string()]);
    assert!(pictures_or_empty("").is_empty());
}

#[test]
fn error_answers() {
    let r = AppError::Database(SqlError::QueryReturnedNoRows).error_response();
    assert_eq!((r.status, r.body.as_str()), (404, "Couldn't find that project!"));
    let r = AppError::Json("bad".to_string()).error_response();
    assert_eq!((r.status, r.body.as_str()), (500, "Serialization problem: bad"));
    let r = AppError::Database(SqlError::InvalidColumnIndex(3)).error_response();
    assert_eq!((r.status, r.body.as_str()), (500, "Database problem: Invalid column index: 3"));
    let r = AppError::FileSystem(fs_failure(IoErrorKind::NotFound, "Image not found in project")).error_response();
    assert_eq!(r.body, "FileSystem error: Image not found in project");
    assert_eq!(AppError::Tera("t".to_string()).message(), "Template rendering problem: t");
}

#[test]
fn database_messages_come_from_rusqlite() {
    assert_eq!(sql_error_text(&SqlError::QueryReturnedNoRows), "Query returned no rows");
    assert_eq!(sql_error_text(&SqlError::InvalidColumnIndex(12)), "Invalid column index: 12");
    assert_eq!(sql_error_text(&SqlError::InvalidColumnName("dir".to_string())), "Invalid column name: dir");
    assert_eq!(
        sql_error_text(&SqlError::InvalidColumnType(2, "id".to_string(), SqlType::Text)),
        "Invalid column type Text at index: 2, name: id"
    );
    assert_eq!(sql_error_text(&SqlError::IntegralValueOutOfRange(1, 300)), "Integer 300 out of range at index 1");
    let bad = InvalidUtf8::new(vec![0xff]).unwrap();
    assert!(sql_error_text(&SqlError::Utf8Error(0, bad)).ends_with("at index 0"));
    assert!(InvalidUtf8::new(b"ok".to_vec()).is_none());
    assert_eq!(sql_error_text(&SqlError::Other("disk full".to_string())), "disk full");
}

#[test]
fn handler_error_answers() {
    let r = HandlerError(AppErrorKind::SqlError(SqlError::QueryReturnedNoRows)).error_response();
    assert_eq!((r.status, r.body.as_str()), (404, "Couldn't find that project!"));
    let r = HandlerError(AppErrorKind::SqlError(SqlError::InvalidColumnIndex(1))).error_response();
    assert_eq!((r.status, r.body.as_str()), (500, "Oops! Database trouble \nInvalid column index: 1"));
    let r = HandlerError(AppErrorKind::JsonError("x".to_string())).error_response();
    assert_eq!((r.status, r.body.as_str()), (500, "Internal Server Error"));
    let r = HandlerError(AppErrorKind::TeraError("x".to_string())).error_response();
    assert_eq!((r.status, r.body.as_str()), (500, "Template rendering error"));
    assert_eq!(HandlerError(AppErrorKind::JsonError("x".to_string())).message(), "Serialization problem: x");
}

#[test]
fn api_error_answers() {
    let r = ApiError(ApiErrorKind::MultipartError("m".to_string())).error_response();
    assert_eq!((r.status, r.body.as_str()), (500, "Error uploading files! m"));
    let r = ApiError(ApiErrorKind::SqlError(SqlError::QueryReturnedNoRows)).error_response();
    assert_eq!(r.body, "Database Error! Query returned no rows");
    assert_eq!(ApiError(ApiErrorKind::FileSystemError(fs_failure(IoErrorKind::PermissionDenied, "f"))).message(), "Error while writing file: f");
    assert_eq!(ApiError(ApiErrorKind::JsonError("j".to_string())).message(), "Json serialization error: j");
}

#[test]
fn every_error_kind_has_its_text() {
    assert_eq!(AppError::DateFormat("d".to_string()).message(), "Date formatting problem: d");
    assert_eq!(AppError::Multipart("m".to_string()).message(), "Multipart form processing problem: m");
    let r = AppError::Multipart("m".to_string()).error_response();
    assert_eq!((r.status, r.body.as_str()), (500, "Multipart form processing problem: m"));
    let r = ApiError(ApiErrorKind::TemplatingError("t".to_string())).error_response();
    assert_eq!(r.body, "Error rendering template! t");
    let r = ApiError(ApiErrorKind::DateFormattingError("d".to_string())).error_response();
    assert_eq!(r.body, "Date formatting Error! d");
    let r = ApiError(ApiErrorKind::JsonError("j".to_string())).error_response();
    assert_eq!(r.body, "Error serializing json! j");
    let r = ApiError(ApiErrorKind::FileSystemError(fs_failure(IoErrorKind::PermissionDenied, "f"))).error_response();
    assert_eq!(r.body, "Error writing files! f");
    assert_eq!(ApiError(ApiErrorKind::SqlError(SqlError::QueryReturnedNoRows)).message(), "Database problem: Query returned no rows");
    assert_eq!(ApiError(ApiErrorKind::TemplatingError("t".to_string())).message(), "Template rendering problem: t");
    assert_eq!(ApiError(ApiErrorKind::DateFormattingError("d".to_string())).message(), "Date formatting problem: d");
    assert_eq!(ApiError(ApiErrorKind::MultipartError("m".to_string())).message(), "Multipart form processing problem: m");
    assert_eq!(HandlerError(AppErrorKind::TeraError("t".to_string())).message(), "Template rendering problem: t");
    assert_eq!(HandlerError(AppErrorKind::SqlError(SqlError::QueryReturnedNoRows)).message(), "Database problem: Query returned no rows");
}

fn fs_failure(kind: IoErrorKind, message: &str) -> IoFailure {
    IoFailure { kind, message: message.to_string() }
}
