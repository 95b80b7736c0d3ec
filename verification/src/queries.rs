//! The lists and records that the pages show, read from the rows that the
//! database queries return.

use crate::error::{database_fault, AppError};
use crate::json::{json_string_list, list_or_empty, parse_string_list, pictures_or_empty};
use crate::models::{
    DeleteExhibitionAdminTemp, DeleteExhibitionAdminView, DeleteProjectAdminTemp,
    DeleteProjectAdminView, EditProjectAdminTemp, opt_text, EditProjectAdminView, Exhibition, ExhibitionView,
    Project, ProjectView, ProjectsIndexTemp, ProjectsIndexView,
};
use crate::sql::{
    column_index, column_position, get_i8, get_opt_text, get_opt_u16, get_text, get_u16,
    has_column, read_i8, read_opt_text, read_opt_u16, read_text, read_u16, QueryResult, SqlError,
    SqlFault, SqlValue,
};
use vstd::prelude::*;

verus! {

/// The values of all rows, each read by `f`; the first row that does not
/// read gives the error.
pub open spec fn decode_rows<T>(
    rows: Seq<Vec<SqlValue>>,
    f: spec_fn(Vec<SqlValue>) -> Result<T, SqlFault>,
) -> Result<Seq<T>, SqlFault>
    decreases rows.len(),
{
    if rows.len() == 0 {
        Ok(Seq::empty())
    } else {
        match decode_rows(rows.drop_last(), f) {
            Err(e) => Err(e),
            Ok(prefix) => match f(rows.last()) {
                Err(e) => Err(e),
                Ok(x) => Ok(prefix.push(x)),
            },
        }
    }
}

proof fn lemma_decode_rows_step<T>(
    rows: Seq<Vec<SqlValue>>,
    f: spec_fn(Vec<SqlValue>) -> Result<T, SqlFault>,
    i: int,
)
    requires
        0 <= i < rows.len(),
    ensures
        decode_rows(rows.take(i + 1), f) == match decode_rows(rows.take(i), f) {
            Err(e) => Err(e),
            Ok(prefix) => match f(rows[i]) {
                Err(e) => Err(e),
                Ok(x) => Ok(prefix.push(x)),
            },
        },
{
    assert(rows.take(i + 1).drop_last() == rows.take(i));
    assert(rows.take(i + 1).last() == rows[i]);
}

proof fn lemma_decode_rows_error<T>(
    rows: Seq<Vec<SqlValue>>,
    f: spec_fn(Vec<SqlValue>) -> Result<T, SqlFault>,
    k: int,
)
    requires
        0 <= k <= rows.len(),
        decode_rows(rows.take(k), f) is Err,
    ensures
        decode_rows(rows, f) == decode_rows(rows.take(k), f),
    decreases rows.len(),
{
    if k == rows.len() {
        assert(rows.take(k) == rows);
    } else {
        assert(rows.drop_last().take(k) == rows.take(k));
        lemma_decode_rows_error(rows.drop_last(), f, k);
    }
}

proof fn lemma_decode_rows_all<T>(
    rows: Seq<Vec<SqlValue>>,
    f: spec_fn(Vec<SqlValue>) -> Result<T, SqlFault>,
)
    ensures
        decode_rows(rows.take(rows.len() as int), f) == decode_rows(rows, f),
{
    assert(rows.take(rows.len() as int) == rows);
}

// ---------------------------------------------------------------------------
// Row readers
// ---------------------------------------------------------------------------

/// A project of the index: `id`, `title`.
pub open spec fn index_row(c: Seq<String>, row: Vec<SqlValue>) -> Result<ProjectsIndexView, SqlFault> {
    match read_u16(c, row, 0) {
        Err(e) => Err(e),
        Ok(id) => match read_text(c, row, 1) {
            Err(e) => Err(e),
            Ok(title) => Ok(ProjectsIndexView { id, title }),
        },
    }
}

/// An exhibition: `id, title, location, link, type, start_date, till`.
pub open spec fn exhibition_row(c: Seq<String>, row: Vec<SqlValue>) -> Result<ExhibitionView, SqlFault> {
    match read_opt_u16(c, row, 0) {
        Err(e) => Err(e),
        Ok(id) => match read_text(c, row, 1) {
            Err(e) => Err(e),
            Ok(title) => match read_opt_text(c, row, 2) {
                Err(e) => Err(e),
                Ok(location) => match read_opt_text(c, row, 3) {
                    Err(e) => Err(e),
                    Ok(link) => match read_i8(c, row, 4) {
                        Err(e) => Err(e),
                        Ok(kind) => match read_text(c, row, 5) {
                            Err(e) => Err(e),
                            Ok(start_date) => match read_text(c, row, 6) {
                                Err(e) => Err(e),
                                Ok(till) => Ok(
                                    ExhibitionView { id, title, location, link, kind, start_date, till },
                                ),
                            },
                        },
                    },
                },
            },
        },
    }
}

/// A project to edit: `id`, `title`.
pub open spec fn edit_row(c: Seq<String>, row: Vec<SqlValue>) -> Result<EditProjectAdminView, SqlFault> {
    match read_u16(c, row, 0) {
        Err(e) => Err(e),
        Ok(project_id) => match read_text(c, row, 1) {
            Err(e) => Err(e),
            Ok(project_title) => Ok(EditProjectAdminView { project_title, project_id }),
        },
    }
}

/// An exhibition to delete: `id, title, start_date`.
pub open spec fn delete_exhibition_row(c: Seq<String>, row: Vec<SqlValue>) -> Result<
    DeleteExhibitionAdminView,
    SqlFault,
> {
    match read_u16(c, row, 0) {
        Err(e) => Err(e),
        Ok(id) => match read_text(c, row, 1) {
            Err(e) => Err(e),
            Ok(name) => match read_text(c, row, 2) {
                Err(e) => Err(e),
                Ok(start_date) => Ok(DeleteExhibitionAdminView { id, name, start_date }),
            },
        },
    }
}

/// A project to delete: `id, dir, title` (the title may be missing).
pub open spec fn delete_project_row(c: Seq<String>, row: Vec<SqlValue>) -> Result<
    DeleteProjectAdminView,
    SqlFault,
> {
    match read_u16(c, row, 0) {
        Err(e) => Err(e),
        Ok(id) => match read_text(c, row, 1) {
            Err(e) => Err(e),
            Ok(folder_path) => match read_opt_text(c, row, 2) {
                Err(e) => Err(e),
                Ok(name) => Ok(DeleteProjectAdminView { id, name, folder_path }),
            },
        },
    }
}

/// A whole project: `title, pictures, video, concept, dir, medium, duration,
/// release, id`. The pictures column is read first; text that holds no JSON
/// list counts as no pictures.
pub open spec fn project_row(c: Seq<String>, row: Vec<SqlValue>) -> Result<ProjectView, SqlFault> {
    match read_text(c, row, 1) {
        Err(e) => Err(e),
        Ok(pictures) => project_row_after_pictures(c, row, list_or_empty(pictures)),
    }
}

/// The columns of a project other than its pictures, in the order they are read.
pub open spec fn project_row_after_pictures(
    c: Seq<String>,
    row: Vec<SqlValue>,
    saved_files: Seq<Seq<char>>,
) -> Result<ProjectView, SqlFault> {
    match read_text(c, row, 0) {
        Err(e) => Err(e),
        Ok(title) => match read_opt_text(c, row, 2) {
            Err(e) => Err(e),
            Ok(video_link) => match read_text(c, row, 3) {
                Err(e) => Err(e),
                Ok(concept) => match read_text(c, row, 4) {
                    Err(e) => Err(e),
                    Ok(dir) => match read_opt_text(c, row, 5) {
                        Err(e) => Err(e),
                        Ok(medium) => match read_opt_text(c, row, 6) {
                            Err(e) => Err(e),
                            Ok(duration) => match read_text(c, row, 7) {
                                Err(e) => Err(e),
                                Ok(date) => match read_u16(c, row, 8) {
                                    Err(e) => Err(e),
                                    Ok(id) => Ok(
                                        ProjectView {
                                            id,
                                            title,
                                            date,
                                            video_link,
                                            dir,
                                            concept,
                                            medium,
                                            duration,
                                            saved_files,
                                        },
                                    ),
                                },
                            },
                        },
                    },
                },
            },
        },
    }
}

pub open spec fn index_result(r: Result<ProjectsIndexTemp, SqlError>) -> Result<ProjectsIndexView, SqlFault> {
    match r {
        Ok(t) => Ok(t@),
        Err(e) => Err(e@),
    }
}

/// Reads a project of the index from a row.
pub fn index_from_row(columns: &Vec<String>, row: &Vec<SqlValue>) -> (r: Result<ProjectsIndexTemp, SqlError>)
    requires
        row@.len() == columns@.len(),
    ensures
        index_result(r) == index_row(columns@, *row),
{
    let id = get_u16(columns, row, 0)?;
    let title = get_text(columns, row, 1)?;
    Ok(ProjectsIndexTemp { id, title })
}

pub open spec fn exhibition_result(r: Result<Exhibition, SqlError>) -> Result<ExhibitionView, SqlFault> {
    match r {
        Ok(t) => Ok(t@),
        Err(e) => Err(e@),
    }
}

/// Reads an exhibition from a row.
pub fn exhibition_from_row(columns: &Vec<String>, row: &Vec<SqlValue>) -> (r: Result<Exhibition, SqlError>)
    requires
        row@.len() == columns@.len(),
    ensures
        exhibition_result(r) == exhibition_row(columns@, *row),
{
    let id = get_opt_u16(columns, row, 0)?;
    let title = get_text(columns, row, 1)?;
    let location = get_opt_text(columns, row, 2)?;
    let link = get_opt_text(columns, row, 3)?;
    let kind = get_i8(columns, row, 4)?;
    let start_date = get_text(columns, row, 5)?;
    let till = get_text(columns, row, 6)?;
    Ok(Exhibition { id, title, location, link, kind, start_date, till })
}

pub open spec fn edit_result(r: Result<EditProjectAdminTemp, SqlError>) -> Result<EditProjectAdminView, SqlFault> {
    match r {
        Ok(t) => Ok(t@),
        Err(e) => Err(e@),
    }
}

/// Reads a project to edit from a row.
pub fn edit_from_row(columns: &Vec<String>, row: &Vec<SqlValue>) -> (r: Result<EditProjectAdminTemp, SqlError>)
    requires
        row@.len() == columns@.len(),
    ensures
        edit_result(r) == edit_row(columns@, *row),
{
    let project_id = get_u16(columns, row, 0)?;
    let project_title = get_text(columns, row, 1)?;
    Ok(EditProjectAdminTemp { project_id, project_title })
}

pub open spec fn delete_exhibition_result(r: Result<DeleteExhibitionAdminTemp, SqlError>) -> Result<
    DeleteExhibitionAdminView,
    SqlFault,
> {
    match r {
        Ok(t) => Ok(t@),
        Err(e) => Err(e@),
    }
}

/// Reads an exhibition to delete from a row.
pub fn delete_exhibition_from_row(columns: &Vec<String>, row: &Vec<SqlValue>) -> (r: Result<
    DeleteExhibitionAdminTemp,
    SqlError,
>)
    requires
        row@.len() == columns@.len(),
    ensures
        delete_exhibition_result(r) == delete_exhibition_row(columns@, *row),
{
    let id = get_u16(columns, row, 0)?;
    let name = get_text(columns, row, 1)?;
    let start_date = get_text(columns, row, 2)?;
    Ok(DeleteExhibitionAdminTemp { id, name, start_date })
}

pub open spec fn delete_project_result(r: Result<DeleteProjectAdminTemp, SqlError>) -> Result<
    DeleteProjectAdminView,
    SqlFault,
> {
    match r {
        Ok(t) => Ok(t@),
        Err(e) => Err(e@),
    }
}

/// Reads a project to delete from a row.
pub fn delete_project_from_row(columns: &Vec<String>, row: &Vec<SqlValue>) -> (r: Result<
    DeleteProjectAdminTemp,
    SqlError,
>)
    requires
        row@.len() == columns@.len(),
    ensures
        delete_project_result(r) == delete_project_row(columns@, *row),
{
    let id = get_u16(columns, row, 0)?;
    let folder_path = get_text(columns, row, 1)?;
    let name = get_opt_text(columns, row, 2)?;
    Ok(DeleteProjectAdminTemp { id, name, folder_path })
}

pub open spec fn project_result(r: Result<Project, SqlError>) -> Result<ProjectView, SqlFault> {
    match r {
        Ok(t) => Ok(t@),
        Err(e) => Err(e@),
    }
}

fn project_from_row_with(columns: &Vec<String>, row: &Vec<SqlValue>, saved_files: Vec<String>) -> (r: Result<
    Project,
    SqlError,
>)
    requires
        row@.len() == columns@.len(),
    ensures
        project_result(r) == project_row_after_pictures(columns@, *row, saved_files.deep_view()),
{
    let title = get_text(columns, row, 0)?;
    let video_link = get_opt_text(columns, row, 2)?;
    let concept = get_text(columns, row, 3)?;
    let dir = get_text(columns, row, 4)?;
    let medium = get_opt_text(columns, row, 5)?;
    let duration = get_opt_text(columns, row, 6)?;
    let date = get_text(columns, row, 7)?;
    let id = get_u16(columns, row, 8)?;
    Ok(Project { id, title, date, video_link, dir, concept, medium, duration, saved_files })
}

/// Reads a whole project from a row.
pub fn project_from_row(columns: &Vec<String>, row: &Vec<SqlValue>) -> (r: Result<Project, SqlError>)
    requires
        row@.len() == columns@.len(),
    ensures
        project_result(r) == project_row(columns@, *row),
{
    let pictures = get_text(columns, row, 1)?;
    let saved_files = pictures_or_empty(pictures.as_str());
    project_from_row_with(columns, row, saved_files)
}

} // verus!

verus! {

// ---------------------------------------------------------------------------
// Lists
// ---------------------------------------------------------------------------

/// The projects of the index page (`SELECT id, title FROM projects`).
pub fn list_projects_index(result: &QueryResult) -> (r: Result<Vec<ProjectsIndexTemp>, AppError>)
    requires
        result.well_formed(),
    ensures
        match decode_rows(result.rows@, |row: Vec<SqlValue>| index_row(result.columns@, row)) {
            Ok(s) => (r matches Ok(v) && v@.map_values(|t: ProjectsIndexTemp| t@) == s),
            Err(f) => (r matches Err(e) && database_fault(e) == Some(f)),
        },
{
    let ghost f = |row: Vec<SqlValue>| index_row(result.columns@, row);
    let mut out: Vec<ProjectsIndexTemp> = Vec::new();
    let n = result.rows.len();
    assert(result.rows@.take(0) =~= Seq::<Vec<SqlValue>>::empty());
    assert(out@.map_values(|t: ProjectsIndexTemp| t@) =~= Seq::<ProjectsIndexView>::empty());
    for i in 0..n
        invariant
            n == result.rows@.len(),
            result.well_formed(),
            f == (|row: Vec<SqlValue>| index_row(result.columns@, row)),
            decode_rows(result.rows@.take(i as int), f) == Ok::<Seq<ProjectsIndexView>, SqlFault>(
                out@.map_values(|t: ProjectsIndexTemp| t@),
            ),
    {
        proof {
            lemma_decode_rows_step(result.rows@, f, i as int);
        }
        match index_from_row(&result.columns, &result.rows[i]) {
            Ok(t) => {
                let ghost before = out@;
                out.push(t);
                assert(out@.map_values(|t: ProjectsIndexTemp| t@) == before.map_values(
                    |t: ProjectsIndexTemp| t@,
                ).push(t@));
            },
            Err(e) => {
                proof {
                    lemma_decode_rows_error(result.rows@, f, i + 1);
                }
                return Err(AppError::Database(e));
            },
        }
    }
    proof {
        lemma_decode_rows_all(result.rows@, f);
    }
    Ok(out)
}

/// The exhibitions (`SELECT id, title, location, link, type, start_date, till FROM exhibitions`).
pub fn list_exhibitions(result: &QueryResult) -> (r: Result<Vec<Exhibition>, AppError>)
    requires
        result.well_formed(),
    ensures
        match decode_rows(result.rows@, |row: Vec<SqlValue>| exhibition_row(result.columns@, row)) {
            Ok(s) => (r matches Ok(v) && v@.map_values(|t: Exhibition| t@) == s),
            Err(f) => (r matches Err(e) && database_fault(e) == Some(f)),
        },
{
    let ghost f = |row: Vec<SqlValue>| exhibition_row(result.columns@, row);
    let mut out: Vec<Exhibition> = Vec::new();
    let n = result.rows.len();
    assert(result.rows@.take(0) =~= Seq::<Vec<SqlValue>>::empty());
    assert(out@.map_values(|t: Exhibition| t@) =~= Seq::<ExhibitionView>::empty());
    for i in 0..n
        invariant
            n == result.rows@.len(),
            result.well_formed(),
            f == (|row: Vec<SqlValue>| exhibition_row(result.columns@, row)),
            decode_rows(result.rows@.take(i as int), f) == Ok::<Seq<ExhibitionView>, SqlFault>(
                out@.map_values(|t: Exhibition| t@),
            ),
    {
        proof {
            lemma_decode_rows_step(result.rows@, f, i as int);
        }
        match exhibition_from_row(&result.columns, &result.rows[i]) {
            Ok(t) => {
                let ghost before = out@;
                out.push(t);
                assert(out@.map_values(|t: Exhibition| t@) == before.map_values(
                    |t: Exhibition| t@,
                ).push(t@));
            },
            Err(e) => {
                proof {
                    lemma_decode_rows_error(result.rows@, f, i + 1);
                }
                return Err(AppError::Database(e));
            },
        }
    }
    proof {
        lemma_decode_rows_all(result.rows@, f);
    }
    Ok(out)
}

/// The projects the admin page offers for editing (`SELECT id, title FROM projects`).
pub fn admin_edit_project_list(result: &QueryResult) -> (r: Result<Vec<EditProjectAdminTemp>, AppError>)
    requires
        result.well_formed(),
    ensures
        match decode_rows(result.rows@, |row: Vec<SqlValue>| edit_row(result.columns@, row)) {
            Ok(s) => (r matches Ok(v) && v@.map_values(|t: EditProjectAdminTemp| t@) == s),
            Err(f) => (r matches Err(e) && database_fault(e) == Some(f)),
        },
{
    let ghost f = |row: Vec<SqlValue>| edit_row(result.columns@, row);
    let mut out: Vec<EditProjectAdminTemp> = Vec::new();
    let n = result.rows.len();
    assert(result.rows@.take(0) =~= Seq::<Vec<SqlValue>>::empty());
    assert(out@.map_values(|t: EditProjectAdminTemp| t@) =~= Seq::<EditProjectAdminView>::empty());
    for i in 0..n
        invariant
            n == result.rows@.len(),
            result.well_formed(),
            f == (|row: Vec<SqlValue>| edit_row(result.columns@, row)),
            decode_rows(result.rows@.take(i as int), f) == Ok::<Seq<EditProjectAdminView>, SqlFault>(
                out@.map_values(|t: EditProjectAdminTemp| t@),
            ),
    {
        proof {
            lemma_decode_rows_step(result.rows@, f, i as int);
        }
        match edit_from_row(&result.columns, &result.rows[i]) {
            Ok(t) => {
                let ghost before = out@;
                out.push(t);
                assert(out@.map_values(|t: EditProjectAdminTemp| t@) == before.map_values(
                    |t: EditProjectAdminTemp| t@,
                ).push(t@));
            },
            Err(e) => {
                proof {
                    lemma_decode_rows_error(result.rows@, f, i + 1);
                }
                return Err(AppError::Database(e));
            },
        }
    }
    proof {
        lemma_decode_rows_all(result.rows@, f);
    }
    Ok(out)
}

/// The exhibitions the admin page offers for deletion (`SELECT id, title, start_date FROM exhibitions`).
pub fn admin_delete_exhibitions(result: &QueryResult) -> (r: Result<Vec<DeleteExhibitionAdminTemp>, AppError>)
    requires
        result.well_formed(),
    ensures
        match decode_rows(result.rows@, |row: Vec<SqlValue>| delete_exhibition_row(result.columns@, row)) {
            Ok(s) => (r matches Ok(v) && v@.map_values(|t: DeleteExhibitionAdminTemp| t@) == s),
            Err(f) => (r matches Err(e) && database_fault(e) == Some(f)),
        },
{
    let ghost f = |row: Vec<SqlValue>| delete_exhibition_row(result.columns@, row);
    let mut out: Vec<DeleteExhibitionAdminTemp> = Vec::new();
    let n = result.rows.len();
    assert(result.rows@.take(0) =~= Seq::<Vec<SqlValue>>::empty());
    assert(out@.map_values(|t: DeleteExhibitionAdminTemp| t@) =~= Seq::<DeleteExhibitionAdminView>::empty());
    for i in 0..n
        invariant
            n == result.rows@.len(),
            result.well_formed(),
            f == (|row: Vec<SqlValue>| delete_exhibition_row(result.columns@, row)),
            decode_rows(result.rows@.take(i as int), f) == Ok::<Seq<DeleteExhibitionAdminView>, SqlFault>(
                out@.map_values(|t: DeleteExhibitionAdminTemp| t@),
            ),
    {
        proof {
            lemma_decode_rows_step(result.rows@, f, i as int);
        }
        match delete_exhibition_from_row(&result.columns, &result.rows[i]) {
            Ok(t) => {
                let ghost before = out@;
                out.push(t);
                assert(out@.map_values(|t: DeleteExhibitionAdminTemp| t@) == before.map_values(
                    |t: DeleteExhibitionAdminTemp| t@,
                ).push(t@));
            },
            Err(e) => {
                proof {
                    lemma_decode_rows_error(result.rows@, f, i + 1);
                }
                return Err(AppError::Database(e));
            },
        }
    }
    proof {
        lemma_decode_rows_all(result.rows@, f);
    }
    Ok(out)
}

/// The projects the admin page offers for deletion (`SELECT id, dir, title FROM projects`).
pub fn admin_delete_projects(result: &QueryResult) -> (r: Result<Vec<DeleteProjectAdminTemp>, AppError>)
    requires
        result.well_formed(),
    ensures
        match decode_rows(result.rows@, |row: Vec<SqlValue>| delete_project_row(result.columns@, row)) {
            Ok(s) => (r matches Ok(v) && v@.map_values(|t: DeleteProjectAdminTemp| t@) == s),
            Err(f) => (r matches Err(e) && database_fault(e) == Some(f)),
        },
{
    let ghost f = |row: Vec<SqlValue>| delete_project_row(result.columns@, row);
    let mut out: Vec<DeleteProjectAdminTemp> = Vec::new();
    let n = result.rows.len();
    assert(result.rows@.take(0) =~= Seq::<Vec<SqlValue>>::empty());
    assert(out@.map_values(|t: DeleteProjectAdminTemp| t@) =~= Seq::<DeleteProjectAdminView>::empty());
    for i in 0..n
        invariant
            n == result.rows@.len(),
            result.well_formed(),
            f == (|row: Vec<SqlValue>| delete_project_row(result.columns@, row)),
            decode_rows(result.rows@.take(i as int), f) == Ok::<Seq<DeleteProjectAdminView>, SqlFault>(
                out@.map_values(|t: DeleteProjectAdminTemp| t@),
            ),
    {
        proof {
            lemma_decode_rows_step(result.rows@, f, i as int);
        }
        match delete_project_from_row(&result.columns, &result.rows[i]) {
            Ok(t) => {
                let ghost before = out@;
                out.push(t);
                assert(out@.map_values(|t: DeleteProjectAdminTemp| t@) == before.map_values(
                    |t: DeleteProjectAdminTemp| t@,
                ).push(t@));
            },
            Err(e) => {
                proof {
                    lemma_decode_rows_error(result.rows@, f, i + 1);
                }
                return Err(AppError::Database(e));
            },
        }
    }
    proof {
        lemma_decode_rows_all(result.rows@, f);
    }
    Ok(out)
}

} // verus!

verus! {

// ---------------------------------------------------------------------------
// Single projects
// ---------------------------------------------------------------------------

/// The first row of a query that must return one, as `query_row` reads it:
/// no row is an error, rows after the first are ignored.
pub open spec fn first_row<T>(
    rows: Seq<Vec<SqlValue>>,
    f: spec_fn(Vec<SqlValue>) -> Result<T, SqlFault>,
) -> Result<T, SqlFault> {
    if rows.len() == 0 {
        Err(SqlFault::QueryReturnedNoRows)
    } else {
        f(rows[0])
    }
}

/// A project by its id (`SELECT title, pictures, video, concept, dir, medium,
/// duration, release, id FROM projects WHERE id = ?1`).
pub fn fetch_project(result: &QueryResult) -> (r: Result<Project, SqlError>)
    requires
        result.well_formed(),
    ensures
        project_result(r) == first_row(
            result.rows@,
            |row: Vec<SqlValue>| project_row(result.columns@, row),
        ),
{
    if result.rows.len() == 0 {
        return Err(SqlError::QueryReturnedNoRows);
    }
    project_from_row(&result.columns, &result.rows[0])
}

/// A project whose pictures column must hold a JSON list: where the column
/// is text, it must parse.
pub open spec fn strict_project_row(c: Seq<String>, row: Vec<SqlValue>) -> Result<ProjectView, SqlFault> {
    match read_text(c, row, 1) {
        Err(e) => Err(e),
        Ok(pictures) => match json_string_list(pictures) {
            Ok(list) => project_row_after_pictures(c, row, list),
            Err(_) => project_row_after_pictures(c, row, Seq::empty()),
        },
    }
}

/// Whether the pictures of the first row are text that is no JSON list
/// (on which `return_project` cannot go on).
pub open spec fn pictures_unreadable(result: &QueryResult) -> bool {
    result.rows@.len() > 0 && (read_text(result.columns@, result.rows@[0], 1) matches Ok(t)
        && json_string_list(t) is Err)
}

/// A project by its id, whose stored picture list must be valid JSON.
pub fn return_project(result: &QueryResult) -> (r: Result<Project, SqlError>)
    requires
        result.well_formed(),
        !pictures_unreadable(result),
    ensures
        project_result(r) == first_row(
            result.rows@,
            |row: Vec<SqlValue>| strict_project_row(result.columns@, row),
        ),
{
    if result.rows.len() == 0 {
        return Err(SqlError::QueryReturnedNoRows);
    }
    let row = &result.rows[0];
    let pictures = get_text(&result.columns, row, 1)?;
    let saved_files = match parse_string_list(pictures.as_str()) {
        Ok(v) => v,
        Err(_) => {
            proof {
                assert(false);
            }
            Vec::new()
        },
    };
    project_from_row_with(&result.columns, row, saved_files)
}

/// `return_project` where it can go on; `None` where the stored picture list
/// is text that is no JSON list.
pub fn return_project_checked(result: &QueryResult) -> (r: Option<Result<Project, SqlError>>)
    requires
        result.well_formed(),
    ensures
        r is None <==> pictures_unreadable(result),
        r matches Some(p) ==> project_result(p) == first_row(
            result.rows@,
            |row: Vec<SqlValue>| strict_project_row(result.columns@, row),
        ),
{
    if result.rows.len() > 0 {
        match get_text(&result.columns, &result.rows[0], 1) {
            Ok(t) => match parse_string_list(t.as_str()) {
                Err(_) => {
                    return None;
                },
                Ok(_) => {},
            },
            Err(_) => {},
        }
    }
    Some(return_project(result))
}

/// The position of a named column, or the error of a missing one.
pub open spec fn named_column(c: Seq<String>, name: Seq<char>) -> Result<int, SqlFault> {
    if has_column(c, name) {
        Ok(column_position(c, name))
    } else {
        Err(SqlFault::InvalidColumnName(name))
    }
}

pub open spec fn read_named_u16(c: Seq<String>, row: Vec<SqlValue>, name: Seq<char>) -> Result<u16, SqlFault> {
    match named_column(c, name) {
        Err(e) => Err(e),
        Ok(i) => read_u16(c, row, i),
    }
}

pub open spec fn read_named_text(c: Seq<String>, row: Vec<SqlValue>, name: Seq<char>) -> Result<
    Seq<char>,
    SqlFault,
> {
    match named_column(c, name) {
        Err(e) => Err(e),
        Ok(i) => read_text(c, row, i),
    }
}

pub open spec fn read_named_opt_text(c: Seq<String>, row: Vec<SqlValue>, name: Seq<char>) -> Result<
    Option<Seq<char>>,
    SqlFault,
> {
    match named_column(c, name) {
        Err(e) => Err(e),
        Ok(i) => read_opt_text(c, row, i),
    }
}

/// A whole project read by column names (`SELECT * FROM projects`): `id`,
/// `title`, `release`, `video`, `dir`, `concept`, `medium`, `duration`,
/// `pictures`, in that order; pictures that are no JSON list count as none.
pub open spec fn named_project_row(c: Seq<String>, row: Vec<SqlValue>) -> Result<ProjectView, SqlFault> {
    match read_named_u16(c, row, "id"@) {
        Err(e) => Err(e),
        Ok(id) => match read_named_text(c, row, "title"@) {
            Err(e) => Err(e),
            Ok(title) => match read_named_text(c, row, "release"@) {
                Err(e) => Err(e),
                Ok(date) => match read_named_opt_text(c, row, "video"@) {
                    Err(e) => Err(e),
                    Ok(video_link) => match read_named_text(c, row, "dir"@) {
                        Err(e) => Err(e),
                        Ok(dir) => match read_named_text(c, row, "concept"@) {
                            Err(e) => Err(e),
                            Ok(concept) => match read_named_opt_text(c, row, "medium"@) {
                                Err(e) => Err(e),
                                Ok(medium) => match read_named_opt_text(c, row, "duration"@) {
                                    Err(e) => Err(e),
                                    Ok(duration) => match read_named_text(c, row, "pictures"@) {
                                        Err(e) => Err(e),
                                        Ok(pictures) => Ok(
                                            ProjectView {
                                                id,
                                                title,
                                                date,
                                                video_link,
                                                dir,
                                                concept,
                                                medium,
                                                duration,
                                                saved_files: list_or_empty(pictures),
                                            },
                                        ),
                                    },
                                },
                            },
                        },
                    },
                },
            },
        },
    }
}

fn get_named_u16(columns: &Vec<String>, row: &Vec<SqlValue>, name: &str) -> (r: Result<u16, SqlError>)
    requires
        row@.len() == columns@.len(),
    ensures
        match r {
            Ok(v) => read_named_u16(columns@, *row, name@) == Ok::<u16, SqlFault>(v),
            Err(e) => read_named_u16(columns@, *row, name@) == Err::<u16, SqlFault>(e@),
        },
{
    let i = column_index(columns, name)?;
    get_u16(columns, row, i)
}

fn get_named_text(columns: &Vec<String>, row: &Vec<SqlValue>, name: &str) -> (r: Result<String, SqlError>)
    requires
        row@.len() == columns@.len(),
    ensures
        match r {
            Ok(v) => read_named_text(columns@, *row, name@) == Ok::<Seq<char>, SqlFault>(v@),
            Err(e) => read_named_text(columns@, *row, name@) == Err::<Seq<char>, SqlFault>(e@),
        },
{
    let i = column_index(columns, name)?;
    get_text(columns, row, i)
}

fn get_named_opt_text(columns: &Vec<String>, row: &Vec<SqlValue>, name: &str) -> (r: Result<
    Option<String>,
    SqlError,
>)
    requires
        row@.len() == columns@.len(),
    ensures
        match r {
            Ok(v) => read_named_opt_text(columns@, *row, name@) == Ok::<Option<Seq<char>>, SqlFault>(
                opt_text(v),
            ),
            Err(e) => read_named_opt_text(columns@, *row, name@) == Err::<Option<Seq<char>>, SqlFault>(
                e@,
            ),
        },
{
    let i = column_index(columns, name)?;
    get_opt_text(columns, row, i)
}

fn project_from_named_row(columns: &Vec<String>, row: &Vec<SqlValue>) -> (r: Result<Project, SqlError>)
    requires
        row@.len() == columns@.len(),
    ensures
        project_result(r) == named_project_row(columns@, *row),
{
    let id = get_named_u16(columns, row, "id")?;
    let title = get_named_text(columns, row, "title")?;
    let date = get_named_text(columns, row, "release")?;
    let video_link = get_named_opt_text(columns, row, "video")?;
    let dir = get_named_text(columns, row, "dir")?;
    let concept = get_named_text(columns, row, "concept")?;
    let medium = get_named_opt_text(columns, row, "medium")?;
    let duration = get_named_opt_text(columns, row, "duration")?;
    let pictures = get_named_text(columns, row, "pictures")?;
    let saved_files = pictures_or_empty(pictures.as_str());
    Ok(Project { id, title, date, video_link, dir, concept, medium, duration, saved_files })
}

/// The newest project (`SELECT * FROM projects ORDER BY id DESC LIMIT 1`).
pub fn admin_latest_project(result: &QueryResult) -> (r: Result<Project, AppError>)
    requires
        result.well_formed(),
    ensures
        match first_row(result.rows@, |row: Vec<SqlValue>| named_project_row(result.columns@, row)) {
            Ok(p) => (r matches Ok(q) && q@ == p),
            Err(f) => (r matches Err(e) && database_fault(e) == Some(f)),
        },
{
    if result.rows.len() == 0 {
        return Err(AppError::Database(SqlError::QueryReturnedNoRows));
    }
    match project_from_named_row(&result.columns, &result.rows[0]) {
        Ok(p) => Ok(p),
        Err(e) => Err(AppError::Database(e)),
    }
}

} // verus!

verus! {

/// The folder and stored picture list of a project: `dir`, `pictures`.
pub open spec fn pictures_row(c: Seq<String>, row: Vec<SqlValue>) -> Result<(Seq<char>, Seq<char>), SqlFault> {
    match read_text(c, row, 0) {
        Err(e) => Err(e),
        Ok(dir) => match read_text(c, row, 1) {
            Err(e) => Err(e),
            Ok(pictures) => Ok((dir, pictures)),
        },
    }
}

/// The folder and stored picture list of the project in a folder
/// (`SELECT dir, pictures FROM projects WHERE dir = ?1`).
pub fn project_pictures_row(result: &QueryResult) -> (r: Result<(String, String), SqlError>)
    requires
        result.well_formed(),
    ensures
        match first_row(result.rows@, |row: Vec<SqlValue>| pictures_row(result.columns@, row)) {
            Ok((d, p)) => (r matches Ok((dir, pictures)) && dir@ == d && pictures@ == p),
            Err(f) => (r matches Err(e) && e@ == f),
        },
{
    if result.rows.len() == 0 {
        return Err(SqlError::QueryReturnedNoRows);
    }
    let row = &result.rows[0];
    let dir = get_text(&result.columns, row, 0)?;
    let pictures = get_text(&result.columns, row, 1)?;
    Ok((dir, pictures))
}

} // verus!
