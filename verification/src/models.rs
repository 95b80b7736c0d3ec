//! The site's records: exhibitions, projects, and the rows the pages list.

use vstd::prelude::*;

verus! {

/// The text of an optional string.
pub open spec fn opt_text(o: Option<String>) -> Option<Seq<char>> {
    match o {
        Some(s) => Some(s@),
        None => None,
    }
}

/// An exhibition (the column `type` is the field `kind`).
pub struct Exhibition {
    pub id: Option<u16>,
    pub title: String,
    pub location: Option<String>,
    pub link: Option<String>,
    pub kind: i8,
    pub start_date: String,
    pub till: String,
}

pub struct ExhibitionView {
    pub id: Option<u16>,
    pub title: Seq<char>,
    pub location: Option<Seq<char>>,
    pub link: Option<Seq<char>>,
    pub kind: i8,
    pub start_date: Seq<char>,
    pub till: Seq<char>,
}

impl View for Exhibition {
    type V = ExhibitionView;

    open spec fn view(&self) -> ExhibitionView {
        ExhibitionView {
            id: self.id,
            title: self.title@,
            location: opt_text(self.location),
            link: opt_text(self.link),
            kind: self.kind,
            start_date: self.start_date@,
            till: self.till@,
        }
    }
}

/// A project with its saved pictures.
pub struct Project {
    pub id: u16,
    pub title: String,
    pub date: String,
    pub video_link: Option<String>,
    pub dir: String,
    pub concept: String,
    pub medium: Option<String>,
    pub duration: Option<String>,
    pub saved_files: Vec<String>,
}

pub struct ProjectView {
    pub id: u16,
    pub title: Seq<char>,
    pub date: Seq<char>,
    pub video_link: Option<Seq<char>>,
    pub dir: Seq<char>,
    pub concept: Seq<char>,
    pub medium: Option<Seq<char>>,
    pub duration: Option<Seq<char>>,
    pub saved_files: Seq<Seq<char>>,
}

impl View for Project {
    type V = ProjectView;

    open spec fn view(&self) -> ProjectView {
        ProjectView {
            id: self.id,
            title: self.title@,
            date: self.date@,
            video_link: opt_text(self.video_link),
            dir: self.dir@,
            concept: self.concept@,
            medium: opt_text(self.medium),
            duration: opt_text(self.duration),
            saved_files: self.saved_files.deep_view(),
        }
    }
}

/// A project as the index page lists it.
pub struct ProjectsIndexTemp {
    pub id: u16,
    pub title: String,
}

pub struct ProjectsIndexView {
    pub id: u16,
    pub title: Seq<char>,
}

impl View for ProjectsIndexTemp {
    type V = ProjectsIndexView;

    open spec fn view(&self) -> ProjectsIndexView {
        ProjectsIndexView { id: self.id, title: self.title@ }
    }
}

/// A project as the admin page offers it for deletion.
pub struct DeleteProjectAdminTemp {
    pub id: u16,
    pub name: Option<String>,
    pub folder_path: String,
}

pub struct DeleteProjectAdminView {
    pub id: u16,
    pub name: Option<Seq<char>>,
    pub folder_path: Seq<char>,
}

impl View for DeleteProjectAdminTemp {
    type V = DeleteProjectAdminView;

    open spec fn view(&self) -> DeleteProjectAdminView {
        DeleteProjectAdminView {
            id: self.id,
            name: opt_text(self.name),
            folder_path: self.folder_path@,
        }
    }
}

/// An exhibition as the admin page offers it for deletion.
pub struct DeleteExhibitionAdminTemp {
    pub id: u16,
    pub name: String,
    pub start_date: String,
}

pub struct DeleteExhibitionAdminView {
    pub id: u16,
    pub name: Seq<char>,
    pub start_date: Seq<char>,
}

impl View for DeleteExhibitionAdminTemp {
    type V = DeleteExhibitionAdminView;

    open spec fn view(&self) -> DeleteExhibitionAdminView {
        DeleteExhibitionAdminView { id: self.id, name: self.name@, start_date: self.start_date@ }
    }
}

/// A project as the admin page offers it for editing.
pub struct EditProjectAdminTemp {
    pub project_title: String,
    pub project_id: u16,
}

pub struct EditProjectAdminView {
    pub project_title: Seq<char>,
    pub project_id: u16,
}

impl View for EditProjectAdminTemp {
    type V = EditProjectAdminView;

    open spec fn view(&self) -> EditProjectAdminView {
        EditProjectAdminView { project_title: self.project_title@, project_id: self.project_id }
    }
}

/// The query of a project page: the project's number.
pub struct ProjectQueryRequest {
    pub no: u16,
}

/// The login form.
pub struct LoginForm {
    pub password: String,
}

/// A request to delete an exhibition.
pub struct DeleteExhibitionRequest {
    pub id: u16,
}

/// A request to delete a project.
pub struct DeleteProjectRequest {
    pub id: u16,
    pub folder_path: String,
}

/// A request to delete one picture of a project.
pub struct PicDeleteRequest {
    pub filename: String,
}

/// The pictures of a project after an upload.
pub struct PicUpdateResponse {
    pub saved_files: Vec<String>,
}

/// The pictures of a project after a deletion.
pub struct PicDeleteResponse {
    pub saved_files: Vec<String>,
}

} // verus!
