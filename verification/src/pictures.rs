//! The pictures of a project: where they lie, what an upload adds and what a
//! deletion removes from the stored list.

use crate::paths::{answers, DiskAnswer};
use crate::error::{AppError, IoErrorKind, IoFailure};
use crate::json::{json_string_list, json_text, list_json, list_or_empty, parse_string_list, pictures_or_empty};
use crate::models::{PicDeleteResponse, PicUpdateResponse};
use crate::paths::{
    file_name_of, join_path, joined_path, numbered_name, probes_settled,
    resolve_filename_collision, upload_extension, upload_stem,
};
use crate::text::{sanitize_filename, sanitized, str_eq};
use vstd::prelude::*;

verus! {

/// `root/templates/static/images/dir`, where the pictures of a project lie.
pub open spec fn images_dir(root_dir: Seq<char>, project_dir: Seq<char>) -> Seq<char> {
    joined_path(
        joined_path(joined_path(joined_path(root_dir, "templates"@), "static"@), "images"@),
        project_dir,
    )
}

/// The folder of a project's pictures.
pub fn project_images_dir(root_dir: &str, project_dir: &str) -> (r: String)
    ensures
        r@ == images_dir(root_dir@, project_dir@),
{
    let a = join_path(root_dir, "templates");
    let b = join_path(a.as_str(), "static");
    let c = join_path(b.as_str(), "images");
    join_path(c.as_str(), project_dir)
}

/// The name an uploaded file is stored under when it gets the `k`-th name.
pub open spec fn stored_name(filename: Seq<char>, k: nat) -> Seq<char> {
    numbered_name(upload_stem(sanitized(filename)), upload_extension(sanitized(filename)), k)
}

/// An upload of pictures to a project in progress.
pub struct ImageUpload {
    /// The folder the pictures go to.
    pub images_dir: String,
    /// The pictures the project had.
    pub saved_files: Vec<String>,
    /// The pictures stored so far by this upload, in order.
    pub newly_added: Vec<String>,
}

impl ImageUpload {
    /// Starts an upload to the project in `project_dir` whose stored picture
    /// list is `pictures`; a stored list that does not read counts as empty.
    pub fn start(root_dir: &str, project_dir: &str, pictures: &str) -> (u: ImageUpload)
        ensures
            u.images_dir@ == images_dir(root_dir@, project_dir@),
            u.saved_files.deep_view() == list_or_empty(pictures@),
            u.newly_added@.len() == 0,
    {
        ImageUpload {
            images_dir: project_images_dir(root_dir, project_dir),
            saved_files: pictures_or_empty(pictures),
            newly_added: Vec::new(),
        }
    }

    /// Only the form fields named `images` carry pictures.
    pub fn accepts(field_name: Option<&str>) -> (b: bool)
        ensures
            b == (field_name matches Some(n) && n@ == "images"@),
    {
        match field_name {
            Some(n) => str_eq(n, "images"),
            None => false,
        }
    }

    /// Where an uploaded file called `filename` is written, and the name it
    /// is stored under: the name is sanitized, then numbered until it names
    /// nothing on disk in the picture folder (see `resolve_filename_collision`,
    /// whose answers from the disk come third).
    pub fn target(&self, filename: &str) -> (r: (String, String, Vec<DiskAnswer>))
        ensures
            probes_settled(
                self.images_dir@,
                upload_stem(sanitized(filename@)),
                upload_extension(sanitized(filename@)),
                answers(r.2@),
            ),
            r.0@ == r.2@.last()@.0,
            r.1@ == stored_name(filename@, (r.2@.len() - 1) as nat),
            r.0@ == joined_path(self.images_dir@, r.1@),
    {
        let clean = sanitize_filename(filename);
        let (path, probes) = resolve_filename_collision(self.images_dir.as_str(), clean.as_str());
        let name = match file_name_of(path.as_str()) {
            Some(n) => n,
            None => {
                proof {
                    assert(false);
                }
                String::new()
            },
        };
        proof {
            let k = (probes@.len() - 1) as nat;
            assert(probes@[probes@.len() - 1] == probes@.last());
            assert(answers(probes@).len() == probes@.len());
            assert(stored_name(filename@, k) == name@);
        }
        (path, name, probes)
    }

    /// Notes a picture stored by this upload.
    pub fn record(&mut self, final_name: String)
        ensures
            final(self).images_dir == old(self).images_dir,
            final(self).saved_files == old(self).saved_files,
            final(self).newly_added@ == old(self).newly_added@.push(final_name),
    {
        self.newly_added.push(final_name);
    }

    /// Ends the upload: the project keeps its pictures and gains the new
    /// ones after them; the list is returned with its JSON text, which reads
    /// back as the same list.
    pub fn finish(self) -> (r: (PicUpdateResponse, String))
        ensures
            r.0.saved_files.deep_view() == self.saved_files.deep_view() + self.newly_added.deep_view(),
            r.1@ == json_text(r.0.saved_files.deep_view()),
            json_string_list(r.1@) == Ok::<Seq<Seq<char>>, Seq<char>>(r.0.saved_files.deep_view()),
    {
        let mut saved = self.saved_files;
        let ghost old_saved = saved.deep_view();
        let newly = self.newly_added;
        let n = newly.len();
        for i in 0..n
            invariant
                n == newly@.len(),
                saved.deep_view() == old_saved + newly.deep_view().take(i as int),
        {
            let ghost prev = saved.deep_view();
            saved.push(newly[i].clone());
            assert(saved.deep_view() =~= prev.push(newly@[i as int]@));
            assert(newly.deep_view().take(i + 1) =~= newly.deep_view().take(i as int).push(
                newly@[i as int]@,
            ));
            assert(saved.deep_view() =~= old_saved + newly.deep_view().take(i + 1));
        }
        assert(newly.deep_view().take(n as int) == newly.deep_view());
        let json = list_json(&saved);
        (PicUpdateResponse { saved_files: saved }, json)
    }
}

// ---------------------------------------------------------------------------
// Deleting a picture
// ---------------------------------------------------------------------------

/// The message of the error when a picture is not in the project's list.
pub open spec fn picture_not_found_message() -> Seq<char> {
    "Image not found in project"@
}

/// Whether a list of names holds `name`.
pub fn contains_name(list: &Vec<String>, name: &str) -> (b: bool)
    ensures
        b == list.deep_view().contains(name@),
{
    let n = list.len();
    for i in 0..n
        invariant
            n == list@.len(),
            forall|j: int| 0 <= j < i ==> list.deep_view()[j] != name@,
    {
        if str_eq(list[i].as_str(), name) {
            assert(list.deep_view()[i as int] == name@);
            return true;
        }
    }
    proof {
        if list.deep_view().contains(name@) {
            let j = choose|j: int| 0 <= j < list.deep_view().len() && list.deep_view()[j] == name@;
            assert(list.deep_view()[j] != name@);
        }
    }
    false
}

/// The check before a picture is deleted: the stored list must read as JSON
/// and hold the picture, else the error is a file-system "not found". Gives
/// the list and the path of the file to remove.
pub fn image_to_remove(root_dir: &str, project_dir: &str, pictures: &str, filename: &str) -> (r:
    Result<(Vec<String>, String), AppError>)
    ensures
        match json_string_list(pictures@) {
            Err(m) => (r matches Err(AppError::Json(e)) && e@ == m),
            Ok(list) => if list.contains(filename@) {
                r matches Ok((saved, path)) && saved.deep_view() == list && path@ == joined_path(
                    images_dir(root_dir@, project_dir@),
                    filename@,
                )
            } else {
                r matches Err(AppError::FileSystem(f)) && f.kind == IoErrorKind::NotFound && f.message@
                    == picture_not_found_message()
            },
        },
{
    let saved = match parse_string_list(pictures) {
        Ok(v) => v,
        Err(m) => return Err(AppError::Json(m)),
    };
    if !contains_name(&saved, filename) {
        let mut m = String::new();
        m.append("Image not found in project");
        return Err(AppError::FileSystem(IoFailure { kind: IoErrorKind::NotFound, message: m }));
    }
    let dir = project_images_dir(root_dir, project_dir);
    let path = join_path(dir.as_str(), filename);
    Ok((saved, path))
}

/// Whether a name differs from `name`.
pub open spec fn other_than(name: Seq<char>) -> spec_fn(Seq<char>) -> bool {
    |f: Seq<char>| f != name
}

/// The list without any name equal to `name`.
pub open spec fn without(list: Seq<Seq<char>>, name: Seq<char>) -> Seq<Seq<char>> {
    list.filter(other_than(name))
}

/// Drops every `filename` from the list, keeping the order of the rest, and
/// gives the new list with its JSON text, which reads back as that list.
pub fn remove_picture(saved: Vec<String>, filename: &str) -> (r: (PicDeleteResponse, String))
    ensures
        r.0.saved_files.deep_view() == without(saved.deep_view(), filename@),
        r.1@ == json_text(r.0.saved_files.deep_view()),
        json_string_list(r.1@) == Ok::<Seq<Seq<char>>, Seq<char>>(r.0.saved_files.deep_view()),
{
    let mut kept: Vec<String> = Vec::new();
    let n = saved.len();
    let ghost all = saved.deep_view();
    for i in 0..n
        invariant
            n == saved@.len(),
            all == saved.deep_view(),
            kept.deep_view() == without(all.take(i as int), filename@),
    {
        let ghost t = all.take(i + 1);
        proof {
            assert(t.drop_last() == all.take(i as int));
            assert(t.last() == saved@[i as int]@);
            reveal_with_fuel(Seq::filter, 1);
        }
        if !str_eq(saved[i].as_str(), filename) {
            kept.push(saved[i].clone());
        }
    }
    assert(all.take(n as int) == all);
    let json = list_json(&kept);
    (PicDeleteResponse { saved_files: kept }, json)
}

/// The JSON text of a project's picture list, as it is stored; it reads
/// back as the same list.
pub fn pictures_json(saved: &Vec<String>) -> (r: String)
    ensures
        r@ == json_text(saved.deep_view()),
        json_string_list(r@) == Ok::<Seq<Seq<char>>, Seq<char>>(saved.deep_view()),
{
    list_json(saved)
}

} // verus!
