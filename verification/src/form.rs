//! The project form: a multipart form is read field by field, and each field
//! updates the project being assembled or names a picture to store.

use crate::models::{opt_text, Project};
use crate::paths::{join_path, joined_path};
use crate::sql::utf8_string;
use crate::text::{parse_u16, parsed_u16, str_eq};
use vstd::prelude::*;
use vstd::utf8::{decode_utf8, valid_utf8};

verus! {

/// What `String::from_utf8_lossy` gives for some bytes.
pub uninterp spec fn lossy_text(bytes: Seq<u8>) -> Seq<char>;

/// `String::from_utf8_lossy`: the text of some bytes, with every invalid
/// sequence replaced. The contract claims the named result and that valid
/// UTF-8 is decoded unchanged (as the documentation says).
#[verifier::external_body]
pub fn utf8_lossy(bytes: &Vec<u8>) -> (s: String)
    ensures
        s@ == lossy_text(bytes@),
        valid_utf8(bytes@) ==> s@ == decode_utf8(bytes@),
{
    String::from_utf8_lossy(bytes).into_owned()
}

/// A character of the URL-safe alphabet that new project folders are named with.
pub open spec fn is_url_safe(c: char) -> bool {
    ('a' <= c && c <= 'z') || ('A' <= c && c <= 'Z') || ('0' <= c && c <= '9') || c == '_'
        || c == '-'
}

/// `nanoid::format(rngs::default, &alphabet::SAFE, 6)` (what `nanoid!(6)`
/// expands to): a random name of six characters of the URL-safe alphabet.
/// The contract claims only the length and the alphabet, as the source
/// shows; the characters themselves are random.
#[verifier::external_body]
pub fn new_dir_name() -> (s: String)
    ensures
        s@.len() == 6,
        forall|i: int| 0 <= i < 6 ==> is_url_safe(#[trigger] s@[i]),
{
    nanoid::format(nanoid::rngs::default, &nanoid::alphabet::SAFE, 6)
}

/// The fields of the project form.
#[derive(PartialEq, Eq, Structural, Clone, Copy, Debug)]
pub enum FieldKind {
    Title,
    Dir,
    Id,
    Medium,
    Duration,
    Date,
    VideoLink,
    Concept,
    Files,
    Other,
}

/// The field a form name stands for.
pub open spec fn field_kind(name: Seq<char>) -> FieldKind {
    if name == "title"@ {
        FieldKind::Title
    } else if name == "dir"@ {
        FieldKind::Dir
    } else if name == "id"@ {
        FieldKind::Id
    } else if name == "medium"@ {
        FieldKind::Medium
    } else if name == "duration"@ {
        FieldKind::Duration
    } else if name == "date"@ {
        FieldKind::Date
    } else if name == "video_link"@ {
        FieldKind::VideoLink
    } else if name == "concept"@ {
        FieldKind::Concept
    } else if name == "files"@ {
        FieldKind::Files
    } else {
        FieldKind::Other
    }
}

/// Finds the field a form name stands for.
pub fn kind_of_field(name: &str) -> (k: FieldKind)
    ensures
        k == field_kind(name@),
{
    if str_eq(name, "title") {
        FieldKind::Title
    } else if str_eq(name, "dir") {
        FieldKind::Dir
    } else if str_eq(name, "id") {
        FieldKind::Id
    } else if str_eq(name, "medium") {
        FieldKind::Medium
    } else if str_eq(name, "duration") {
        FieldKind::Duration
    } else if str_eq(name, "date") {
        FieldKind::Date
    } else if str_eq(name, "video_link") {
        FieldKind::VideoLink
    } else if str_eq(name, "concept") {
        FieldKind::Concept
    } else if str_eq(name, "files") {
        FieldKind::Files
    } else {
        FieldKind::Other
    }
}

/// What to do with a field of the form.
#[derive(PartialEq, Eq, Structural, Clone, Copy, Debug)]
pub enum FieldAction {
    /// Read the whole value and hand it to `set_text`.
    ReadValue,
    /// Write the field's content to the file that `file_target` names.
    SaveFile,
    /// Leave the field alone.
    Skip,
}

/// The action a field gets: the text fields are read; files are stored only
/// when a project is created (not when one is edited); anything else, and a
/// field without a name, is left alone.
pub open spec fn field_action(edit: bool, name: Option<Seq<char>>) -> FieldAction {
    match name {
        None => FieldAction::Skip,
        Some(n) => match field_kind(n) {
            FieldKind::Files => if edit {
                FieldAction::Skip
            } else {
                FieldAction::SaveFile
            },
            FieldKind::Other => FieldAction::Skip,
            _ => FieldAction::ReadValue,
        },
    }
}

/// Whether a text value can be taken: the fields read strictly must be
/// UTF-8, and `id` must also read as a 16-bit number.
pub open spec fn text_value_ok(kind: FieldKind, value: Seq<u8>) -> bool {
    match kind {
        FieldKind::Dir | FieldKind::Duration | FieldKind::Date | FieldKind::VideoLink => valid_utf8(
            value,
        ),
        FieldKind::Id => valid_utf8(value) && parsed_u16(decode_utf8(value)) is Some,
        _ => true,
    }
}

/// A project being assembled from a form.
pub struct ProjectForm {
    /// Whether an existing project is edited (no files are stored then).
    pub edit: bool,
    /// The folder that pictures of a new project go to.
    pub folder: String,
    pub id: u16,
    pub title: String,
    pub date: String,
    pub video_link: Option<String>,
    pub dir: String,
    pub concept: String,
    pub medium: Option<String>,
    pub duration: Option<String>,
    pub saved_files: Vec<String>,
}

impl ProjectForm {
    /// Starts a form: the project gets a fresh random folder name, and its
    /// pictures folder is `root/templates/static/images/<name>`; every other
    /// field is empty (number 0, no pictures).
    pub fn start(edit: bool, root_dir: &str) -> (f: ProjectForm)
        ensures
            f.edit == edit,
            f.dir@.len() == 6,
            forall|i: int| 0 <= i < 6 ==> is_url_safe(#[trigger] f.dir@[i]),
            f.folder@ == joined_path(root_dir@, "templates/static/images/"@ + f.dir@),
            f.id == 0,
            f.title@.len() == 0,
            f.date@.len() == 0,
            f.video_link is None,
            f.concept@.len() == 0,
            f.medium is None,
            f.duration is None,
            f.saved_files@.len() == 0,
    {
        let dir = new_dir_name();
        let mut sub = String::new();
        sub.append("templates/static/images/");
        sub.append(dir.as_str());
        let folder = join_path(root_dir, sub.as_str());
        ProjectForm {
            edit,
            folder,
            id: 0,
            title: String::new(),
            date: String::new(),
            video_link: None,
            dir,
            concept: String::new(),
            medium: None,
            duration: None,
            saved_files: Vec::new(),
        }
    }

    /// What to do with a field called `name`.
    pub fn on_field(&self, name: Option<&str>) -> (a: FieldAction)
        ensures
            a == field_action(self.edit, match name { Some(n) => Some(n@), None => None }),
    {
        match name {
            None => FieldAction::Skip,
            Some(n) => match kind_of_field(n) {
                FieldKind::Files => if self.edit {
                    FieldAction::Skip
                } else {
                    FieldAction::SaveFile
                },
                FieldKind::Other => FieldAction::Skip,
                _ => FieldAction::ReadValue,
            },
        }
    }

    /// Whether `set_text` can take `value` for the field `name`.
    pub fn can_take(name: &str, value: &Vec<u8>) -> (b: bool)
        ensures
            b == text_value_ok(field_kind(name@), value@),
    {
        match kind_of_field(name) {
            FieldKind::Dir | FieldKind::Duration | FieldKind::Date | FieldKind::VideoLink => {
                utf8_string(value).is_some()
            },
            FieldKind::Id => match utf8_string(value) {
                Some(s) => parse_u16(s.as_str()).is_some(),
                None => false,
            },
            _ => true,
        }
    }

    /// Takes the value of a text field: `title`, `medium` and `concept` are
    /// read leniently (invalid UTF-8 replaced), `dir`, `duration`, `date`
    /// and `video_link` strictly, and `id` as a number. A later value of a
    /// field replaces an earlier one; no other field changes.
    pub fn set_text(&mut self, name: &str, value: &Vec<u8>)
        requires
            text_value_ok(field_kind(name@), value@),
        ensures
            final(self).edit == old(self).edit,
            final(self).folder == old(self).folder,
            final(self).saved_files == old(self).saved_files,
            final(self).title@ == if field_kind(name@) == FieldKind::Title {
                lossy_text(value@)
            } else {
                old(self).title@
            },
            opt_text(final(self).medium) == if field_kind(name@) == FieldKind::Medium {
                Some(lossy_text(value@))
            } else {
                opt_text(old(self).medium)
            },
            final(self).concept@ == if field_kind(name@) == FieldKind::Concept {
                lossy_text(value@)
            } else {
                old(self).concept@
            },
            final(self).dir@ == if field_kind(name@) == FieldKind::Dir {
                decode_utf8(value@)
            } else {
                old(self).dir@
            },
            opt_text(final(self).duration) == if field_kind(name@) == FieldKind::Duration {
                Some(decode_utf8(value@))
            } else {
                opt_text(old(self).duration)
            },
            final(self).date@ == if field_kind(name@) == FieldKind::Date {
                decode_utf8(value@)
            } else {
                old(self).date@
            },
            opt_text(final(self).video_link) == if field_kind(name@) == FieldKind::VideoLink {
                Some(decode_utf8(value@))
            } else {
                opt_text(old(self).video_link)
            },
            final(self).id == if field_kind(name@) == FieldKind::Id {
                parsed_u16(decode_utf8(value@))->Some_0
            } else {
                old(self).id
            },
    {
        match kind_of_field(name) {
            FieldKind::Title => {
                self.title = utf8_lossy(value);
            },
            FieldKind::Medium => {
                self.medium = Some(utf8_lossy(value));
            },
            FieldKind::Concept => {
                self.concept = utf8_lossy(value);
            },
            FieldKind::Dir => {
                self.dir = strict_text(value);
            },
            FieldKind::Duration => {
                self.duration = Some(strict_text(value));
            },
            FieldKind::Date => {
                self.date = strict_text(value);
            },
            FieldKind::VideoLink => {
                self.video_link = Some(strict_text(value));
            },
            FieldKind::Id => {
                let text = strict_text(value);
                match parse_u16(text.as_str()) {
                    Some(n) => {
                        self.id = n;
                    },
                    None => {
                        proof {
                            assert(false);
                        }
                    },
                }
            },
            _ => {},
        }
    }

    /// Where a file field's content is written, and the name it is listed
    /// under: the file's own name, or `pic` where it has none, in the folder.
    pub fn file_target(&self, filename: Option<&str>) -> (r: (String, String))
        ensures
            r.1@ == match filename {
                Some(n) => n@,
                None => "pic"@,
            },
            r.0@ == joined_path(self.folder@, r.1@),
    {
        let mut name = String::new();
        match filename {
            Some(n) => name.append(n),
            None => name.append("pic"),
        }
        let path = join_path(self.folder.as_str(), name.as_str());
        (path, name)
    }

    /// Notes a stored file.
    pub fn record_file(&mut self, name: String)
        ensures
            final(self).saved_files@ == old(self).saved_files@.push(name),
            final(self).edit == old(self).edit,
            final(self).folder == old(self).folder,
            final(self).id == old(self).id,
            final(self).title == old(self).title,
            final(self).date == old(self).date,
            final(self).video_link == old(self).video_link,
            final(self).dir == old(self).dir,
            final(self).concept == old(self).concept,
            final(self).medium == old(self).medium,
            final(self).duration == old(self).duration,
    {
        self.saved_files.push(name);
    }

    /// The assembled project.
    pub fn finish(self) -> (p: Project)
        ensures
            p.id == self.id,
            p.title == self.title,
            p.date == self.date,
            p.video_link == self.video_link,
            p.dir == self.dir,
            p.concept == self.concept,
            p.medium == self.medium,
            p.duration == self.duration,
            p.saved_files == self.saved_files,
    {
        Project {
            id: self.id,
            title: self.title,
            date: self.date,
            video_link: self.video_link,
            dir: self.dir,
            concept: self.concept,
            medium: self.medium,
            duration: self.duration,
            saved_files: self.saved_files,
        }
    }
}

fn strict_text(value: &Vec<u8>) -> (s: String)
    requires
        valid_utf8(value@),
    ensures
        s@ == decode_utf8(value@),
{
    match utf8_string(value) {
        Some(s) => s,
        None => {
            proof {
                assert(false);
            }
            String::new()
        },
    }
}

} // verus!
