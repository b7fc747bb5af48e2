//! Replacing a user's profile picture.
//!
//! The first part of a multipart upload is taken. An image is stored as
//! `./assets/users/00<id>.<extension>` (the extension of the uploaded file
//! name, `jpg` where it has none), the user's previous picture is deleted
//! unless it is the shared default `pix.png`, and the new name is recorded
//! with the user. Anything that is not an image is refused before the disk
//! or the database is touched.

use vstd::prelude::*;
use crate::utils::text::{decimal, push_decimal, same_text, starts_with, text};

verus! {

/// The user's current picture.
pub struct Users {
    pub userpic: String,
}

/// The picture every user starts with; it is shared and never deleted.
pub open spec fn default_picture() -> Seq<char> {
    "pix.png"@
}

/// The directory that holds the pictures.
pub open spec fn picture_directory() -> Seq<char> {
    "./assets/users/"@
}

/// The directory that is created before storing a picture.
pub open spec fn assets_directory() -> Seq<char> {
    "./assets"@
}

/// What `std::path::Path::extension` finds in a file name, as text: the part
/// after the last `.` of the last component, where there is one and the name
/// is not only a leading `.` and the rest. Which characters separate the
/// components follows the path syntax of the platform the library is built
/// for.
pub uninterp spec fn path_extension(path: Seq<char>) -> Option<Seq<char>>;

/// Calls `std::path::Path::new(path).extension()` and takes it as text
/// (`OsStr::to_str`, which succeeds for a part of a `str`); named by
/// `path_extension`.
#[verifier::external_body]
fn file_extension(path: &str) -> (r: Option<String>)
    ensures
        match r {
            Some(e) => path_extension(path@) == Some(e@),
            None => path_extension(path@) is None,
        },
{
    match std::path::Path::new(path).extension() {
        Some(e) => match e.to_str() {
            Some(s) => Some(s.to_string()),
            None => None,
        },
        None => None,
    }
}

/// Whether `s` begins with `prefix`.
pub open spec fn has_prefix(s: Seq<char>, prefix: Seq<char>) -> bool {
    prefix.len() <= s.len() && s.subrange(0, prefix.len() as int) == prefix
}

/// Whether a content type is an image type.
pub open spec fn is_image(content_type: Seq<char>) -> bool {
    has_prefix(content_type, "image/"@)
}

/// The stored file name of user `id`'s picture: `00`, the id, `.` and the
/// extension (`jpg` where the uploaded name has none).
pub open spec fn picture_file_name(id: int, extension: Option<Seq<char>>) -> Seq<char> {
    "00"@ + decimal(id) + "."@ + match extension {
        Some(e) => e,
        None => "jpg"@,
    }
}

/// What an upload is answered.
pub enum UploadReply {
    /// The request has no part.
    NoFile,
    /// The part is not an image.
    NotAnImage,
    /// The assets directory could not be created.
    DirectoryFailed,
    /// The picture file could not be created or written.
    FileFailed,
    /// The picture was stored and recorded under this name.
    Uploaded { userpic: String },
    /// The picture was stored but no user row changed.
    NotUpdated,
}

impl UploadReply {
    /// The text the reply carries.
    pub open spec fn message_text(self) -> Seq<char> {
        match self {
            UploadReply::NoFile => "No file uploaded."@,
            UploadReply::NotAnImage => "Invalid file type. Only images are allowed."@,
            UploadReply::DirectoryFailed => "Failed to create upload directory."@,
            UploadReply::FileFailed => "Failed to create file."@,
            UploadReply::Uploaded { .. } => "You have change your profile picture successfully."@,
            UploadReply::NotUpdated => "Unable to upload picture, please select image only."@,
        }
    }

    /// The HTTP status code of the reply.
    pub open spec fn status_code(self) -> u16 {
        match self {
            UploadReply::NoFile => 400,
            UploadReply::NotAnImage => 400,
            UploadReply::DirectoryFailed => 409,
            UploadReply::FileFailed => 500,
            UploadReply::Uploaded { .. } => 201,
            UploadReply::NotUpdated => 409,
        }
    }

    /// The HTTP status: 400 Bad Request without a file or for a non-image,
    /// 409 Conflict where the directory cannot be made or no row changed,
    /// 500 where the file cannot be written, 201 Created when stored.
    pub fn status(&self) -> (r: u16)
        ensures
            r == self.status_code(),
    {
        match self {
            UploadReply::NoFile => 400,
            UploadReply::NotAnImage => 400,
            UploadReply::DirectoryFailed => 409,
            UploadReply::FileFailed => 500,
            UploadReply::Uploaded { .. } => 201,
            UploadReply::NotUpdated => 409,
        }
    }

    /// The text the reply carries.
    pub fn message(&self) -> (r: String)
        ensures
            r@ == self.message_text(),
    {
        match self {
            UploadReply::NoFile => text("No file uploaded."),
            UploadReply::NotAnImage => text("Invalid file type. Only images are allowed."),
            UploadReply::DirectoryFailed => text("Failed to create upload directory."),
            UploadReply::FileFailed => text("Failed to create file."),
            UploadReply::Uploaded { .. } => text("You have change your profile picture successfully."),
            UploadReply::NotUpdated => text("Unable to upload picture, please select image only."),
        }
    }
}

/// The disk work for storing an image, in order: delete the previous picture
/// (where there is one to delete, ignoring failure), create the directory,
/// create and write the file, then record the file name with the user.
pub struct StorePlan {
    pub remove_old: Option<String>,
    pub directory: String,
    pub path: String,
    pub file_name: String,
}

/// What an uploaded part leads to.
pub enum UploadPlan {
    /// Answer at once.
    Reject(UploadReply),
    /// Store the picture.
    Store(StorePlan),
}

/// The stored file name of user `id`'s picture uploaded as `uploaded_name`.
pub fn picture_name(id: i32, uploaded_name: &str) -> (r: String)
    ensures
        r@ == picture_file_name(id as int, path_extension(uploaded_name@)),
{
    let mut name = text("00");
    push_decimal(&mut name, id);
    name.append(".");
    match file_extension(uploaded_name) {
        Some(e) => name.append(e.as_str()),
        None => name.append("jpg"),
    }
    name
}

/// Decides what an uploaded part of user `id` leads to, given the user's
/// current picture, the uploaded file name and the part's content type.
pub fn plan_upload(id: i32, current: &Users, uploaded_name: &str, content_type: &str) -> (r: UploadPlan)
    ensures
        !is_image(content_type@) ==> r == UploadPlan::Reject(UploadReply::NotAnImage),
        is_image(content_type@) ==> (r matches UploadPlan::Store(p) && {
            &&& p.file_name@ == picture_file_name(id as int, path_extension(uploaded_name@))
            &&& p.path@ == picture_directory() + p.file_name@
            &&& p.directory@ == assets_directory()
            &&& current.userpic@ == default_picture() ==> p.remove_old is None
            &&& current.userpic@ != default_picture() ==> (p.remove_old matches Some(old)
                && old@ == picture_directory() + current.userpic@)
        }),
{
    let file_name = picture_name(id, uploaded_name);
    if !starts_with(content_type, "image/") {
        return UploadPlan::Reject(UploadReply::NotAnImage);
    }
    let mut path = text("./assets/users/");
    path.append(file_name.as_str());
    let remove_old = if same_text(current.userpic.as_str(), "pix.png") {
        None
    } else {
        let mut old = text("./assets/users/");
        old.append(current.userpic.as_str());
        Some(old)
    };
    UploadPlan::Store(StorePlan { remove_old, directory: text("./assets"), path, file_name })
}

/// The answer once the file name has been recorded: uploaded where a row changed.
pub fn stored_reply(rows_affected: u64, file_name: String) -> (r: UploadReply)
    ensures
        rows_affected > 0 ==> r == (UploadReply::Uploaded { userpic: file_name }),
        rows_affected == 0 ==> r == UploadReply::NotUpdated,
{
    if rows_affected > 0 {
        UploadReply::Uploaded { userpic: file_name }
    } else {
        UploadReply::NotUpdated
    }
}

/// Where an upload stands.
pub enum UploadState {
    /// Waiting for the first part of the request.
    AwaitingPart,
    /// The previous picture is being deleted.
    RemovingOld(StorePlan),
    /// The assets directory is being created.
    CreatingDirectory(StorePlan),
    /// The picture file is being created.
    CreatingFile(StorePlan),
    /// The picture is being written to the file.
    Writing(StorePlan),
    /// The file name is being recorded with the user.
    Recording(StorePlan),
    /// The request has been answered.
    Done,
}

/// What the server reports back after doing what an upload asked for.
pub enum UploadEvent {
    /// The request has no part.
    NoPart,
    /// The first part, with the uploading user's current picture.
    Part { current: Users, file_name: String, content_type: String },
    /// The previous picture was deleted, or deleting it failed (which is ignored).
    Removed,
    /// Whether the directory was created (or already existed).
    DirectoryCreated(bool),
    /// Whether the file was created.
    FileCreated(bool),
    /// Whether the picture was written.
    Written(bool),
    /// The number of user rows that recording the name changed.
    Recorded(u64),
}

/// What an upload asks the server to do next.
pub enum UploadAction {
    /// Delete this file.
    Remove(String),
    /// Create this directory and its parents.
    CreateDirectory(String),
    /// Create (or truncate) this file.
    CreateFile(String),
    /// Write the part's bytes to the file.
    Write,
    /// Record this picture name with the user.
    Record(String),
    /// Answer the request.
    Answer(UploadReply),
}

/// Whether an event answers the action of a state.
pub open spec fn event_fits(state: UploadState, event: UploadEvent) -> bool {
    match state {
        UploadState::AwaitingPart => event is NoPart || event is Part,
        UploadState::RemovingOld(_) => event is Removed,
        UploadState::CreatingDirectory(_) => event is DirectoryCreated,
        UploadState::CreatingFile(_) => event is FileCreated,
        UploadState::Writing(_) => event is Written,
        UploadState::Recording(_) => event is Recorded,
        UploadState::Done => false,
    }
}

/// Whether `p` is how user `id`'s image part is stored.
pub open spec fn stores_part(p: StorePlan, id: int, current: Users, file_name: Seq<char>) -> bool {
    &&& p.file_name@ == picture_file_name(id, path_extension(file_name))
    &&& p.path@ == picture_directory() + p.file_name@
    &&& p.directory@ == assets_directory()
    &&& current.userpic@ == default_picture() ==> p.remove_old is None
    &&& current.userpic@ != default_picture() ==> (p.remove_old matches Some(old)
        && old@ == picture_directory() + current.userpic@)
}

/// The next state and action of user `id`'s upload, given what the server
/// reports back.
pub fn upload_step(id: i32, state: UploadState, event: UploadEvent) -> (r: (UploadState, UploadAction))
    requires
        event_fits(state, event),
    ensures
        match state {
            UploadState::AwaitingPart => match event {
                UploadEvent::Part { current, file_name, content_type } => if !is_image(content_type@) {
                    r == (UploadState::Done, UploadAction::Answer(UploadReply::NotAnImage))
                } else if current.userpic@ == default_picture() {
                    r.0 matches UploadState::CreatingDirectory(p) && stores_part(p, id as int, current, file_name@)
                        && r.1 == UploadAction::CreateDirectory(p.directory)
                } else {
                    r.0 matches UploadState::RemovingOld(p) && stores_part(p, id as int, current, file_name@)
                        && r.1 == UploadAction::Remove(p.remove_old->0)
                },
                _ => r == (UploadState::Done, UploadAction::Answer(UploadReply::NoFile)),
            },
            UploadState::RemovingOld(p) => r == (UploadState::CreatingDirectory(p), UploadAction::CreateDirectory(
                p.directory,
            )),
            UploadState::CreatingDirectory(p) => match event {
                UploadEvent::DirectoryCreated(true) => r == (UploadState::CreatingFile(p), UploadAction::CreateFile(
                    p.path,
                )),
                _ => r == (UploadState::Done, UploadAction::Answer(UploadReply::DirectoryFailed)),
            },
            UploadState::CreatingFile(p) => match event {
                UploadEvent::FileCreated(true) => r == (UploadState::Writing(p), UploadAction::Write),
                _ => r == (UploadState::Done, UploadAction::Answer(UploadReply::FileFailed)),
            },
            UploadState::Writing(p) => match event {
                UploadEvent::Written(true) => r == (UploadState::Recording(p), UploadAction::Record(p.file_name)),
                _ => r == (UploadState::Done, UploadAction::Answer(UploadReply::FileFailed)),
            },
            UploadState::Recording(p) => match event {
                UploadEvent::Recorded(rows) => if rows > 0 {
                    r == (UploadState::Done, UploadAction::Answer(
                        (UploadReply::Uploaded { userpic: p.file_name }),
                    ))
                } else {
                    r == (UploadState::Done, UploadAction::Answer(UploadReply::NotUpdated))
                },
                _ => false,
            },
            UploadState::Done => false,
        },
{
    match state {
        UploadState::AwaitingPart => match event {
            UploadEvent::Part { current, file_name, content_type } => {
                match plan_upload(id, &current, file_name.as_str(), content_type.as_str()) {
                    UploadPlan::Reject(reply) => (UploadState::Done, UploadAction::Answer(reply)),
                    UploadPlan::Store(p) => match &p.remove_old {
                        Some(old) => {
                            let old = old.clone();
                            (UploadState::RemovingOld(p), UploadAction::Remove(old))
                        },
                        None => {
                            let directory = p.directory.clone();
                            (UploadState::CreatingDirectory(p), UploadAction::CreateDirectory(directory))
                        },
                    },
                }
            },
            _ => (UploadState::Done, UploadAction::Answer(UploadReply::NoFile)),
        },
        UploadState::RemovingOld(p) => {
            let directory = p.directory.clone();
            (UploadState::CreatingDirectory(p), UploadAction::CreateDirectory(directory))
        },
        UploadState::CreatingDirectory(p) => match event {
            UploadEvent::DirectoryCreated(true) => {
                let path = p.path.clone();
                (UploadState::CreatingFile(p), UploadAction::CreateFile(path))
            },
            _ => (UploadState::Done, UploadAction::Answer(UploadReply::DirectoryFailed)),
        },
        UploadState::CreatingFile(p) => match event {
            UploadEvent::FileCreated(true) => (UploadState::Writing(p), UploadAction::Write),
            _ => (UploadState::Done, UploadAction::Answer(UploadReply::FileFailed)),
        },
        UploadState::Writing(p) => match event {
            UploadEvent::Written(true) => {
                let name = p.file_name.clone();
                (UploadState::Recording(p), UploadAction::Record(name))
            },
            _ => (UploadState::Done, UploadAction::Answer(UploadReply::FileFailed)),
        },
        UploadState::Recording(p) => match event {
            UploadEvent::Recorded(rows) => {
                let name = p.file_name.clone();
                (UploadState::Done, UploadAction::Answer(stored_reply(rows, name)))
            },
            _ => (UploadState::Done, UploadAction::Answer(UploadReply::NotUpdated)),
        },
        UploadState::Done => (UploadState::Done, UploadAction::Answer(UploadReply::NoFile)),
    }
}

} // verus!
