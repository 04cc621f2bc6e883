use vstd::prelude::*;
use crate::models::api::{payload_of, Payload, PayloadView};

verus! {

/// The file custody engine. It holds no rows or bytes of its own: the
/// tables and the byte store are handed to each operation.
///
/// `owner_filtered` decides whom a listing by ids and a delete serve. Where
/// it is set, both see only the caller's own files. Where it is not, both
/// reach every file, whoever owns it.
#[derive(Debug, Clone, Copy, PartialEq, Eq)]
pub struct FileAction {
    pub owner_filtered: bool,
}

impl Default for FileAction {
    /// The engine that serves each caller its own files only.
    fn default() -> (action: FileAction)
        ensures
            action.owner_filtered,
    {
        FileAction { owner_filtered: true }
    }
}

impl FileAction {
    /// The owner that a listing by ids and a delete on behalf of `user_id`
    /// are confined to, if any.
    pub open spec fn scope_of(self, user_id: i32) -> Option<i32> {
        if self.owner_filtered {
            Some(user_id)
        } else {
            None
        }
    }

    /// The owner that a listing by ids and a delete on behalf of `user_id`
    /// are confined to, if any.
    pub fn scope(&self, user_id: i32) -> (owner: Option<i32>)
        ensures
            owner == self.scope_of(user_id),
    {
        if self.owner_filtered {
            Some(user_id)
        } else {
            None
        }
    }
}

/// Body of a listing request.
#[derive(Debug, Clone, PartialEq, Eq)]
pub struct GetFiles {
    pub file_ids: Vec<i32>,
}

/// One row of the file table.
#[derive(Debug, PartialEq, Eq)]
pub struct FileData {
    pub id: i32,
    pub file_name: String,
    pub file_path: String,
    pub file_size: i32,
    pub file_content_type: String,
    pub file_type: String,
    pub user_id: i32,
}

/// Mathematical value of a [`FileData`].
pub struct FileDataView {
    pub id: i32,
    pub file_name: Seq<char>,
    pub file_path: Seq<char>,
    pub file_size: i32,
    pub file_content_type: Seq<char>,
    pub file_type: Seq<char>,
    pub user_id: i32,
}

impl View for FileData {
    type V = FileDataView;

    open spec fn view(&self) -> FileDataView {
        FileDataView {
            id: self.id,
            file_name: self.file_name@,
            file_path: self.file_path@,
            file_size: self.file_size,
            file_content_type: self.file_content_type@,
            file_type: self.file_type@,
            user_id: self.user_id,
        }
    }
}

impl Clone for FileData {
    fn clone(&self) -> (r: FileData)
        ensures
            r@ == self@,
    {
        FileData {
            id: self.id,
            file_name: self.file_name.clone(),
            file_path: self.file_path.clone(),
            file_size: self.file_size,
            file_content_type: self.file_content_type.clone(),
            file_type: self.file_type.clone(),
            user_id: self.user_id,
        }
    }
}

/// The values of a list of rows.
pub open spec fn rows_view(rows: Seq<FileData>) -> Seq<FileDataView> {
    rows.map_values(|f: FileData| f@)
}

/// What is recorded of an upload before the row has an id and an owner.
#[derive(Debug, PartialEq, Eq)]
pub struct FileUploadRequest {
    pub file_name: String,
    pub file_path: String,
    pub file_size: i32,
    pub file_content_type: String,
    pub file_type: String,
}

/// Mathematical value of a [`FileUploadRequest`].
pub struct FileUploadRequestView {
    pub file_name: Seq<char>,
    pub file_path: Seq<char>,
    pub file_size: i32,
    pub file_content_type: Seq<char>,
    pub file_type: Seq<char>,
}

impl View for FileUploadRequest {
    type V = FileUploadRequestView;

    open spec fn view(&self) -> FileUploadRequestView {
        FileUploadRequestView {
            file_name: self.file_name@,
            file_path: self.file_path@,
            file_size: self.file_size,
            file_content_type: self.file_content_type@,
            file_type: self.file_type@,
        }
    }
}

impl FileUploadRequestView {
    /// The row that stores this upload under `id` for `user_id`.
    pub open spec fn row(self, id: i32, user_id: i32) -> FileDataView {
        FileDataView {
            id,
            file_name: self.file_name,
            file_path: self.file_path,
            file_size: self.file_size,
            file_content_type: self.file_content_type,
            file_type: self.file_type,
            user_id,
        }
    }
}

/// The first part of a multipart upload, as plain values: the file name and
/// the content type it declares, if any, and its bytes.
#[derive(Debug, Clone, PartialEq, Eq)]
pub struct UploadPart {
    pub file_name: Option<String>,
    pub content_type: Option<String>,
    pub bytes: Vec<u8>,
}

/// Why an upload was refused.
#[derive(Debug, Clone, Copy, PartialEq, Eq)]
pub enum UploadError {
    /// The request carried no part.
    NoFile,
    /// The byte store did not take the bytes.
    WriteFailed,
    /// The bytes are stored, the metadata row was refused.
    InsertFailed,
}

/// Why a listing came back without rows.
#[derive(Debug, Clone, Copy, PartialEq, Eq)]
pub enum ListError {
    /// Nothing matched. The answer still carries the empty list.
    NoneFound,
    /// The table could not be read.
    QueryFailed,
}

/// Why a delete was refused or left unfinished.
#[derive(Debug, Clone, Copy, PartialEq, Eq)]
pub enum DeleteError {
    /// There is no row with that id.
    NotFound,
    /// The table could not be read.
    LookupFailed,
    /// The row could not be deleted; the bytes were left alone.
    RowNotDeleted,
    /// The row is gone, the bytes could not be removed.
    BytesNotRemoved,
}

/// The failures of the file custody engine, by operation.
#[derive(Debug, Clone, Copy, PartialEq, Eq)]
pub enum FileError {
    Upload(UploadError),
    List(ListError),
    Delete(DeleteError),
}

/// What the file custody engine answers: a payload, or the kind of failure
/// and a message for the client.
#[derive(Debug, Clone, PartialEq, Eq)]
pub struct FileResponse {
    pub data: Option<Payload>,
    pub error_message: String,
    pub is_error: bool,
    pub error: Option<FileError>,
}

/// Mathematical value of a [`FileResponse`].
pub struct FileResponseView {
    pub data: Option<PayloadView>,
    pub error_message: Seq<char>,
    pub is_error: bool,
    pub error: Option<FileError>,
}

impl View for FileResponse {
    type V = FileResponseView;

    open spec fn view(&self) -> FileResponseView {
        FileResponseView {
            data: payload_of(self.data),
            error_message: self.error_message@,
            is_error: self.is_error,
            error: self.error,
        }
    }
}

/// The answer of an operation that succeeded with `data`.
pub open spec fn done(data: PayloadView) -> FileResponseView {
    FileResponseView { data: Some(data), error_message: Seq::empty(), is_error: false, error: None }
}

/// The answer of an operation that failed with `error`.
pub open spec fn failed(error: FileError, message: Seq<char>) -> FileResponseView {
    FileResponseView { data: None, error_message: message, is_error: true, error: Some(error) }
}

impl FileResponse {
    /// The answer of an operation that succeeded with `data`.
    pub fn done(data: Payload) -> (r: FileResponse)
        ensures
            r@ == done(data@),
    {
        FileResponse { data: Some(data), error_message: String::new(), is_error: false, error: None }
    }

    /// The answer of an operation that failed with `error`.
    pub fn failed(error: FileError, message: String) -> (r: FileResponse)
        ensures
            r@ == failed(error, message@),
    {
        FileResponse { data: None, error_message: message, is_error: true, error: Some(error) }
    }
}

} // verus!
