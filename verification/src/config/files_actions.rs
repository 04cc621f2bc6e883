//! The file custody engine: upload, listing and delete.
//!
//! Each operation comes twice. The functions that take tables run it whole
//! against the in-memory stores. The others are its single decisions, each
//! taking what a store answered, for a caller that keeps its rows and bytes
//! elsewhere.

use vstd::prelude::*;
use crate::config::text::{split_last, tail_after};
use crate::db::blobs::ByteStore;
use crate::db::files::{wanted, FileTable, FileTableView};
use crate::models::api::{describe, Payload, PayloadView, StoreError};
use crate::models::files::{
    done, failed, rows_view, DeleteError, FileAction, FileData, FileDataView, FileError,
    FileResponse, FileResponseView, FileUploadRequest, FileUploadRequestView, ListError,
    UploadError, UploadPart,
};
use crate::models::user::text_of;

verus! {

/// The extension of a file name: what follows its last `.`, or `unknown`
/// where it holds none.
pub open spec fn file_extension(name: Seq<char>) -> Seq<char> {
    if name.contains('.') {
        tail_after(name, '.')
    } else {
        "unknown"@
    }
}

/// What is recorded of an upload whose part declares `name` and
/// `content_type` and carries `size` bytes. The bytes go under the upload
/// root, at the declared name. The size is kept as a 32-bit number: a count
/// beyond its range is cut to its low 32 bits.
pub open spec fn upload_record(
    name: Option<Seq<char>>,
    content_type: Option<Seq<char>>,
    size: nat,
) -> FileUploadRequestView {
    let file_name = match name {
        Some(n) => n,
        None => "unknown"@,
    };
    FileUploadRequestView {
        file_name,
        file_path: "uploads/"@ + file_name,
        file_size: size as i32,
        file_content_type: match content_type {
            Some(t) => t,
            None => "application/octet-stream"@,
        },
        file_type: file_extension(file_name),
    }
}

/// The record of `part`.
pub open spec fn record_of(part: UploadPart) -> FileUploadRequestView {
    upload_record(text_of(part.file_name), text_of(part.content_type), part.bytes@.len())
}

/// Whether a listing asks for every file of the caller: its id list is
/// empty or starts with -1.
pub open spec fn lists_own_files(ids: Seq<i32>) -> bool {
    ids.len() == 0 || ids[0] == -1
}

/// The rows a listing for `user_id` selects: the caller's own, or those
/// with the listed ids that `scope` owns, where a scope is given.
pub open spec fn selected_rows(
    table: FileTableView,
    scope: Option<i32>,
    user_id: i32,
    ids: Seq<i32>,
) -> Seq<FileDataView> {
    if lists_own_files(ids) {
        table.owned_by(user_id)
    } else {
        table.select(Some(ids), scope)
    }
}

/// The answer to a listing that selected `rows`. An empty selection is
/// reported as a failure that still carries the empty list.
pub open spec fn listing(rows: Seq<FileDataView>) -> FileResponseView {
    if rows.len() == 0 {
        FileResponseView {
            data: Some(PayloadView::Files(rows)),
            error_message: "Files not found"@,
            is_error: true,
            error: Some(FileError::List(ListError::NoneFound)),
        }
    } else {
        done(PayloadView::Files(rows))
    }
}

/// The answer to an upload once the table has answered the insert.
pub open spec fn upload_answer(inserted: Result<i32, StoreError>) -> FileResponseView {
    match inserted {
        Ok(id) => done(PayloadView::FileId(id)),
        Err(_) => failed(FileError::Upload(UploadError::InsertFailed), "File not found"@),
    }
}

/// The answer to a delete once the byte store has answered the removal.
pub open spec fn removal_answer(removed: Result<(), StoreError>) -> FileResponseView {
    match removed {
        Ok(_) => done(PayloadView::Message("File deleted successfully"@)),
        Err(e) => failed(
            FileError::Delete(DeleteError::BytesNotRemoved),
            "Error deleting file: "@ + e@,
        ),
    }
}

/// The answer to an upload of `part` into the table `files`.
pub open spec fn upload_reply(files: FileTableView, part: Option<UploadPart>) -> FileResponseView {
    match part {
        None => failed(FileError::Upload(UploadError::NoFile), "No file uploaded"@),
        Some(_) => if files.accepts() {
            done(PayloadView::FileId(files.next_id as i32))
        } else {
            failed(FileError::Upload(UploadError::InsertFailed), "File not found"@)
        },
    }
}

/// The table after an upload of `part` for `user_id`: the record of the
/// part is inserted where the table has an id left for it.
pub open spec fn files_after_upload(files: FileTableView, part: Option<UploadPart>, user_id: i32)
    -> FileTableView {
    match part {
        Some(p) => if files.accepts() {
            files.insert(record_of(p), user_id)
        } else {
            files
        },
        None => files,
    }
}

/// The byte store after an upload of `part`: its bytes are kept under the
/// path of the declared name, over whatever was there, whether or not the
/// table then takes the row.
pub open spec fn blobs_after_upload(blobs: Map<Seq<char>, Seq<u8>>, part: Option<UploadPart>)
    -> Map<Seq<char>, Seq<u8>> {
    match part {
        Some(p) => blobs.insert(record_of(p).file_path, p.bytes@),
        None => blobs,
    }
}

/// The answer to a delete of the file `file_id`, confined to the files of
/// `scope` where a scope is given.
pub open spec fn delete_reply(
    files: FileTableView,
    blobs: Map<Seq<char>, Seq<u8>>,
    file_id: i32,
    scope: Option<i32>,
) -> FileResponseView {
    match files.by_id_of(file_id, scope) {
        None => failed(FileError::Delete(DeleteError::NotFound), "File not found"@),
        Some(row) => if blobs.contains_key(row.file_path) {
            done(PayloadView::Message("File deleted successfully"@))
        } else {
            failed(
                FileError::Delete(DeleteError::BytesNotRemoved),
                "Error deleting file: "@ + "no bytes are stored under the path"@,
            )
        },
    }
}

/// The table after a delete of the file `file_id`: unchanged where there
/// is no such row within `scope`, else without the row.
pub open spec fn files_after_delete(files: FileTableView, file_id: i32, scope: Option<i32>)
    -> FileTableView {
    match files.by_id_of(file_id, scope) {
        None => files,
        Some(_) => files.delete(file_id),
    }
}

/// The byte store after a delete of the file `file_id`: untouched where
/// there is no such row within `scope`, else without the bytes at the row's
/// path.
pub open spec fn blobs_after_delete(
    files: FileTableView,
    blobs: Map<Seq<char>, Seq<u8>>,
    file_id: i32,
    scope: Option<i32>,
) -> Map<Seq<char>, Seq<u8>> {
    match files.by_id_of(file_id, scope) {
        None => blobs,
        Some(row) => blobs.remove(row.file_path),
    }
}

/// What the first decision of a delete makes of the lookup `found`: the row
/// to delete, or the failure that ends the request. A row outside `scope`
/// counts as not found.
pub open spec fn located_row(found: Result<Option<FileData>, StoreError>, scope: Option<i32>)
    -> Result<FileDataView, FileResponseView> {
    match found {
        Ok(Some(row)) => if wanted(row@, None, scope) {
            Ok(row@)
        } else {
            Err(failed(FileError::Delete(DeleteError::NotFound), "File not found"@))
        },
        Ok(None) => Err(failed(FileError::Delete(DeleteError::NotFound), "File not found"@)),
        Err(_) => Err(
            failed(FileError::Delete(DeleteError::LookupFailed), "Error checking file existence"@),
        ),
    }
}

impl FileAction {
    /// What is recorded of an upload: name and content type as declared or
    /// by default, the size, the storage path and the extension.
    pub fn describe(part: &UploadPart) -> (file: FileUploadRequest)
        ensures
            file@ == record_of(*part),
    {
        let file_name = match &part.file_name {
            Some(name) => name.clone(),
            None => String::from_str("unknown"),
        };
        let file_content_type = match &part.content_type {
            Some(content_type) => content_type.clone(),
            None => String::from_str("application/octet-stream"),
        };
        let file_size = #[verifier::truncate]
        (part.bytes.len() as i32);
        let file_path = describe("uploads/", file_name.as_str());
        let (dotted, tail) = split_last(file_name.as_str(), '.');
        let file_type = if dotted {
            String::from_str(tail)
        } else {
            String::from_str("unknown")
        };
        FileUploadRequest { file_name, file_path, file_size, file_content_type, file_type }
    }

    /// The answer to an upload that carried no part.
    pub fn no_file() -> (r: FileResponse)
        ensures
            r@ == failed(FileError::Upload(UploadError::NoFile), "No file uploaded"@),
    {
        FileResponse::failed(
            FileError::Upload(UploadError::NoFile),
            String::from_str("No file uploaded"),
        )
    }

    /// The decision of an upload on what the byte store answered the write:
    /// `None` to go on and insert the row, or the answer that ends the
    /// request. After a refused write no row is inserted.
    pub fn written(result: Result<(), StoreError>) -> (r: Option<FileResponse>)
        ensures
            match result {
                Ok(_) => r is None,
                Err(e) => r matches Some(answer) && answer@ == failed(
                    FileError::Upload(UploadError::WriteFailed),
                    "Error writing file: "@ + e@,
                ),
            },
    {
        match result {
            Ok(_) => None,
            Err(e) => Some(
                FileResponse::failed(
                    FileError::Upload(UploadError::WriteFailed),
                    describe("Error writing file: ", e.message.as_str()),
                ),
            ),
        }
    }

    /// The answer to an upload once the table has answered the insert: the
    /// new row's id, or a failure. The bytes stay where they were written
    /// either way.
    pub fn uploaded(inserted: Result<i32, StoreError>) -> (r: FileResponse)
        ensures
            r@ == upload_answer(inserted),
    {
        match inserted {
            Ok(id) => FileResponse::done(Payload::FileId(id)),
            Err(_) => FileResponse::failed(
                FileError::Upload(UploadError::InsertFailed),
                String::from_str("File not found"),
            ),
        }
    }

    /// Stores an upload for `user_id`: the bytes first, under the path of
    /// the declared name and over whatever was there, then the metadata
    /// row. Answers with the new row's id.
    pub fn upload_file(
        files: &mut FileTable,
        blobs: &mut ByteStore,
        part: Option<UploadPart>,
        user_id: i32,
    ) -> (r: FileResponse)
        ensures
            final(files)@.wf(),
            r@ == upload_reply(old(files)@, part),
            final(files)@ == files_after_upload(old(files)@, part, user_id),
            final(blobs)@ == blobs_after_upload(old(blobs)@, part),
    {
        proof {
            use_type_invariant(&*files);
        }
        match part {
            None => FileAction::no_file(),
            Some(p) => {
                let file = FileAction::describe(&p);
                blobs.write(file.file_path.clone(), p.bytes);
                match FileAction::written(Ok(())) {
                    Some(answer) => return answer,
                    None => {},
                }
                let inserted = match files.insert(file, user_id) {
                    Some(id) => Ok(id),
                    None => Err(
                        StoreError { message: String::from_str("Error creating file: no id is left") },
                    ),
                };
                FileAction::uploaded(inserted)
            },
        }
    }

    /// Whether a listing asks for every file of the caller.
    pub fn lists_own(file_ids: &[i32]) -> (r: bool)
        ensures
            r == lists_own_files(file_ids@),
    {
        file_ids.len() == 0 || file_ids[0] == -1
    }

    /// The answer to a listing once the table has answered the query.
    pub fn listed(rows: Result<Vec<FileData>, StoreError>) -> (r: FileResponse)
        ensures
            match rows {
                Ok(found) => r@ == listing(rows_view(found@)),
                Err(e) => r@ == failed(
                    FileError::List(ListError::QueryFailed),
                    "Error fetching files: "@ + e@,
                ),
            },
    {
        match rows {
            Ok(found) => {
                if found.len() == 0 {
                    FileResponse {
                        data: Some(Payload::Files(found)),
                        error_message: String::from_str("Files not found"),
                        is_error: true,
                        error: Some(FileError::List(ListError::NoneFound)),
                    }
                } else {
                    FileResponse::done(Payload::Files(found))
                }
            },
            Err(e) => FileResponse::failed(
                FileError::List(ListError::QueryFailed),
                describe("Error fetching files: ", e.message.as_str()),
            ),
        }
    }

    /// Lists files for `user_id`: every file of that user where `file_ids`
    /// is empty or starts with -1, else the files with the listed ids. An
    /// engine that is owner-filtered lists only those of them that the user
    /// owns; one that is not lists them whoever owns them.
    pub fn get_files(&self, files: &FileTable, user_id: i32, file_ids: &[i32]) -> (r:
        FileResponse)
        ensures
            r@ == listing(selected_rows(files@, self.scope_of(user_id), user_id, file_ids@)),
    {
        let found = if FileAction::lists_own(file_ids) {
            files.select_by_owner(user_id)
        } else {
            files.select_where(Some(file_ids), self.scope(user_id))
        };
        FileAction::listed(Ok(found))
    }

    /// The first decision of a delete for `user_id`, on what the table
    /// answered the lookup: the row to delete, or the answer that ends the
    /// request. To an engine that is owner-filtered a file of another user
    /// is not found.
    pub fn located(&self, found: Result<Option<FileData>, StoreError>, user_id: i32) -> (r:
        Result<FileData, FileResponse>)
        ensures
            match located_row(found, self.scope_of(user_id)) {
                Ok(row) => r matches Ok(target) && target@ == row,
                Err(refusal) => r matches Err(answer) && answer@ == refusal,
            },
    {
        match found {
            Ok(Some(row)) => {
                if self.owner_filtered && row.user_id != user_id {
                    Err(
                        FileResponse::failed(
                            FileError::Delete(DeleteError::NotFound),
                            String::from_str("File not found"),
                        ),
                    )
                } else {
                    Ok(row)
                }
            },
            Ok(None) => Err(
                FileResponse::failed(
                    FileError::Delete(DeleteError::NotFound),
                    String::from_str("File not found"),
                ),
            ),
            Err(_) => Err(
                FileResponse::failed(
                    FileError::Delete(DeleteError::LookupFailed),
                    String::from_str("Error checking file existence"),
                ),
            ),
        }
    }

    /// The second decision of a delete, on what the table answered the row's
    /// deletion: `None` to go on and remove the bytes, or the answer that
    /// ends the request with the bytes untouched.
    pub fn row_deleted(deleted: Result<(), StoreError>) -> (r: Option<FileResponse>)
        ensures
            match deleted {
                Ok(_) => r is None,
                Err(_) => r matches Some(answer) && answer@ == failed(
                    FileError::Delete(DeleteError::RowNotDeleted),
                    "Error deleting file from database"@,
                ),
            },
    {
        match deleted {
            Ok(_) => None,
            Err(_) => Some(
                FileResponse::failed(
                    FileError::Delete(DeleteError::RowNotDeleted),
                    String::from_str("Error deleting file from database"),
                ),
            ),
        }
    }

    /// The last decision of a delete, on what the byte store answered the
    /// removal. A failure here leaves bytes without a row.
    pub fn bytes_removed(removed: Result<(), StoreError>) -> (r: FileResponse)
        ensures
            r@ == removal_answer(removed),
    {
        match removed {
            Ok(_) => FileResponse::done(
                Payload::Message(String::from_str("File deleted successfully")),
            ),
            Err(e) => FileResponse::failed(
                FileError::Delete(DeleteError::BytesNotRemoved),
                describe("Error deleting file: ", e.message.as_str()),
            ),
        }
    }

    /// Deletes the file `file_id` for `user_id`: the row first, then the
    /// bytes at the row's path. An engine that is owner-filtered deletes
    /// only a file of that user; one that is not deletes it whoever owns
    /// it. Where there is no such row nothing changes. Where the bytes are
    /// already gone the row is deleted all the same and the answer reports
    /// the failure.
    pub fn delete_file(
        &self,
        files: &mut FileTable,
        blobs: &mut ByteStore,
        file_id: i32,
        user_id: i32,
    ) -> (r: FileResponse)
        ensures
            final(files)@.wf(),
            r@ == delete_reply(old(files)@, old(blobs)@, file_id, self.scope_of(user_id)),
            final(files)@ == files_after_delete(old(files)@, file_id, self.scope_of(user_id)),
            final(blobs)@ == blobs_after_delete(
                old(files)@,
                old(blobs)@,
                file_id,
                self.scope_of(user_id),
            ),
    {
        proof {
            use_type_invariant(&*files);
        }
        let target = match self.located(Ok(files.select(file_id)), user_id) {
            Ok(target) => target,
            Err(answer) => return answer,
        };
        files.delete(target.id);
        match FileAction::row_deleted(Ok(())) {
            Some(answer) => return answer,
            None => {},
        }
        let removed = if blobs.remove(&target.file_path) {
            Ok(())
        } else {
            Err(StoreError { message: String::from_str("no bytes are stored under the path") })
        };
        FileAction::bytes_removed(removed)
    }
}

} // verus!
