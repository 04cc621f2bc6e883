//! The reset-code store: the statements that read and write the code table.

use vstd::prelude::*;
use crate::db::codes::{code_view, CodeTable};
use crate::models::api::StoreError;
use crate::models::auth::Code;

verus! {

/// The active code of `user_id`, where it is `code`.
pub fn find_code_by_code(codes: &CodeTable, code: String, user_id: i32) -> (r: Result<
    Option<Code>,
    StoreError,
>)
    ensures
        r matches Ok(found) && code_view(found) == codes@.find(code@, user_id),
{
    Ok(codes.select(&code, user_id))
}

/// Makes `code` the active code of `user_id`: the user's row is overwritten
/// where there is one and inserted where there is none. Fails, and changes
/// nothing, where a row is needed and the table has no id left.
pub fn create_code(codes: &mut CodeTable, code: &String, user_id: i32) -> (r: Result<
    bool,
    StoreError,
>)
    ensures
        final(codes)@.wf(),
        match r {
            Ok(stored) => stored && old(codes)@.accepts(user_id)
                && final(codes)@ == old(codes)@.upsert(code@, user_id),
            Err(e) => !old(codes)@.accepts(user_id) && final(codes)@ == old(codes)@ && e@
                == "Error creating code: no id is left"@,
        },
{
    if codes.upsert(code.clone(), user_id) {
        Ok(true)
    } else {
        Err(StoreError { message: String::from_str("Error creating code: no id is left") })
    }
}

/// Deletes the active code of `user_id` where it is `code`.
pub fn delete_code(codes: &mut CodeTable, code: String, user_id: i32) -> (r: Result<
    (),
    StoreError,
>)
    ensures
        final(codes)@.wf(),
        r is Ok,
        final(codes)@ == old(codes)@.delete(code@, user_id),
{
    codes.delete(&code, user_id);
    Ok(())
}

} // verus!
