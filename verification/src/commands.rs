//! The inventory commands. Each takes the arguments of the command and the
//! reply received so far: with no reply it says what to ask of the store,
//! with the reply it says what the command returns.

use vstd::prelude::*;
use vstd::string::StringExecFns;
use crate::error::{prefixed, CommandError, ErrorView};
use crate::ident::{hex_decode, is_hex_id, RecordId};
use crate::model::{Medicine, MedicineInfo, MedicineInfoView, MedicineView, Price};
use crate::store::{
    outcome_view, reply_view, unexpected_reply, unexpected_reply_text, ReplyView, RequestView,
    RowView, SearchRow, Step, StepView, StoreReply, StoreRequest,
};

verus! {

/// Whether the first `n` rows are all projected documents.
pub open spec fn all_info(rows: Seq<RowView>, n: int) -> bool {
    forall|j: int| 0 <= j < n ==> (#[trigger] rows[j]) is Info
}

/// Whether row `k` is the first that is not a projected document.
pub open spec fn is_first_bad(rows: Seq<RowView>, k: int) -> bool {
    0 <= k < rows.len() && all_info(rows, k) && !(rows[k] is Info)
}

/// The error that a row other than a projected document ends a search with.
pub open spec fn row_error(row: RowView) -> ErrorView {
    match row {
        RowView::Failed { message } => ErrorView::DatabaseError {
            message: "Error retrieving medicine: "@ + message,
        },
        _ => ErrorView::MalformedRecord,
    }
}

/// What a search returns for the rows its cursor yielded: all of them, in
/// order, where every row is a projected document; else the error of the
/// first row that is not, whatever follows it.
pub open spec fn gathered(rows: Seq<RowView>) -> Result<Seq<MedicineInfoView>, ErrorView> {
    if all_info(rows, rows.len() as int) {
        Ok(Seq::new(rows.len(), |j: int| rows[j]->info))
    } else {
        Err(row_error(rows[choose|k: int| is_first_bad(rows, k)]))
    }
}

/// Only one row can be the first that is not a projected document.
pub proof fn lemma_first_bad_unique(rows: Seq<RowView>, a: int, b: int)
    requires
        is_first_bad(rows, a),
        is_first_bad(rows, b),
    ensures
        a == b,
{
    if a < b {
        assert(rows[a] is Info);
    }
    if b < a {
        assert(rows[b] is Info);
    }
}

/// Scans the rows of a search in order and stops at the first that is not a
/// projected document.
pub fn gather_rows(rows: &Vec<SearchRow>) -> (r: Result<Vec<MedicineInfo>, CommandError>)
    ensures
        outcome_view(r) == gathered(rows.deep_view()),
{
    let ghost all = rows.deep_view();
    let mut found: Vec<MedicineInfo> = Vec::new();
    let mut i: usize = 0;
    while i < rows.len()
        invariant
            i <= rows.len(),
            all == rows.deep_view(),
            all.len() == rows.len(),
            all_info(all, i as int),
            found.len() == i,
            forall|j: int| 0 <= j < i ==> (#[trigger] found[j])@ == all[j]->info,
        decreases rows.len() - i,
    {
        assert(all[i as int] == rows[i as int]@);
        match &rows[i] {
            SearchRow::Info { info } => {
                found.push(info.clone());
            },
            SearchRow::Malformed => {
                proof {
                    assert(is_first_bad(all, i as int));
                    let k = choose|k: int| is_first_bad(all, k);
                    lemma_first_bad_unique(all, k, i as int);
                }
                return Err(CommandError::MalformedRecord);
            },
            SearchRow::Failed { message } => {
                proof {
                    assert(is_first_bad(all, i as int));
                    let k = choose|k: int| is_first_bad(all, k);
                    lemma_first_bad_unique(all, k, i as int);
                }
                return Err(
                    CommandError::DatabaseError {
                        message: prefixed("Error retrieving medicine: ", message.as_str()),
                    },
                );
            },
        }
        i += 1;
    }
    assert(found.deep_view() =~= Seq::new(all.len(), |j: int| all[j]->info));
    Ok(found)
}

/// The number of records that a search leaves out before page `page`, pages
/// counted from one.
pub open spec fn page_skip(page: u32, limit: u32) -> int {
    (page - 1) * limit
}

/// From page one on, the number of records left out fits sixty-four bits.
pub proof fn lemma_page_skip_fits(page: u32, limit: u32)
    requires
        page >= 1,
    ensures
        0 <= page_skip(page, limit) <= u64::MAX,
{
    assert(0 <= (page - 1) * limit <= 0xffff_ffff * 0xffff_ffff) by (nonlinear_arith)
        requires
            1 <= page <= 0xffff_ffff,
            0 <= limit <= 0xffff_ffff,
    ;
}

/// What `search_medicines` does: page zero is refused; with no reply it asks
/// for the page; a reply of rows is scanned; a failure is reported.
pub open spec fn search_step(
    user_id: Seq<char>,
    query: Seq<char>,
    page: u32,
    limit: u32,
    reply: Option<ReplyView>,
) -> StepView<Seq<MedicineInfoView>> {
    if page == 0 {
        StepView::Finish {
            result: Err(ErrorView::InvalidArgument { message: "Page numbers start at 1"@ }),
        }
    } else {
        match reply {
            None => StepView::Ask {
                request: RequestView::SearchMedicines {
                    owner: user_id,
                    query: query,
                    skip: page_skip(page, limit) as u64,
                    limit: limit,
                },
            },
            Some(ReplyView::Rows { rows }) => StepView::Finish { result: gathered(rows) },
            Some(ReplyView::Failed { message }) => StepView::Finish {
                result: Err(ErrorView::DatabaseError { message: "Database error: "@ + message }),
            },
            Some(_) => StepView::Finish {
                result: Err(ErrorView::DatabaseError { message: unexpected_reply_text() }),
            },
        }
    }
}

/// Searches the records of `user_id` by name, one page at a time. Page
/// `page` of size `limit` starts after `(page - 1) * limit` records; that
/// product always fits the request.
pub fn search_medicines(
    user_id: &str,
    query: &str,
    page: u32,
    limit: u32,
    reply: Option<StoreReply>,
) -> (step: Step<Vec<MedicineInfo>>)
    ensures
        step.deep_view() == search_step(user_id@, query@, page, limit, reply_view(reply)),
{
    if page == 0 {
        return Step::Finish {
            result: Err(
                CommandError::InvalidArgument { message: "Page numbers start at 1".to_owned() },
            ),
        };
    }
    proof {
        lemma_page_skip_fits(page, limit);
    }
    match reply {
        None => {
            let before: u64 = page as u64 - 1;
            let skip: u64 = before * (limit as u64);
            Step::Ask {
                request: StoreRequest::SearchMedicines {
                    owner: user_id.to_owned(),
                    query: query.to_owned(),
                    skip,
                    limit,
                },
            }
        },
        Some(StoreReply::Rows { rows }) => Step::Finish { result: gather_rows(&rows) },
        Some(StoreReply::Failed { message }) => Step::Finish {
            result: Err(
                CommandError::DatabaseError {
                    message: prefixed("Database error: ", message.as_str()),
                },
            ),
        },
        Some(_) => Step::Finish { result: Err(unexpected_reply()) },
    }
}

/// What `get_medicine` does: with no reply it asks for the records of the
/// owner; the list that comes back is returned as it is.
pub open spec fn get_step(user_id: Seq<char>, reply: Option<ReplyView>) -> StepView<
    Seq<MedicineView>,
> {
    match reply {
        None => StepView::Ask { request: RequestView::FindMedicines { owner: user_id } },
        Some(ReplyView::Medicines { list }) => StepView::Finish { result: Ok(list) },
        Some(ReplyView::Failed { message }) => StepView::Finish {
            result: Err(ErrorView::DatabaseError { message: message }),
        },
        Some(_) => StepView::Finish {
            result: Err(ErrorView::DatabaseError { message: unexpected_reply_text() }),
        },
    }
}

/// Lists the records of `user_id`, in the order in which the store yields
/// them.
pub fn get_medicine(user_id: &str, reply: Option<StoreReply>) -> (step: Step<Vec<Medicine>>)
    ensures
        step.deep_view() == get_step(user_id@, reply_view(reply)),
{
    match reply {
        None => Step::Ask { request: StoreRequest::FindMedicines { owner: user_id.to_owned() } },
        Some(StoreReply::Medicines { list }) => Step::Finish { result: Ok(list) },
        Some(StoreReply::Failed { message }) => Step::Finish {
            result: Err(CommandError::DatabaseError { message }),
        },
        Some(_) => Step::Finish { result: Err(unexpected_reply()) },
    }
}

/// What a command that writes one record returns once the store has
/// acknowledged the write: `done` on success, the store's message on failure.
pub open spec fn written_outcome(reply: ReplyView, done: Seq<char>) -> Result<
    Seq<char>,
    ErrorView,
> {
    match reply {
        ReplyView::Written => Ok(done),
        ReplyView::Failed { message } => Err(ErrorView::DatabaseError { message: message }),
        _ => Err(ErrorView::DatabaseError { message: unexpected_reply_text() }),
    }
}

/// What a command that changes one record of an owner returns: `done` where
/// the store changed a record, `NotFound` where it changed none.
pub open spec fn changed_outcome(reply: ReplyView, done: Seq<char>) -> Result<
    Seq<char>,
    ErrorView,
> {
    match reply {
        ReplyView::Changed { count } => if count == 0 {
            Err(ErrorView::NotFound)
        } else {
            Ok(done)
        },
        ReplyView::Failed { message } => Err(ErrorView::DatabaseError { message: message }),
        _ => Err(ErrorView::DatabaseError { message: unexpected_reply_text() }),
    }
}

/// Concludes a command that wrote one record.
fn after_write(reply: StoreReply, done: &str) -> (r: Result<String, CommandError>)
    ensures
        outcome_view(r) == written_outcome(reply@, done@),
{
    match reply {
        StoreReply::Written => Ok(done.to_owned()),
        StoreReply::Failed { message } => Err(CommandError::DatabaseError { message }),
        _ => Err(unexpected_reply()),
    }
}

/// Concludes a command that changed one record of an owner.
fn after_change(reply: StoreReply, done: &str) -> (r: Result<String, CommandError>)
    ensures
        outcome_view(r) == changed_outcome(reply@, done@),
{
    match reply {
        StoreReply::Changed { count } => {
            if count == 0 {
                Err(CommandError::NotFound)
            } else {
                Ok(done.to_owned())
            }
        },
        StoreReply::Failed { message } => Err(CommandError::DatabaseError { message }),
        _ => Err(unexpected_reply()),
    }
}

/// What `insert_medicine` does: with no reply it asks the store to persist
/// `medicine`; an acknowledged write is confirmed.
pub open spec fn insert_step(medicine: MedicineView, reply: Option<ReplyView>) -> StepView<
    Seq<char>,
> {
    match reply {
        None => StepView::Ask { request: RequestView::InsertMedicine { medicine: medicine } },
        Some(r) => StepView::Finish {
            result: written_outcome(r, "Medicine inserted successfully."@),
        },
    }
}

/// Adds a record for `user_id`. The record goes to the store without an
/// identifier and with the fields as they were given: no number or date is
/// checked.
pub fn insert_medicine(
    user_id: &str,
    name: &str,
    batch_number: &str,
    expiry_date: &str,
    quantity: u32,
    purchase_price: Price,
    selling_price: Price,
    wholesaler_name: &str,
    purchase_date: &str,
    reply: Option<StoreReply>,
) -> (step: Step<String>)
    ensures
        step.deep_view() == insert_step(
            MedicineView {
                id: None,
                name: name@,
                batch_number: batch_number@,
                expiry_date: expiry_date@,
                quantity: quantity,
                purchase_price: purchase_price,
                selling_price: selling_price,
                wholesaler_name: wholesaler_name@,
                purchase_date: purchase_date@,
                user_id: user_id@,
            },
            reply_view(reply),
        ),
{
    match reply {
        None => {
            let medicine = Medicine {
                id: None,
                name: name.to_owned(),
                batch_number: batch_number.to_owned(),
                expiry_date: expiry_date.to_owned(),
                quantity,
                purchase_price,
                selling_price,
                wholesaler_name: wholesaler_name.to_owned(),
                purchase_date: purchase_date.to_owned(),
                user_id: user_id.to_owned(),
            };
            Step::Ask { request: StoreRequest::InsertMedicine { medicine } }
        },
        Some(r) => Step::Finish { result: after_write(r, "Medicine inserted successfully.") },
    }
}

/// What `update_medicine` does once the identifier is read: with no reply
/// it asks the store to overwrite the record that has the identifier and the
/// owner of `medicine`; a change of no record is `NotFound`.
pub open spec fn update_step(medicine: MedicineView, reply: Option<ReplyView>) -> StepView<
    Seq<char>,
> {
    match reply {
        None => StepView::Ask { request: RequestView::UpdateMedicine { medicine: medicine } },
        Some(r) => StepView::Finish {
            result: changed_outcome(r, "Medicine updated successfully."@),
        },
    }
}

/// Overwrites every field of the record `id` of `user_id`. An `id` that is
/// not twenty-four hexadecimal digits is refused before anything is asked.
/// A record of another owner is as good as none: both end in `NotFound`.
pub fn update_medicine(
    user_id: &str,
    id: &str,
    name: &str,
    batch_number: &str,
    expiry_date: &str,
    quantity: u32,
    purchase_price: Price,
    selling_price: Price,
    wholesaler_name: &str,
    purchase_date: &str,
    reply: Option<StoreReply>,
) -> (step: Step<String>)
    ensures
        !is_hex_id(id@) ==> step matches Step::Finish {
            result: Err(CommandError::InvalidArgument { .. }),
        },
        is_hex_id(id@) ==> step.deep_view() == update_step(
            MedicineView {
                id: Some(hex_decode(id@)),
                name: name@,
                batch_number: batch_number@,
                expiry_date: expiry_date@,
                quantity: quantity,
                purchase_price: purchase_price,
                selling_price: selling_price,
                wholesaler_name: wholesaler_name@,
                purchase_date: purchase_date@,
                user_id: user_id@,
            },
            reply_view(reply),
        ),
{
    let record_id = match RecordId::parse(id) {
        Ok(record_id) => record_id,
        Err(e) => {
            return Step::Finish { result: Err(e) };
        },
    };
    match reply {
        None => {
            let medicine = Medicine {
                id: Some(record_id),
                name: name.to_owned(),
                batch_number: batch_number.to_owned(),
                expiry_date: expiry_date.to_owned(),
                quantity,
                purchase_price,
                selling_price,
                wholesaler_name: wholesaler_name.to_owned(),
                purchase_date: purchase_date.to_owned(),
                user_id: user_id.to_owned(),
            };
            Step::Ask { request: StoreRequest::UpdateMedicine { medicine } }
        },
        Some(r) => Step::Finish { result: after_change(r, "Medicine updated successfully.") },
    }
}

/// What `delete_medicine` does once the identifier is read: with no reply
/// it asks the store to delete the record `id` of `user_id`; a deletion of
/// no record is `NotFound`.
pub open spec fn delete_step(user_id: Seq<char>, id: Seq<u8>, reply: Option<ReplyView>) -> StepView<
    Seq<char>,
> {
    match reply {
        None => StepView::Ask { request: RequestView::DeleteMedicine { id: id, owner: user_id } },
        Some(r) => StepView::Finish {
            result: changed_outcome(r, "Medicine deleted successfully."@),
        },
    }
}

/// Deletes the record `id` of `user_id`. An `id` that is not twenty-four
/// hexadecimal digits is refused before anything is asked. A record of
/// another owner is as good as none: both end in `NotFound`.
pub fn delete_medicine(user_id: &str, id: &str, reply: Option<StoreReply>) -> (step: Step<String>)
    ensures
        !is_hex_id(id@) ==> step matches Step::Finish {
            result: Err(CommandError::InvalidArgument { .. }),
        },
        is_hex_id(id@) ==> step.deep_view() == delete_step(
            user_id@,
            hex_decode(id@),
            reply_view(reply),
        ),
{
    let record_id = match RecordId::parse(id) {
        Ok(record_id) => record_id,
        Err(e) => {
            return Step::Finish { result: Err(e) };
        },
    };
    match reply {
        None => Step::Ask {
            request: StoreRequest::DeleteMedicine { id: record_id, owner: user_id.to_owned() },
        },
        Some(r) => Step::Finish { result: after_change(r, "Medicine deleted successfully.") },
    }
}

/// The collection that holds the marker record of an owner.
pub open spec fn marker_collection(user_id: Seq<char>) -> Seq<char> {
    "medicines_"@ + user_id
}

/// What `initialize_db` does: an empty owner is refused; with no reply it
/// asks for the marker record to be written; the answer is reported with the
/// owner's name in it.
pub open spec fn initialize_step(user_id: Seq<char>, reply: Option<ReplyView>) -> StepView<
    Seq<char>,
> {
    if user_id.len() == 0 {
        StepView::Finish {
            result: Err(ErrorView::InvalidArgument { message: "User ID cannot be empty"@ }),
        }
    } else {
        match reply {
            None => StepView::Ask {
                request: RequestView::InsertMarker { collection: marker_collection(user_id) },
            },
            Some(ReplyView::Written) => StepView::Finish {
                result: Ok("Medicines collection for user "@ + user_id + " is ready."@),
            },
            Some(ReplyView::Failed { message }) => StepView::Finish {
                result: Err(
                    ErrorView::DatabaseError {
                        message: "Failed to initialize database for user "@ + user_id + ": "@
                            + message,
                    },
                ),
            },
            Some(_) => StepView::Finish {
                result: Err(ErrorView::DatabaseError { message: unexpected_reply_text() }),
            },
        }
    }
}

/// Makes sure that the partition of `user_id` exists, by writing a marker
/// record into it.
pub fn initialize_db(user_id: &str, reply: Option<StoreReply>) -> (step: Step<String>)
    ensures
        step.deep_view() == initialize_step(user_id@, reply_view(reply)),
{
    if user_id.is_empty() {
        return Step::Finish {
            result: Err(
                CommandError::InvalidArgument { message: "User ID cannot be empty".to_owned() },
            ),
        };
    }
    match reply {
        None => Step::Ask {
            request: StoreRequest::InsertMarker { collection: prefixed("medicines_", user_id) },
        },
        Some(StoreReply::Written) => Step::Finish {
            result: Ok(prefixed("Medicines collection for user ", user_id).concat(" is ready.")),
        },
        Some(StoreReply::Failed { message }) => Step::Finish {
            result: Err(
                CommandError::DatabaseError {
                    message: prefixed("Failed to initialize database for user ", user_id).concat(
                        ": ",
                    ).concat(message.as_str()),
                },
            ),
        },
        Some(_) => Step::Finish { result: Err(unexpected_reply()) },
    }
}

} // verus!
