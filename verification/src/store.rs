//! What a command may ask of the document store, and what the store may
//! answer. The commands never reach the store themselves: each returns a
//! `Step`, and whoever holds the connection carries the request out and
//! hands the reply back.

use vstd::prelude::*;
use crate::error::{CommandError, ErrorView};
use crate::model::{Medicine, MedicineInfo, MedicineInfoView, MedicineView, User, UserView};

verus! {

/// One request to the store.
#[derive(Debug, PartialEq, Eq)]
pub enum StoreRequest {
    /// The first account with this email, if any.
    FindUserByEmail { email: String },
    /// The first account with exactly this username, if any.
    FindUserByUsername { username: String },
    /// Persist a new account; the store assigns its identifier.
    InsertUser { user: User },
    /// Write the marker record into the named collection.
    InsertMarker { collection: String },
    /// All records of this owner.
    FindMedicines { owner: String },
    /// Persist a new record; the store assigns its identifier.
    InsertMedicine { medicine: Medicine },
    /// Overwrite every field of the record that has the identifier and the
    /// owner of `medicine` with the fields of `medicine`.
    UpdateMedicine { medicine: Medicine },
    /// Delete the record of `owner` that has the identifier `id`.
    DeleteMedicine { id: crate::ident::RecordId, owner: String },
    /// The records of `owner` whose name contains `query`, letters compared
    /// without regard to case: leave out the first `skip`, return at most
    /// `limit`.
    SearchMedicines { owner: String, query: String, skip: u64, limit: u32 },
}

/// What a `StoreRequest` holds, as plain values.
pub enum RequestView {
    FindUserByEmail { email: Seq<char> },
    FindUserByUsername { username: Seq<char> },
    InsertUser { user: UserView },
    InsertMarker { collection: Seq<char> },
    FindMedicines { owner: Seq<char> },
    InsertMedicine { medicine: MedicineView },
    UpdateMedicine { medicine: MedicineView },
    DeleteMedicine { id: Seq<u8>, owner: Seq<char> },
    SearchMedicines { owner: Seq<char>, query: Seq<char>, skip: u64, limit: u32 },
}

impl View for StoreRequest {
    type V = RequestView;

    open spec fn view(&self) -> RequestView {
        match self {
            StoreRequest::FindUserByEmail { email } => RequestView::FindUserByEmail {
                email: email@,
            },
            StoreRequest::FindUserByUsername { username } => RequestView::FindUserByUsername {
                username: username@,
            },
            StoreRequest::InsertUser { user } => RequestView::InsertUser { user: user@ },
            StoreRequest::InsertMarker { collection } => RequestView::InsertMarker {
                collection: collection@,
            },
            StoreRequest::FindMedicines { owner } => RequestView::FindMedicines { owner: owner@ },
            StoreRequest::InsertMedicine { medicine } => RequestView::InsertMedicine {
                medicine: medicine@,
            },
            StoreRequest::UpdateMedicine { medicine } => RequestView::UpdateMedicine {
                medicine: medicine@,
            },
            StoreRequest::DeleteMedicine { id, owner } => RequestView::DeleteMedicine {
                id: id@,
                owner: owner@,
            },
            StoreRequest::SearchMedicines { owner, query, skip, limit } => {
                RequestView::SearchMedicines {
                    owner: owner@,
                    query: query@,
                    skip: *skip,
                    limit: *limit,
                }
            },
        }
    }
}

impl DeepView for StoreRequest {
    type V = RequestView;

    open spec fn deep_view(&self) -> RequestView {
        self@
    }
}

/// One item that the cursor of a search yields.
#[derive(Debug, PartialEq, Eq)]
pub enum SearchRow {
    /// A matched document, projected to its name and selling price.
    Info { info: MedicineInfo },
    /// A matched document that has no name or price of the right shape.
    Malformed,
    /// The cursor failed at this point.
    Failed { message: String },
}

/// What a `SearchRow` holds, as plain values.
pub enum RowView {
    Info { info: MedicineInfoView },
    Malformed,
    Failed { message: Seq<char> },
}

impl View for SearchRow {
    type V = RowView;

    open spec fn view(&self) -> RowView {
        match self {
            SearchRow::Info { info } => RowView::Info { info: info@ },
            SearchRow::Malformed => RowView::Malformed,
            SearchRow::Failed { message } => RowView::Failed { message: message@ },
        }
    }
}

impl DeepView for SearchRow {
    type V = RowView;

    open spec fn deep_view(&self) -> RowView {
        self@
    }
}

/// One reply of the store.
#[derive(Debug, PartialEq, Eq)]
pub enum StoreReply {
    /// The answer to a lookup of one account.
    User { found: Option<User> },
    /// An insertion was acknowledged.
    Written,
    /// An update or a deletion was carried out on `count` records.
    Changed { count: u64 },
    /// The answer to `FindMedicines`.
    Medicines { list: Vec<Medicine> },
    /// What the cursor of a search yielded, in its order.
    Rows { rows: Vec<SearchRow> },
    /// The store could not be reached or refused the request.
    Failed { message: String },
}

/// What a `StoreReply` holds, as plain values.
pub enum ReplyView {
    User { found: Option<UserView> },
    Written,
    Changed { count: u64 },
    Medicines { list: Seq<MedicineView> },
    Rows { rows: Seq<RowView> },
    Failed { message: Seq<char> },
}

impl View for StoreReply {
    type V = ReplyView;

    open spec fn view(&self) -> ReplyView {
        match self {
            StoreReply::User { found } => ReplyView::User { found: found.deep_view() },
            StoreReply::Written => ReplyView::Written,
            StoreReply::Changed { count } => ReplyView::Changed { count: *count },
            StoreReply::Medicines { list } => ReplyView::Medicines { list: list.deep_view() },
            StoreReply::Rows { rows } => ReplyView::Rows { rows: rows.deep_view() },
            StoreReply::Failed { message } => ReplyView::Failed { message: message@ },
        }
    }
}

impl DeepView for StoreReply {
    type V = ReplyView;

    open spec fn deep_view(&self) -> ReplyView {
        self@
    }
}

/// What a command does next: ask the store, or return.
#[derive(Debug, PartialEq, Eq)]
pub enum Step<T> {
    Ask { request: StoreRequest },
    Finish { result: Result<T, CommandError> },
}

/// What a `Step` holds, as plain values.
pub enum StepView<V> {
    Ask { request: RequestView },
    Finish { result: Result<V, ErrorView> },
}

/// What the result of a command holds, as plain values.
pub open spec fn outcome_view<T: DeepView>(result: Result<T, CommandError>) -> Result<
    T::V,
    ErrorView,
> {
    match result {
        Ok(value) => Ok(value.deep_view()),
        Err(e) => Err(e@),
    }
}

impl<T: DeepView> DeepView for Step<T> {
    type V = StepView<T::V>;

    open spec fn deep_view(&self) -> StepView<T::V> {
        match self {
            Step::Ask { request } => StepView::Ask { request: request@ },
            Step::Finish { result } => StepView::Finish { result: outcome_view(*result) },
        }
    }
}

/// What a reply holds, as plain values; `None` where nothing was asked yet.
pub open spec fn reply_view(reply: Option<StoreReply>) -> Option<ReplyView> {
    match reply {
        Some(r) => Some(r@),
        None => None,
    }
}

/// The message of the error that ends a command when the reply does not
/// answer the request it made.
pub open spec fn unexpected_reply_text() -> Seq<char> {
    "Unexpected reply from the store"@
}

/// The error that ends a command when the reply does not answer the request
/// it made.
pub fn unexpected_reply() -> (e: CommandError)
    ensures
        e@ == (ErrorView::DatabaseError { message: unexpected_reply_text() }),
{
    CommandError::DatabaseError { message: "Unexpected reply from the store".to_owned() }
}

} // verus!
