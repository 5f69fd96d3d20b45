//! The commands run to their end against a store in memory: each request
//! that a command makes is answered by the store, until the command returns.

use vstd::prelude::*;
use crate::cmd::{login, login_step, signup, signup_step};
use crate::commands::{
    delete_medicine, delete_step, get_medicine, get_step, initialize_db, initialize_step,
    insert_medicine, insert_step, search_medicines, search_step, update_medicine, update_step,
};
use crate::error::{CommandError, ErrorView};
use crate::hasher::verifies;
use crate::ident::{hex_decode, is_hex_id};
use crate::memory::{respond, well_formed, MemoryStore, StoreView};
use crate::model::{Medicine, MedicineInfo, MedicineInfoView, MedicineView, Price};
use crate::store::{
    outcome_view, unexpected_reply, unexpected_reply_text, ReplyView, RequestView, Step, StepView,
};
use crate::user::{new_user, unexpected_step, SignupStage};

verus! {

/// What a command returns when this is its last step. A command that still
/// asks when it should have returned ends like one whose reply did not fit.
pub open spec fn finish_of<V>(step: StepView<V>) -> Result<V, ErrorView> {
    match step {
        StepView::Finish { result } => result,
        StepView::Ask { .. } => Err(ErrorView::DatabaseError { message: unexpected_reply_text() }),
    }
}

/// A command of one round against a store: `first` is its step with no reply
/// and `next` its step with the reply. What the store holds afterwards, and
/// what the command returns.
pub open spec fn run_round<V>(
    s: StoreView,
    first: StepView<V>,
    next: spec_fn(ReplyView) -> StepView<V>,
) -> (StoreView, Result<V, ErrorView>) {
    match first {
        StepView::Finish { result } => (s, result),
        StepView::Ask { request } => (
            respond(s, request).0,
            finish_of(next(respond(s, request).1)),
        ),
    }
}

/// `get_medicine` against a store.
pub open spec fn get_run(s: StoreView, user_id: Seq<char>) -> (
    StoreView,
    Result<Seq<MedicineView>, ErrorView>,
) {
    run_round(s, get_step(user_id, None), |r: ReplyView| get_step(user_id, Some(r)))
}

/// `insert_medicine` against a store.
pub open spec fn insert_run(s: StoreView, medicine: MedicineView) -> (
    StoreView,
    Result<Seq<char>, ErrorView>,
) {
    run_round(s, insert_step(medicine, None), |r: ReplyView| insert_step(medicine, Some(r)))
}

/// `update_medicine` against a store, for an identifier that could be read.
pub open spec fn update_run(s: StoreView, medicine: MedicineView) -> (
    StoreView,
    Result<Seq<char>, ErrorView>,
) {
    run_round(s, update_step(medicine, None), |r: ReplyView| update_step(medicine, Some(r)))
}

/// `delete_medicine` against a store, for an identifier that could be read.
pub open spec fn delete_run(s: StoreView, user_id: Seq<char>, id: Seq<u8>) -> (
    StoreView,
    Result<Seq<char>, ErrorView>,
) {
    run_round(s, delete_step(user_id, id, None), |r: ReplyView| delete_step(user_id, id, Some(r)))
}

/// `search_medicines` against a store.
pub open spec fn search_run(
    s: StoreView,
    user_id: Seq<char>,
    query: Seq<char>,
    page: u32,
    limit: u32,
) -> (StoreView, Result<Seq<MedicineInfoView>, ErrorView>) {
    run_round(
        s,
        search_step(user_id, query, page, limit, None),
        |r: ReplyView| search_step(user_id, query, page, limit, Some(r)),
    )
}

/// `initialize_db` against a store.
pub open spec fn initialize_run(s: StoreView, user_id: Seq<char>) -> (
    StoreView,
    Result<Seq<char>, ErrorView>,
) {
    run_round(s, initialize_step(user_id, None), |r: ReplyView| initialize_step(user_id, Some(r)))
}

/// `login` against a store: the identifier or the error that it returns, or
/// `None` where the stored hash cannot be read and the error is a
/// `HashingError`. A login changes nothing in the store.
pub open spec fn login_run(s: StoreView, username: Seq<char>, password: Seq<char>) -> Option<
    Result<Seq<char>, ErrorView>,
> {
    let reply = respond(s, RequestView::FindUserByUsername { username: username }).1;
    match login_step(username, password, Some(reply)) {
        Some(step) => Some(finish_of(step)),
        None => None,
    }
}

/// The error that ends a signup at its first round, where the email is
/// taken; `None` where the email is free and the signup goes on.
pub open spec fn signup_refusal(s: StoreView, email: Seq<char>) -> Option<ErrorView> {
    let reply = respond(s, RequestView::FindUserByEmail { email: email }).1;
    match signup_step(SignupStage::CheckingEmail, email, Some(reply)) {
        Some(checked) => match finish_of(checked.1) {
            Err(e) => Some(e),
            Ok(_) => None,
        },
        None => None,
    }
}

/// A signup against a store, from the point where the email was found free
/// and the password hashed to `password_hash`: the insertion, the lookup of
/// the account, and the identifier that the signup returns.
pub open spec fn signup_creation(
    s: StoreView,
    username: Seq<char>,
    password_hash: Seq<char>,
    email: Seq<char>,
) -> (StoreView, Result<Seq<char>, ErrorView>) {
    let inserted = respond(
        s,
        RequestView::InsertUser { user: new_user(username, password_hash, email) },
    );
    let after = after_insertion(email, inserted.1);
    match after.1 {
        StepView::Finish { result } => (inserted.0, result),
        StepView::Ask { request } => (
            respond(inserted.0, request).0,
            match signup_step(after.0, email, Some(respond(inserted.0, request).1)) {
                Some(last) => finish_of(last.1),
                None => finish_of(unexpected_step()),
            },
        ),
    }
}

/// The step of a signup that has the store's reply to the insertion.
pub open spec fn after_insertion(email: Seq<char>, reply: ReplyView) -> (
    SignupStage,
    StepView<Seq<char>>,
) {
    match signup_step(SignupStage::Inserting, email, Some(reply)) {
        Some(step) => step,
        None => (SignupStage::Finished, unexpected_step()),
    }
}

/// Returns what a command returns at its last step.
pub fn conclude<T: DeepView>(step: Step<T>) -> (r: Result<T, CommandError>)
    ensures
        outcome_view(r) == finish_of(step.deep_view()),
{
    match step {
        Step::Finish { result } => result,
        Step::Ask { .. } => Err(unexpected_reply()),
    }
}

impl MemoryStore {
    /// Lists the records of `user_id`.
    pub fn get_medicine(&mut self, user_id: &str) -> (r: Result<Vec<Medicine>, CommandError>)
        ensures
            well_formed(old(self)@) ==> well_formed(final(self)@),
            (final(self)@, outcome_view(r)) == get_run(old(self)@, user_id@),
    {
        match get_medicine(user_id, None) {
            Step::Finish { result } => result,
            Step::Ask { request } => {
                let reply = self.perform(&request);
                conclude(get_medicine(user_id, Some(reply)))
            },
        }
    }

    /// Writes the marker record of `user_id`.
    pub fn initialize_db(&mut self, user_id: &str) -> (r: Result<String, CommandError>)
        ensures
            well_formed(old(self)@) ==> well_formed(final(self)@),
            (final(self)@, outcome_view(r)) == initialize_run(old(self)@, user_id@),
    {
        match initialize_db(user_id, None) {
            Step::Finish { result } => result,
            Step::Ask { request } => {
                let reply = self.perform(&request);
                conclude(initialize_db(user_id, Some(reply)))
            },
        }
    }

    /// Searches the records of `user_id` by name and returns one page.
    pub fn search_medicines(&mut self, user_id: &str, query: &str, page: u32, limit: u32) -> (r:
        Result<Vec<MedicineInfo>, CommandError>)
        ensures
            well_formed(old(self)@) ==> well_formed(final(self)@),
            (final(self)@, outcome_view(r)) == search_run(
                old(self)@,
                user_id@,
                query@,
                page,
                limit,
            ),
    {
        match search_medicines(user_id, query, page, limit, None) {
            Step::Finish { result } => result,
            Step::Ask { request } => {
                let reply = self.perform(&request);
                conclude(search_medicines(user_id, query, page, limit, Some(reply)))
            },
        }
    }

    /// Deletes the record `id` of `user_id`.
    pub fn delete_medicine(&mut self, user_id: &str, id: &str) -> (r: Result<String, CommandError>)
        ensures
            well_formed(old(self)@) ==> well_formed(final(self)@),
            !is_hex_id(id@) ==> final(self)@ == old(self)@ && (r matches Err(
                CommandError::InvalidArgument { .. },
            )),
            is_hex_id(id@) ==> (final(self)@, outcome_view(r)) == delete_run(
                old(self)@,
                user_id@,
                hex_decode(id@),
            ),
    {
        match delete_medicine(user_id, id, None) {
            Step::Finish { result } => result,
            Step::Ask { request } => {
                let reply = self.perform(&request);
                conclude(delete_medicine(user_id, id, Some(reply)))
            },
        }
    }

    /// Adds a record for `user_id`.
    pub fn insert_medicine(
        &mut self,
        user_id: &str,
        name: &str,
        batch_number: &str,
        expiry_date: &str,
        quantity: u32,
        purchase_price: Price,
        selling_price: Price,
        wholesaler_name: &str,
        purchase_date: &str,
    ) -> (r: Result<String, CommandError>)
        ensures
            well_formed(old(self)@) ==> well_formed(final(self)@),
            (final(self)@, outcome_view(r)) == insert_run(
                old(self)@,
                MedicineView {
                    id: None,
                    name: name@,
                    batch_number: batch_number@,
                    expiry_date: expiry_date@,
                    quantity: quantity,
                    purchase_price: purchase_price,
                    selling_price: selling_price,
                    wholesaler_name: wholesaler_name@,
                    purchase_date: purchase_date@,
                    user_id: user_id@,
                },
            ),
    {
        match insert_medicine(
            user_id,
            name,
            batch_number,
            expiry_date,
            quantity,
            purchase_price,
            selling_price,
            wholesaler_name,
            purchase_date,
            None,
        ) {
            Step::Finish { result } => result,
            Step::Ask { request } => {
                let reply = self.perform(&request);
                conclude(
                    insert_medicine(
                        user_id,
                        name,
                        batch_number,
                        expiry_date,
                        quantity,
                        purchase_price,
                        selling_price,
                        wholesaler_name,
                        purchase_date,
                        Some(reply),
                    ),
                )
            },
        }
    }

    /// Overwrites every field of the record `id` of `user_id`.
    pub fn update_medicine(
        &mut self,
        user_id: &str,
        id: &str,
        name: &str,
        batch_number: &str,
        expiry_date: &str,
        quantity: u32,
        purchase_price: Price,
        selling_price: Price,
        wholesaler_name: &str,
        purchase_date: &str,
    ) -> (r: Result<String, CommandError>)
        ensures
            well_formed(old(self)@) ==> well_formed(final(self)@),
            !is_hex_id(id@) ==> final(self)@ == old(self)@ && (r matches Err(
                CommandError::InvalidArgument { .. },
            )),
            is_hex_id(id@) ==> (final(self)@, outcome_view(r)) == update_run(
                old(self)@,
                MedicineView {
                    id: Some(hex_decode(id@)),
                    name: name@,
                    batch_number: batch_number@,
                    expiry_date: expiry_date@,
                    quantity: quantity,
                    purchase_price: purchase_price,
                    selling_price: selling_price,
                    wholesaler_name: wholesaler_name@,
                    purchase_date: purchase_date@,
                    user_id: user_id@,
                },
            ),
    {
        match update_medicine(
            user_id,
            id,
            name,
            batch_number,
            expiry_date,
            quantity,
            purchase_price,
            selling_price,
            wholesaler_name,
            purchase_date,
            None,
        ) {
            Step::Finish { result } => result,
            Step::Ask { request } => {
                let reply = self.perform(&request);
                conclude(
                    update_medicine(
                        user_id,
                        id,
                        name,
                        batch_number,
                        expiry_date,
                        quantity,
                        purchase_price,
                        selling_price,
                        wholesaler_name,
                        purchase_date,
                        Some(reply),
                    ),
                )
            },
        }
    }

    /// Checks a username and a password and returns the identifier of the
    /// account.
    pub fn login(&mut self, username: &str, password: &str) -> (r: Result<String, CommandError>)
        ensures
            well_formed(old(self)@) ==> well_formed(final(self)@),
            final(self)@ == old(self)@,
            match login_run(old(self)@, username@, password@) {
                Some(outcome) => outcome_view(r) == outcome,
                None => r matches Err(CommandError::HashingError { .. }),
            },
    {
        match login(username, password, None) {
            Step::Finish { result } => result,
            Step::Ask { request } => {
                let reply = self.perform(&request);
                conclude(login(username, password, Some(reply)))
            },
        }
    }

    /// Creates an account and returns its identifier. Where the email is
    /// taken, nothing is hashed or written. Where it is free, the account is
    /// persisted with a hash that verifies against the password, unless the
    /// hashing itself fails.
    pub fn signup(&mut self, username: &str, password: &str, email: &str) -> (r: Result<
        String,
        CommandError,
    >)
        ensures
            well_formed(old(self)@) ==> well_formed(final(self)@),
            match signup_refusal(old(self)@, email@) {
                Some(e) => final(self)@ == old(self)@ && outcome_view(r) == Err::<Seq<char>, _>(e),
                None => {
                    ||| final(self)@ == old(self)@ && (r matches Err(
                        CommandError::HashingError { .. },
                    ))
                    ||| exists|h: Seq<char>|
                        verifies(password@, h) && (final(self)@, outcome_view(r))
                            == #[trigger] signup_creation(old(self)@, username@, h, email@)
                },
            },
    {
        let (stage, step) = signup(SignupStage::Start, username, password, email, None);
        let request = match step {
            Step::Finish { result } => {
                return result;
            },
            Step::Ask { request } => request,
        };
        let reply = self.perform(&request);
        let (stage, step) = signup(stage, username, password, email, Some(reply));
        let request = match step {
            Step::Finish { result } => {
                return result;
            },
            Step::Ask { request } => request,
        };
        let ghost h = request@->InsertUser_user.password_hash;
        let reply = self.perform(&request);
        let (stage, step) = signup(stage, username, password, email, Some(reply));
        let request = match step {
            Step::Finish { result } => {
                assert((self@, outcome_view(result)) == signup_creation(
                    old(self)@,
                    username@,
                    h,
                    email@,
                ));
                return result;
            },
            Step::Ask { request } => request,
        };
        let reply = self.perform(&request);
        let (_, step) = signup(stage, username, password, email, Some(reply));
        let r = conclude(step);
        assert((self@, outcome_view(r)) == signup_creation(old(self)@, username@, h, email@));
        r
    }
}

} // verus!
