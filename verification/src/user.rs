//! Accounts: creating one, and checking a password against one.

use vstd::prelude::*;
use crate::error::{CommandError, ErrorView};
use crate::hasher::{hash, verifies, verify, verify_outcome};
use crate::model::{User, UserView};
use crate::store::{
    outcome_view, reply_view, unexpected_reply, unexpected_reply_text, ReplyView, RequestView,
    Step, StepView, StoreReply, StoreRequest,
};

verus! {

/// How far a signup has come: which reply it waits for.
#[derive(Clone, Copy, Debug, PartialEq, Eq, Structural)]
pub enum SignupStage {
    /// Nothing was asked yet.
    Start,
    /// The store was asked whether the email is taken.
    CheckingEmail,
    /// The email is free; the password is to be hashed and the account
    /// handed to the store.
    Hashing,
    /// The store was asked to persist the account.
    Inserting,
    /// The store was asked for the account as it persisted it.
    Fetching,
    /// The signup has returned.
    Finished,
}

/// The step that ends a command because the reply does not answer what was
/// asked.
pub open spec fn unexpected_step<V>() -> StepView<V> {
    StepView::Finish { result: Err(ErrorView::DatabaseError { message: unexpected_reply_text() }) }
}

/// The account that a signup hands to the store: no identifier yet, and the
/// hash in place of the password.
pub open spec fn new_user(username: Seq<char>, password_hash: Seq<char>, email: Seq<char>) -> UserView {
    UserView { id: None, username: username, password_hash: password_hash, email: email }
}

/// What creating an account does once the password has been hashed: a hash
/// goes to the store inside the new account, a failure ends the signup.
pub open spec fn enroll_step(
    username: Seq<char>,
    email: Seq<char>,
    hashed: Result<Seq<char>, ErrorView>,
) -> (SignupStage, StepView<UserView>) {
    match hashed {
        Ok(h) => (
            SignupStage::Inserting,
            StepView::Ask { request: RequestView::InsertUser { user: new_user(username, h, email) } },
        ),
        Err(e) => (SignupStage::Finished, StepView::Finish { result: Err(e) }),
    }
}

/// Asks the store to persist a new account with the hash that was computed,
/// or ends the signup with the error of the hashing.
pub fn enroll(username: &str, email: &str, hashed: Result<String, CommandError>) -> (r: (
    SignupStage,
    Step<User>,
))
    ensures
        r.0 == enroll_step(username@, email@, outcome_view(hashed)).0,
        r.1.deep_view() == enroll_step(username@, email@, outcome_view(hashed)).1,
{
    match hashed {
        Ok(password_hash) => {
            let user = User {
                id: None,
                username: username.to_owned(),
                password_hash,
                email: email.to_owned(),
            };
            (SignupStage::Inserting, Step::Ask { request: StoreRequest::InsertUser { user } })
        },
        Err(e) => (SignupStage::Finished, Step::Finish { result: Err(e) }),
    }
}

/// What creating an account does with a reply of the store: after the
/// insertion it asks for the account by its email, and the account that
/// comes back is the result. No account coming back is `IdentityMissing`.
/// `None` stands for the stage `Hashing`, where the hasher decides.
pub open spec fn signup_user_step(stage: SignupStage, email: Seq<char>, reply: Option<ReplyView>) -> Option<
    (SignupStage, StepView<UserView>),
> {
    if stage == SignupStage::Hashing {
        None
    } else {
        Some(after_reply(stage, email, reply))
    }
}

/// What creating an account does at a stage that waits for a reply.
pub open spec fn after_reply(stage: SignupStage, email: Seq<char>, reply: Option<ReplyView>) -> (
    SignupStage,
    StepView<UserView>,
) {
    match (stage, reply) {
        (SignupStage::Inserting, Some(ReplyView::Written)) => (
            SignupStage::Fetching,
            StepView::Ask { request: RequestView::FindUserByEmail { email: email } },
        ),
        (SignupStage::Fetching, Some(ReplyView::User { found: Some(user) })) => (
            SignupStage::Finished,
            StepView::Finish { result: Ok(user) },
        ),
        (SignupStage::Fetching, Some(ReplyView::User { found: None })) => (
            SignupStage::Finished,
            StepView::Finish { result: Err(ErrorView::IdentityMissing { record_found: false }) },
        ),
        (SignupStage::Inserting, Some(ReplyView::Failed { message })) => (
            SignupStage::Finished,
            StepView::Finish { result: Err(ErrorView::DatabaseError { message: message }) },
        ),
        (SignupStage::Fetching, Some(ReplyView::Failed { message })) => (
            SignupStage::Finished,
            StepView::Finish { result: Err(ErrorView::DatabaseError { message: message }) },
        ),
        _ => (SignupStage::Finished, unexpected_step()),
    }
}

/// Whether a step asks the store to persist a new account of this name and
/// email whose hash verifies against `password`.
pub open spec fn asks_to_insert<V>(
    step: StepView<V>,
    username: Seq<char>,
    password: Seq<char>,
    email: Seq<char>,
) -> bool {
    &&& step matches StepView::Ask { request: RequestView::InsertUser { user } }
    &&& user == new_user(username, user.password_hash, email)
    &&& verifies(password, user.password_hash)
}

/// Whether a step ends the command with a `HashingError`.
pub open spec fn fails_hashing<V>(step: StepView<V>) -> bool {
    step matches StepView::Finish { result: Err(ErrorView::HashingError { .. }) }
}

/// What holds of a signup right after the hashing, whatever the hasher
/// returned: either it asks for the insertion of the new account, with a
/// hash that verifies against the password, or it ends with the hasher's
/// error.
pub open spec fn hashed_step<V>(
    next: SignupStage,
    step: StepView<V>,
    username: Seq<char>,
    password: Seq<char>,
    email: Seq<char>,
) -> bool {
    ||| next == SignupStage::Inserting && asks_to_insert(step, username, password, email)
    ||| next == SignupStage::Finished && fails_hashing(step)
}

/// Creates an account, one step at a time, from the stage `Hashing` on:
/// hash the password and ask for the insertion, then ask for the account
/// back, then return it. The stages before `Hashing` belong to `signup`.
///
/// The salt is random: at `Hashing` the contract says what holds of every
/// hash, and `enroll` says what is done with the one that came.
pub fn signup_user(
    stage: SignupStage,
    username: &str,
    password: &str,
    email: &str,
    reply: Option<StoreReply>,
) -> (r: (SignupStage, Step<User>))
    ensures
        match signup_user_step(stage, email@, reply_view(reply)) {
            Some(expected) => r.0 == expected.0 && r.1.deep_view() == expected.1,
            None => hashed_step(r.0, r.1.deep_view(), username@, password@, email@),
        },
{
    match stage {
        SignupStage::Hashing => enroll(username, email, hash(password)),
        SignupStage::Inserting => match reply {
            Some(StoreReply::Written) => (
                SignupStage::Fetching,
                Step::Ask { request: StoreRequest::FindUserByEmail { email: email.to_owned() } },
            ),
            Some(StoreReply::Failed { message }) => (
                SignupStage::Finished,
                Step::Finish { result: Err(CommandError::DatabaseError { message }) },
            ),
            _ => (SignupStage::Finished, Step::Finish { result: Err(unexpected_reply()) }),
        },
        SignupStage::Fetching => match reply {
            Some(StoreReply::User { found: Some(user) }) => (
                SignupStage::Finished,
                Step::Finish { result: Ok(user) },
            ),
            Some(StoreReply::User { found: None }) => (
                SignupStage::Finished,
                Step::Finish { result: Err(CommandError::IdentityMissing { record_found: false }) },
            ),
            Some(StoreReply::Failed { message }) => (
                SignupStage::Finished,
                Step::Finish { result: Err(CommandError::DatabaseError { message }) },
            ),
            _ => (SignupStage::Finished, Step::Finish { result: Err(unexpected_reply()) }),
        },
        _ => (SignupStage::Finished, Step::Finish { result: Err(unexpected_reply()) }),
    }
}

/// What a login returns for the account that has the username, once the
/// password has been held against its hash: the account where it fits,
/// `InvalidCredentials` where it does not.
pub open spec fn password_outcome(user: UserView, verified: Result<bool, ErrorView>) -> Result<
    UserView,
    ErrorView,
> {
    match verified {
        Ok(fits) => if fits {
            Ok(user)
        } else {
            Err(ErrorView::InvalidCredentials)
        },
        Err(e) => Err(e),
    }
}

/// Decides a login from the account found and the answer of the password
/// check.
pub fn settle_login(user: User, verified: Result<bool, CommandError>) -> (r: Result<
    User,
    CommandError,
>)
    ensures
        outcome_view(r) == password_outcome(user@, outcome_view(verified)),
{
    match verified {
        Ok(fits) => {
            if fits {
                Ok(user)
            } else {
                Err(CommandError::InvalidCredentials)
            }
        },
        Err(e) => Err(e),
    }
}

/// What `login_user` does, where that is determined: with no reply it asks
/// for the account of the username; no account and a password that does not
/// fit are the same `InvalidCredentials`. `None` stands for the one case left
/// open: the stored hash cannot be read, and the step is a `HashingError`
/// whose text the hasher chose.
pub open spec fn login_user_step(
    username: Seq<char>,
    password: Seq<char>,
    reply: Option<ReplyView>,
) -> Option<StepView<UserView>> {
    match reply {
        None => Some(
            StepView::Ask { request: RequestView::FindUserByUsername { username: username } },
        ),
        Some(ReplyView::User { found: Some(user) }) => match verify_outcome(
            password,
            user.password_hash,
        ) {
            Some(fits) => Some(StepView::Finish { result: password_outcome(user, Ok(fits)) }),
            None => None,
        },
        Some(ReplyView::User { found: None }) => Some(
            StepView::Finish { result: Err(ErrorView::InvalidCredentials) },
        ),
        Some(ReplyView::Failed { message }) => Some(
            StepView::Finish { result: Err(ErrorView::DatabaseError { message: message }) },
        ),
        Some(_) => Some(unexpected_step()),
    }
}

/// Checks a username and a password: asks the store for the account with
/// exactly this username, then holds the password against its hash.
pub fn login_user(username: &str, password: &str, reply: Option<StoreReply>) -> (step: Step<User>)
    ensures
        match login_user_step(username@, password@, reply_view(reply)) {
            Some(s) => step.deep_view() == s,
            None => fails_hashing(step.deep_view()),
        },
{
    match reply {
        None => Step::Ask {
            request: StoreRequest::FindUserByUsername { username: username.to_owned() },
        },
        Some(StoreReply::User { found: Some(user) }) => {
            let verified = verify(password, user.password_hash.as_str());
            Step::Finish { result: settle_login(user, verified) }
        },
        Some(StoreReply::User { found: None }) => Step::Finish {
            result: Err(CommandError::InvalidCredentials),
        },
        Some(StoreReply::Failed { message }) => Step::Finish {
            result: Err(CommandError::DatabaseError { message }),
        },
        Some(_) => Step::Finish { result: Err(unexpected_reply()) },
    }
}

} // verus!
