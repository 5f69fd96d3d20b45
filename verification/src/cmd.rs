//! The two account commands: signup and login. Both return the identifier
//! of the account in its external form.

use vstd::prelude::*;
use crate::error::{prefixed, CommandError, ErrorView};
use crate::ident::hex_encode;
use crate::model::{User, UserView};
use crate::store::{
    reply_view, unexpected_reply, ReplyView, RequestView, Step, StepView, StoreReply,
    StoreRequest,
};
use crate::user::{
    after_reply, fails_hashing, hashed_step, login_user, login_user_step, signup_user,
    unexpected_step, SignupStage,
};

verus! {

/// What a command returns for the account it ended with: the identifier in
/// hexadecimal, or `IdentityMissing` where the account carries none.
pub open spec fn identified(result: Result<UserView, ErrorView>) -> Result<Seq<char>, ErrorView> {
    match result {
        Ok(user) => match user.id {
            Some(id) => Ok(hex_encode(id)),
            None => Err(ErrorView::IdentityMissing { record_found: true }),
        },
        Err(e) => Err(e),
    }
}

/// A step on an account, as a step on its identifier.
pub open spec fn identified_step(step: StepView<UserView>) -> StepView<Seq<char>> {
    match step {
        StepView::Ask { request } => StepView::Ask { request: request },
        StepView::Finish { result } => StepView::Finish { result: identified(result) },
    }
}

/// Turns a step that ends with an account into one that ends with the
/// account's identifier.
pub fn identify(step: Step<User>) -> (r: Step<String>)
    ensures
        r.deep_view() == identified_step(step.deep_view()),
{
    match step {
        Step::Ask { request } => Step::Ask { request },
        Step::Finish { result: Ok(user) } => match user.id {
            Some(id) => Step::Finish { result: Ok(id.to_hex()) },
            None => Step::Finish {
                result: Err(CommandError::IdentityMissing { record_found: true }),
            },
        },
        Step::Finish { result: Err(e) } => Step::Finish { result: Err(e) },
    }
}

/// Whether a signup at this stage, with this reply, is about to hash the
/// password: the one point where its step depends on more than its inputs.
pub open spec fn hashes_now(stage: SignupStage, reply: Option<ReplyView>) -> bool {
    ||| stage == SignupStage::Hashing
    ||| stage == SignupStage::CheckingEmail && reply == Some(ReplyView::User { found: None })
}

/// What `signup` does: it first asks whether the email is taken and refuses
/// one that is; after the insertion it asks for the account back and returns
/// its identifier. `None` stands for the point where the password is hashed
/// and the hasher decides.
pub open spec fn signup_step(stage: SignupStage, email: Seq<char>, reply: Option<ReplyView>) -> Option<
    (SignupStage, StepView<Seq<char>>),
> {
    if hashes_now(stage, reply) {
        None
    } else {
        Some(
            match (stage, reply) {
                (SignupStage::Start, _) => (
                    SignupStage::CheckingEmail,
                    StepView::Ask { request: RequestView::FindUserByEmail { email: email } },
                ),
                (SignupStage::CheckingEmail, Some(ReplyView::User { found: Some(_) })) => (
                    SignupStage::Finished,
                    StepView::Finish { result: Err(ErrorView::DuplicateEmail) },
                ),
                (SignupStage::CheckingEmail, Some(ReplyView::Failed { message })) => (
                    SignupStage::Finished,
                    StepView::Finish {
                        result: Err(
                            ErrorView::DatabaseError { message: "Database error: "@ + message },
                        ),
                    },
                ),
                (SignupStage::CheckingEmail, _) => (SignupStage::Finished, unexpected_step()),
                _ => (
                    after_reply(stage, email, reply).0,
                    identified_step(after_reply(stage, email, reply).1),
                ),
            },
        )
    }
}

/// Creates an account, one step at a time, and returns its identifier. A
/// signup starts at `SignupStage::Start` with no reply; each later call takes
/// the stage that the call before returned and the store's reply to what it
/// asked.
///
/// An email that an account already has ends the signup with
/// `DuplicateEmail` before anything is hashed or written.
pub fn signup(
    stage: SignupStage,
    username: &str,
    password: &str,
    email: &str,
    reply: Option<StoreReply>,
) -> (r: (SignupStage, Step<String>))
    ensures
        match signup_step(stage, email@, reply_view(reply)) {
            Some(expected) => r.0 == expected.0 && r.1.deep_view() == expected.1,
            None => hashed_step(r.0, r.1.deep_view(), username@, password@, email@),
        },
{
    match stage {
        SignupStage::Start => (
            SignupStage::CheckingEmail,
            Step::Ask { request: StoreRequest::FindUserByEmail { email: email.to_owned() } },
        ),
        SignupStage::CheckingEmail => match reply {
            Some(StoreReply::User { found: Some(_) }) => (
                SignupStage::Finished,
                Step::Finish { result: Err(CommandError::DuplicateEmail) },
            ),
            Some(StoreReply::User { found: None }) => {
                let (next, step) = signup_user(
                    SignupStage::Hashing,
                    username,
                    password,
                    email,
                    None,
                );
                (next, identify(step))
            },
            Some(StoreReply::Failed { message }) => (
                SignupStage::Finished,
                Step::Finish {
                    result: Err(
                        CommandError::DatabaseError {
                            message: prefixed("Database error: ", message.as_str()),
                        },
                    ),
                },
            ),
            _ => (SignupStage::Finished, Step::Finish { result: Err(unexpected_reply()) }),
        },
        _ => {
            let (next, step) = signup_user(stage, username, password, email, reply);
            (next, identify(step))
        },
    }
}

/// What `login` does, where that is determined: what `login_user` does, with
/// the identifier of the account in place of the account.
pub open spec fn login_step(username: Seq<char>, password: Seq<char>, reply: Option<ReplyView>) -> Option<
    StepView<Seq<char>>,
> {
    match login_user_step(username, password, reply) {
        Some(step) => Some(identified_step(step)),
        None => None,
    }
}

/// Checks a username and a password and returns the identifier of the
/// account. An unknown username and a wrong password give the same error.
pub fn login(username: &str, password: &str, reply: Option<StoreReply>) -> (step: Step<String>)
    ensures
        match login_step(username@, password@, reply_view(reply)) {
            Some(s) => step.deep_view() == s,
            None => fails_hashing(step.deep_view()),
        },
{
    identify(login_user(username, password, reply))
}

} // verus!
