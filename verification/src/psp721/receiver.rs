//! Telling the recipient of a safe transfer, and reading its answer.

use crate::account::{AccountId, Id};
use crate::errors::{PSP721Error, PSP721ReceiverError};
use vstd::prelude::*;

verus! {

/// The error type of the host environment, as `ink_env` defines it. The
/// ledger carries such a value and asks one thing of it: see
/// [`not_callable`].
#[verifier::external_type_specification]
#[verifier::external_body]
pub struct ExEnvError(ink_env::Error);

/// The bytes that go with a token to its recipient, as the answer of a
/// recipient speaks of them.
pub type Payload = Seq<u8>;

/// What a contract implements to be told of tokens it receives.
///
/// What a recipient answers is a matter of the recipient, as it is when it
/// is asked, and of what it is asked alone: `answer` says what, and
/// `on_psp721_received` gives that answer. Of a recipient for which the two
/// differ, nothing is stated.
pub trait IPSP721Receiver {
    /// What the recipient says of the token `id` that `operator` has moved
    /// to it from `from`, with `data`: an error rejects the token.
    spec fn answer(&self, operator: AccountId, from: AccountId, id: Id, data: Payload) -> Result<
        (),
        PSP721ReceiverError,
    >;

    /// Called at the end of a safe transfer, when the ledger already names
    /// the recipient as owner. An error rejects the transfer.
    fn on_psp721_received(
        &mut self,
        operator: AccountId,
        from: AccountId,
        id: Id,
        data: Vec<u8>,
    ) -> (answer: Result<(), PSP721ReceiverError>)
        ensures
            answer == old(self).answer(operator, from, id, data@),
    ;
}

/// The way from the ledger to the recipient of a token: the call of
/// `on_psp721_received` on the account `to`, made through the host.
///
/// What the call returns is named by `outcome`, over the way itself and what
/// it is handed; the call returns that. The ledger's operations are stated
/// over `outcome`. Of a way for which the call and `outcome` differ, as they
/// may where a chain answers, the operations state nothing.
pub trait PSP721Receiver {
    /// What the call returns for the token `id` that `operator` has moved
    /// from `from` to `to`, with `data`: `Ok` holds the recipient's answer,
    /// `Err` says that the call did not complete.
    spec fn outcome(
        &self,
        to: AccountId,
        operator: AccountId,
        from: AccountId,
        id: Id,
        data: Vec<u8>,
    ) -> Result<Result<(), PSP721ReceiverError>, ink_env::Error>;

    /// Makes the call.
    fn call_on_psp721_received(
        &mut self,
        to: AccountId,
        operator: AccountId,
        from: AccountId,
        id: Id,
        data: Vec<u8>,
    ) -> (outcome: Result<Result<(), PSP721ReceiverError>, ink_env::Error>)
        ensures
            outcome == old(self).outcome(to, operator, from, id, data),
    ;
}

/// A recipient that is at hand: the call is the call of its own
/// `on_psp721_received`, whatever account it is made for. It always
/// completes, and holds what the recipient answers to what it is handed.
pub struct Direct<R: IPSP721Receiver> {
    /// The recipient.
    pub receiver: R,
}

impl<R: IPSP721Receiver> PSP721Receiver for Direct<R> {
    open spec fn outcome(
        &self,
        to: AccountId,
        operator: AccountId,
        from: AccountId,
        id: Id,
        data: Vec<u8>,
    ) -> Result<Result<(), PSP721ReceiverError>, ink_env::Error> {
        Ok(self.receiver.answer(operator, from, id, data@))
    }

    fn call_on_psp721_received(
        &mut self,
        _to: AccountId,
        operator: AccountId,
        from: AccountId,
        id: Id,
        data: Vec<u8>,
    ) -> (outcome: Result<Result<(), PSP721ReceiverError>, ink_env::Error>)
        ensures
            outcome matches Ok(answer) && answer == old(self).receiver.answer(
                operator,
                from,
                id,
                data@,
            ),
    {
        Ok(self.receiver.on_psp721_received(operator, from, id, data))
    }
}

/// What became of the notification of a recipient.
#[derive(Debug, PartialEq, Eq)]
pub enum Notification {
    /// The recipient accepted the token.
    Accepted,
    /// The recipient takes no notifications: a plain account.
    NotNotifiable,
    /// The recipient rejected the token.
    Rejected(PSP721ReceiverError),
    /// The call did not complete, for another reason than the recipient
    /// taking no notifications.
    Failed,
}

/// Whether an error of the host says that the account called is no
/// contract: whether it is the variant `NotCallable` of `ink_env::Error`.
pub uninterp spec fn not_callable(error: ink_env::Error) -> bool;

/// Tells the variant `NotCallable` of `ink_env::Error` from the others: the
/// answer is what [`not_callable`] names.
#[verifier::external_body]
fn is_not_callable(error: &ink_env::Error) -> (plain: bool)
    ensures
        plain == not_callable(*error),
{
    match error {
        ink_env::Error::NotCallable => true,
        _ => false,
    }
}

/// How the outcome of a call of the recipient reads: a call that completed
/// holds the recipient's answer; one that did not says that the recipient
/// takes no notifications, if the host found no contract, and that the call
/// failed otherwise.
pub open spec fn reading(
    outcome: Result<Result<(), PSP721ReceiverError>, ink_env::Error>,
) -> Notification {
    match outcome {
        Ok(Ok(_)) => Notification::Accepted,
        Ok(Err(reason)) => Notification::Rejected(reason),
        Err(error) => if not_callable(error) {
            Notification::NotNotifiable
        } else {
            Notification::Failed
        },
    }
}

/// What a call that did not complete says of the recipient: one that takes
/// no notifications is a plain account, any other has failed.
pub fn unanswered(plain_account: bool) -> (read: Notification)
    ensures
        read == (if plain_account {
            Notification::NotNotifiable
        } else {
            Notification::Failed
        }),
{
    if plain_account {
        Notification::NotNotifiable
    } else {
        Notification::Failed
    }
}

/// Reads what a call of the recipient returned, as [`reading`] says.
pub fn notification(outcome: Result<Result<(), PSP721ReceiverError>, ink_env::Error>) -> (read:
    Notification)
    ensures
        read == reading(outcome),
{
    match outcome {
        Ok(Ok(_)) => Notification::Accepted,
        Ok(Err(reason)) => Notification::Rejected(reason),
        Err(error) => unanswered(is_not_callable(&error)),
    }
}

/// The result of a safe transfer that follows from the notification.
pub open spec fn settled(read: Notification) -> Result<(), PSP721Error> {
    match read {
        Notification::Accepted => Ok(()),
        Notification::NotNotifiable => Ok(()),
        Notification::Rejected(_) => Err(PSP721Error::CallFailed),
        Notification::Failed => Err(PSP721Error::CallFailed),
    }
}

/// Decides a safe transfer by its notification: a recipient that accepted,
/// or that takes no notifications, lets it stand; a rejection and a call
/// that failed make it fail with `CallFailed`.
pub fn settle(read: &Notification) -> (result: Result<(), PSP721Error>)
    ensures
        result == settled(*read),
{
    match read {
        Notification::Accepted => Ok(()),
        Notification::NotNotifiable => Ok(()),
        Notification::Rejected(_) => Err(PSP721Error::CallFailed),
        Notification::Failed => Err(PSP721Error::CallFailed),
    }
}

} // verus!
