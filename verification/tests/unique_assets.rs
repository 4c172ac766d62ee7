use std::cell::RefCell;
use token_ledger::psp721::extension::{NoExtension, Transfer};
use token_ledger::psp721::receiver::{
    notification, settle, unanswered, Direct, Notification, Payload,
};
use token_ledger::{
    is_zero, same_account, zero_address, AccountId, IPSP721Receiver, Id, PSP721Data, PSP721Error,
    PSP721Receiver, PSP721ReceiverError, PSP721,
};

fn account(n: u8) -> AccountId {
    [n; 32]
}

fn token(n: u8) -> Id {
    let mut id = [0u8; 32];
    id[0] = n;
    id
}

fn minted(owner: AccountId, ids: &[u8]) -> PSP721Data {
    let mut nft = PSP721Data::new();
    for n in ids {
        assert_eq!(nft._mint_to(&NoExtension, owner, token(*n)), Ok(()));
    }
    nft
}

/// A recipient's endpoint that gives a fixed answer and counts its calls.
struct Answering {
    answer: fn() -> Result<Result<(), PSP721ReceiverError>, ink_env::Error>,
    calls: u32,
    seen: Option<(AccountId, AccountId, AccountId, Id, Vec<u8>)>,
}

impl Answering {
    fn new(answer: fn() -> Result<Result<(), PSP721ReceiverError>, ink_env::Error>) -> Self {
        Answering { answer, calls: 0, seen: None }
    }
}

impl PSP721Receiver for Answering {
    fn outcome(
        &self,
        _to: AccountId,
        _operator: AccountId,
        _from: AccountId,
        _id: Id,
        _data: Vec<u8>,
    ) -> Result<Result<(), PSP721ReceiverError>, ink_env::Error> {
        (self.answer)()
    }

    fn call_on_psp721_received(
        &mut self,
        to: AccountId,
        operator: AccountId,
        from: AccountId,
        id: Id,
        data: Vec<u8>,
    ) -> Result<Result<(), PSP721ReceiverError>, ink_env::Error> {
        self.calls += 1;
        self.seen = Some((to, operator, from, id, data.clone()));
        self.outcome(to, operator, from, id, data)
    }
}

/// A recipient that accepts tokens with an even first byte only.
struct Picky {
    received: Vec<Id>,
}

impl Picky {
    fn says(&self, id: Id) -> Result<(), PSP721ReceiverError> {
        if id[0] % 2 == 0 {
            Ok(())
        } else {
            Err(PSP721ReceiverError::TransferRejected(String::from("odd")))
        }
    }
}

impl IPSP721Receiver for Picky {
    fn answer(
        &self,
        _operator: AccountId,
        _from: AccountId,
        id: Id,
        _data: Payload,
    ) -> Result<(), PSP721ReceiverError> {
        self.says(id)
    }

    fn on_psp721_received(
        &mut self,
        _operator: AccountId,
        _from: AccountId,
        id: Id,
        _data: Vec<u8>,
    ) -> Result<(), PSP721ReceiverError> {
        let answer = self.says(id);
        if answer.is_ok() {
            self.received.push(id);
        }
        answer
    }
}

/// An extension that can veto, fail afterwards, and records what it is told.
#[derive(Default)]
struct Recording {
    fail_before: bool,
    fail_after: bool,
    before: RefCell<Vec<(Option<AccountId>, Option<AccountId>, Id)>>,
    after: RefCell<Vec<(Option<AccountId>, Option<AccountId>, Id)>>,
    transfers: RefCell<Vec<(AccountId, AccountId, Id)>>,
    approvals: RefCell<Vec<(AccountId, AccountId, Id)>>,
    operators: RefCell<Vec<(AccountId, AccountId, bool)>>,
}

impl Transfer for Recording {
    fn before_verdict(
        &self,
        _from: Option<AccountId>,
        _to: Option<AccountId>,
        _id: Id,
    ) -> Result<(), PSP721Error> {
        if self.fail_before {
            return Err(PSP721Error::Custom(String::from("before")));
        }
        Ok(())
    }

    fn after_verdict(
        &self,
        _from: Option<AccountId>,
        _to: Option<AccountId>,
        _id: Id,
    ) -> Result<(), PSP721Error> {
        if self.fail_after {
            return Err(PSP721Error::Custom(String::from("after")));
        }
        Ok(())
    }

    fn _before_token_transfer(
        &self,
        from: Option<&AccountId>,
        to: Option<&AccountId>,
        id: &Id,
    ) -> Result<(), PSP721Error> {
        self.before.borrow_mut().push((from.copied(), to.copied(), *id));
        self.before_verdict(from.copied(), to.copied(), *id)
    }

    fn _after_token_transfer(
        &self,
        from: Option<&AccountId>,
        to: Option<&AccountId>,
        id: &Id,
    ) -> Result<(), PSP721Error> {
        self.after.borrow_mut().push((from.copied(), to.copied(), *id));
        self.after_verdict(from.copied(), to.copied(), *id)
    }

    fn _emit_transfer_event(&self, from: AccountId, to: AccountId, id: Id) {
        self.transfers.borrow_mut().push((from, to, id));
    }

    fn _emit_approval_event(&self, from: AccountId, to: AccountId, id: Id) {
        self.approvals.borrow_mut().push((from, to, id));
    }

    fn _emit_approval_for_all_event(&self, owner: AccountId, operator: AccountId, approved: bool) {
        self.operators.borrow_mut().push((owner, operator, approved));
    }
}

#[test]
fn the_zero_account_is_all_zero_bytes() {
    assert_eq!(zero_address(), [0u8; 32]);
    assert!(is_zero(&zero_address()));
    assert!(!is_zero(&account(1)));
    let mut last = [0u8; 32];
    last[31] = 1;
    assert!(!is_zero(&last));
}

#[test]
fn accounts_are_compared_byte_for_byte() {
    assert!(same_account(&account(7), &account(7)));
    assert!(!same_account(&account(7), &account(8)));
    let mut almost = account(7);
    almost[31] = 0;
    assert!(!same_account(&account(7), &almost));
}

#[test]
fn a_new_ledger_is_empty() {
    let nft = PSP721Data::default();
    assert_eq!(nft.owner_of(token(1)), None);
    assert_eq!(nft.get_approved(token(1)), None);
    assert_eq!(nft.balance_of(account(1)), 0);
    assert!(!nft.is_approved_for_all(account(1), account(2)));
}

#[test]
fn mint_gives_the_token_to_its_owner() {
    let mut nft = PSP721Data::new();
    let ext = NoExtension;
    assert_eq!(nft._mint_to(&ext, account(1), token(1)), Ok(()));
    assert_eq!(nft.owner_of(token(1)), Some(account(1)));
    assert_eq!(nft._owner_of(&token(1)), Some(account(1)));
    assert_eq!(nft.balance_of(account(1)), 1);
    assert_eq!(nft._mint(&ext, account(1), token(2)), Ok(()));
    assert_eq!(nft.balance_of(account(1)), 2);
    assert_eq!(nft._mint(&ext, account(2), token(3)), Ok(()));
    assert_eq!(nft.balance_of(account(1)), 2);
    assert_eq!(nft.balance_of(account(2)), 1);
}

#[test]
fn minting_an_existing_token_fails_and_keeps_the_owner() {
    let mut nft = minted(account(1), &[1]);
    let ext = NoExtension;
    assert_eq!(nft._mint_to(&ext, account(2), token(1)), Err(PSP721Error::TokenExists));
    assert_eq!(nft._add_to(account(2), token(1)), Err(PSP721Error::TokenExists));
    assert_eq!(nft._add_to(zero_address(), token(1)), Err(PSP721Error::TokenExists));
    assert_eq!(nft.owner_of(token(1)), Some(account(1)));
    assert_eq!(nft.balance_of(account(1)), 1);
    assert_eq!(nft.balance_of(account(2)), 0);
}

#[test]
fn minting_to_the_zero_account_is_not_allowed() {
    let mut nft = PSP721Data::new();
    assert_eq!(
        nft._mint_to(&NoExtension, zero_address(), token(1)),
        Err(PSP721Error::NotAllowed)
    );
    assert_eq!(nft._add_to(zero_address(), token(1)), Err(PSP721Error::NotAllowed));
    assert_eq!(nft.owner_of(token(1)), None);
}

#[test]
fn the_owner_transfers_its_token() {
    let mut nft = minted(account(1), &[1, 2]);
    let ext = Recording::default();
    assert_eq!(nft.transfer_from(&ext, account(1), account(1), account(2), token(1)), Ok(()));
    assert_eq!(nft.owner_of(token(1)), Some(account(2)));
    assert_eq!(nft.owner_of(token(2)), Some(account(1)));
    assert_eq!(nft.balance_of(account(1)), 1);
    assert_eq!(nft.balance_of(account(2)), 1);
    assert_eq!(*ext.before.borrow(), vec![(Some(account(1)), Some(account(2)), token(1))]);
    assert_eq!(*ext.after.borrow(), vec![(Some(account(1)), Some(account(2)), token(1))]);
    assert_eq!(*ext.transfers.borrow(), vec![(account(1), account(2), token(1))]);
}

#[test]
fn a_transfer_clears_the_approval_of_the_token() {
    let mut nft = minted(account(1), &[1]);
    let ext = NoExtension;
    assert_eq!(nft.approve(&ext, account(1), account(3), token(1)), Ok(()));
    assert_eq!(nft.get_approved(token(1)), Some(account(3)));
    assert_eq!(nft.transfer_from(&ext, account(3), account(1), account(2), token(1)), Ok(()));
    assert_eq!(nft.owner_of(token(1)), Some(account(2)));
    assert_eq!(nft.get_approved(token(1)), None);
    assert_eq!(
        nft.transfer_from(&ext, account(3), account(2), account(3), token(1)),
        Err(PSP721Error::NotApproved)
    );
}

#[test]
fn an_operator_transfers_for_the_owner() {
    let mut nft = minted(account(1), &[1, 2]);
    let ext = NoExtension;
    assert_eq!(nft.set_approval_for_all(&ext, account(1), account(4), true), Ok(()));
    assert!(nft.is_approved_for_all(account(1), account(4)));
    assert!(nft._approved_for_all(account(1), account(4)));
    assert!(!nft.is_approved_for_all(account(4), account(1)));
    assert_eq!(nft.transfer_from(&ext, account(4), account(1), account(2), token(1)), Ok(()));
    assert_eq!(nft.owner_of(token(1)), Some(account(2)));
    assert_eq!(nft.approve(&ext, account(4), account(5), token(2)), Ok(()));
    assert_eq!(nft.get_approved(token(2)), Some(account(5)));
    assert_eq!(nft.set_approval_for_all(&ext, account(1), account(4), false), Ok(()));
    assert!(!nft.is_approved_for_all(account(1), account(4)));
    assert_eq!(
        nft.transfer_from(&ext, account(4), account(1), account(2), token(2)),
        Err(PSP721Error::NotApproved)
    );
}

#[test]
fn an_unauthorized_transfer_is_rejected_and_changes_nothing() {
    let mut nft = minted(account(1), &[1]);
    let ext = Recording::default();
    assert_eq!(
        nft.transfer_from(&ext, account(2), account(1), account(2), token(1)),
        Err(PSP721Error::NotApproved)
    );
    assert_eq!(
        nft.transfer_from(&ext, zero_address(), account(1), account(2), token(1)),
        Err(PSP721Error::NotApproved)
    );
    assert_eq!(nft.owner_of(token(1)), Some(account(1)));
    assert_eq!(nft.balance_of(account(1)), 1);
    assert_eq!(nft.balance_of(account(2)), 0);
    assert!(ext.before.borrow().is_empty());
    assert!(ext.transfers.borrow().is_empty());
}

#[test]
fn a_transfer_names_the_owner_and_a_real_recipient() {
    let mut nft = minted(account(1), &[1]);
    let ext = NoExtension;
    assert_eq!(
        nft.transfer_from(&ext, account(1), account(1), account(2), token(9)),
        Err(PSP721Error::TokenNotFound)
    );
    assert_eq!(
        nft.transfer_from(&ext, account(1), account(3), account(2), token(1)),
        Err(PSP721Error::NotOwner)
    );
    assert_eq!(
        nft.transfer_from(&ext, account(1), account(1), zero_address(), token(1)),
        Err(PSP721Error::NotAllowed)
    );
    assert_eq!(nft.owner_of(token(1)), Some(account(1)));
    assert_eq!(nft.transfer_from(&ext, account(1), account(1), account(1), token(1)), Ok(()));
    assert_eq!(nft.owner_of(token(1)), Some(account(1)));
    assert_eq!(nft.balance_of(account(1)), 1);
}

#[test]
fn approved_or_owner_guards_a_token_without_owner() {
    let mut nft = minted(account(1), &[1]);
    let ext = NoExtension;
    assert!(nft._approved_or_owner(Some(account(1)), &token(1)));
    assert!(!nft._approved_or_owner(Some(account(2)), &token(1)));
    assert!(!nft._approved_or_owner(None, &token(1)));
    assert!(!nft._approved_or_owner(Some(account(1)), &token(2)));
    assert!(!nft._approved_or_owner(Some(zero_address()), &token(1)));
    assert_eq!(nft.approve(&ext, account(1), account(2), token(1)), Ok(()));
    assert!(nft._approved_or_owner(Some(account(2)), &token(1)));
    assert_eq!(nft.set_approval_for_all(&ext, account(1), account(3), true), Ok(()));
    assert!(nft._approved_or_owner(Some(account(3)), &token(1)));
}

#[test]
fn self_approval_is_not_allowed() {
    let mut nft = minted(account(1), &[1]);
    let ext = Recording::default();
    assert_eq!(
        nft.approve(&ext, account(1), account(1), token(1)),
        Err(PSP721Error::NotAllowed)
    );
    assert_eq!(
        nft.set_approval_for_all(&ext, account(1), account(1), true),
        Err(PSP721Error::NotAllowed)
    );
    assert_eq!(
        nft._approve_for_all(&ext, account(1), account(1), false),
        Err(PSP721Error::NotAllowed)
    );
    assert_eq!(nft.get_approved(token(1)), None);
    assert!(!nft.is_approved_for_all(account(1), account(1)));
    assert!(ext.approvals.borrow().is_empty());
    assert!(ext.operators.borrow().is_empty());
}

#[test]
fn only_the_owner_or_its_operator_approves() {
    let mut nft = minted(account(1), &[1]);
    let ext = Recording::default();
    assert_eq!(
        nft.approve(&ext, account(2), account(3), token(1)),
        Err(PSP721Error::NotAllowed)
    );
    assert_eq!(
        nft.approve(&ext, account(1), zero_address(), token(1)),
        Err(PSP721Error::NotAllowed)
    );
    assert_eq!(
        nft.approve(&ext, account(1), account(3), token(2)),
        Err(PSP721Error::NotAllowed)
    );
    assert_eq!(nft._approve_for(&ext, account(1), account(3), token(1)), Ok(()));
    assert_eq!(nft.approve(&ext, account(1), account(4), token(1)), Ok(()));
    assert_eq!(nft.get_approved(token(1)), Some(account(4)));
    assert_eq!(
        *ext.approvals.borrow(),
        vec![(account(1), account(3), token(1)), (account(1), account(4), token(1))]
    );
}

#[test]
fn approving_an_operator_twice_is_the_same_as_once() {
    let mut nft = PSP721Data::new();
    let ext = Recording::default();
    assert_eq!(nft.set_approval_for_all(&ext, account(1), account(2), true), Ok(()));
    assert_eq!(nft.set_approval_for_all(&ext, account(1), account(2), true), Ok(()));
    assert!(nft.is_approved_for_all(account(1), account(2)));
    assert_eq!(nft.set_approval_for_all(&ext, account(1), account(2), false), Ok(()));
    assert_eq!(nft.set_approval_for_all(&ext, account(1), account(2), false), Ok(()));
    assert!(!nft.is_approved_for_all(account(1), account(2)));
    assert_eq!(ext.operators.borrow().len(), 4);
}

#[test]
fn burn_removes_the_token_and_its_approval() {
    let mut nft = minted(account(1), &[1, 2]);
    let ext = Recording::default();
    assert_eq!(nft.approve(&ext, account(1), account(3), token(1)), Ok(()));
    assert_eq!(
        nft._burn_from(&ext, account(1), token(9)),
        Err(PSP721Error::TokenNotFound)
    );
    assert_eq!(nft._burn_from(&ext, account(2), token(1)), Err(PSP721Error::NotOwner));
    assert_eq!(nft._burn(&ext, account(2), token(1)), Err(PSP721Error::NotOwner));
    assert_eq!(nft.balance_of(account(1)), 2);
    assert_eq!(nft._burn_from(&ext, account(1), token(1)), Ok(()));
    assert_eq!(nft.owner_of(token(1)), None);
    assert_eq!(nft.get_approved(token(1)), None);
    assert_eq!(nft.balance_of(account(1)), 1);
    assert_eq!(*ext.transfers.borrow(), vec![(account(1), zero_address(), token(1))]);
    assert_eq!(*ext.before.borrow(), vec![(Some(account(1)), None, token(1))]);
    assert_eq!(nft._mint_to(&ext, account(2), token(1)), Ok(()));
    assert_eq!(nft.get_approved(token(1)), None);
    assert_eq!(nft._burn(&ext, account(1), token(2)), Ok(()));
    assert_eq!(nft.balance_of(account(1)), 0);
    assert_eq!(nft._remove_from(account(2), token(1)), Ok(()));
    assert_eq!(nft.balance_of(account(2)), 0);
    assert_eq!(nft._remove_from(account(2), token(1)), Err(PSP721Error::TokenNotFound));
}

#[test]
fn safe_transfer_to_a_rejecting_recipient_fails_with_call_failed() {
    let mut nft = minted(account(1), &[1]);
    let ext = Recording::default();
    let mut receiver =
        Answering::new(|| Ok(Err(PSP721ReceiverError::TransferRejected(String::from("no")))));
    let result = nft.safe_transfer_from(
        &ext,
        &mut receiver,
        account(1),
        account(1),
        account(2),
        token(1),
        vec![1, 2, 3],
    );
    assert_eq!(result, Err(PSP721Error::CallFailed));
    assert_eq!(receiver.calls, 1);
    assert_eq!(
        receiver.seen,
        Some((account(2), account(1), account(1), token(1), vec![1, 2, 3]))
    );
    // The ledger does not undo the transfer: that is left to whoever runs
    // the operation as a whole.
    assert_eq!(nft.owner_of(token(1)), Some(account(2)));
    assert_eq!(nft.balance_of(account(1)), 0);
    assert_eq!(nft.balance_of(account(2)), 1);
    assert!(ext.after.borrow().is_empty());
    assert!(ext.transfers.borrow().is_empty());
}

#[test]
fn safe_transfer_tells_an_accepting_recipient() {
    let mut nft = minted(account(1), &[2, 3]);
    let ext = NoExtension;
    let mut receiver = Direct { receiver: Picky { received: Vec::new() } };
    let result = nft.safe_transfer_from(
        &ext,
        &mut receiver,
        account(1),
        account(1),
        account(2),
        token(2),
        Vec::new(),
    );
    assert_eq!(result, Ok(()));
    assert_eq!(receiver.receiver.received, vec![token(2)]);
    assert_eq!(nft.owner_of(token(2)), Some(account(2)));
    let result = nft.safe_transfer_from(
        &ext,
        &mut receiver,
        account(1),
        account(1),
        account(2),
        token(3),
        Vec::new(),
    );
    assert_eq!(result, Err(PSP721Error::CallFailed));
    assert_eq!(receiver.receiver.received, vec![token(2)]);
}

#[test]
fn safe_transfer_to_a_plain_account_succeeds() {
    let mut nft = minted(account(1), &[1]);
    let ext = NoExtension;
    let mut plain = Answering::new(|| Err(ink_env::Error::NotCallable));
    let result = nft.safe_transfer_from(
        &ext,
        &mut plain,
        account(1),
        account(1),
        account(2),
        token(1),
        Vec::new(),
    );
    assert_eq!(result, Ok(()));
    assert_eq!(plain.calls, 1);
    assert_eq!(nft.owner_of(token(1)), Some(account(2)));
    let mut broken = Answering::new(|| Err(ink_env::Error::CodeNotFound));
    let result = nft.safe_transfer_from(
        &ext,
        &mut broken,
        account(2),
        account(2),
        account(3),
        token(1),
        Vec::new(),
    );
    assert_eq!(result, Err(PSP721Error::CallFailed));
}

#[test]
fn safe_transfer_asks_nobody_when_the_request_is_refused() {
    let mut nft = minted(account(1), &[1]);
    let ext = NoExtension;
    let mut receiver = Answering::new(|| Ok(Ok(())));
    let result = nft.safe_transfer_from(
        &ext,
        &mut receiver,
        account(2),
        account(1),
        account(2),
        token(1),
        Vec::new(),
    );
    assert_eq!(result, Err(PSP721Error::NotApproved));
    assert_eq!(receiver.calls, 0);
    assert_eq!(nft.owner_of(token(1)), Some(account(1)));
}

#[test]
fn the_call_of_the_recipient_decides_by_its_answer() {
    let nft = PSP721Data::new();
    let mut accepting = Answering::new(|| Ok(Ok(())));
    assert_eq!(
        nft._call_contract_transfer(
            &mut accepting,
            account(1),
            account(2),
            account(3),
            token(1),
            vec![9]
        ),
        Ok(())
    );
    assert_eq!(accepting.seen, Some((account(3), account(1), account(2), token(1), vec![9])));
    let mut trapped = Answering::new(|| Err(ink_env::Error::CalleeTrapped));
    assert_eq!(
        nft._call_contract_transfer(
            &mut trapped,
            account(1),
            account(2),
            account(3),
            token(1),
            Vec::new()
        ),
        Err(PSP721Error::CallFailed)
    );
}

#[test]
fn a_notification_is_read_from_the_outcome_of_the_call() {
    assert_eq!(notification(Ok(Ok(()))), Notification::Accepted);
    assert_eq!(
        notification(Ok(Err(PSP721ReceiverError::TransferRejected(String::from("why"))))),
        Notification::Rejected(PSP721ReceiverError::TransferRejected(String::from("why")))
    );
    assert_eq!(notification(Err(ink_env::Error::NotCallable)), Notification::NotNotifiable);
    assert_eq!(notification(Err(ink_env::Error::CalleeReverted)), Notification::Failed);
    assert_eq!(notification(Err(ink_env::Error::Unknown)), Notification::Failed);
    assert_eq!(unanswered(true), Notification::NotNotifiable);
    assert_eq!(unanswered(false), Notification::Failed);
}

#[test]
fn a_notification_settles_the_transfer() {
    assert_eq!(settle(&Notification::Accepted), Ok(()));
    assert_eq!(settle(&Notification::NotNotifiable), Ok(()));
    assert_eq!(
        settle(&Notification::Rejected(PSP721ReceiverError::TransferRejected(String::new()))),
        Err(PSP721Error::CallFailed)
    );
    assert_eq!(settle(&Notification::Failed), Err(PSP721Error::CallFailed));
}

#[test]
fn a_veto_stops_the_transfer_before_anything_changes() {
    let mut nft = minted(account(1), &[1]);
    let mut ext = Recording::default();
    ext.fail_before = true;
    assert_eq!(
        nft.transfer_from(&ext, account(1), account(1), account(2), token(1)),
        Err(PSP721Error::Custom(String::from("before")))
    );
    assert_eq!(nft.owner_of(token(1)), Some(account(1)));
    assert_eq!(
        nft._mint_to(&ext, account(1), token(2)),
        Err(PSP721Error::Custom(String::from("before")))
    );
    assert_eq!(nft.owner_of(token(2)), None);
    assert_eq!(
        nft._burn_from(&ext, account(1), token(1)),
        Err(PSP721Error::Custom(String::from("before")))
    );
    assert_eq!(nft.owner_of(token(1)), Some(account(1)));
    assert_eq!(ext.before.borrow().len(), 3);
    assert!(ext.after.borrow().is_empty());
    assert!(ext.transfers.borrow().is_empty());
}

#[test]
fn a_failure_after_the_transfer_leaves_the_token_moved() {
    let mut nft = minted(account(1), &[1]);
    let mut ext = Recording::default();
    ext.fail_after = true;
    assert_eq!(
        nft.transfer_from(&ext, account(1), account(1), account(2), token(1)),
        Err(PSP721Error::Custom(String::from("after")))
    );
    assert_eq!(nft.owner_of(token(1)), Some(account(2)));
    assert!(ext.transfers.borrow().is_empty());
    assert_eq!(
        nft._mint_to(&ext, account(1), token(2)),
        Err(PSP721Error::Custom(String::from("after")))
    );
    assert_eq!(nft.owner_of(token(2)), Some(account(1)));
}

#[test]
fn a_mint_is_announced_as_a_transfer_from_the_zero_account() {
    let mut nft = PSP721Data::new();
    let ext = Recording::default();
    assert_eq!(nft._mint_to(&ext, account(1), token(1)), Ok(()));
    assert_eq!(*ext.before.borrow(), vec![(None, Some(account(1)), token(1))]);
    assert_eq!(*ext.after.borrow(), vec![(None, Some(account(1)), token(1))]);
    assert_eq!(*ext.transfers.borrow(), vec![(zero_address(), account(1), token(1))]);
}

#[test]
fn the_counts_follow_many_tokens() {
    let mut nft = PSP721Data::new();
    let ext = NoExtension;
    for n in 0..40u8 {
        assert_eq!(nft._mint_to(&ext, account(1 + n % 3), token(n)), Ok(()));
    }
    assert_eq!(nft.balance_of(account(1)), 14);
    assert_eq!(nft.balance_of(account(2)), 13);
    assert_eq!(nft.balance_of(account(3)), 13);
    for n in 0..40u8 {
        let owner = account(1 + n % 3);
        assert_eq!(nft.transfer_from(&ext, owner, owner, account(9), token(n)), Ok(()));
    }
    assert_eq!(nft.balance_of(account(1)), 0);
    assert_eq!(nft.balance_of(account(9)), 40);
    for n in 0..40u8 {
        assert_eq!(nft.owner_of(token(n)), Some(account(9)));
        assert_eq!(nft._burn(&ext, account(9), token(n)), Ok(()));
    }
    assert_eq!(nft.balance_of(account(9)), 0);
}

#[test]
fn the_ledger_moves_a_token_by_its_own_rules() {
    let mut nft = minted(account(1), &[1]);
    assert_eq!(nft.approve(&NoExtension, account(1), account(3), token(1)), Ok(()));
    assert_eq!(
        nft._transfer_token_from(account(2), &account(1), account(2), token(1)),
        Err(PSP721Error::NotApproved)
    );
    assert_eq!(
        nft._transfer_token_from(account(1), &account(1), account(2), token(7)),
        Err(PSP721Error::TokenNotFound)
    );
    assert_eq!(
        nft._transfer_token_from(account(3), &account(2), account(2), token(1)),
        Err(PSP721Error::NotOwner)
    );
    assert_eq!(
        nft._transfer_token_from(account(3), &account(1), zero_address(), token(1)),
        Err(PSP721Error::NotAllowed)
    );
    assert_eq!(nft.owner_of(token(1)), Some(account(1)));
    assert_eq!(nft.get_approved(token(1)), Some(account(3)));
    assert_eq!(nft._transfer_token_from(account(3), &account(1), account(2), token(1)), Ok(()));
    assert_eq!(nft.owner_of(token(1)), Some(account(2)));
    assert_eq!(nft.get_approved(token(1)), None);
    assert_eq!(nft.balance_of(account(1)), 0);
    assert_eq!(nft.balance_of(account(2)), 1);
}

#[test]
fn a_recipient_at_hand_is_handed_the_token_and_answers() {
    let mut direct = Direct { receiver: Picky { received: Vec::new() } };
    assert_eq!(
        direct.call_on_psp721_received(account(9), account(1), account(2), token(4), vec![7]),
        Ok(Ok(()))
    );
    assert_eq!(direct.receiver.received, vec![token(4)]);
    assert_eq!(
        direct.call_on_psp721_received(account(9), account(1), account(2), token(5), Vec::new()),
        Ok(Err(PSP721ReceiverError::TransferRejected(String::from("odd"))))
    );
    assert_eq!(direct.receiver.received, vec![token(4)]);
}

#[test]
fn a_sequence_of_mints_gives_each_token_to_its_first_recipient() {
    let mut nft = PSP721Data::default();
    let ext = NoExtension;
    let mints = [
        (account(1), token(1)),
        (zero_address(), token(2)),
        (account(2), token(2)),
        (account(3), token(1)),
        (account(1), token(3)),
        (account(2), token(2)),
        (account(3), token(4)),
    ];
    let results: Vec<Result<(), PSP721Error>> =
        mints.iter().map(|(to, id)| nft._mint_to(&ext, *to, *id)).collect();
    assert_eq!(
        results,
        vec![
            Ok(()),
            Err(PSP721Error::NotAllowed),
            Ok(()),
            Err(PSP721Error::TokenExists),
            Ok(()),
            Err(PSP721Error::TokenExists),
            Ok(()),
        ]
    );
    assert_eq!(nft.owner_of(token(1)), Some(account(1)));
    assert_eq!(nft.owner_of(token(2)), Some(account(2)));
    assert_eq!(nft.owner_of(token(3)), Some(account(1)));
    assert_eq!(nft.owner_of(token(4)), Some(account(3)));
    assert_eq!(nft.owner_of(token(5)), None);
    assert_eq!(nft.balance_of(account(1)), 2);
    assert_eq!(nft.balance_of(account(2)), 1);
    assert_eq!(nft.balance_of(account(3)), 1);
    let owners = [account(1), account(2), account(3), zero_address()];
    let sum: u32 = owners.iter().map(|owner| nft.balance_of(*owner)).sum();
    assert_eq!(sum, 4);
}

#[test]
fn nobody_becomes_its_own_operator() {
    let mut nft = PSP721Data::new();
    let ext = NoExtension;
    assert_eq!(
        nft.set_approval_for_all(&ext, account(1), account(1), true),
        Err(PSP721Error::NotAllowed)
    );
    assert!(!nft.is_approved_for_all(account(1), account(1)));
    assert_eq!(nft.set_approval_for_all(&ext, account(1), account(2), true), Ok(()));
    assert!(nft.is_approved_for_all(account(1), account(2)));
    assert!(!nft.is_approved_for_all(account(1), account(1)));
    assert!(!nft.is_approved_for_all(account(2), account(2)));
}
