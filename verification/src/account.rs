//! Account handles as a request carries them, and what a request asks of
//! the host that stores the accounts.

use crate::address::Address;
use crate::error::ReviewError;
use vstd::prelude::*;
use vstd::slice::slice_to_vec;

verus! {

/// One account as a request sees it: where it lives, who controls it,
/// whether its key authorised the request, and the bytes it holds. An account
/// for which no storage exists yet holds no bytes.
#[derive(Clone, Debug, PartialEq, Eq)]
pub struct Account {
    /// The account's address.
    pub key: Address,
    /// The program that controls the account.
    pub owner: Address,
    /// Whether the request was authorised by this account's key.
    pub is_signer: bool,
    /// The account's storage.
    pub data: Vec<u8>,
}

/// The mathematical value of an account.
pub struct AccountView {
    pub key: Seq<u8>,
    pub owner: Seq<u8>,
    pub is_signer: bool,
    pub data: Seq<u8>,
}

impl View for Account {
    type V = AccountView;

    open spec fn view(&self) -> AccountView {
        AccountView {
            key: self.key@,
            owner: self.owner@,
            is_signer: self.is_signer,
            data: self.data@,
        }
    }
}

impl Account {
    /// A copy of the account with its own storage.
    pub fn duplicate(&self) -> (out: Account)
        ensures
            out@ == self@,
    {
        Account {
            key: self.key,
            owner: self.owner,
            is_signer: self.is_signer,
            data: slice_to_vec(self.data.as_slice()),
        }
    }
}

impl AccountView {
    /// Whether the value is that of an account: its two addresses have 32
    /// bytes each.
    pub open spec fn wf(self) -> bool {
        self.key.len() == 32 && self.owner.len() == 32
    }
}

/// Whether every value in the list is that of an account.
pub open spec fn well_formed(accounts: Seq<AccountView>) -> bool {
    forall|i: int| 0 <= i < accounts.len() ==> (#[trigger] accounts[i]).wf()
}

/// The mathematical value of a list of accounts.
pub open spec fn views(accounts: Seq<Account>) -> Seq<AccountView> {
    Seq::new(accounts.len(), |i: int| accounts[i]@)
}

/// A storage buffer as the host hands it out: `space` zero bytes.
pub open spec fn fresh(space: nat) -> Seq<u8> {
    Seq::new(space, |i: int| 0u8)
}

/// What a buffer holds after `record` was written at its start: the record,
/// then what the buffer held behind it.
pub open spec fn stored(data: Seq<u8>, record: Seq<u8>) -> Seq<u8>
    recommends
        record.len() <= data.len(),
{
    record + data.subrange(record.len() as int, data.len() as int)
}

/// A zero-filled buffer of `space` bytes.
pub fn fresh_buffer(space: usize) -> (out: Vec<u8>)
    ensures
        out@ == fresh(space as nat),
{
    let mut out: Vec<u8> = Vec::new();
    let mut i: usize = 0;
    while i < space
        invariant
            i <= space,
            out@ == fresh(i as nat),
        decreases space - i,
    {
        out.push(0u8);
        i += 1;
        assert(out@ =~= fresh(i as nat));
    }
    out
}

/// Writes `record` at the start of `data` and keeps what lies behind it.
pub(crate) fn store(data: &Vec<u8>, record: Vec<u8>) -> (out: Vec<u8>)
    requires
        record.len() <= data.len(),
    ensures
        out@ == stored(data@, record@),
{
    let mut out = record;
    let mut i: usize = out.len();
    while i < data.len()
        invariant
            record.len() <= i <= data.len(),
            out@ == record@ + data@.subrange(record.len() as int, i as int),
        decreases data.len() - i,
    {
        out.push(data[i]);
        i += 1;
        assert(out@ =~= record@ + data@.subrange(record.len() as int, i as int));
    }
    out
}

/// A copy of `accounts` in which the account at `index` is `account`.
pub(crate) fn replaced(accounts: &Vec<Account>, index: usize, account: Account) -> (out: Vec<Account>)
    requires
        index < accounts.len(),
    ensures
        out.len() == accounts.len(),
        views(out@) == views(accounts@).update(index as int, account@),
{
    let mut out: Vec<Account> = Vec::new();
    let mut slot = Some(account);
    let mut i: usize = 0;
    while i < accounts.len()
        invariant
            i <= accounts.len(),
            index < accounts.len(),
            out.len() == i,
            i <= index ==> slot == Some(account),
            forall|j: int|
                0 <= j < i ==> (#[trigger] out[j])@ == if j == index {
                    account@
                } else {
                    accounts[j]@
                },
        decreases accounts.len() - i,
    {
        if i == index {
            match slot.take() {
                Some(replacement) => out.push(replacement),
                None => out.push(accounts[i].duplicate()),
            }
        } else {
            out.push(accounts[i].duplicate());
        }
        i += 1;
    }
    assert(views(out@) =~= views(accounts@).update(index as int, account@));
    out
}

/// What a request asks the host to do before it can go on: create storage
/// at a derived address, paid for by `payer` and controlled by `owner`.
#[derive(Clone, Debug, PartialEq, Eq)]
pub struct AllocationRequest {
    /// Who pays for the storage.
    pub payer: Address,
    /// Where the storage is created.
    pub account: Address,
    /// How many bytes are created.
    pub space: usize,
    /// The program that will control the storage.
    pub owner: Address,
    /// The seeds that authorise creating storage at `account`: the logical
    /// key from which the address was derived, then the bump seed.
    pub seeds: Vec<Vec<u8>>,
}

/// The mathematical value of an allocation request.
pub struct AllocationRequestView {
    pub payer: Seq<u8>,
    pub account: Seq<u8>,
    pub space: nat,
    pub owner: Seq<u8>,
    pub seeds: Seq<Seq<u8>>,
}

impl View for AllocationRequest {
    type V = AllocationRequestView;

    open spec fn view(&self) -> AllocationRequestView {
        AllocationRequestView {
            payer: self.payer@,
            account: self.account@,
            space: self.space as nat,
            owner: self.owner@,
            seeds: self.seeds.deep_view(),
        }
    }
}

/// How far a request has come.
#[derive(Debug, PartialEq, Eq)]
pub enum Step {
    /// The host has to create this storage; after that the request is run
    /// again with one more allocation granted.
    Allocate(AllocationRequest),
    /// The request is complete: these are the accounts as it leaves them.
    Done(Vec<Account>),
}

/// The mathematical value of a step.
pub enum StepView {
    Allocate(AllocationRequestView),
    Done(Seq<AccountView>),
}

impl View for Step {
    type V = StepView;

    open spec fn view(&self) -> StepView {
        match self {
            Step::Allocate(request) => StepView::Allocate(request@),
            Step::Done(accounts) => StepView::Done(views(accounts@)),
        }
    }
}

/// The mathematical value of what a request returns.
pub open spec fn outcome_view(r: Result<Step, ReviewError>) -> Result<StepView, ReviewError> {
    match r {
        Ok(step) => Ok(step@),
        Err(e) => Err(e),
    }
}

} // verus!
