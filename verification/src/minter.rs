//! A faucet of the governance token: every account can have its share
//! minted once.

use vstd::prelude::*;
use crate::stake::errors::OwnableError;
use crate::stake::errors::PSP22Error;
use crate::table::Table;
use crate::trace::Call;
use crate::trace::Traced;
use crate::trace::mint_answer;
use crate::types::AccountId;
use crate::types::Balance;

verus! {

/// What every account can have minted: 10 000 tokens of 10^12 units.
pub const MINTED_AMOUNT: Balance = 10_000 * 1_000_000_000_000;

#[derive(Debug, Clone, PartialEq, Eq)]
pub enum GovernanceTokenMinterError {
    OwnableError(OwnableError),
    PSP22Error(PSP22Error),
    AlreadyMinted,
}

impl From<OwnableError> for GovernanceTokenMinterError {
    fn from(error: OwnableError) -> (res: Self) {
        GovernanceTokenMinterError::OwnableError(error)
    }
}

impl vstd::std_specs::convert::FromSpecImpl<OwnableError> for GovernanceTokenMinterError {
    open spec fn obeys_from_spec() -> bool {
        true
    }

    open spec fn from_spec(error: OwnableError) -> Self {
        GovernanceTokenMinterError::OwnableError(error)
    }
}

impl From<PSP22Error> for GovernanceTokenMinterError {
    fn from(error: PSP22Error) -> (res: Self) {
        GovernanceTokenMinterError::PSP22Error(error)
    }
}

impl vstd::std_specs::convert::FromSpecImpl<PSP22Error> for GovernanceTokenMinterError {
    open spec fn obeys_from_spec() -> bool {
        true
    }

    open spec fn from_spec(error: PSP22Error) -> Self {
        GovernanceTokenMinterError::PSP22Error(error)
    }
}

/// A token ledger that mints. Nothing is known of an answer before it is
/// given.
pub trait PSP22Mintable {
    /// Mints `amount` tokens for `account`.
    fn mint(&mut self, account: AccountId, amount: Balance) -> Result<(), PSP22Error>;
}

/// The faucet.
pub struct GovernanceTokenMinter {
    owner: AccountId,
    already_minted: Table<AccountId, ()>,
    gov_token_address: AccountId,
}

impl GovernanceTokenMinter {
    pub closed spec fn spec_owner(&self) -> AccountId {
        self.owner
    }

    pub closed spec fn spec_gov_token_address(&self) -> AccountId {
        self.gov_token_address
    }

    /// The accounts that have had their share.
    pub closed spec fn minted(&self) -> Set<AccountId> {
        self.already_minted@.dom()
    }

    pub closed spec fn wf(&self) -> bool {
        self.already_minted.wf()
    }

    /// A faucet of the token at `gov_token_address`, owned by `caller`.
    pub fn new(caller: AccountId, gov_token_address: AccountId) -> (minter: Self)
        ensures
            minter.wf(),
            minter.spec_owner() == caller,
            minter.spec_gov_token_address() == gov_token_address,
            minter.minted() == Set::<AccountId>::empty(),
    {
        GovernanceTokenMinter { owner: caller, already_minted: Table::new(), gov_token_address }
    }

    /// The faucet with the given owner and token, at which the accounts in
    /// `already_minted` have had their share. No account may be listed
    /// twice.
    pub fn from_parts(owner: AccountId, gov_token_address: AccountId, already_minted: Vec<AccountId>) -> (minter:
        Option<Self>)
        ensures
            match minter {
                Some(minter) => {
                    &&& minter.wf()
                    &&& minter.spec_owner() == owner
                    &&& minter.spec_gov_token_address() == gov_token_address
                    &&& minter.minted() == already_minted@.to_set()
                },
                None => !already_minted@.no_duplicates(),
            },
    {
        let ghost listed = already_minted@;
        let mut marks: Vec<()> = Vec::new();
        let mut i: usize = 0;
        while i < already_minted.len()
            invariant
                i <= already_minted@.len(),
                marks@.len() == i,
            decreases already_minted@.len() - i,
        {
            marks.push(());
            i += 1;
        }
        match Table::from_entries(already_minted, marks) {
            Some(table) => {
                assert(table@.dom() =~= listed.to_set());
                Some(GovernanceTokenMinter { owner, already_minted: table, gov_token_address })
            },
            None => None,
        }
    }

    /// The accounts that have had their share, in the order in which they
    /// got it.
    pub fn minted_accounts(&self) -> (accounts: Vec<AccountId>)
        requires
            self.wf(),
        ensures
            accounts@.to_set() == self.minted(),
            accounts@.no_duplicates(),
    {
        let mut accounts: Vec<AccountId> = Vec::new();
        let mut i: usize = 0;
        while i < self.already_minted.len()
            invariant
                self.already_minted.wf(),
                i <= self.already_minted.keys().len(),
                accounts@ == self.already_minted.keys().take(i as int),
            decreases self.already_minted.keys().len() - i,
        {
            accounts.push(*self.already_minted.key_at(i));
            assert(self.already_minted.keys().take(i + 1) =~= self.already_minted.keys().take(
                i as int,
            ).push(self.already_minted.keys()[i as int]));
            i += 1;
        }
        assert(self.already_minted.keys().take(i as int) =~= self.already_minted.keys());
        assert(accounts@.to_set() =~= self.already_minted@.dom());
        accounts
    }

    pub fn gov_token_address(&self) -> (address: AccountId)
        ensures
            address == self.spec_gov_token_address(),
    {
        self.gov_token_address
    }

    pub fn owner(&self) -> (owner: AccountId)
        ensures
            owner == self.spec_owner(),
    {
        self.owner
    }

    pub fn has_already_minted(&self, account: AccountId) -> (minted: bool)
        requires
            self.wf(),
        ensures
            minted == self.minted().contains(account),
    {
        self.already_minted.get(&account).is_some()
    }

    /// What minting for `caller` answers where the token ledger answered
    /// with `minted`.
    pub open spec fn spec_mint(&self, caller: AccountId, minted: Result<(), PSP22Error>) -> Result<
        (),
        GovernanceTokenMinterError,
    > {
        if self.minted().contains(caller) {
            Err(GovernanceTokenMinterError::AlreadyMinted)
        } else {
            match minted {
                Ok(_) => Ok(()),
                Err(error) => Err(GovernanceTokenMinterError::PSP22Error(error)),
            }
        }
    }

    /// Notes that `caller` has had its share once the token ledger has
    /// answered the minting with `minted`.
    pub fn settle_mint(&mut self, caller: AccountId, minted: Result<(), PSP22Error>) -> (res: Result<
        (),
        GovernanceTokenMinterError,
    >)
        requires
            old(self).wf(),
        ensures
            final(self).wf(),
            res == old(self).spec_mint(caller, minted),
            res is Err ==> *final(self) == *old(self),
            res is Ok ==> final(self).minted() == old(self).minted().insert(caller) && final(self).spec_owner() == old(self).spec_owner() && final(self).spec_gov_token_address()
                == old(self).spec_gov_token_address(),
    {
        if self.has_already_minted(caller) {
            return Err(GovernanceTokenMinterError::AlreadyMinted);
        }
        if let Err(error) = minted {
            return Err(GovernanceTokenMinterError::PSP22Error(error));
        }
        self.already_minted.insert(caller, ());
        Ok(())
    }

    /// Has the share of `caller` minted, once. The token ledger is asked
    /// for an account that has not had its share, and for no other.
    pub fn mint<T: PSP22Mintable>(&mut self, token: &mut Traced<T>, caller: AccountId) -> (res:
        Result<(), GovernanceTokenMinterError>)
        requires
            old(self).wf(),
        ensures
            final(self).wf(),
            old(self).minted().contains(caller) ==> final(token).not_asked(old(token)),
            !old(self).minted().contains(caller) ==> final(token).asked(
                old(token),
                Call::Mint {
                    account: caller,
                    amount: MINTED_AMOUNT,
                    minted: mint_answer(final(token).last_call()),
                },
            ),
            res == old(self).spec_mint(caller, mint_answer(final(token).last_call())),
            res is Err ==> *final(self) == *old(self),
            res is Ok ==> final(self).minted() == old(self).minted().insert(caller),
    {
        if self.has_already_minted(caller) {
            return Err(GovernanceTokenMinterError::AlreadyMinted);
        }
        let minted = token.mint(caller, MINTED_AMOUNT);
        self.settle_mint(caller, minted)
    }
}

} // verus!
