//! The accounts that a registration names, and the check that the derived
//! ones are where their seeds put them.

use crate::address::{
    edition_address, find_edition_address, find_identity_address, find_metadata_address,
    identity_address, metadata_address, derived_view, Address,
};
use crate::error::{Derived, Failure};
use vstd::prelude::*;

verus! {

/// The accounts that a registration names.
#[derive(Clone, Copy, Debug, PartialEq, Eq)]
pub struct RegisterIdentity {
    /// The identity record, to be created at the address derived from the
    /// authority.
    pub identity_account: Address,
    /// Who registers, signs and pays.
    pub authority: Address,
    /// The program that allocates accounts.
    pub system_program: Address,
    /// The mint of the identity token.
    pub mint: Address,
    /// The authority's holding account for the mint.
    pub token_account: Address,
    /// The metadata record of the mint.
    pub metadata_account: Address,
    /// The supply-lock record of the mint.
    pub master_edition_account: Address,
    /// The token program.
    pub token_program: Address,
    /// The program that associates holding accounts with their owners.
    pub associated_token_program: Address,
    /// The metadata program.
    pub token_metadata_program: Address,
    /// The rent parameters of the ledger.
    pub rent: Address,
}

/// The bump seeds of the derived accounts.
#[derive(Clone, Copy, Debug, PartialEq, Eq)]
pub struct RegisterIdentityBumps {
    pub identity_account: u8,
    pub metadata_account: u8,
    pub master_edition_account: u8,
}

/// A registration's surroundings: the program it runs under, the accounts it
/// names and the bump seeds of the derived ones.
#[derive(Clone, Copy, Debug, PartialEq, Eq)]
pub struct Context {
    pub program_id: Address,
    pub accounts: RegisterIdentity,
    pub bumps: RegisterIdentityBumps,
}

/// What the check of one derived account yields: the bump seed where the
/// named account is at the derived address, else the failure.
pub open spec fn checked(which: Derived, named: Seq<u8>, derived: Option<(Seq<u8>, u8)>) -> Result<
    u8,
    Failure,
> {
    match derived {
        None => Err(Failure::NoAddress(which)),
        Some((address, bump)) => if address == named {
            Ok(bump)
        } else {
            Err(Failure::WrongAddress(which))
        },
    }
}

/// Holds the account that was named against the outcome of the derivation.
pub fn check_derived(which: Derived, named: &Address, derived: Option<(Address, u8)>) -> (r: Result<
    u8,
    Failure,
>)
    ensures
        r == checked(which, named@, derived_view(derived)),
{
    match derived {
        None => Err(Failure::NoAddress(which)),
        Some((address, bump)) => {
            if address.same(named) {
                Ok(bump)
            } else {
                Err(Failure::WrongAddress(which))
            }
        },
    }
}

impl RegisterIdentity {
    /// The check of the identity record's address.
    pub open spec fn identity_checked(self, program_id: Seq<u8>) -> Result<u8, Failure> {
        checked(
            Derived::Identity,
            self.identity_account@,
            identity_address(self.authority@, program_id),
        )
    }

    /// The check of the metadata record's address.
    pub open spec fn metadata_checked(self) -> Result<u8, Failure> {
        checked(
            Derived::Metadata,
            self.metadata_account@,
            metadata_address(self.token_metadata_program@, self.mint@),
        )
    }

    /// The check of the supply-lock record's address.
    pub open spec fn edition_checked(self) -> Result<u8, Failure> {
        checked(
            Derived::MasterEdition,
            self.master_edition_account@,
            edition_address(self.token_metadata_program@, self.mint@),
        )
    }

    /// The bump seeds of the three derived accounts, or the failure of the
    /// first of them, in the order identity, metadata, supply lock, that is
    /// not at its derived address.
    pub open spec fn checked_bumps(self, program_id: Seq<u8>) -> Result<
        RegisterIdentityBumps,
        Failure,
    > {
        match self.identity_checked(program_id) {
            Err(failure) => Err(failure),
            Ok(identity_account) => match self.metadata_checked() {
                Err(failure) => Err(failure),
                Ok(metadata_account) => match self.edition_checked() {
                    Err(failure) => Err(failure),
                    Ok(master_edition_account) => Ok(
                        RegisterIdentityBumps {
                            identity_account,
                            metadata_account,
                            master_edition_account,
                        },
                    ),
                },
            },
        }
    }

    /// Derives the three derived addresses and holds the named accounts
    /// against them.
    pub fn try_bumps(&self, program_id: &Address) -> (r: Result<RegisterIdentityBumps, Failure>)
        ensures
            r == self.checked_bumps(program_id@),
    {
        let identity = find_identity_address(&self.authority, program_id);
        let identity_account = match check_derived(
            Derived::Identity,
            &self.identity_account,
            identity,
        ) {
            Ok(bump) => bump,
            Err(failure) => {
                return Err(failure);
            },
        };
        let metadata = find_metadata_address(&self.token_metadata_program, &self.mint);
        let metadata_account = match check_derived(
            Derived::Metadata,
            &self.metadata_account,
            metadata,
        ) {
            Ok(bump) => bump,
            Err(failure) => {
                return Err(failure);
            },
        };
        let edition = find_edition_address(&self.token_metadata_program, &self.mint);
        let master_edition_account = match check_derived(
            Derived::MasterEdition,
            &self.master_edition_account,
            edition,
        ) {
            Ok(bump) => bump,
            Err(failure) => {
                return Err(failure);
            },
        };
        Ok(RegisterIdentityBumps { identity_account, metadata_account, master_edition_account })
    }
}

impl Context {
    /// Whether each derived account is at its derived address, with the
    /// bump seed that is recorded for it.
    pub open spec fn wf(self) -> bool {
        self.accounts.checked_bumps(self.program_id@) == Ok::<RegisterIdentityBumps, Failure>(
            self.bumps,
        )
    }

    /// The surroundings of a registration that names `accounts` under
    /// `program_id`, where the derived accounts are at their derived
    /// addresses; else the failure of the first that is not.
    pub fn try_new(program_id: Address, accounts: RegisterIdentity) -> (r: Result<Context, Failure>)
        ensures
            match r {
                Ok(ctx) => ctx.program_id == program_id && ctx.accounts == accounts
                    && accounts.checked_bumps(program_id@) == Ok::<RegisterIdentityBumps, Failure>(
                    ctx.bumps,
                ) && ctx.wf(),
                Err(failure) => accounts.checked_bumps(program_id@) == Err::<
                    RegisterIdentityBumps,
                    Failure,
                >(failure),
            },
    {
        match accounts.try_bumps(&program_id) {
            Ok(bumps) => Ok(Context { program_id, accounts, bumps }),
            Err(failure) => Err(failure),
        }
    }
}

/// Each authority has one identity record under a program: two registrations
/// of the same authority, each with its derived accounts in place, name the
/// same identity record with the same bump seed.
pub proof fn lemma_one_record_per_authority(first: Context, second: Context)
    requires
        first.program_id@ == second.program_id@,
        first.accounts.authority@ == second.accounts.authority@,
    ensures
        first.wf() && second.wf() ==> first.accounts.identity_account@
            == second.accounts.identity_account@ && first.bumps.identity_account
            == second.bumps.identity_account,
{
}

} // verus!
