use identity_register::account::SPACE;
use identity_register::address::{
    find_edition_address, find_identity_address, find_metadata_address, Address,
};
use identity_register::context::{check_derived, Context, RegisterIdentityBumps};
use identity_register::error::{Derived, Failure, Step};
use identity_register::instruction::Creator;
use identity_register::registration::{Outcome, Phase, Registration};
use identity_register::{register_identity, ErrorCode, IdentityAccount, RegisterIdentity};
use std::collections::HashMap;

fn address(fill: u8) -> Address {
    Address { bytes: [fill; 32] }
}

fn program_id() -> Address {
    address(200)
}

/// The accounts of a registration by `authority`, the derived ones in place.
fn accounts(authority: Address, mint: Address) -> RegisterIdentity {
    let metadata_program = Address { bytes: mpl_token_metadata::ID.to_bytes() };
    RegisterIdentity {
        identity_account: find_identity_address(&authority, &program_id()).unwrap().0,
        authority,
        system_program: address(0),
        mint,
        token_account: address(101),
        metadata_account: find_metadata_address(&metadata_program, &mint).unwrap().0,
        master_edition_account: find_edition_address(&metadata_program, &mint).unwrap().0,
        token_program: address(102),
        associated_token_program: address(103),
        token_metadata_program: metadata_program,
        rent: address(104),
    }
}

fn context(authority: Address, mint: Address) -> Context {
    Context::try_new(program_id(), accounts(authority, mint)).unwrap()
}

fn begin(authority: Address, username: &str, uri: &str) -> Registration {
    register_identity(
        &context(authority, address(50)),
        username.to_string(),
        "ID".to_string(),
        uri.to_string(),
    )
    .unwrap()
}

/// A ledger for the tests: what each address holds, and what each holding
/// account has. A registration's effects are applied to a copy, which
/// replaces the ledger only where the registration is committed.
#[derive(Clone, Default)]
struct Ledger {
    data: HashMap<[u8; 32], Vec<u8>>,
    balances: HashMap<[u8; 32], u64>,
    metadata_uri: HashMap<[u8; 32], String>,
    max_supply: HashMap<[u8; 32], Option<u64>>,
}

impl Ledger {
    /// Does the outside work of every step of `registration`; the step
    /// `fail_at`, if any, fails with reason 77.
    fn execute(&mut self, registration: Registration, fail_at: Option<Step>) -> Registration {
        let mut scratch = self.clone();
        let mut at = registration;
        while let Some(step) = at.step() {
            let outcome = if Some(step) == fail_at {
                Outcome::Failed(77)
            } else {
                scratch.perform(&at, step)
            };
            at = at.advance(outcome);
        }
        if at.is_committed() {
            *self = scratch;
        }
        at
    }

    fn perform(&mut self, at: &Registration, step: Step) -> Outcome {
        match step {
            Step::Allocate => {
                let a = at.allocate();
                if self.data.contains_key(&a.address.bytes) {
                    return Outcome::Failed(0);
                }
                self.data.insert(a.address.bytes, vec![0; a.space]);
            }
            Step::Store => {
                let bytes = at.record.try_serialize().unwrap();
                self.data.insert(at.allocate().address.bytes, bytes);
            }
            Step::Mint => {
                let m = at.mint_to();
                *self.balances.entry(m.to.bytes).or_insert(0) += m.amount;
            }
            Step::Metadata => {
                let m = at.create_metadata_accounts_v3();
                self.metadata_uri.insert(m.metadata.bytes, m.data.uri);
            }
            Step::SupplyLock => {
                let e = at.create_master_edition_v3();
                self.max_supply.insert(e.edition.bytes, e.max_supply);
            }
        }
        Outcome::Done
    }
}

#[test]
fn username_of_fifty_bytes_is_registered() {
    let username = "u".repeat(50);
    let ctx = context(address(1), address(50));
    let r = register_identity(&ctx, username.clone(), "ID".to_string(), "uri".to_string())
        .unwrap();
    assert_eq!(r.record.username, username);
    assert_eq!(r.record.uri, "uri");
    assert_eq!(r.record.authority, address(1));
    assert_eq!(r.record.bump, ctx.bumps.identity_account);
    assert_eq!(r.symbol, "ID");
    assert_eq!(r.ctx, ctx);
    assert_eq!(r.phase, Phase::Pending(Step::Allocate));
}

#[test]
fn empty_username_is_registered() {
    let r = begin(address(1), "", "");
    assert_eq!(r.record.username, "");
    assert_eq!(r.step(), Some(Step::Allocate));
}

#[test]
fn username_of_fifty_one_characters_is_refused() {
    let ctx = context(address(1), address(50));
    let r = register_identity(&ctx, "u".repeat(51), "ID".to_string(), "uri".to_string());
    assert_eq!(r, Err(ErrorCode::UsernameTooLong));
}

#[test]
fn username_bound_counts_bytes() {
    let ctx = context(address(1), address(50));
    // 17 characters of three bytes each: 51 bytes.
    let long = "\u{20ac}".repeat(17);
    assert_eq!(long.chars().count(), 17);
    assert_eq!(
        register_identity(&ctx, long, "ID".to_string(), String::new()),
        Err(ErrorCode::UsernameTooLong)
    );
    // 16 of them and two more bytes: 50 bytes.
    let fits = format!("{}ab", "\u{20ac}".repeat(16));
    assert!(register_identity(&ctx, fits, "ID".to_string(), String::new()).is_ok());
}

#[test]
fn refused_username_allocates_nothing() {
    let mut ledger = Ledger::default();
    let ctx = context(address(1), address(50));
    let r = register_identity(&ctx, "u".repeat(51), "ID".to_string(), "uri".to_string());
    assert!(r.is_err());
    if let Ok(registration) = r {
        ledger.execute(registration, None);
    }
    assert!(ledger.data.is_empty());
    assert!(ledger.balances.is_empty());
}

#[test]
fn steps_come_in_their_order() {
    let mut at = begin(address(1), "alice", "https://a.io");
    let mut seen = Vec::new();
    while let Some(step) = at.step() {
        seen.push(step);
        at = at.advance(Outcome::Done);
    }
    assert_eq!(
        seen,
        vec![Step::Allocate, Step::Store, Step::Mint, Step::Metadata, Step::SupplyLock]
    );
    assert!(at.is_committed());
    assert_eq!(at.failure(), None);
    assert_eq!(at.record.username, "alice");
}

#[test]
fn committed_registration_stays_committed() {
    let mut at = begin(address(1), "alice", "https://a.io");
    for _ in 0..5 {
        at = at.advance(Outcome::Done);
    }
    assert_eq!(at.phase, Phase::Committed);
    let after = at.clone().advance(Outcome::Failed(3));
    assert_eq!(after, at);
    assert_eq!(after.step(), None);
}

#[test]
fn failure_at_each_step_aborts_with_its_reason() {
    let steps = [Step::Allocate, Step::Store, Step::Mint, Step::Metadata, Step::SupplyLock];
    for (done, step) in steps.iter().enumerate() {
        let mut at = begin(address(1), "alice", "https://a.io");
        for _ in 0..done {
            at = at.advance(Outcome::Done);
        }
        assert_eq!(at.step(), Some(*step));
        at = at.advance(Outcome::Failed(4100 + done as u64));
        let failure = Failure::Rejected { step: *step, code: 4100 + done as u64 };
        assert_eq!(at.phase, Phase::Aborted(failure));
        assert_eq!(at.failure(), Some(failure));
        assert_eq!(at.step(), None);
        assert!(!at.is_committed());
        let later = at.clone().advance(Outcome::Done);
        assert_eq!(later, at);
    }
}

#[test]
fn oversized_uri_aborts_when_the_record_is_to_be_stored() {
    let at = begin(address(1), "alice", &"h".repeat(201));
    assert_eq!(at.step(), Some(Step::Allocate));
    let at = at.advance(Outcome::Done);
    assert_eq!(at.phase, Phase::Aborted(Failure::RecordTooLarge));
    assert_eq!(at.step(), None);
}

#[test]
fn uri_of_two_hundred_bytes_is_stored() {
    let mut ledger = Ledger::default();
    let at = ledger.execute(begin(address(1), "alice", &"h".repeat(200)), None);
    assert!(at.is_committed());
    let stored = &ledger.data[&at.ctx.accounts.identity_account.bytes];
    assert_eq!(stored.len(), SPACE);
    assert_eq!(stored[49..53].to_vec(), vec![200, 0, 0, 0]);
}

#[test]
fn second_registration_of_an_authority_fails() {
    let mut ledger = Ledger::default();
    let first = ledger.execute(begin(address(1), "alice", "https://a.io"), None);
    assert!(first.is_committed());
    let key = first.ctx.accounts.identity_account.bytes;
    let before = ledger.data[&key].clone();
    assert_eq!(before, first.record.try_serialize().unwrap());

    let second = ledger.execute(begin(address(1), "mallory", "https://m.io"), None);
    assert_eq!(second.ctx.accounts.identity_account.bytes, key);
    assert_eq!(
        second.failure(),
        Some(Failure::Rejected { step: Step::Allocate, code: 0 })
    );
    assert_eq!(ledger.data[&key], before);
    assert_eq!(ledger.data.len(), 1);
    assert_eq!(ledger.balances[&first.ctx.accounts.token_account.bytes], 1);
}

#[test]
fn two_authorities_register_the_same_username() {
    let mut ledger = Ledger::default();
    let one = ledger.execute(begin(address(1), "alice", "https://a.io"), None);
    let other = ledger.execute(begin(address(2), "alice", "https://a.io"), None);
    assert!(one.is_committed());
    assert!(other.is_committed());
    assert_ne!(one.ctx.accounts.identity_account, other.ctx.accounts.identity_account);
    assert_eq!(one.record.username, "alice");
    assert_eq!(other.record.username, "alice");
    assert_eq!(ledger.data.len(), 2);
}

#[test]
fn token_is_one_of_one() {
    let mut ledger = Ledger::default();
    let at = ledger.execute(begin(address(1), "alice", "https://a.io/alice.json"), None);
    assert!(at.is_committed());
    let accounts = at.ctx.accounts;
    assert_eq!(ledger.balances[&accounts.token_account.bytes], 1);
    assert_eq!(ledger.metadata_uri[&accounts.metadata_account.bytes], "https://a.io/alice.json");
    assert_eq!(ledger.max_supply[&accounts.master_edition_account.bytes], Some(0));
}

#[test]
fn mint_to_names_one_unit_for_the_authority() {
    let at = begin(address(1), "alice", "https://a.io");
    let m = at.mint_to();
    assert_eq!(m.amount, 1);
    assert_eq!(m.mint, address(50));
    assert_eq!(m.to, address(101));
    assert_eq!(m.authority, address(1));
    assert_eq!(m.token_program, address(102));
}

#[test]
fn metadata_is_immutable_and_names_the_authority_as_creator() {
    let at = begin(address(1), "alice", "https://a.io");
    let m = at.create_metadata_accounts_v3();
    assert_eq!(m.data.name, "alice");
    assert_eq!(m.data.symbol, "ID");
    assert_eq!(m.data.uri, "https://a.io");
    assert_eq!(m.data.seller_fee_basis_points, 0);
    assert_eq!(
        m.data.creators,
        Some(vec![Creator { address: address(1), verified: true, share: 100 }])
    );
    assert_eq!(m.data.collection, None);
    assert_eq!(m.data.uses, None);
    assert!(!m.is_mutable);
    assert!(m.update_authority_is_signer);
    assert_eq!(m.collection_details, None);
    assert_eq!(m.metadata, at.ctx.accounts.metadata_account);
    assert_eq!(m.mint, address(50));
    assert_eq!(m.mint_authority, address(1));
    assert_eq!(m.payer, address(1));
    assert_eq!(m.update_authority, address(1));
    assert_eq!(m.system_program, address(0));
    assert_eq!(m.rent, address(104));
    assert_eq!(m.token_metadata_program, at.ctx.accounts.token_metadata_program);
}

#[test]
fn master_edition_allows_no_further_unit() {
    let at = begin(address(1), "alice", "https://a.io");
    let e = at.create_master_edition_v3();
    assert_eq!(e.max_supply, Some(0));
    assert_eq!(e.edition, at.ctx.accounts.master_edition_account);
    assert_eq!(e.metadata, at.ctx.accounts.metadata_account);
    assert_eq!(e.mint, address(50));
    assert_eq!(e.update_authority, address(1));
    assert_eq!(e.mint_authority, address(1));
    assert_eq!(e.payer, address(1));
    assert_eq!(e.token_program, address(102));
    assert_eq!(e.system_program, address(0));
    assert_eq!(e.rent, address(104));
}

#[test]
fn allocation_reserves_the_space_at_the_derived_address() {
    let at = begin(address(1), "alice", "https://a.io");
    let a = at.allocate();
    assert_eq!(a.space, 299);
    assert_eq!(a.payer, address(1));
    assert_eq!(a.owner, program_id());
    let (derived, bump) = find_identity_address(&address(1), &program_id()).unwrap();
    assert_eq!(a.address, derived);
    assert_eq!(a.bump, bump);
}

#[test]
fn signer_seeds_recreate_the_identity_address() {
    let at = begin(address(1), "alice", "https://a.io");
    let seeds = at.signer_seeds();
    assert_eq!(seeds.len(), 3);
    assert_eq!(seeds[0], b"identity".to_vec());
    assert_eq!(seeds[1], vec![1u8; 32]);
    assert_eq!(seeds[2], vec![at.record.bump]);
    let parts: Vec<&[u8]> = seeds.iter().map(|s| s.as_slice()).collect();
    let program = anchor_lang::prelude::Pubkey::new_from_array(program_id().bytes);
    let derived = anchor_lang::prelude::Pubkey::create_program_address(&parts, &program).unwrap();
    assert_eq!(derived.to_bytes(), at.ctx.accounts.identity_account.bytes);
}

#[test]
fn failed_supply_lock_leaves_nothing_behind() {
    let mut ledger = Ledger::default();
    let at = ledger.execute(begin(address(1), "alice", "https://a.io"), Some(Step::SupplyLock));
    assert_eq!(
        at.failure(),
        Some(Failure::Rejected { step: Step::SupplyLock, code: 77 })
    );
    assert!(!at.is_committed());
    assert!(ledger.data.is_empty());
    assert!(ledger.balances.is_empty());
    assert!(ledger.metadata_uri.is_empty());
    assert!(ledger.max_supply.is_empty());
    // The authority may register afterwards.
    let again = ledger.execute(begin(address(1), "alice", "https://a.io"), None);
    assert!(again.is_committed());
}

#[test]
fn context_takes_accounts_at_their_derived_addresses() {
    let named = accounts(address(1), address(50));
    let ctx = Context::try_new(program_id(), named).unwrap();
    assert_eq!(ctx.program_id, program_id());
    assert_eq!(ctx.accounts, named);
    let metadata_program = named.token_metadata_program;
    assert_eq!(
        ctx.bumps,
        RegisterIdentityBumps {
            identity_account: find_identity_address(&address(1), &program_id()).unwrap().1,
            metadata_account: find_metadata_address(&metadata_program, &address(50)).unwrap().1,
            master_edition_account: find_edition_address(&metadata_program, &address(50))
                .unwrap()
                .1,
        }
    );
    assert_eq!(named.try_bumps(&program_id()), Ok(ctx.bumps));
}

#[test]
fn context_refuses_a_misplaced_account() {
    let good = accounts(address(1), address(50));
    let mut named = good;
    named.identity_account = address(9);
    assert_eq!(
        Context::try_new(program_id(), named),
        Err(Failure::WrongAddress(Derived::Identity))
    );
    let mut named = good;
    named.metadata_account = address(9);
    assert_eq!(
        Context::try_new(program_id(), named),
        Err(Failure::WrongAddress(Derived::Metadata))
    );
    let mut named = good;
    named.master_edition_account = good.metadata_account;
    assert_eq!(
        Context::try_new(program_id(), named),
        Err(Failure::WrongAddress(Derived::MasterEdition))
    );
    // The identity record is checked first.
    let mut named = good;
    named.identity_account = address(9);
    named.metadata_account = address(9);
    assert_eq!(
        named.try_bumps(&program_id()),
        Err(Failure::WrongAddress(Derived::Identity))
    );
    // Another program derives another address.
    assert_eq!(
        Context::try_new(address(201), good),
        Err(Failure::WrongAddress(Derived::Identity))
    );
}

#[test]
fn check_derived_tells_the_three_cases() {
    let named = address(4);
    assert_eq!(check_derived(Derived::Identity, &named, Some((address(4), 250))), Ok(250));
    assert_eq!(
        check_derived(Derived::Metadata, &named, Some((address(5), 250))),
        Err(Failure::WrongAddress(Derived::Metadata))
    );
    assert_eq!(
        check_derived(Derived::MasterEdition, &named, None),
        Err(Failure::NoAddress(Derived::MasterEdition))
    );
}

#[test]
fn record_is_what_was_handed_in() {
    let at = begin(address(3), "carol", "https://c.io");
    assert_eq!(
        at.record,
        IdentityAccount {
            authority: address(3),
            username: "carol".to_string(),
            uri: "https://c.io".to_string(),
            bump: at.ctx.bumps.identity_account,
        }
    );
}
