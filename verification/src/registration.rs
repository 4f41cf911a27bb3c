//! A registration and its course: the check of the input, the record, and
//! the outside work in its order, each step going on only where the one
//! before it was done.

use crate::account::{IdentityAccount, IdentityRecord, MAX_USERNAME_LEN, SPACE};
use crate::address::{identity_seed, identity_seed_bytes};
use crate::context::Context;
use crate::error::{ErrorCode, Failure, Step};
use crate::instruction::{
    Allocate, CreateMasterEditionV3, CreateMetadataAccountsV3, Creator, DataV2, DataV2View, MintTo,
};
use vstd::prelude::*;
use vstd::utf8::encode_utf8;

verus! {

/// How the outside work of a step ended.
#[derive(Clone, Copy, Debug, PartialEq, Eq, Structural)]
pub enum Outcome {
    /// The work was done.
    Done,
    /// The work failed, for the reason given.
    Failed(u64),
}

/// Where a registration stands.
#[derive(Clone, Copy, Debug, PartialEq, Eq, Structural)]
pub enum Phase {
    /// The outside work of the step is to be done next.
    Pending(Step),
    /// Every step was done: the registration stands.
    Committed,
    /// The registration was given up: nothing of it stands.
    Aborted(Failure),
}

/// A registration under way.
#[derive(Clone, Debug, PartialEq, Eq)]
pub struct Registration {
    /// The surroundings it was begun in.
    pub ctx: Context,
    /// The identity record that it creates.
    pub record: IdentityAccount,
    /// The symbol of the identity token.
    pub symbol: String,
    /// Where it stands.
    pub phase: Phase,
}

/// The phase that follows `phase` once the outside work of its step ended
/// with `outcome`, for a record that fits its space or does not.
pub open spec fn next_phase(phase: Phase, outcome: Outcome, fits: bool) -> Phase {
    match phase {
        Phase::Pending(step) => match outcome {
            Outcome::Failed(code) => Phase::Aborted(Failure::Rejected { step, code }),
            Outcome::Done => match step {
                Step::Allocate => if fits {
                    Phase::Pending(Step::Store)
                } else {
                    Phase::Aborted(Failure::RecordTooLarge)
                },
                Step::Store => Phase::Pending(Step::Mint),
                Step::Mint => Phase::Pending(Step::Metadata),
                Step::Metadata => Phase::Pending(Step::SupplyLock),
                Step::SupplyLock => Phase::Committed,
            },
        },
        Phase::Committed => Phase::Committed,
        Phase::Aborted(failure) => Phase::Aborted(failure),
    }
}

/// What `register_identity` returns: the error for a username of more than
/// `MAX_USERNAME_LEN` bytes, else the registration with its record filled in
/// and the allocation pending.
pub open spec fn registered(ctx: Context, username: String, symbol: String, uri: String) -> Result<
    Registration,
    ErrorCode,
> {
    if encode_utf8(username@).len() > MAX_USERNAME_LEN {
        Err(ErrorCode::UsernameTooLong)
    } else {
        Ok(
            Registration {
                ctx,
                record: IdentityAccount {
                    authority: ctx.accounts.authority,
                    username,
                    uri,
                    bump: ctx.bumps.identity_account,
                },
                symbol,
                phase: Phase::Pending(Step::Allocate),
            },
        )
    }
}

/// Begins the registration of the authority named in `ctx`: refuses a
/// username of more than `MAX_USERNAME_LEN` bytes, else fills in the
/// identity record. Nothing is allocated by this.
pub fn register_identity(ctx: &Context, username: String, symbol: String, uri: String) -> (r: Result<
    Registration,
    ErrorCode,
>)
    ensures
        r == registered(*ctx, username, symbol, uri),
        encode_utf8(username@).len() <= MAX_USERNAME_LEN <==> r.is_ok(),
{
    if username.as_str().as_bytes().len() > MAX_USERNAME_LEN {
        return Err(ErrorCode::UsernameTooLong);
    }
    let record = IdentityAccount {
        authority: ctx.accounts.authority,
        username,
        uri,
        bump: ctx.bumps.identity_account,
    };
    Ok(Registration { ctx: *ctx, record, symbol, phase: Phase::Pending(Step::Allocate) })
}

impl Registration {
    /// The registration after the outside work of its pending step ended
    /// with `outcome`.
    pub open spec fn advanced(self, outcome: Outcome) -> Registration {
        Registration {
            ctx: self.ctx,
            record: self.record,
            symbol: self.symbol,
            phase: next_phase(self.phase, outcome, self.record@.fits()),
        }
    }

    /// The registration after the steps' outside work ended with
    /// `outcomes`, one after the other.
    pub open spec fn run(self, outcomes: Seq<Outcome>) -> Registration
        decreases outcomes.len(),
    {
        if outcomes.len() == 0 {
            self
        } else {
            self.advanced(outcomes[0]).run(outcomes.drop_first())
        }
    }

    /// The step whose outside work is to be done next, if any is.
    pub fn step(&self) -> (s: Option<Step>)
        ensures
            s == match self.phase {
                Phase::Pending(step) => Some(step),
                _ => None,
            },
    {
        match self.phase {
            Phase::Pending(step) => Some(step),
            _ => None,
        }
    }

    /// Whether every step was done.
    pub fn is_committed(&self) -> (b: bool)
        ensures
            b == (self.phase == Phase::Committed),
    {
        match self.phase {
            Phase::Committed => true,
            _ => false,
        }
    }

    /// Why the registration was given up, if it was.
    pub fn failure(&self) -> (f: Option<Failure>)
        ensures
            f == match self.phase {
                Phase::Aborted(failure) => Some(failure),
                _ => None,
            },
    {
        match self.phase {
            Phase::Aborted(failure) => Some(failure),
            _ => None,
        }
    }

    /// The allocation of the identity record's account: at the address
    /// named for it, `SPACE` bytes, paid for by the authority and owned by
    /// the program.
    pub open spec fn spec_allocate(self) -> Allocate {
        Allocate {
            address: self.ctx.accounts.identity_account,
            payer: self.ctx.accounts.authority,
            owner: self.ctx.program_id,
            space: SPACE,
            bump: self.record.bump,
        }
    }

    /// The allocation of the identity record's account.
    pub fn allocate(&self) -> (a: Allocate)
        ensures
            a == self.spec_allocate(),
    {
        Allocate {
            address: self.ctx.accounts.identity_account,
            payer: self.ctx.accounts.authority,
            owner: self.ctx.program_id,
            space: SPACE,
            bump: self.record.bump,
        }
    }

    /// The seeds with which the program signs for the identity record's
    /// address: the label, the authority and the bump seed.
    pub open spec fn spec_signer_seeds(self) -> Seq<Seq<u8>> {
        seq![identity_seed(), self.record.authority@, seq![self.record.bump]]
    }

    /// The seeds with which the program signs for the identity record's
    /// address.
    pub fn signer_seeds(&self) -> (seeds: Vec<Vec<u8>>)
        ensures
            seeds.deep_view() == self.spec_signer_seeds(),
    {
        let mut seeds: Vec<Vec<u8>> = Vec::new();
        seeds.push(identity_seed_bytes());
        seeds.push(self.record.authority.to_vec());
        let mut bump: Vec<u8> = Vec::new();
        bump.push(self.record.bump);
        assert(bump@ =~= seq![self.record.bump]);
        seeds.push(bump);
        assert(seeds.deep_view() =~~= self.spec_signer_seeds());
        seeds
    }

    /// The minting: one unit of the mint into the authority's holding
    /// account, on the authority's word.
    pub open spec fn spec_mint_to(self) -> MintTo {
        MintTo {
            token_program: self.ctx.accounts.token_program,
            mint: self.ctx.accounts.mint,
            to: self.ctx.accounts.token_account,
            authority: self.ctx.accounts.authority,
            amount: 1,
        }
    }

    /// The minting of the one unit of the identity token.
    pub fn mint_to(&self) -> (m: MintTo)
        ensures
            m == self.spec_mint_to(),
    {
        MintTo {
            token_program: self.ctx.accounts.token_program,
            mint: self.ctx.accounts.mint,
            to: self.ctx.accounts.token_account,
            authority: self.ctx.accounts.authority,
            amount: 1,
        }
    }

    /// The descriptive fields of the token: the username as its name, the
    /// symbol, the uri, no fee, the authority as its one creator, verified
    /// and with the whole share, no collection and no uses.
    pub open spec fn spec_data(self) -> DataV2View {
        DataV2View {
            name: self.record.username@,
            symbol: self.symbol@,
            uri: self.record.uri@,
            seller_fee_basis_points: 0,
            creators: Some(
                seq![Creator { address: self.ctx.accounts.authority, verified: true, share: 100 }],
            ),
            collection: None,
            uses: None,
        }
    }

    /// The creation of the metadata record: for the mint, with the
    /// authority as mint authority, payer and update authority, never to be
    /// changed afterwards.
    pub fn create_metadata_accounts_v3(&self) -> (m: CreateMetadataAccountsV3)
        ensures
            m.token_metadata_program == self.ctx.accounts.token_metadata_program,
            m.metadata == self.ctx.accounts.metadata_account,
            m.mint == self.ctx.accounts.mint,
            m.mint_authority == self.ctx.accounts.authority,
            m.payer == self.ctx.accounts.authority,
            m.update_authority == self.ctx.accounts.authority,
            m.system_program == self.ctx.accounts.system_program,
            m.rent == self.ctx.accounts.rent,
            m.data@ == self.spec_data(),
            !m.is_mutable,
            m.update_authority_is_signer,
            m.collection_details is None,
    {
        let mut creators: Vec<Creator> = Vec::new();
        creators.push(Creator { address: self.ctx.accounts.authority, verified: true, share: 100 });
        assert(creators@ =~= seq![
            Creator { address: self.ctx.accounts.authority, verified: true, share: 100 },
        ]);
        let data = DataV2 {
            name: self.record.username.clone(),
            symbol: self.symbol.clone(),
            uri: self.record.uri.clone(),
            seller_fee_basis_points: 0,
            creators: Some(creators),
            collection: None,
            uses: None,
        };
        CreateMetadataAccountsV3 {
            token_metadata_program: self.ctx.accounts.token_metadata_program,
            metadata: self.ctx.accounts.metadata_account,
            mint: self.ctx.accounts.mint,
            mint_authority: self.ctx.accounts.authority,
            payer: self.ctx.accounts.authority,
            update_authority: self.ctx.accounts.authority,
            system_program: self.ctx.accounts.system_program,
            rent: self.ctx.accounts.rent,
            data,
            is_mutable: false,
            update_authority_is_signer: true,
            collection_details: None,
        }
    }

    /// The creation of the supply-lock record: for the mint and its
    /// metadata record, with no unit to be issued beyond the one that
    /// exists.
    pub open spec fn spec_master_edition(self) -> CreateMasterEditionV3 {
        CreateMasterEditionV3 {
            token_metadata_program: self.ctx.accounts.token_metadata_program,
            edition: self.ctx.accounts.master_edition_account,
            mint: self.ctx.accounts.mint,
            update_authority: self.ctx.accounts.authority,
            mint_authority: self.ctx.accounts.authority,
            payer: self.ctx.accounts.authority,
            metadata: self.ctx.accounts.metadata_account,
            token_program: self.ctx.accounts.token_program,
            system_program: self.ctx.accounts.system_program,
            rent: self.ctx.accounts.rent,
            max_supply: Some(0u64),
        }
    }

    /// The creation of the supply-lock record.
    pub fn create_master_edition_v3(&self) -> (e: CreateMasterEditionV3)
        ensures
            e == self.spec_master_edition(),
    {
        CreateMasterEditionV3 {
            token_metadata_program: self.ctx.accounts.token_metadata_program,
            edition: self.ctx.accounts.master_edition_account,
            mint: self.ctx.accounts.mint,
            update_authority: self.ctx.accounts.authority,
            mint_authority: self.ctx.accounts.authority,
            payer: self.ctx.accounts.authority,
            metadata: self.ctx.accounts.metadata_account,
            token_program: self.ctx.accounts.token_program,
            system_program: self.ctx.accounts.system_program,
            rent: self.ctx.accounts.rent,
            max_supply: Some(0),
        }
    }

    /// Takes the outcome of the pending step's outside work. A step that
    /// was done makes the next one pending, the last one commits; a step
    /// that failed aborts the registration with the reason given, and so
    /// does a record that does not fit the space allocated for it. A
    /// registration that is committed or aborted stays as it is.
    pub fn advance(self, outcome: Outcome) -> (r: Registration)
        ensures
            r == self.advanced(outcome),
    {
        let phase = match self.phase {
            Phase::Pending(step) => match outcome {
                Outcome::Failed(code) => Phase::Aborted(Failure::Rejected { step, code }),
                Outcome::Done => match step {
                    Step::Allocate => if self.record.fits() {
                        Phase::Pending(Step::Store)
                    } else {
                        Phase::Aborted(Failure::RecordTooLarge)
                    },
                    Step::Store => Phase::Pending(Step::Mint),
                    Step::Mint => Phase::Pending(Step::Metadata),
                    Step::Metadata => Phase::Pending(Step::SupplyLock),
                    Step::SupplyLock => Phase::Committed,
                },
            },
            Phase::Committed => Phase::Committed,
            Phase::Aborted(failure) => Phase::Aborted(failure),
        };
        Registration { ctx: self.ctx, record: self.record, symbol: self.symbol, phase }
    }
}

/// The outcomes of a course in which every step's outside work was done.
pub open spec fn all_done() -> Seq<Outcome> {
    seq![Outcome::Done, Outcome::Done, Outcome::Done, Outcome::Done, Outcome::Done]
}

/// A registration that is committed or aborted stays as it is, whatever
/// outcomes are still handed to it.
pub proof fn lemma_settled_stays(registration: Registration, outcomes: Seq<Outcome>)
    requires
        registration.phase !is Pending,
    ensures
        registration.run(outcomes) == registration,
    decreases outcomes.len(),
{
    if outcomes.len() > 0 {
        assert(registration.advanced(outcomes[0]) == registration);
        lemma_settled_stays(registration, outcomes.drop_first());
    }
}

/// A username of at most `MAX_USERNAME_LEN` bytes is accepted, whatever
/// else is handed in, and the record then holds the authority, the username,
/// the uri and the bump seed exactly as they were given. Where the uri has
/// at most `MAX_URI_LEN` bytes as well and the outside work of every step is
/// done, the registration is committed, with that record.
pub proof fn lemma_registration_succeeds(
    ctx: Context,
    username: String,
    symbol: String,
    uri: String,
)
    requires
        encode_utf8(username@).len() <= MAX_USERNAME_LEN,
    ensures
        registered(ctx, username, symbol, uri) is Ok,
        registered(ctx, username, symbol, uri).unwrap().record@ == (IdentityRecord {
            authority: ctx.accounts.authority@,
            username: username@,
            uri: uri@,
            bump: ctx.bumps.identity_account,
        }),
        encode_utf8(uri@).len() <= crate::account::MAX_URI_LEN ==> {
            let end = registered(ctx, username, symbol, uri).unwrap().run(all_done());
            &&& end.phase == Phase::Committed
            &&& end.record == registered(ctx, username, symbol, uri).unwrap().record
        },
{
    let start = registered(ctx, username, symbol, uri).unwrap();
    if encode_utf8(uri@).len() <= crate::account::MAX_URI_LEN {
        lemma_run_all_done(start);
    }
}

/// The steps come in their order: from the pending allocation, with every
/// step's outside work done, a record that fits is stored, the unit is
/// minted, the metadata record and then the supply-lock record are created,
/// and the registration is committed.
pub proof fn lemma_run_all_done(start: Registration)
    requires
        start.phase == Phase::Pending(Step::Allocate),
        start.record@.fits(),
    ensures
        start.advanced(Outcome::Done).phase == Phase::Pending(Step::Store),
        start.run(all_done().take(2)).phase == Phase::Pending(Step::Mint),
        start.run(all_done().take(3)).phase == Phase::Pending(Step::Metadata),
        start.run(all_done().take(4)).phase == Phase::Pending(Step::SupplyLock),
        start.run(all_done()).phase == Phase::Committed,
        start.run(all_done()).record == start.record,
        start.run(all_done()).ctx == start.ctx,
        start.run(all_done()).symbol == start.symbol,
{
    reveal_with_fuel(Registration::run, 6);
    let d = Outcome::Done;
    assert(all_done().drop_first() =~= seq![d, d, d, d]);
    assert(seq![d, d, d, d].drop_first() =~= seq![d, d, d]);
    assert(seq![d, d, d].drop_first() =~= seq![d, d]);
    assert(seq![d, d].drop_first() =~= seq![d]);
    assert(seq![d].drop_first() =~= Seq::<Outcome>::empty());
    assert(all_done().take(2) =~= seq![d, d]);
    assert(all_done().take(3) =~= seq![d, d, d]);
    assert(all_done().take(4) =~= seq![d, d, d, d]);
}

/// All or nothing: once the outside work of a step has failed, the
/// registration is aborted for that step and that reason, and it stays so:
/// no later step becomes pending and it is never committed.
pub proof fn lemma_failed_step_aborts(
    registration: Registration,
    step: Step,
    code: u64,
    later: Seq<Outcome>,
)
    requires
        registration.phase == Phase::Pending(step),
    ensures
        registration.advanced(Outcome::Failed(code)).phase == Phase::Aborted(
            Failure::Rejected { step, code },
        ),
        registration.advanced(Outcome::Failed(code)).run(later) == registration.advanced(
            Outcome::Failed(code),
        ),
{
    lemma_settled_stays(registration.advanced(Outcome::Failed(code)), later);
}

/// A registration is committed only where the record fits its space and
/// the outside work of all five steps was done: a course from the pending
/// allocation that ends committed has at least five outcomes, its first
/// five are all `Done`, and the record fits.
pub proof fn lemma_committed_only_if_all_done(start: Registration, outcomes: Seq<Outcome>)
    requires
        start.phase == Phase::Pending(Step::Allocate),
        start.run(outcomes).phase == Phase::Committed,
    ensures
        start.record@.fits(),
        outcomes.len() >= 5,
        outcomes.take(5) == all_done(),
{
    lemma_course(start, outcomes, 0);
    assert(outcomes.take(5) =~= all_done());
}

/// The number of a step in the order of the steps.
pub open spec fn step_index(step: Step) -> int {
    match step {
        Step::Allocate => 0,
        Step::Store => 1,
        Step::Mint => 2,
        Step::Metadata => 3,
        Step::SupplyLock => 4,
    }
}

/// From a pending step, a course that ends committed does every step from
/// that one on, and stores only a record that fits.
proof fn lemma_course(at: Registration, outcomes: Seq<Outcome>, index: int)
    requires
        at.phase is Pending,
        step_index(at.phase->Pending_0) == index,
        at.run(outcomes).phase == Phase::Committed,
    ensures
        outcomes.len() >= 5 - index,
        forall|i: int| 0 <= i < 5 - index ==> outcomes[i] == Outcome::Done,
        index == 0 ==> at.record@.fits(),
    decreases outcomes.len(),
{
    if outcomes.len() == 0 {
    } else {
        let next = at.advanced(outcomes[0]);
        let rest = outcomes.drop_first();
        if next.phase is Pending {
            lemma_course(next, rest, index + 1);
            assert forall|i: int| 0 <= i < 5 - index implies outcomes[i] == Outcome::Done by {
                if i > 0 {
                    assert(outcomes[i] == rest[i - 1]);
                }
            }
        } else {
            lemma_settled_stays(next, rest);
        }
    }
}

/// Usernames need not be unique: the same username, where one authority may
/// register it, may be registered by any other, each in a record of its own.
pub proof fn lemma_usernames_are_not_unique(
    first: Context,
    second: Context,
    username: String,
    first_symbol: String,
    first_uri: String,
    second_symbol: String,
    second_uri: String,
)
    ensures
        registered(first, username, first_symbol, first_uri) is Ok <==> registered(
            second,
            username,
            second_symbol,
            second_uri,
        ) is Ok,
        registered(first, username, first_symbol, first_uri) matches Ok(one) ==> registered(
            second,
            username,
            second_symbol,
            second_uri,
        ) matches Ok(other) && one.record.username == username && other.record.username
            == username && one.record.authority == first.accounts.authority
            && other.record.authority == second.accounts.authority,
{
}

/// What a registration hands out for the token stays what the input made
/// it, at every point of its course: one unit is minted into the authority's
/// holding account, the metadata record carries the username as name, the
/// symbol and the uri as they were given, and the supply lock allows no
/// further unit.
pub proof fn lemma_token_is_one_of_one(
    ctx: Context,
    username: String,
    symbol: String,
    uri: String,
    outcomes: Seq<Outcome>,
)
    requires
        encode_utf8(username@).len() <= MAX_USERNAME_LEN,
    ensures
        ({
            let at = registered(ctx, username, symbol, uri).unwrap().run(outcomes);
            &&& at.spec_mint_to().amount == 1
            &&& at.spec_mint_to().mint == ctx.accounts.mint
            &&& at.spec_mint_to().to == ctx.accounts.token_account
            &&& at.spec_mint_to().authority == ctx.accounts.authority
            &&& at.spec_data().name == username@
            &&& at.spec_data().symbol == symbol@
            &&& at.spec_data().uri == uri@
            &&& at.spec_master_edition().mint == ctx.accounts.mint
            &&& at.spec_master_edition().max_supply == Some(0u64)
        }),
{
    lemma_run_keeps(registered(ctx, username, symbol, uri).unwrap(), outcomes);
}

/// A course changes the phase only: the surroundings, the record and the
/// symbol stay as they were.
pub proof fn lemma_run_keeps(start: Registration, outcomes: Seq<Outcome>)
    ensures
        start.run(outcomes).ctx == start.ctx,
        start.run(outcomes).record == start.record,
        start.run(outcomes).symbol == start.symbol,
    decreases outcomes.len(),
{
    if outcomes.len() > 0 {
        lemma_run_keeps(start.advanced(outcomes[0]), outcomes.drop_first());
    }
}

} // verus!
