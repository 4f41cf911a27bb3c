//! What is handed to the programs that do a registration's outside work.

use crate::address::Address;
use vstd::prelude::*;

verus! {

/// The allocation of the identity record's account.
#[derive(Clone, Copy, Debug, PartialEq, Eq)]
pub struct Allocate {
    /// The derived address at which the account is created.
    pub address: Address,
    /// Who pays for the account.
    pub payer: Address,
    /// The program that owns the account.
    pub owner: Address,
    /// Bytes to reserve.
    pub space: usize,
    /// The bump seed of the address.
    pub bump: u8,
}

/// The minting of units of a token into a holding account.
#[derive(Clone, Copy, Debug, PartialEq, Eq)]
pub struct MintTo {
    pub token_program: Address,
    pub mint: Address,
    pub to: Address,
    pub authority: Address,
    pub amount: u64,
}

/// A creator named in a metadata record.
#[derive(Clone, Copy, Debug, PartialEq, Eq)]
pub struct Creator {
    pub address: Address,
    pub verified: bool,
    pub share: u8,
}

/// The collection that a token belongs to.
#[derive(Clone, Copy, Debug, PartialEq, Eq)]
pub struct Collection {
    pub verified: bool,
    pub key: Address,
}

/// How a token may be used up.
#[derive(Clone, Copy, Debug, PartialEq, Eq)]
pub enum UseMethod {
    Burn,
    Multiple,
    Single,
}

/// The uses that a token allows.
#[derive(Clone, Copy, Debug, PartialEq, Eq)]
pub struct Uses {
    pub use_method: UseMethod,
    pub remaining: u64,
    pub total: u64,
}

/// The size of a collection, where a token is one.
#[derive(Clone, Copy, Debug, PartialEq, Eq)]
pub enum CollectionDetails {
    V1 { size: u64 },
    V2 { padding: [u8; 8] },
}

/// The descriptive fields of a metadata record.
#[derive(Clone, Debug, PartialEq, Eq)]
pub struct DataV2 {
    pub name: String,
    pub symbol: String,
    pub uri: String,
    pub seller_fee_basis_points: u16,
    pub creators: Option<Vec<Creator>>,
    pub collection: Option<Collection>,
    pub uses: Option<Uses>,
}

/// The mathematical value of a metadata record's descriptive fields.
pub struct DataV2View {
    pub name: Seq<char>,
    pub symbol: Seq<char>,
    pub uri: Seq<char>,
    pub seller_fee_basis_points: u16,
    pub creators: Option<Seq<Creator>>,
    pub collection: Option<Collection>,
    pub uses: Option<Uses>,
}

impl View for DataV2 {
    type V = DataV2View;

    open spec fn view(&self) -> DataV2View {
        DataV2View {
            name: self.name@,
            symbol: self.symbol@,
            uri: self.uri@,
            seller_fee_basis_points: self.seller_fee_basis_points,
            creators: match self.creators {
                Some(creators) => Some(creators@),
                None => None,
            },
            collection: self.collection,
            uses: self.uses,
        }
    }
}

/// The creation of a mint's metadata record.
#[derive(Clone, Debug, PartialEq, Eq)]
pub struct CreateMetadataAccountsV3 {
    pub token_metadata_program: Address,
    pub metadata: Address,
    pub mint: Address,
    pub mint_authority: Address,
    pub payer: Address,
    pub update_authority: Address,
    pub system_program: Address,
    pub rent: Address,
    pub data: DataV2,
    pub is_mutable: bool,
    pub update_authority_is_signer: bool,
    pub collection_details: Option<CollectionDetails>,
}

/// The creation of a mint's supply-lock record.
#[derive(Clone, Copy, Debug, PartialEq, Eq)]
pub struct CreateMasterEditionV3 {
    pub token_metadata_program: Address,
    pub edition: Address,
    pub mint: Address,
    pub update_authority: Address,
    pub mint_authority: Address,
    pub payer: Address,
    pub metadata: Address,
    pub token_program: Address,
    pub system_program: Address,
    pub rent: Address,
    /// Units that may still be issued beyond the one that exists.
    pub max_supply: Option<u64>,
}

} // verus!
