//! A receipt token: what it records about itself, and who may mint and burn.
//! The balances are kept by the host; the token decides and the host books.

use crate::account::AccountId;
use crate::actions::{FungibleTokenMetadata, FungibleTokenMetadataView};
use crate::bridge::CallContext;
use crate::collections::string_equal;
use crate::interface::XChainReceiptToken;
use crate::model::ContextView;
use crate::types::{ChainId, ReceiptTokenMetadata, ReceiptTokenMetadataView};
use vstd::prelude::*;

verus! {

/// Why the token refused an operation.
#[derive(Debug, Clone, Copy, PartialEq, Eq, Structural)]
pub enum TokenError {
    /// Only the owner, the bridge, may mint and burn.
    Unauthorized,
}

/// A change of supply.
#[derive(Debug, Clone, Copy, PartialEq, Eq, Structural)]
pub enum SupplyChange {
    Mint,
    Burn,
}

/// A change to book on the ledger and to publish: `amount` is credited to
/// `account_id` on a mint and debited on a burn.
#[derive(Debug, PartialEq, Eq)]
pub struct LedgerEntry {
    pub change: SupplyChange,
    pub account_id: AccountId,
    pub amount: u128,
}

/// The mathematical view of [`LedgerEntry`].
pub struct LedgerEntryView {
    pub change: SupplyChange,
    pub account_id: Seq<char>,
    pub amount: u128,
}

impl View for LedgerEntry {
    type V = LedgerEntryView;

    open spec fn view(&self) -> LedgerEntryView {
        LedgerEntryView { change: self.change, account_id: self.account_id@, amount: self.amount }
    }
}

/// What the owner's request to change the supply comes to.
pub open spec fn supply_change(
    owner_id: Seq<char>,
    ctx: ContextView,
    change: SupplyChange,
    account_id: Seq<char>,
    amount: u128,
) -> Result<LedgerEntryView, TokenError> {
    if ctx.predecessor_account_id == owner_id {
        Ok(LedgerEntryView { change, account_id, amount })
    } else {
        Err(TokenError::Unauthorized)
    }
}

/// A receipt token.
#[derive(Debug)]
pub struct ReceiptToken {
    metadata: FungibleTokenMetadata,
    xc_metadata: ReceiptTokenMetadata,
    owner_id: AccountId,
}

/// The mathematical view of [`ReceiptToken`].
pub struct ReceiptTokenView {
    pub metadata: FungibleTokenMetadataView,
    pub xc_metadata: ReceiptTokenMetadataView,
    pub owner_id: Seq<char>,
}

impl View for ReceiptToken {
    type V = ReceiptTokenView;

    closed spec fn view(&self) -> ReceiptTokenView {
        ReceiptTokenView {
            metadata: self.metadata@,
            xc_metadata: self.xc_metadata@,
            owner_id: self.owner_id@,
        }
    }
}

impl ReceiptToken {
    /// A new token owned by `owner_id`.
    pub fn new(
        owner_id: AccountId,
        metadata: FungibleTokenMetadata,
        xc_metadata: ReceiptTokenMetadata,
    ) -> (token: Self)
        ensures
            token@ == (ReceiptTokenView {
                metadata: metadata@,
                xc_metadata: xc_metadata@,
                owner_id: owner_id@,
            }),
    {
        ReceiptToken { metadata, xc_metadata, owner_id }
    }

    /// The owner of the token: the bridge that created it.
    pub fn owner_id(&self) -> (r: &AccountId)
        ensures
            r@ == self@.owner_id,
    {
        &self.owner_id
    }

    /// Credits `amount` to `account_id`.  Owner only.
    pub fn mint(&mut self, ctx: &CallContext, account_id: AccountId, amount: u128) -> (r: Result<
        LedgerEntry,
        TokenError,
    >)
        ensures
            match r {
                Ok(entry) => supply_change(
                    old(self)@.owner_id,
                    ctx@,
                    SupplyChange::Mint,
                    account_id@,
                    amount,
                ) == Ok::<LedgerEntryView, TokenError>(entry@),
                Err(e) => supply_change(
                    old(self)@.owner_id,
                    ctx@,
                    SupplyChange::Mint,
                    account_id@,
                    amount,
                ) == Err::<LedgerEntryView, TokenError>(e),
            },
            final(self)@ == old(self)@,
    {
        if !ctx.predecessor_account_id.equals(&self.owner_id) {
            return Err(TokenError::Unauthorized);
        }
        Ok(LedgerEntry { change: SupplyChange::Mint, account_id, amount })
    }

    /// Debits `amount` from `account_id`.  Owner only.
    pub fn burn(&mut self, ctx: &CallContext, account_id: AccountId, amount: u128) -> (r: Result<
        LedgerEntry,
        TokenError,
    >)
        ensures
            match r {
                Ok(entry) => supply_change(
                    old(self)@.owner_id,
                    ctx@,
                    SupplyChange::Burn,
                    account_id@,
                    amount,
                ) == Ok::<LedgerEntryView, TokenError>(entry@),
                Err(e) => supply_change(
                    old(self)@.owner_id,
                    ctx@,
                    SupplyChange::Burn,
                    account_id@,
                    amount,
                ) == Err::<LedgerEntryView, TokenError>(e),
            },
            final(self)@ == old(self)@,
    {
        if !ctx.predecessor_account_id.equals(&self.owner_id) {
            return Err(TokenError::Unauthorized);
        }
        Ok(LedgerEntry { change: SupplyChange::Burn, account_id, amount })
    }

    /// The fungible-token metadata.
    pub fn ft_metadata(&self) -> (r: FungibleTokenMetadata)
        ensures
            r@ == self@.metadata,
    {
        self.metadata.clone()
    }
}

impl XChainReceiptToken for ReceiptToken {
    fn xc_metadata(&self) -> (r: ReceiptTokenMetadata)
        ensures
            r@ == self@.xc_metadata,
    {
        self.xc_metadata.clone()
    }

    fn xc_is_bridgeable_to(&self, chain_id: ChainId) -> (r: bool)
        ensures
            r == (self@.xc_metadata.canonical_asset.source_chain_id == chain_id@),
    {
        string_equal(self.xc_metadata.canonical_asset.source_chain_id.as_str(), chain_id.as_str())
    }

    fn xc_total_locked(&self) -> (r: u128)
        ensures
            r == self@.xc_metadata.total_locked,
    {
        self.xc_metadata.total_locked
    }
}

} // verus!
