//! What the bridge asks its host to do: events to publish and calls to
//! schedule on other accounts.  The bridge decides; the host carries out.

use crate::account::AccountId;
use crate::types::{
    CanonicalAssetId, CanonicalAssetIdView, ReceiptTokenMetadata, ReceiptTokenMetadataView,
};
use vstd::prelude::*;
use vstd::string::*;

verus! {

/// Compute budget of a `mint` or `burn` call, in gas units (ten teragas).
pub const GAS_MINT_TOKEN: u64 = 10_000_000_000_000;

/// Compute budget of the call that initializes a new token (ten teragas).
pub const GAS_INIT_TOKEN: u64 = 10_000_000_000_000;

/// Decimals of every receipt token.
pub const TOKEN_DECIMALS: u8 = 18;

/// The fungible-token metadata a new receipt token is initialized with.
#[derive(Debug, PartialEq, Eq)]
pub struct FungibleTokenMetadata {
    pub spec: String,
    pub name: String,
    pub symbol: String,
    pub icon: Option<String>,
    pub reference: Option<String>,
    pub reference_hash: Option<Vec<u8>>,
    pub decimals: u8,
}

/// The mathematical view of [`FungibleTokenMetadata`].
pub struct FungibleTokenMetadataView {
    pub spec: Seq<char>,
    pub name: Seq<char>,
    pub symbol: Seq<char>,
    pub icon: Option<Seq<char>>,
    pub reference: Option<Seq<char>>,
    pub reference_hash: Option<Seq<u8>>,
    pub decimals: u8,
}

impl View for FungibleTokenMetadata {
    type V = FungibleTokenMetadataView;

    open spec fn view(&self) -> FungibleTokenMetadataView {
        FungibleTokenMetadataView {
            spec: self.spec@,
            name: self.name@,
            symbol: self.symbol@,
            icon: match self.icon {
                Some(s) => Some(s@),
                None => None,
            },
            reference: match self.reference {
                Some(s) => Some(s@),
                None => None,
            },
            reference_hash: match self.reference_hash {
                Some(h) => Some(h@),
                None => None,
            },
            decimals: self.decimals,
        }
    }
}

impl Clone for FungibleTokenMetadata {
    fn clone(&self) -> (r: Self)
        ensures
            r@ == self@,
    {
        FungibleTokenMetadata {
            spec: self.spec.clone(),
            name: self.name.clone(),
            symbol: self.symbol.clone(),
            icon: match &self.icon {
                Some(s) => Some(s.clone()),
                None => None,
            },
            reference: match &self.reference {
                Some(s) => Some(s.clone()),
                None => None,
            },
            reference_hash: match &self.reference_hash {
                Some(h) => Some(h.clone()),
                None => None,
            },
            decimals: self.decimals,
        }
    }
}

/// The metadata of the receipt token for an asset with the given source
/// contract.
pub open spec fn receipt_token_metadata(source_contract: Seq<char>) -> FungibleTokenMetadataView {
    FungibleTokenMetadataView {
        spec: "ft-1.0.0"@,
        name: "Bridged "@ + source_contract,
        symbol: "xAsset"@,
        icon: None,
        reference: None,
        reference_hash: None,
        decimals: TOKEN_DECIMALS,
    }
}

impl FungibleTokenMetadata {
    /// The metadata of the receipt token for an asset with the given source
    /// contract.
    pub fn for_receipt_token(source_contract: &str) -> (r: Self)
        ensures
            r@ == receipt_token_metadata(source_contract@),
    {
        FungibleTokenMetadata {
            spec: String::from_str("ft-1.0.0"),
            name: String::from_str("Bridged ").concat(source_contract),
            symbol: String::from_str("xAsset"),
            icon: None,
            reference: None,
            reference_hash: None,
            decimals: TOKEN_DECIMALS,
        }
    }
}

/// The arguments of a call to a receipt token.
#[derive(Debug, PartialEq, Eq)]
pub enum CallArguments {
    Mint { account_id: AccountId, amount: u128 },
    Burn { account_id: AccountId, amount: u128 },
    Initialize {
        owner_id: AccountId,
        metadata: FungibleTokenMetadata,
        xc_metadata: ReceiptTokenMetadata,
    },
}

/// The mathematical view of [`CallArguments`].
pub enum CallArgumentsView {
    Mint { account_id: Seq<char>, amount: u128 },
    Burn { account_id: Seq<char>, amount: u128 },
    Initialize {
        owner_id: Seq<char>,
        metadata: FungibleTokenMetadataView,
        xc_metadata: ReceiptTokenMetadataView,
    },
}

impl View for CallArguments {
    type V = CallArgumentsView;

    open spec fn view(&self) -> CallArgumentsView {
        match self {
            CallArguments::Mint { account_id, amount } => CallArgumentsView::Mint {
                account_id: account_id@,
                amount: *amount,
            },
            CallArguments::Burn { account_id, amount } => CallArgumentsView::Burn {
                account_id: account_id@,
                amount: *amount,
            },
            CallArguments::Initialize {
                owner_id,
                metadata,
                xc_metadata,
            } => CallArgumentsView::Initialize {
                owner_id: owner_id@,
                metadata: metadata@,
                xc_metadata: xc_metadata@,
            },
        }
    }
}

/// One step performed on the account a batch is addressed to.
#[derive(Debug, PartialEq, Eq)]
pub enum Action {
    CreateAccount,
    Transfer { amount: u128 },
    DeployContract { code: Vec<u8> },
    FunctionCall { method_name: String, arguments: CallArguments, deposit: u128, gas: u64 },
}

/// The mathematical view of [`Action`].
pub enum ActionView {
    CreateAccount,
    Transfer { amount: u128 },
    DeployContract { code: Seq<u8> },
    FunctionCall { method_name: Seq<char>, arguments: CallArgumentsView, deposit: u128, gas: u64 },
}

impl View for Action {
    type V = ActionView;

    open spec fn view(&self) -> ActionView {
        match self {
            Action::CreateAccount => ActionView::CreateAccount,
            Action::Transfer { amount } => ActionView::Transfer { amount: *amount },
            Action::DeployContract { code } => ActionView::DeployContract { code: code@ },
            Action::FunctionCall {
                method_name,
                arguments,
                deposit,
                gas,
            } => ActionView::FunctionCall {
                method_name: method_name@,
                arguments: arguments@,
                deposit: *deposit,
                gas: *gas,
            },
        }
    }
}

/// The view of a step.
pub open spec fn action_view(a: Action) -> ActionView {
    a@
}

/// Steps performed in order on one account.
#[derive(Debug, PartialEq, Eq)]
pub struct ActionBatch {
    pub receiver_id: AccountId,
    pub actions: Vec<Action>,
}

/// The mathematical view of [`ActionBatch`].
pub struct ActionBatchView {
    pub receiver_id: Seq<char>,
    pub actions: Seq<ActionView>,
}

impl View for ActionBatch {
    type V = ActionBatchView;

    open spec fn view(&self) -> ActionBatchView {
        ActionBatchView {
            receiver_id: self.receiver_id@,
            actions: self.actions@.map_values(|a: Action| action_view(a)),
        }
    }
}

/// A batch, and one to run once the first has completed or failed.
#[derive(Debug, PartialEq, Eq)]
pub struct CallPlan {
    pub first: ActionBatch,
    pub after: Option<ActionBatch>,
}

/// The mathematical view of [`CallPlan`].
pub struct CallPlanView {
    pub first: ActionBatchView,
    pub after: Option<ActionBatchView>,
}

impl View for CallPlan {
    type V = CallPlanView;

    open spec fn view(&self) -> CallPlanView {
        CallPlanView {
            first: self.first@,
            after: match self.after {
                Some(batch) => Some(batch@),
                None => None,
            },
        }
    }
}

/// The batch that mints `amount` of `token` to `receiver`.
pub open spec fn mint_batch(token: Seq<char>, receiver: Seq<char>, amount: u128) -> ActionBatchView {
    ActionBatchView {
        receiver_id: token,
        actions: seq![
            ActionView::FunctionCall {
                method_name: "mint"@,
                arguments: CallArgumentsView::Mint { account_id: receiver, amount },
                deposit: 0,
                gas: GAS_MINT_TOKEN,
            },
        ],
    }
}

/// The batch that burns `amount` of `token` held by `holder`.
pub open spec fn burn_batch(token: Seq<char>, holder: Seq<char>, amount: u128) -> ActionBatchView {
    ActionBatchView {
        receiver_id: token,
        actions: seq![
            ActionView::FunctionCall {
                method_name: "burn"@,
                arguments: CallArgumentsView::Burn { account_id: holder, amount },
                deposit: 0,
                gas: GAS_MINT_TOKEN,
            },
        ],
    }
}

/// The batch that pays `amount` to `receiver`.
pub open spec fn transfer_batch(receiver: Seq<char>, amount: u128) -> ActionBatchView {
    ActionBatchView { receiver_id: receiver, actions: seq![ActionView::Transfer { amount }] }
}

/// The batch that provisions a new receipt token: create the account, fund
/// it with `deposit`, deploy `code`, initialize it.
pub open spec fn provision_batch(
    token: Seq<char>,
    deposit: u128,
    code: Seq<u8>,
    owner: Seq<char>,
    metadata: FungibleTokenMetadataView,
    xc_metadata: ReceiptTokenMetadataView,
) -> ActionBatchView {
    ActionBatchView {
        receiver_id: token,
        actions: seq![
            ActionView::CreateAccount,
            ActionView::Transfer { amount: deposit },
            ActionView::DeployContract { code },
            ActionView::FunctionCall {
                method_name: "new"@,
                arguments: CallArgumentsView::Initialize { owner_id: owner, metadata, xc_metadata },
                deposit: 0,
                gas: GAS_INIT_TOKEN,
            },
        ],
    }
}

impl ActionBatch {
    /// The batch that mints `amount` of `token` to `receiver`.
    pub fn mint(token: AccountId, receiver: AccountId, amount: u128) -> (r: Self)
        ensures
            r@ == mint_batch(token@, receiver@, amount),
    {
        let mut actions: Vec<Action> = Vec::new();
        actions.push(
            Action::FunctionCall {
                method_name: String::from_str("mint"),
                arguments: CallArguments::Mint { account_id: receiver, amount },
                deposit: 0,
                gas: GAS_MINT_TOKEN,
            },
        );
        let r = ActionBatch { receiver_id: token, actions };
        assert(r@.actions =~= mint_batch(token@, receiver@, amount).actions);
        r
    }

    /// The batch that burns `amount` of `token` held by `holder`.
    pub fn burn(token: AccountId, holder: AccountId, amount: u128) -> (r: Self)
        ensures
            r@ == burn_batch(token@, holder@, amount),
    {
        let mut actions: Vec<Action> = Vec::new();
        actions.push(
            Action::FunctionCall {
                method_name: String::from_str("burn"),
                arguments: CallArguments::Burn { account_id: holder, amount },
                deposit: 0,
                gas: GAS_MINT_TOKEN,
            },
        );
        let r = ActionBatch { receiver_id: token, actions };
        assert(r@.actions =~= burn_batch(token@, holder@, amount).actions);
        r
    }

    /// The batch that pays `amount` to `receiver`.
    pub fn transfer(receiver: AccountId, amount: u128) -> (r: Self)
        ensures
            r@ == transfer_batch(receiver@, amount),
    {
        let mut actions: Vec<Action> = Vec::new();
        actions.push(Action::Transfer { amount });
        let r = ActionBatch { receiver_id: receiver, actions };
        assert(r@.actions =~= transfer_batch(receiver@, amount).actions);
        r
    }

    /// The batch that provisions a new receipt token.
    pub fn provision(
        token: AccountId,
        deposit: u128,
        code: Vec<u8>,
        owner: AccountId,
        metadata: FungibleTokenMetadata,
        xc_metadata: ReceiptTokenMetadata,
    ) -> (r: Self)
        ensures
            r@ == provision_batch(token@, deposit, code@, owner@, metadata@, xc_metadata@),
    {
        let mut actions: Vec<Action> = Vec::new();
        actions.push(Action::CreateAccount);
        actions.push(Action::Transfer { amount: deposit });
        actions.push(Action::DeployContract { code });
        actions.push(
            Action::FunctionCall {
                method_name: String::from_str("new"),
                arguments: CallArguments::Initialize { owner_id: owner, metadata, xc_metadata },
                deposit: 0,
                gas: GAS_INIT_TOKEN,
            },
        );
        let r = ActionBatch { receiver_id: token, actions };
        assert(r@.actions =~= provision_batch(
            token@,
            deposit,
            code@,
            owner@,
            metadata@,
            xc_metadata@,
        ).actions);
        r
    }
}

/// Published when a transfer into this chain has been accepted.
#[derive(Debug, PartialEq, Eq)]
pub struct BridgeInEvent {
    pub canonical_asset: CanonicalAssetId,
    pub amount: u128,
    pub receiver_id: AccountId,
    pub source_tx_hash: String,
    pub receipt_token: AccountId,
}

/// The mathematical view of [`BridgeInEvent`].
pub struct BridgeInEventView {
    pub canonical_asset: CanonicalAssetIdView,
    pub amount: u128,
    pub receiver_id: Seq<char>,
    pub source_tx_hash: Seq<char>,
    pub receipt_token: Seq<char>,
}

impl View for BridgeInEvent {
    type V = BridgeInEventView;

    open spec fn view(&self) -> BridgeInEventView {
        BridgeInEventView {
            canonical_asset: self.canonical_asset@,
            amount: self.amount,
            receiver_id: self.receiver_id@,
            source_tx_hash: self.source_tx_hash@,
            receipt_token: self.receipt_token@,
        }
    }
}

/// Published when a transfer out of this chain has been accepted.
#[derive(Debug, PartialEq, Eq)]
pub struct BridgeOutEvent {
    pub canonical_asset: CanonicalAssetId,
    pub amount: u128,
    pub sender_id: AccountId,
    pub destination_chain: String,
    pub destination_address: String,
    pub receipt_token: AccountId,
}

/// The mathematical view of [`BridgeOutEvent`].
pub struct BridgeOutEventView {
    pub canonical_asset: CanonicalAssetIdView,
    pub amount: u128,
    pub sender_id: Seq<char>,
    pub destination_chain: Seq<char>,
    pub destination_address: Seq<char>,
    pub receipt_token: Seq<char>,
}

impl View for BridgeOutEvent {
    type V = BridgeOutEventView;

    open spec fn view(&self) -> BridgeOutEventView {
        BridgeOutEventView {
            canonical_asset: self.canonical_asset@,
            amount: self.amount,
            sender_id: self.sender_id@,
            destination_chain: self.destination_chain@,
            destination_address: self.destination_address@,
            receipt_token: self.receipt_token@,
        }
    }
}

/// What an accepted inbound transfer asks of the host.
#[derive(Debug, PartialEq, Eq)]
pub struct BridgeInEffect {
    pub event: BridgeInEvent,
    pub plan: CallPlan,
}

/// The mathematical view of [`BridgeInEffect`].
pub struct BridgeInEffectView {
    pub event: BridgeInEventView,
    pub plan: CallPlanView,
}

impl View for BridgeInEffect {
    type V = BridgeInEffectView;

    open spec fn view(&self) -> BridgeInEffectView {
        BridgeInEffectView { event: self.event@, plan: self.plan@ }
    }
}

/// What an accepted outbound transfer asks of the host.
#[derive(Debug, PartialEq, Eq)]
pub struct BridgeOutEffect {
    pub treasury_payment: ActionBatch,
    pub event: BridgeOutEvent,
    pub burn: ActionBatch,
}

/// The mathematical view of [`BridgeOutEffect`].
pub struct BridgeOutEffectView {
    pub treasury_payment: ActionBatchView,
    pub event: BridgeOutEventView,
    pub burn: ActionBatchView,
}

impl View for BridgeOutEffect {
    type V = BridgeOutEffectView;

    open spec fn view(&self) -> BridgeOutEffectView {
        BridgeOutEffectView {
            treasury_payment: self.treasury_payment@,
            event: self.event@,
            burn: self.burn@,
        }
    }
}

} // verus!
