//! Who the wallet is, and what it holds.

use vstd::prelude::*;

use crate::error::{failure, ldk_err, ErrorCode, NncError};
use crate::lightning::BalanceInfo;
use crate::nwc::{Bip321Capability, GetBalanceResponse, GetInfoResponse};
use crate::wallet::{wallet_methods, wallet_notifications, Wallet};

verus! {

/// What the node says of itself.
#[derive(Debug, PartialEq, Eq)]
pub struct NodeIdentity {
    pub node_id: String,
    pub network: String,
    pub best_block_height: u32,
}

/// A capability by its contents.
pub open spec fn capability(c: Bip321Capability) -> (Seq<char>, Option<Seq<Seq<char>>>) {
    (c.method@, c.address_types.deep_view())
}

/// Invoices and offers, and on chain taproot addresses alone.
pub open spec fn wallet_capabilities() -> Seq<(Seq<char>, Option<Seq<Seq<char>>>)> {
    seq![("bolt11"@, None), ("bolt12"@, None), ("onchain"@, Some(seq!["p2tr"@]))]
}

/// What is answered of a balance. What is on chain is given in sats, the
/// smallest unit that the chain has.
pub open spec fn balance_of(b: BalanceInfo) -> GetBalanceResponse {
    GetBalanceResponse {
        balance: b.total_msat,
        lightning_balance: Some(b.lightning_msat),
        onchain_balance_sats: Some(b.onchain_msat / 1_000),
    }
}

/// What a balance request does next, and in the end what it answers.
#[derive(Debug, PartialEq, Eq)]
pub enum BalanceStep {
    SyncWallets,
    ReadBalance,
    Answer(Result<GetBalanceResponse, NncError>),
}

/// What has come of a balance request so far.
#[derive(Debug, PartialEq, Eq)]
pub enum BalanceEvent {
    Asked,
    Synced(Result<(), String>),
    Read(Result<BalanceInfo, String>),
}

impl Wallet {
    /// The payment methods that the node puts into a URI.
    pub fn capabilities() -> (c: Vec<Bip321Capability>)
        ensures
            c@.map_values(|c: Bip321Capability| capability(c)) == wallet_capabilities(),
    {
        let types = vec!["p2tr".to_string()];
        assert(types.deep_view() =~= seq!["p2tr"@]);
        let c = vec![
            Bip321Capability { method: "bolt11".to_string(), address_types: None },
            Bip321Capability { method: "bolt12".to_string(), address_types: None },
            Bip321Capability { method: "onchain".to_string(), address_types: Some(types) },
        ];
        assert(c@.map_values(|c: Bip321Capability| capability(c)) =~= wallet_capabilities());
        c
    }

    /// The node's identity, and what its wallet can do.
    pub fn get_info(&self, node: NodeIdentity) -> (info: GetInfoResponse)
        ensures
            info.alias.deep_view() == (match self.alias {
                Some(alias) => Some(alias@),
                None => Some("dln-node"@),
            }),
            info.color is None,
            info.pubkey == Some(node.node_id),
            info.network == Some(node.network),
            info.block_height == Some(node.best_block_height as u64),
            info.block_hash is None,
            info.methods.deep_view() == wallet_methods(),
            info.notifications.deep_view() == Some(wallet_notifications()),
            info.extensions is None,
            info.bip321_methods is Some,
            info.bip321_methods->0@.map_values(|c: Bip321Capability| capability(c))
                == wallet_capabilities(),
    {
        let alias = match &self.alias {
            Some(alias) => alias.clone(),
            None => "dln-node".to_string(),
        };
        GetInfoResponse {
            alias: Some(alias),
            color: None,
            pubkey: Some(node.node_id),
            network: Some(node.network),
            block_height: Some(node.best_block_height as u64),
            block_hash: None,
            methods: self.methods(),
            notifications: Some(self.notifications()),
            // None of the extensions that the wallet implements has a number.
            extensions: None,
            bip321_methods: Some(Self::capabilities()),
        }
    }

    /// One step of a balance request: the wallets are brought up to date
    /// before the balance is read, and a failure of either ends it.
    pub fn get_balance(&self, event: BalanceEvent) -> (step: BalanceStep)
        ensures
            match event {
                BalanceEvent::Asked => step is SyncWallets,
                BalanceEvent::Synced(Ok(_)) => step is ReadBalance,
                BalanceEvent::Synced(Err(e)) => {
                    &&& step matches BalanceStep::Answer(Err(error))
                    &&& error.says(ErrorCode::Internal, failure("sync"@, e@))
                },
                BalanceEvent::Read(Ok(b)) => {
                    &&& step matches BalanceStep::Answer(Ok(answer))
                    &&& answer == balance_of(b)
                },
                BalanceEvent::Read(Err(e)) => {
                    &&& step matches BalanceStep::Answer(Err(error))
                    &&& error.says(ErrorCode::Internal, failure("balance"@, e@))
                },
            },
    {
        match event {
            BalanceEvent::Asked => BalanceStep::SyncWallets,
            BalanceEvent::Synced(Ok(_)) => BalanceStep::ReadBalance,
            BalanceEvent::Synced(Err(e)) => BalanceStep::Answer(
                Err(ldk_err("sync", ErrorCode::Internal, e.as_str())),
            ),
            BalanceEvent::Read(Ok(b)) => BalanceStep::Answer(
                Ok(
                    GetBalanceResponse {
                        balance: b.total_msat,
                        lightning_balance: Some(b.lightning_msat),
                        onchain_balance_sats: Some(b.onchain_msat / 1_000),
                    },
                ),
            ),
            BalanceEvent::Read(Err(e)) => BalanceStep::Answer(
                Err(ldk_err("balance", ErrorCode::Internal, e.as_str())),
            ),
        }
    }
}

}
