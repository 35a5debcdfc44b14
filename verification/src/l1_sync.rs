//! What a node has to do, when it starts, to follow the settlement layer.
//!
//! Connecting to the layer and fetching gas prices are left to the caller.
//! Which of the two is due, and which settings cannot be served, is decided
//! here, from the settings alone and before anything is contacted.

use vstd::prelude::*;

verus! {

/// The operator's settings for following the settlement layer, as far as the
/// decision reads them.
#[derive(Clone, Copy, Debug, PartialEq, Eq, Structural)]
pub struct L1SyncSettings {
    /// The operator switched the sync off.
    pub sync_l1_disabled: bool,
    /// The operator named an endpoint of the settlement layer.
    pub l1_endpoint_given: bool,
    /// The operator fixed the gas price.
    pub gas_price_given: bool,
    /// The operator fixed the blob gas price.
    pub blob_gas_price_given: bool,
}

/// What is to be done when the node starts.
#[derive(Clone, Copy, Debug, PartialEq, Eq, Structural)]
pub struct L1SyncPlan {
    /// Connect to the settlement layer, at the endpoint that was named, and
    /// follow it.
    pub connect: bool,
    /// Fetch the gas prices once before blocks are produced, and keep them in
    /// step afterwards. Never set without `connect`.
    pub sync_gas_prices: bool,
}

/// Settings that cannot be served.
#[derive(Clone, Copy, Debug, PartialEq, Eq, Structural)]
pub enum L1SyncSetupError {
    /// The node is to follow the settlement layer and no endpoint was named.
    MissingEndpoint,
    /// Gas prices are to be taken from the settlement layer and the sync with
    /// it is switched off.
    GasPricesNeedSync,
}

impl L1SyncSettings {
    /// Whether gas prices are taken from the settlement layer: only by a node
    /// that produces blocks, outside a devnet, and only where the operator
    /// left at least one of the two prices open.
    pub open spec fn spec_wants_gas_prices(self, authority: bool, devnet: bool) -> bool {
        authority && !devnet && !(self.gas_price_given && self.blob_gas_price_given)
    }

    /// The plan for these settings, or what is wrong with them.
    ///
    /// A node follows the settlement layer unless the sync is switched off; a
    /// devnet node for which no endpoint was named does without. Elsewhere a
    /// missing endpoint is an error, and it is reported before anything else.
    pub open spec fn spec_plan(self, authority: bool, devnet: bool) -> Result<L1SyncPlan, L1SyncSetupError> {
        if !self.sync_l1_disabled && !self.l1_endpoint_given && !devnet {
            Err(L1SyncSetupError::MissingEndpoint)
        } else if self.sync_l1_disabled && self.spec_wants_gas_prices(authority, devnet) {
            Err(L1SyncSetupError::GasPricesNeedSync)
        } else {
            Ok(
                L1SyncPlan {
                    connect: !self.sync_l1_disabled && self.l1_endpoint_given,
                    sync_gas_prices: self.spec_wants_gas_prices(authority, devnet),
                },
            )
        }
    }

    /// Decides what a node with these settings does when it starts.
    /// `authority` says that the node produces blocks, `devnet` that it runs a
    /// development network.
    pub fn plan(&self, authority: bool, devnet: bool) -> (plan: Result<L1SyncPlan, L1SyncSetupError>)
        ensures
            plan == self.spec_plan(authority, devnet),
            plan matches Ok(steps) ==> (steps.sync_gas_prices ==> steps.connect),
    {
        let connect = if !self.sync_l1_disabled && (self.l1_endpoint_given || !devnet) {
            if self.l1_endpoint_given {
                true
            } else {
                return Err(L1SyncSetupError::MissingEndpoint);
            }
        } else {
            false
        };
        let sync_gas_prices = authority && !devnet && (!self.gas_price_given
            || !self.blob_gas_price_given);
        if sync_gas_prices && !connect {
            return Err(L1SyncSetupError::GasPricesNeedSync);
        }
        Ok(L1SyncPlan { connect, sync_gas_prices })
    }
}

} // verus!
