//! A factory that provisions child deployments of a fixed token service.
//!
//! The library holds the factory's state (the registry of allocated child
//! names and the administrative key), validates provisioning requests, derives
//! child identities and composes the instruction sequence that the ledger
//! runtime is asked to execute. Allocation happens when a request is
//! accepted, before the runtime executes the sequence: a name can be
//! allocated while no working child stands behind it.
use vstd::prelude::*;

pub mod account;
pub mod registry;
pub mod init_args;
pub mod factory;
pub mod laws;

pub use account::child_account_id;
pub use factory::{
    CallContext, FactoryError, NFTFactory, ProvisioningPlan, MAX_GAS, MIN_ATTACHED_BALANCE,
    NO_DEPOSIT,
};
pub use init_args::InitArgs;
pub use registry::{Registry, RegistryError};

verus! {

} // verus!
