//! The factory: its state, the provisioning operations and the membership
//! query.
use vstd::prelude::*;
use vstd::utf8::encode_utf8;
use crate::account::{child_account_id, child_identity, is_valid_account_name, valid_account_id};
use crate::init_args::InitArgs;
use crate::registry::{Registry, RegistryError};

verus! {

/// The least payment, in yoctoNEAR, that a provisioning call must carry.
pub const MIN_ATTACHED_BALANCE: u128 = 3_500_000_000_000_000_000_000_000;

/// The payment attached to the initialization call itself.
pub const NO_DEPOSIT: u128 = 0;

/// The computation budget of the initialization call.
pub const MAX_GAS: u64 = 80_000_000_000_000;

/// Why a provisioning call was refused. A refused call changes nothing.
#[derive(Debug, Clone, Copy, PartialEq, Eq, Structural)]
pub enum FactoryError {
    /// The attached payment is below `MIN_ATTACHED_BALANCE`.
    InsufficientPayment,
    /// The requested name has been allocated before.
    NameAlreadyAllocated,
    /// The derived child identity breaks the runtime's naming rule.
    NameFormatInvalid,
}

/// What the runtime tells a call about itself.
pub struct CallContext {
    /// The identity that made the call; it becomes the child's owner.
    pub predecessor_account_id: String,
    /// The factory's own identity, under which children are created.
    pub current_account_id: String,
    /// The payment attached to the call.
    pub attached_deposit: u128,
}

/// The instruction sequence for one child, to be executed in this order:
/// create `account_id`; add `full_access_key` to it as a full-access key;
/// install the fixed token-service module; transfer `transfer` to it; call
/// `method_name` with `args`, attaching `function_call_deposit` and at most
/// `gas` of computation.
pub struct ProvisioningPlan {
    pub account_id: String,
    pub full_access_key: Vec<u8>,
    pub transfer: u128,
    pub method_name: String,
    pub args: String,
    pub function_call_deposit: u128,
    pub gas: u64,
}

/// The factory's state: the registry of allocated names and the
/// administrative key that every child is given.
pub struct NFTFactory {
    subaccounts: Registry,
    master_pk: Vec<u8>,
}

/// Which refusal, if any, a provisioning call of `name` meets, checked in
/// this order: payment, then allocation, then the child identity's format.
pub open spec fn rejection(names: Seq<Seq<char>>, name: Seq<char>, ctx: CallContext) -> Option<
    FactoryError,
> {
    if ctx.attached_deposit < MIN_ATTACHED_BALANCE {
        Some(FactoryError::InsufficientPayment)
    } else if names.contains(name) {
        Some(FactoryError::NameAlreadyAllocated)
    } else if !valid_account_id(encode_utf8(child_identity(name, ctx.current_account_id@))) {
        Some(FactoryError::NameFormatInvalid)
    } else {
        None
    }
}

/// `p` provisions the child `name` for the call `ctx`, granting `key` and
/// initializing it with `init`.
pub open spec fn plan_is(
    p: ProvisioningPlan,
    name: Seq<char>,
    ctx: CallContext,
    key: Seq<u8>,
    init: InitArgs,
) -> bool {
    &&& p.account_id@ == child_identity(name, ctx.current_account_id@)
    &&& p.full_access_key@ == key
    &&& p.transfer == ctx.attached_deposit
    &&& p.method_name@ == init.spec_method_name()
    &&& p.args@ == init.spec_json()
    &&& p.function_call_deposit == NO_DEPOSIT
    &&& p.gas == MAX_GAS
}

/// What a provisioning call of `name` with `init` did, from `pre` to `post`:
/// a refused call changes nothing; an accepted one allocates `name` and
/// returns the child's instruction sequence.
pub open spec fn provisioned(
    pre: NFTFactory,
    post: NFTFactory,
    name: Seq<char>,
    ctx: CallContext,
    init: InitArgs,
    r: Result<ProvisioningPlan, FactoryError>,
) -> bool {
    &&& post.wf()
    &&& post.admin_key() == pre.admin_key()
    &&& match rejection(pre.names(), name, ctx) {
        Some(e) => r == Err::<ProvisioningPlan, FactoryError>(e) && post.names() == pre.names(),
        None => r is Ok && post.names() == pre.names().push(name) && plan_is(
            r->Ok_0,
            name,
            ctx,
            pre.admin_key(),
            init,
        ),
    }
}

impl NFTFactory {
    /// The allocated names, in order of allocation.
    pub closed spec fn names(&self) -> Seq<Seq<char>> {
        self.subaccounts@
    }

    /// The administrative key.
    pub closed spec fn admin_key(&self) -> Seq<u8> {
        self.master_pk@
    }

    /// No name is allocated twice.
    pub closed spec fn wf(&self) -> bool {
        self.subaccounts.wf()
    }

    /// A factory with no allocated names, holding the administrative key
    /// `master_pk`.
    pub fn new(master_pk: Vec<u8>) -> (r: NFTFactory)
        ensures
            r.wf(),
            r.names() == Seq::<Seq<char>>::empty(),
            r.admin_key() == master_pk@,
    {
        NFTFactory { subaccounts: Registry::new(), master_pk }
    }

    /// A factory with the allocated `names`, in that order, and the
    /// administrative key `master_pk`; `None` where a name stands twice.
    pub fn restore(names: Vec<String>, master_pk: Vec<u8>) -> (r: Option<NFTFactory>)
        ensures
            names@.map_values(|s: String| s@).no_duplicates() <==> r is Some,
            r matches Some(f) ==> f.wf() && f.names() == names@.map_values(|s: String| s@)
                && f.admin_key() == master_pk@,
    {
        match Registry::from_names(names) {
            Some(subaccounts) => Some(NFTFactory { subaccounts, master_pk }),
            None => None,
        }
    }

    /// The allocated names, in order of allocation.
    pub fn subaccount_names(&self) -> (r: Vec<String>)
        ensures
            r@.map_values(|s: String| s@) == self.names(),
    {
        self.subaccounts.names()
    }

    /// The administrative key granted to every child.
    pub fn master_pk(&self) -> (r: &Vec<u8>)
        ensures
            r@ == self.admin_key(),
    {
        &self.master_pk
    }

    /// The number of allocated names.
    pub fn subaccount_count(&self) -> (r: usize)
        ensures
            r == self.names().len(),
    {
        self.subaccounts.len()
    }

    /// Validates the call, allocates `subaccount` and composes the child's
    /// instruction sequence.
    fn provision(&mut self, subaccount: String, ctx: &CallContext, init: InitArgs) -> (r: Result<
        ProvisioningPlan,
        FactoryError,
    >)
        requires
            old(self).wf(),
        ensures
            provisioned(*old(self), *final(self), subaccount@, *ctx, init, r),
    {
        if ctx.attached_deposit < MIN_ATTACHED_BALANCE {
            return Err(FactoryError::InsufficientPayment);
        }
        if self.subaccounts.contains(&subaccount) {
            return Err(FactoryError::NameAlreadyAllocated);
        }
        let account_id = child_account_id(subaccount.as_str(), ctx.current_account_id.as_str());
        if !is_valid_account_name(account_id.as_str()) {
            return Err(FactoryError::NameFormatInvalid);
        }
        let method_name = init.method_name();
        let args = init.to_json();
        match self.subaccounts.insert(subaccount) {
            Ok(()) => {},
            Err(RegistryError::NameAlreadyAllocated) => {
                return Err(FactoryError::NameAlreadyAllocated);
            },
        }
        Ok(
            ProvisioningPlan {
                account_id,
                full_access_key: self.master_pk.clone(),
                transfer: ctx.attached_deposit,
                method_name,
                args,
                function_call_deposit: NO_DEPOSIT,
                gas: MAX_GAS,
            },
        )
    }

    /// Provisions the child `subaccount` with the default initialization,
    /// whose owner is the caller.
    pub fn create_default(&mut self, subaccount: String, ctx: &CallContext) -> (r: Result<
        ProvisioningPlan,
        FactoryError,
    >)
        requires
            old(self).wf(),
        ensures
            provisioned(
                *old(self),
                *final(self),
                subaccount@,
                *ctx,
                InitArgs::DefaultInit { owner_id: ctx.predecessor_account_id },
                r,
            ),
    {
        let init = InitArgs::DefaultInit { owner_id: ctx.predecessor_account_id.clone() };
        self.provision(subaccount, ctx, init)
    }

    /// Provisions the child `subaccount` with the full initialization: the
    /// caller as owner, the contract and token metadata (JSON texts), the
    /// minting price and the optional royalty table.
    pub fn create(
        &mut self,
        subaccount: String,
        metadata: String,
        token_metadata: String,
        minting_price: u128,
        perpetual_royalties: Option<Vec<(String, u32)>>,
        ctx: &CallContext,
    ) -> (r: Result<ProvisioningPlan, FactoryError>)
        requires
            old(self).wf(),
        ensures
            provisioned(
                *old(self),
                *final(self),
                subaccount@,
                *ctx,
                InitArgs::CustomInit {
                    owner_id: ctx.predecessor_account_id,
                    metadata,
                    token_metadata,
                    minting_price,
                    perpetual_royalties,
                },
                r,
            ),
    {
        let init = InitArgs::CustomInit {
            owner_id: ctx.predecessor_account_id.clone(),
            metadata,
            token_metadata,
            minting_price,
            perpetual_royalties,
        };
        self.provision(subaccount, ctx, init)
    }

    /// Whether `subaccount` has been allocated. This reads the registry
    /// alone: the result depends on the factory's state and the name only.
    pub fn is_subaccount_exist(&self, subaccount: String) -> (r: bool)
        ensures
            r == self.names().contains(subaccount@),
    {
        self.subaccounts.contains(&subaccount)
    }
}

} // verus!
