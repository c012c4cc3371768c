//! Properties of the factory that relate its operations to one another.
use vstd::prelude::*;
use crate::factory::{
    provisioned, CallContext, FactoryError, NFTFactory, ProvisioningPlan, MIN_ATTACHED_BALANCE,
};
use crate::init_args::InitArgs;

verus! {

/// After an accepted provisioning call, its name is allocated, so
/// `is_subaccount_exist` answers `true` for it.
pub proof fn lemma_created_name_exists(
    pre: NFTFactory,
    post: NFTFactory,
    name: Seq<char>,
    ctx: CallContext,
    init: InitArgs,
    r: Result<ProvisioningPlan, FactoryError>,
)
    requires
        provisioned(pre, post, name, ctx, init, r),
        r is Ok,
    ensures
        post.names().contains(name),
{
    assert(post.names().last() == name);
}

/// A provisioning call that carries enough payment for a name that is
/// allocated already is refused with `NameAlreadyAllocated`, and the registry
/// is unchanged.
pub proof fn lemma_allocated_name_refused(
    pre: NFTFactory,
    post: NFTFactory,
    name: Seq<char>,
    ctx: CallContext,
    init: InitArgs,
    r: Result<ProvisioningPlan, FactoryError>,
)
    requires
        provisioned(pre, post, name, ctx, init, r),
        pre.names().contains(name),
        ctx.attached_deposit >= MIN_ATTACHED_BALANCE,
    ensures
        r == Err::<ProvisioningPlan, FactoryError>(FactoryError::NameAlreadyAllocated),
        post.names() == pre.names(),
{
}

/// A provisioning call whose payment is below the minimum is refused with
/// `InsufficientPayment`, whatever the name, and the registry is unchanged.
pub proof fn lemma_underpaid_call_refused(
    pre: NFTFactory,
    post: NFTFactory,
    name: Seq<char>,
    ctx: CallContext,
    init: InitArgs,
    r: Result<ProvisioningPlan, FactoryError>,
)
    requires
        provisioned(pre, post, name, ctx, init, r),
        ctx.attached_deposit < MIN_ATTACHED_BALANCE,
    ensures
        r == Err::<ProvisioningPlan, FactoryError>(FactoryError::InsufficientPayment),
        post.names() == pre.names(),
{
}

/// The registry only grows: every name allocated before a provisioning call
/// is still allocated after it, in the same place.
pub proof fn lemma_names_only_grow(
    pre: NFTFactory,
    post: NFTFactory,
    name: Seq<char>,
    ctx: CallContext,
    init: InitArgs,
    r: Result<ProvisioningPlan, FactoryError>,
)
    requires
        provisioned(pre, post, name, ctx, init, r),
    ensures
        pre.names().len() <= post.names().len(),
        forall|i: int| 0 <= i < pre.names().len() ==> post.names()[i] == pre.names()[i],
{
}

} // verus!
