//! What to send to the chain: the liquidation of the winning opportunity,
//! and the token approvals that liquidations need beforehand.
//!
//! Nothing here talks to the chain. The plans name the contract, the call
//! and its arguments; the caller turns them into transactions.

use crate::address::{zero_address, Address};
use crate::deployment::DeploymentConfig;
use crate::opportunity::{LiquidationOpportunity, OpportunityModel};
use crate::u256::{u256_max, U256};
use vstd::prelude::*;

verus! {

/// The pool fee tier, in hundredths of a basis point, of the swap that the
/// liquidator contract makes.
pub const HELPER_POOL_FEE: u32 = 500;

/// Why no transaction can be built.
#[derive(Clone, Copy, Debug, PartialEq, Eq, Structural)]
pub enum ExecutionError {
    /// The helper mode needs the call-data encoder, and the network has
    /// none.
    EncoderNotDeployed,
}

/// The arguments of a liquidation of the pool.
#[derive(Clone, Copy, Debug, PartialEq, Eq)]
pub struct LiquidationCall {
    pub collateral: Address,
    pub debt: Address,
    pub user: Address,
    pub debt_to_cover: U256,
    /// Whether the liquidator takes the interest-bearing token instead of
    /// the underlying asset; the agent never does.
    pub receive_a_token: bool,
}

/// A liquidation through the liquidator contract.
#[derive(Clone, Copy, Debug, PartialEq, Eq)]
pub struct HelperCall {
    /// The contract that encodes the arguments of the liquidation into two
    /// words; it is asked first.
    pub encoder: Address,
    /// The liquidator contract, which then receives the two words.
    pub liquidator: Address,
    pub call: LiquidationCall,
    pub pool_fee: u32,
}

/// One unsigned transaction.
#[derive(Clone, Copy, Debug, PartialEq, Eq)]
pub enum ExecutionPlan {
    /// A liquidation called on the pool itself.
    Pool { pool: Address, call: LiquidationCall, chain_id: u64 },
    /// A liquidation through the liquidator contract.
    Helper { helper: HelperCall, chain_id: u64 },
}

/// The arguments that liquidate an opportunity.
pub open spec fn call_of(op: OpportunityModel, debt_to_cover: U256) -> LiquidationCall {
    LiquidationCall {
        collateral: op.collateral,
        debt: op.debt,
        user: op.borrower,
        debt_to_cover,
        receive_a_token: false,
    }
}

/// The liquidation of an opportunity through the liquidator contract,
/// where the network has an encoder.
pub open spec fn helper_call_model(
    op: OpportunityModel,
    debt_to_cover: U256,
    config: DeploymentConfig,
    liquidator: Address,
) -> Result<HelperCall, ExecutionError> {
    if config.l2_encoder == zero_address() {
        Err(ExecutionError::EncoderNotDeployed)
    } else {
        Ok(
            HelperCall {
                encoder: config.l2_encoder,
                liquidator,
                call: call_of(op, debt_to_cover),
                pool_fee: HELPER_POOL_FEE,
            },
        )
    }
}

/// The transaction for an opportunity: in the direct mode a call of the
/// pool, otherwise a call of the liquidator contract; each stamped with the
/// chain's identifier.
pub open spec fn plan_model(
    op: OpportunityModel,
    debt_to_cover: U256,
    config: DeploymentConfig,
    liquidator: Address,
    use_aave_liquidator: bool,
    chain_id: u64,
) -> Result<ExecutionPlan, ExecutionError> {
    if use_aave_liquidator {
        Ok(
            ExecutionPlan::Pool {
                pool: config.pool_address,
                call: call_of(op, debt_to_cover),
                chain_id,
            },
        )
    } else {
        match helper_call_model(op, debt_to_cover, config, liquidator) {
            Ok(helper) => Ok(ExecutionPlan::Helper { helper, chain_id }),
            Err(e) => Err(e),
        }
    }
}

fn liquidation_call(op: &LiquidationOpportunity) -> (r: LiquidationCall)
    ensures
        r == call_of(op@, op.debt_to_cover),
{
    LiquidationCall {
        collateral: op.collateral,
        debt: op.debt,
        user: op.borrower,
        debt_to_cover: op.debt_to_cover,
        receive_a_token: false,
    }
}

/// The liquidation of an opportunity through the liquidator contract.
pub fn build_liquidation_call(
    op: &LiquidationOpportunity,
    config: &DeploymentConfig,
    liquidator: &Address,
) -> (r: Result<HelperCall, ExecutionError>)
    ensures
        r == helper_call_model(op@, op.debt_to_cover, *config, *liquidator),
{
    if config.l2_encoder.is_zero() {
        return Err(ExecutionError::EncoderNotDeployed);
    }
    Ok(
        HelperCall {
            encoder: config.l2_encoder,
            liquidator: *liquidator,
            call: liquidation_call(op),
            pool_fee: HELPER_POOL_FEE,
        },
    )
}

/// The transaction that executes an opportunity.
pub fn build_liquidation(
    op: &LiquidationOpportunity,
    config: &DeploymentConfig,
    liquidator: &Address,
    use_aave_liquidator: bool,
    chain_id: u64,
) -> (r: Result<ExecutionPlan, ExecutionError>)
    ensures
        r == plan_model(op@, op.debt_to_cover, *config, *liquidator, use_aave_liquidator, chain_id),
{
    if use_aave_liquidator {
        Ok(
            ExecutionPlan::Pool {
                pool: config.pool_address,
                call: liquidation_call(op),
                chain_id,
            },
        )
    } else {
        match build_liquidation_call(op, config, liquidator) {
            Ok(helper) => Ok(ExecutionPlan::Helper { helper, chain_id }),
            Err(e) => Err(e),
        }
    }
}

/// An approval that lets the pool move a token.
#[derive(Clone, Copy, Debug, PartialEq, Eq)]
pub enum ApprovalCall {
    /// `approve(spender, amount)` on the token, sent by the agent's own
    /// account.
    Token { token: Address, spender: Address, amount: U256, nonce: U256 },
    /// `approvePool(token)` on the liquidator contract.
    Liquidator { liquidator: Address, token: Address, nonce: U256 },
}

/// Whose allowance to the pool a liquidation draws on: the agent's own
/// account in the direct mode, the liquidator contract otherwise.
pub open spec fn allowance_owner_model(
    use_aave_liquidator: bool,
    sender: Address,
    liquidator: Address,
) -> Address {
    if use_aave_liquidator {
        sender
    } else {
        liquidator
    }
}

/// Whose allowance to the pool to check.
pub fn allowance_owner(use_aave_liquidator: bool, sender: &Address, liquidator: &Address) -> (r:
    Address)
    ensures
        r == allowance_owner_model(use_aave_liquidator, *sender, *liquidator),
{
    if use_aave_liquidator {
        *sender
    } else {
        *liquidator
    }
}

/// The nonces of a run of approvals: each approval that was submitted moves
/// the counter on by one, so that no two approvals of a cycle share a
/// nonce.
#[derive(Clone, Copy, Debug, PartialEq, Eq)]
pub struct ApprovalNonce {
    next: U256,
}

impl ApprovalNonce {
    /// The nonce that the next approval takes.
    pub closed spec fn view(&self) -> nat {
        self.next@
    }

    /// A counter that starts at the account's transaction count.
    pub fn new(transaction_count: U256) -> (r: ApprovalNonce)
        ensures
            r@ == transaction_count@,
    {
        ApprovalNonce { next: transaction_count }
    }

    /// The nonce that the next approval takes.
    pub fn current(&self) -> (r: U256)
        ensures
            r@ == self@,
    {
        self.next
    }

    /// The approval to send for a token, given the allowance that was read
    /// for it: none where the allowance is not zero; otherwise an unlimited
    /// approval of the pool in the direct mode, and the liquidator
    /// contract's own approval of the pool in the helper mode. The approval
    /// carries the counter's nonce.
    pub fn request(
        &self,
        token: &Address,
        allowance: &U256,
        use_aave_liquidator: bool,
        pool: &Address,
        liquidator: &Address,
    ) -> (r: Option<ApprovalCall>)
        ensures
            r is None <==> allowance@ != 0,
            r is Some && use_aave_liquidator ==> (r matches Some(
                ApprovalCall::Token { token: t, spender, amount, nonce },
            ) && t == *token && spender == *pool && amount@ == u256_max() && nonce@ == self@),
            r is Some && !use_aave_liquidator ==> (r matches Some(
                ApprovalCall::Liquidator { liquidator: l, token: t, nonce },
            ) && l == *liquidator && t == *token && nonce@ == self@),
    {
        if !allowance.is_zero() {
            None
        } else if use_aave_liquidator {
            Some(
                ApprovalCall::Token {
                    token: *token,
                    spender: *pool,
                    amount: U256::max_value(),
                    nonce: self.next,
                },
            )
        } else {
            Some(
                ApprovalCall::Liquidator {
                    liquidator: *liquidator,
                    token: *token,
                    nonce: self.next,
                },
            )
        }
    }

    /// Records that an approval was submitted. Says `false`, and changes
    /// nothing, where the counter cannot move on.
    pub fn submitted(&mut self) -> (moved: bool)
        ensures
            moved == (old(self)@ < u256_max()),
            moved ==> final(self)@ == old(self)@ + 1,
            !moved ==> final(self)@ == old(self)@,
    {
        match self.next.checked_add(&U256::one()) {
            Some(n) => {
                self.next = n;
                true
            },
            None => false,
        }
    }
}

} // verus!
