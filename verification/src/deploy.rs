//! How the pool's share token is deployed when the pool is created.

use crate::curve::Balance;
use crate::identity::{AccountId, CodeHash};
use vstd::prelude::*;
use vstd::string::StringExecFns;

verus! {

/// The version of the share token's deployment; its bytes tell one deployment of the
/// same code from another.
pub const LP_VERSION: u32 = 1;

/// The part of its native balance that a new pool endows its share token with.
pub open spec fn endowment_of(total_balance: Balance) -> Balance {
    total_balance / 4
}

/// Everything that deploying the share token takes.
#[derive(Debug)]
pub struct LpDeployment {
    /// The token's name.
    pub name: String,
    /// The token's symbol.
    pub symbol: String,
    /// The supply that exists from the start.
    pub initial_supply: Balance,
    /// The account that the token answers to.
    pub owner: AccountId,
    /// The native balance handed to the new service.
    pub endowment: Balance,
    /// The code that the service runs.
    pub code_hash: CodeHash,
    /// The bytes that tell this deployment from others of the same code.
    pub salt: [u8; 4],
}

impl LpDeployment {
    /// The deployment of the share token of a pool whose account is `account` and
    /// holds `total_balance` of the native currency: a token named "Pool Token",
    /// with the symbol "LP" and no supply, owned by the pool, endowed with a quarter
    /// of the pool's balance, salted with the version in little-endian order.
    pub fn plan(account: AccountId, total_balance: Balance, lp_code_hash: CodeHash) -> (plan:
        LpDeployment)
        ensures
            plan.name@ == "Pool Token"@,
            plan.symbol@ == "LP"@,
            plan.initial_supply == 0,
            plan.owner == account,
            plan.endowment == endowment_of(total_balance),
            plan.code_hash == lp_code_hash,
            plan.salt@ == le_bytes_of(LP_VERSION),
            plan.salt@ == seq![1u8, 0u8, 0u8, 0u8],
    {
        proof {
            lemma_salt_bytes();
        }
        LpDeployment {
            name: String::from_str("Pool Token"),
            symbol: String::from_str("LP"),
            initial_supply: 0,
            owner: account,
            endowment: total_balance / 4,
            code_hash: lp_code_hash,
            salt: le_bytes(LP_VERSION),
        }
    }
}

/// The four bytes of `x`, the least significant first.
pub open spec fn le_bytes_of(x: u32) -> Seq<u8> {
    seq![
        (x & 0xff) as u8,
        ((x >> 8) & 0xff) as u8,
        ((x >> 16) & 0xff) as u8,
        ((x >> 24) & 0xff) as u8,
    ]
}

/// The four bytes of `x`, the least significant first.
pub fn le_bytes(x: u32) -> (bytes: [u8; 4])
    ensures
        bytes@ == le_bytes_of(x),
{
    assert(x & 0xff <= 0xff && (x >> 8) & 0xff <= 0xff && (x >> 16) & 0xff <= 0xff && (x >> 24)
        & 0xff <= 0xff) by (bit_vector);
    let bytes = [
        (x & 0xff) as u8,
        ((x >> 8) & 0xff) as u8,
        ((x >> 16) & 0xff) as u8,
        ((x >> 24) & 0xff) as u8,
    ];
    assert(bytes@ =~= le_bytes_of(x));
    bytes
}

/// The salt of the share token's deployment is the four bytes 1, 0, 0, 0.
pub proof fn lemma_salt_bytes()
    ensures
        le_bytes_of(LP_VERSION) == seq![1u8, 0u8, 0u8, 0u8],
{
    assert(1u32 & 0xff == 1 && (1u32 >> 8) & 0xff == 0 && (1u32 >> 16) & 0xff == 0 && (1u32 >> 24)
        & 0xff == 0) by (bit_vector);
    assert(le_bytes_of(LP_VERSION) =~= seq![1u8, 0u8, 0u8, 0u8]);
}

} // verus!
