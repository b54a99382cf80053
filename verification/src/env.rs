//! What a contract call sees of its environment, what it asks the host to do,
//! and the host facts the contracts rely on (storage price, account ID syntax).
use vstd::prelude::*;

verus! {

/// Environment of one contract call, as read by the host before the call.
pub struct CallContext {
    /// Account that called the method.
    pub predecessor: String,
    /// Account that signed the transaction.
    pub signer: String,
    /// Account of the contract itself.
    pub current_account: String,
    /// Block timestamp, in milliseconds.
    pub block_timestamp_ms: u64,
    /// Attached deposit, in yoctoNEAR.
    pub attached_deposit: u128,
    /// Gas attached to the call, in gas units.
    pub prepaid_gas: u64,
}

/// A transfer of `amount` to `receiver`, in NEAR (`ft_id == None`) or in the
/// fungible token `ft_id` (via its `ft_transfer` method).
pub struct Transfer {
    pub receiver: String,
    pub amount: u128,
    pub ft_id: Option<String>,
}

/// Price of one byte of contract storage, in yoctoNEAR.
pub open spec fn spec_storage_byte_cost() -> int {
    10_000_000_000_000_000_000
}

/// `near_sdk::env::storage_byte_cost`, which returns the fixed mainnet price
/// of one byte of storage (10^19 yoctoNEAR).
#[verifier::external_body]
pub fn storage_byte_cost() -> (cost: u128)
    ensures
        cost == spec_storage_byte_cost(),
{
    near_sdk::env::storage_byte_cost().as_yoctonear()
}

/// Cost of `bytes` bytes of storage.
pub fn storage_cost(bytes: u64) -> (cost: u128)
    ensures
        cost == bytes * spec_storage_byte_cost(),
{
    let price = storage_byte_cost();
    assert(bytes as int * spec_storage_byte_cost() <= u128::MAX) by (nonlinear_arith)
        requires
            bytes <= u64::MAX,
    ;
    price * (bytes as u128)
}

/// Storage deposit for the bytes used between two readings of storage usage.
pub fn calculate_required_storage_deposit(initial_storage_usage: u64, final_storage_usage: u64) -> (r: u128)
    requires
        initial_storage_usage <= final_storage_usage,
    ensures
        r == (final_storage_usage - initial_storage_usage) * spec_storage_byte_cost(),
{
    storage_cost(final_storage_usage - initial_storage_usage)
}

/// The byte is a lowercase letter, a digit, or one of the separators `-`, `_`, `.`.
pub open spec fn is_account_id_byte(c: u8) -> bool {
    (97 <= c <= 122) || (48 <= c <= 57) || is_account_id_separator(c)
}

pub open spec fn is_account_id_separator(c: u8) -> bool {
    c == 45 || c == 95 || c == 46
}

/// NEAR account ID syntax: 2 to 64 bytes matching
/// `^(([a-z\d]+[-_])*[a-z\d]+\.)*([a-z\d]+[-_])*[a-z\d]+$`.
pub open spec fn spec_valid_account_id(s: Seq<u8>) -> bool {
    &&& 2 <= s.len() <= 64
    &&& forall|i: int| 0 <= i < s.len() ==> is_account_id_byte(#[trigger] s[i])
    &&& !is_account_id_separator(s[0])
    &&& !is_account_id_separator(s[s.len() - 1])
    &&& forall|i: int|
        0 <= i < s.len() - 1 ==> !(is_account_id_separator(#[trigger] s[i])
            && is_account_id_separator(s[i + 1]))
}

/// `near_sdk::env::is_valid_account_id`: true exactly for byte strings of 2 to
/// 64 bytes made of lowercase letters, digits and the separators `-`, `_`, `.`,
/// which neither start nor end with a separator nor hold two in a row.
#[verifier::external_body]
pub fn is_valid_account_id(account_id: &[u8]) -> (valid: bool)
    ensures
        valid == spec_valid_account_id(account_id@),
{
    near_sdk::env::is_valid_account_id(account_id)
}

/// Outcome of settling storage after a call: the caller pays for storage the
/// call used out of the attached deposit, and is refunded what it freed.
pub enum StorageError {
    /// The attached deposit does not cover the storage used.
    InsufficientDeposit { required: u128 },
}

/// Amount to return to the caller after a call that took storage usage from
/// `initial_usage` to `final_usage` bytes, or the deposit that was required.
pub open spec fn spec_refund_deposit(attached: u128, initial_usage: u64, final_usage: u64) -> Result<
    int,
    int,
> {
    if final_usage > initial_usage {
        let required = (final_usage - initial_usage) * spec_storage_byte_cost();
        if required <= attached {
            Ok(attached - required)
        } else {
            Err(required)
        }
    } else {
        Ok(attached + (initial_usage - final_usage) * spec_storage_byte_cost())
    }
}

/// Computes the refund owed after a call (see `spec_refund_deposit`).
pub fn refund_deposit(attached: u128, initial_usage: u64, final_usage: u64) -> (r: Result<
    u128,
    StorageError,
>)
    requires
        final_usage <= initial_usage ==> attached + (initial_usage - final_usage)
            * spec_storage_byte_cost() <= u128::MAX,
    ensures
        match (r, spec_refund_deposit(attached, initial_usage, final_usage)) {
            (Ok(a), Ok(b)) => a == b,
            (Err(StorageError::InsufficientDeposit { required }), Err(b)) => required == b,
            _ => false,
        },
{
    if final_usage > initial_usage {
        let required = calculate_required_storage_deposit(initial_usage, final_usage);
        if required <= attached {
            Ok(attached - required)
        } else {
            Err(StorageError::InsufficientDeposit { required })
        }
    } else {
        let freed = storage_cost(initial_usage - final_usage);
        Ok(attached + freed)
    }
}

/// The transfer that returns `refund` to `caller` after storage is settled:
/// a refund of one yoctoNEAR or less is not sent.
pub fn refund_transfer(refund: u128, caller: &String) -> (t: Option<Transfer>)
    ensures
        t == if refund > 1 { Some(Transfer { receiver: *caller, amount: refund, ft_id: None }) } else { None::<Transfer> },
{
    if refund > 1 {
        Some(Transfer { receiver: caller.clone(), amount: refund, ft_id: None })
    } else {
        None
    }
}

} // verus!
