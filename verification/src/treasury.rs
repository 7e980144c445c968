//! The account that collects creation fees, derived from the pallet's
//! identifier.

use crate::types::AccountId;
use vstd::prelude::*;

verus! {

/// The account of the pallet named `pallet_id`: the little-endian number
/// whose low four bytes spell `modl` and whose high four bytes are the first
/// four bytes of the identifier.
pub open spec fn pallet_account(pallet_id: Seq<u8>) -> AccountId {
    (0x6c64_6f6d + pallet_id[0] * 0x1_0000_0000 + pallet_id[1] * 0x100_0000_0000 + pallet_id[2]
        * 0x1_0000_0000_0000 + pallet_id[3] * 0x100_0000_0000_0000) as u64
}

/// Calls `sp_runtime::traits::AccountIdConversion::into_account_truncating`
/// on a `frame_support::PalletId`. Believed, not proved: the conversion
/// encodes the tag `modl` followed by the identifier and reads an account
/// from the front of those bytes, which for a 64-bit account is their first
/// eight, little-endian.
#[verifier::external_body]
pub(crate) fn into_account(pallet_id: &[u8; 8]) -> (account: AccountId)
    ensures
        account == pallet_account(pallet_id@),
{
    sp_runtime::traits::AccountIdConversion::<u64>::into_account_truncating(
        &frame_support::PalletId(*pallet_id),
    )
}

} // verus!
