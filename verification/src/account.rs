use vstd::prelude::*;

use crate::pubkey::Pubkey;

verus! {

/// An account of the program: its address and its decoded data.
pub struct Account<T> {
    pub key: Pubkey,
    pub data: T,
}

/// A system transfer of lamports from one account to another, which the
/// runtime carries out.
#[derive(Clone, Copy, Debug)]
pub struct Transfer {
    pub from: Pubkey,
    pub to: Pubkey,
    pub lamports: u64,
}

} // verus!
