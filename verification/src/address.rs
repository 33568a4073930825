//! Account and contract addresses.

use vstd::prelude::*;

use crate::table::TableKey;

verus! {

/// Length of an address in its text form.
pub const STRKEY_LEN: usize = 56;

/// The address of an account or a contract, in its canonical text form (`G...` or `C...`).
///
/// The text form is one to one with the address, so two addresses are the same exactly if their
/// texts are.
#[derive(Clone, Copy, Debug, PartialEq, Eq)]
pub struct Address {
    /// The characters of the text form, all of them ASCII.
    pub strkey: [u8; STRKEY_LEN],
}

impl TableKey for Address {
    fn same(&self, other: &Self) -> (r: bool) {
        let mut i: usize = 0;
        while i < STRKEY_LEN
            invariant
                i <= STRKEY_LEN,
                forall|j: int| 0 <= j < i ==> self.strkey[j] == other.strkey[j],
            decreases STRKEY_LEN - i,
        {
            if self.strkey[i] != other.strkey[i] {
                return false;
            }
            i += 1;
        }
        assert(self.strkey =~= other.strkey);
        true
    }
}

} // verus!
