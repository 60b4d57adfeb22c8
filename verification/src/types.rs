use crate::traits::PassByValue;
use vstd::prelude::*;

verus! {

/// A 16-byte identifier, passed by value. It holds no pointer and need not
/// be freed.
#[derive(Clone, Copy, Debug, PartialEq, Eq)]
pub struct TCUuid {
    /// The bytes of the identifier.
    pub bytes: [u8; 16],
}

impl PassByValue for TCUuid {
    type RustType = [u8; 16];

    open spec fn valid(&self) -> bool {
        true
    }

    open spec fn stands_for(&self, value: &[u8; 16]) -> bool {
        *value == self.bytes
    }

    fn from_ctype(self) -> (r: [u8; 16]) {
        self.bytes
    }

    fn as_ctype(arg: [u8; 16]) -> (r: Self) {
        TCUuid { bytes: arg }
    }
}

} // verus!
