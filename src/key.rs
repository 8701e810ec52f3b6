//! Account addresses as plain bytes.
use vstd::prelude::*;

verus! {

/// Length of an account address in bytes.
pub const KEY_LEN: usize = 32;

/// An account address: 32 bytes.
#[derive(Clone, Copy, Debug)]
pub struct Key {
    pub bytes: [u8; 32],
}

impl View for Key {
    type V = Seq<u8>;

    open spec fn view(&self) -> Seq<u8> {
        self.bytes@
    }
}

impl Key {
    pub fn new(bytes: [u8; 32]) -> (k: Key)
        ensures
            k@ == bytes@,
    {
        Key { bytes }
    }

    /// Whether two addresses hold the same bytes.
    pub fn same_as(&self, other: &Key) -> (r: bool)
        ensures
            r == (self@ == other@),
    {
        let mut i: usize = 0;
        while i < KEY_LEN
            invariant
                i <= KEY_LEN,
                self@.len() == KEY_LEN,
                other@.len() == KEY_LEN,
                forall|j: int| 0 <= j < i ==> self@[j] == other@[j],
            decreases KEY_LEN - i,
        {
            if self.bytes[i] != other.bytes[i] {
                return false;
            }
            i = i + 1;
        }
        assert(self@ =~= other@);
        true
    }
}

/// Address of the Folio reward-accrual program,
/// `n6sR7Eg5LMg5SGorxK9q3ZePHs9e8gjoQ7TgUW2YCaG`.
pub open spec fn folio_program_id() -> Seq<u8> {
    seq![
        11u8, 141, 197, 212, 130, 58, 80, 111, 99, 87, 77, 227, 191, 93, 205, 137,
        154, 51, 97, 43, 169, 214, 202, 31, 42, 201, 103, 35, 122, 203, 7, 93,
    ]
}

/// Address of the Rewards reward-accrual program,
/// `7GiMvNDHVY8PXWQLHjSf1REGKpiDsVzRr4p7Y3xGbSuf`.
pub open spec fn rewards_program_id() -> Seq<u8> {
    seq![
        93u8, 44, 153, 178, 79, 116, 208, 116, 136, 6, 252, 101, 214, 143, 69, 170,
        91, 213, 212, 118, 219, 48, 135, 140, 174, 158, 117, 123, 96, 78, 9, 18,
    ]
}

pub fn folio_program_key() -> (k: Key)
    ensures
        k@ == folio_program_id(),
{
    let k = Key {
        bytes: [
            11, 141, 197, 212, 130, 58, 80, 111, 99, 87, 77, 227, 191, 93, 205, 137,
            154, 51, 97, 43, 169, 214, 202, 31, 42, 201, 103, 35, 122, 203, 7, 93,
        ],
    };
    assert(k@ =~= folio_program_id());
    k
}

pub fn rewards_program_key() -> (k: Key)
    ensures
        k@ == rewards_program_id(),
{
    let k = Key {
        bytes: [
            93, 44, 153, 178, 79, 116, 208, 116, 136, 6, 252, 101, 214, 143, 69, 170,
            91, 213, 212, 118, 219, 48, 135, 140, 174, 158, 117, 123, 96, 78, 9, 18,
        ],
    };
    assert(k@ =~= rewards_program_id());
    k
}

} // verus!
