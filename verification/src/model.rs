//! The mathematical model of a cursor: three marks and the defined bytes.

use vstd::prelude::*;

verus! {

/// What a cursor is to a caller: the number of filled bytes, the defined
/// bytes in order, and the capacity of the region.
pub struct ReadBufView {
    pub filled: nat,
    pub initialized: Seq<u8>,
    pub capacity: nat,
}

impl ReadBufView {
    /// The order of the three marks.
    pub open spec fn inv(self) -> bool {
        self.filled <= self.initialized.len() <= self.capacity
    }

    /// The bytes that are not filled yet, defined or not.
    pub open spec fn remaining(self) -> nat {
        (self.capacity - self.filled) as nat
    }

    /// The content of the cursor.
    pub open spec fn filled_bytes(self) -> Seq<u8> {
        self.initialized.take(self.filled as int)
    }

    /// The first `n` bytes behind the filled mark.
    pub open spec fn unfilled(self, n: nat) -> Seq<u8> {
        self.initialized.subrange(self.filled as int, (self.filled + n) as int)
    }

    /// Whether the filled mark may be moved to `n`: only over bytes that are
    /// initialized.
    pub open spec fn can_set_filled(self, n: nat) -> bool {
        n <= self.initialized.len()
    }

    /// Whether the filled mark may be moved forward by `n`.
    pub open spec fn can_add_filled(self, n: nat) -> bool {
        self.can_set_filled(self.filled + n)
    }

    /// Whether `n` bytes behind the filled mark may be asked for: only as
    /// many as remain.
    pub open spec fn can_initialize_unfilled_to(self, n: nat) -> bool {
        n <= self.remaining()
    }

    /// Whether `bytes` may be appended: only as many as remain.
    pub open spec fn can_append(self, bytes: Seq<u8>) -> bool {
        bytes.len() <= self.remaining()
    }

    /// The filled mark moved to `n`.
    pub open spec fn set_filled(self, n: nat) -> Self {
        ReadBufView { filled: n, ..self }
    }

    /// The filled mark moved forward by `n`.
    pub open spec fn add_filled(self, n: nat) -> Self {
        self.set_filled(self.filled + n)
    }

    /// The filled mark moved back to the start.
    pub open spec fn clear(self) -> Self {
        self.set_filled(0)
    }

    /// How many bytes have to be written to make the `n` bytes behind the
    /// filled mark defined.
    pub open spec fn zero_fill(self, n: nat) -> nat {
        if self.filled + n > self.initialized.len() {
            (self.filled + n - self.initialized.len()) as nat
        } else {
            0
        }
    }

    /// The `n` bytes behind the filled mark made defined: those that were
    /// not become zero, the others stay.
    pub open spec fn initialize_unfilled_to(self, n: nat) -> Self {
        ReadBufView {
            initialized: self.initialized + Seq::new(self.zero_fill(n), |i: int| 0u8),
            ..self
        }
    }

    /// The whole unfilled part made defined.
    pub open spec fn initialize_unfilled(self) -> Self {
        self.initialize_unfilled_to(self.remaining())
    }

    /// `bytes` written behind the filled mark and counted as content.
    pub open spec fn append(self, bytes: Seq<u8>) -> Self {
        let end = self.filled + bytes.len();
        ReadBufView {
            filled: end,
            initialized: self.filled_bytes() + bytes + self.initialized.skip(
                if end <= self.initialized.len() {
                    end as int
                } else {
                    self.initialized.len() as int
                },
            ),
            capacity: self.capacity,
        }
    }

    /// The content replaced by `bytes`.
    pub open spec fn write_filled(self, bytes: Seq<u8>) -> Self {
        ReadBufView { initialized: bytes + self.initialized.skip(self.filled as int), ..self }
    }

    /// The defined bytes replaced by `bytes`.
    pub open spec fn write_initialized(self, bytes: Seq<u8>) -> Self {
        ReadBufView { initialized: bytes, ..self }
    }

    /// The first bytes behind the filled mark replaced by `bytes`.
    pub open spec fn write_unfilled(self, bytes: Seq<u8>) -> Self {
        ReadBufView {
            initialized: self.filled_bytes() + bytes + self.initialized.skip(
                (self.filled + bytes.len()) as int,
            ),
            ..self
        }
    }
}

} // verus!
