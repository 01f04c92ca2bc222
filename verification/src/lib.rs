//! A double cursor over a region of bytes that is filled step by step.
//!
//! A [`ReadBuf`] keeps three marks on a region of fixed capacity: how many
//! bytes hold content (`filled`), how many hold a defined value
//! (`initialized`), and the capacity. Every operation keeps
//! `filled <= initialized <= capacity`, and the second mark never moves
//! back. A byte is made defined when it is first asked for, and only then.
//!
//! - [`model`] is the cursor as mathematics: [`ReadBufView`] and what each
//!   operation makes of it.
//! - [`storage`] is what a cursor asks of the region it works on, the trait
//!   [`Bytes`]. There are three stores: [`HeapBytes`] and [`SliceBytes`] keep
//!   their bytes in a vector of `cl_generic_vec`, on the heap and in a
//!   borrowed slice; [`ArrayBytes`] keeps them in an array of its own.
//! - [`read_buf`] is the cursor, [`guard`] the borrow of a cursor that a
//!   reader is handed, [`ReadBufRef`].
//! - [`read`] is the reading itself: one call of a source and what follows
//!   from its answer, and the run that fills a cursor to its capacity.
//! - [`laws`] states and proves what holds of every cursor.
//!
//! Everything is proved but the calls into `cl_generic_vec` and
//! `std::io::Error`. Each of them stands in a private function of its own in
//! [`heap_store`], [`slice_store`] and [`read`], with what is believed of it.

pub mod array_store;
pub mod guard;
pub mod heap_store;
pub mod laws;
pub mod model;
pub mod read;
pub mod read_buf;
pub mod slice_store;
pub mod storage;

pub use array_store::{ArrayBytes, ReadArray};
pub use guard::ReadBufRef;
pub use heap_store::{HeapBytes, ReadVec};
pub use laws::Op;
pub use model::ReadBufView;
pub use read::{
    default_read_buf, default_read_buf_exact, exact_start, exact_step, finish_read, ErrorClass,
    ExactState,
};
pub use read_buf::ReadBuf;
pub use slice_store::{ReadSlice, SliceBytes};
pub use storage::{Bytes, SpareBytes};
