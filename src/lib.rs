//! A bump (arena) allocator for a single-core bare-metal target, with its
//! cursor arithmetic, both state layouts and their laws proved.
//!
//! - `bump`: the shared cursor arithmetic and the laws of a run of requests.
//! - `cursor`: the arena window and the allocator that keeps its cursor in
//!   itself.
//! - `header`: the allocator whose counter is a word at the arena's base.
//! - `growth`: where a growing vector lands in the header arena.
//! - `sample` and `debug`: the values and register settings of the boot
//!   sample.

pub mod bump;
pub mod cursor;
pub mod debug;
pub mod growth;
pub mod header;
pub mod layout;
pub mod sample;

pub use bump::{align_offset, bump};
pub use cursor::{Arena, CursorAlloc};
pub use debug::{set_first_bit, setup_debug, FSEL_ALT4, GPFSEL2_FIRST_PIN, JTAG_FIELDS_ALT4, JTAG_FIELDS_MASK};
pub use growth::{
    alloc_test_f64, alloc_test_u32, vec_growth, GrowthReport, Relocation, DEMO_PUSHES,
    FIRST_CAPACITY,
};
pub use header::{memory_header_word, Raspi3Alloc, FILLED_WORDS, HEADER_SIZE, ZEROED_WORDS};
pub use layout::{on_oom, Layout, OutOfMemory};
pub use sample::{marked_values, sum_low_halves, LOW_HALF, VALUE_MARKER};
