//! Strategies for converting a foreign, reference-counted string handle into
//! an owned native string without leaking the foreign runtime's memory.
//!
//! The foreign runtime is modelled by [`StringHandle`] (an opaque handle over
//! a UTF-8 byte buffer) and [`AutoreleaseLedger`] (the runtime's bookkeeping
//! of temporaries awaiting a deferred release). Three conversion strategies
//! are compared: a leaking baseline, a scoped-pool strategy, and an
//! owned-buffer strategy that sizes, fills, and decodes a transient buffer.

mod convert;
mod handle;
mod pool;

pub use convert::convert_with_autoreleasepool;
pub use convert::convert_with_vec;
pub use convert::decode_filled_buffer;
pub use convert::leak;
pub use convert::lemma_buffer_round_trip;
pub use convert::lemma_conversion_idempotent;
pub use convert::no_leak_autoreleasepool;
pub use convert::no_leak_vec;
pub use convert::try_convert_with_vec;
pub use handle::NSUTF8_STRING_ENCODING;
pub use handle::StringHandle;
pub use pool::AutoreleaseLedger;
pub use pool::AutoreleasePool;
