//! Host-side orchestration of a GPU least-significant-digit radix sort for
//! 32-bit key / 32-bit value pairs.
//!
//! The sort runs in four passes of eight bits each.  Every pass consists of a
//! histogram phase, an exclusive prefix scan over the histogram bins, and a
//! scatter phase that ping-pongs the keyvals between two buffer families, so
//! that after the four passes the sorted data is back in the `a` family.
//!
//! The host side — derived workgroup counts, the shader specialization
//! prelude, the sorter-state wire format and the recorded dispatch sequence —
//! is verified.  The GPU API itself is reached through a small set of trusted
//! wrappers in [`gpu`].

pub mod config;
pub mod decimal;
pub mod gpu;
pub mod probe;
pub mod shader;
pub mod sorter;
pub mod state;

pub use config::HISTO_BLOCK_KVS;
pub use config::{histo_blocks_ru, keys_buffer_size, scatter_blocks_ru};
pub use shader::valid_subgroup_width;
pub use sorter::{GPUSorter, SortBuffers};
pub use state::SorterState;
