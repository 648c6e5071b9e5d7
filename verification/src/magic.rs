//! The magic-byte signature table, exposed as named constants so that other
//! components can perform ad hoc prefix checks without duplicating the
//! values.

use vstd::prelude::*;

verus! {

/// The gzip signature.
pub const GZIP: [u8; 2] = [0x1f, 0x8b];

/// The zlib signature with the "no compression / low" header flags.
pub const ZLIB0: [u8; 2] = [0x78, 0x01];

/// The zlib signature with the default header flags.
pub const ZLIB1: [u8; 2] = [0x78, 0x9c];

/// The zlib signature with the "best compression" header flags.
pub const ZLIB2: [u8; 2] = [0x78, 0xda];

/// The zstd frame signature.
pub const ZSTD: [u8; 4] = [0x28, 0xb5, 0x2f, 0xfd];

} // verus!
