use vstd::prelude::*;

verus! {

/// Start-of-frame marker: the first byte of every monitor frame on the wire.
pub const SOF: u8 = 0xFE;

/// Largest number of payload bytes a standard frame may carry.
pub const FMT_DATA_SIZE: u8 = 250;

/// Terminator byte that ends every link-layer control frame.
pub const ACK_TERMINATOR: u8 = 0x7E;

} // verus!
