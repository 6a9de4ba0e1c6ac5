//! The ASCII bytes the wire format is built from.
use vstd::prelude::*;

verus! {

/// `$`, the frame-start marker.
pub const DOLLAR: u8 = 36;

/// `*`, the checksum separator.
pub const STAR: u8 = 42;

/// `,`, the field separator.
pub const COMMA: u8 = 44;

/// `+`
pub const PLUS: u8 = 43;

/// `-`
pub const MINUS: u8 = 45;

/// `.`, the decimal point.
pub const DOT: u8 = 46;

/// `0`
pub const D0: u8 = 48;

/// `9`
pub const D9: u8 = 57;

/// `A`
pub const UC_A: u8 = 65;

/// `F`
pub const UC_F: u8 = 70;

/// `a`
pub const LC_A: u8 = 97;

/// `f`
pub const LC_F: u8 = 102;

/// `c`
pub const LC_C: u8 = 99;

/// `m`
pub const LC_M: u8 = 109;

/// `d`
pub const LC_D: u8 = 100;

} // verus!
