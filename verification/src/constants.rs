//! Character constants shared by the command parser and the TELNET layer.

use vstd::prelude::*;

verus! {

/// Marks an underscore typed outside quotes in a sendlist; it matches a
/// space or an underscore in a name.
pub const UNQUOTED_UNDERSCORE: char = '\u{1f}';

/// Separates the entries of a sendlist typed with commas.
pub const SEPARATOR: char = '\u{1e}';

} // verus!
