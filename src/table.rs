//! The ASCII control characters, and space, as bytes and as chars.
use vstd::prelude::*;

verus! {

/// Null char
pub const NUL: u8 = 0x0;
/// Null char, as a char
pub const NUL_AS_CHAR: char = '\u{0}';

/// Start of Heading
pub const SOH: u8 = 0x1;
/// Start of Heading, as a char
pub const SOH_AS_CHAR: char = '\u{1}';

/// Start of Text
pub const STX: u8 = 0x2;
/// Start of Text, as a char
pub const STX_AS_CHAR: char = '\u{2}';

/// End of Text
pub const ETX: u8 = 0x3;
/// End of Text, as a char
pub const ETX_AS_CHAR: char = '\u{3}';

/// End of Transmission
pub const EOT: u8 = 0x4;
/// End of Transmission, as a char
pub const EOT_AS_CHAR: char = '\u{4}';

/// Enquiry
pub const ENQ: u8 = 0x5;
/// Enquiry, as a char
pub const ENQ_AS_CHAR: char = '\u{5}';

/// Acknowledgment
pub const ACK: u8 = 0x6;
/// Acknowledgment, as a char
pub const ACK_AS_CHAR: char = '\u{6}';

/// Bell
pub const BEL: u8 = 0x7;
/// Bell, as a char
pub const BEL_AS_CHAR: char = '\u{7}';

/// Back Space
pub const BS: u8 = 0x8;
/// Back Space, as a char
pub const BS_AS_CHAR: char = '\u{8}';

/// Horizontal Tab
pub const HT: u8 = 0x9;
/// Horizontal Tab, as a char
pub const HT_AS_CHAR: char = '\u{9}';

/// Line Feed
pub const LF: u8 = 0xA;
/// Line Feed, as a char
pub const LF_AS_CHAR: char = '\u{A}';

/// Vertical Tab
pub const VT: u8 = 0xB;
/// Vertical Tab, as a char
pub const VT_AS_CHAR: char = '\u{B}';

/// Form Feed
pub const FF: u8 = 0xC;
/// Form Feed, as a char
pub const FF_AS_CHAR: char = '\u{C}';

/// Carriage Return
pub const CR: u8 = 0xD;
/// Carriage Return, as a char
pub const CR_AS_CHAR: char = '\u{D}';

/// Shift Out / X-On
pub const SO: u8 = 0xE;
/// Shift Out / X-On, as a char
pub const SO_AS_CHAR: char = '\u{E}';

/// Shift In / X-Off
pub const SI: u8 = 0xF;
/// Shift In / X-Off, as a char
pub const SI_AS_CHAR: char = '\u{F}';

/// Data Line Escape
pub const DLE: u8 = 0x10;
/// Data Line Escape, as a char
pub const DLE_AS_CHAR: char = '\u{10}';

/// Device Control 1 (oft. XON)
pub const DC1: u8 = 0x11;
/// Device Control 1 (oft. XON), as a char
pub const DC1_AS_CHAR: char = '\u{11}';

/// Device Control 2
pub const DC2: u8 = 0x12;
/// Device Control 2, as a char
pub const DC2_AS_CHAR: char = '\u{12}';

/// Device Control 3 (oft. XOFF)
pub const DC3: u8 = 0x13;
/// Device Control 3 (oft. XOFF), as a char
pub const DC3_AS_CHAR: char = '\u{13}';

/// Device Control 4
pub const DC4: u8 = 0x14;
/// Device Control 4, as a char
pub const DC4_AS_CHAR: char = '\u{14}';

/// Negative Acknowledgement
pub const NAK: u8 = 0x15;
/// Negative Acknowledgement, as a char
pub const NAK_AS_CHAR: char = '\u{15}';

/// Synchronous Idle
pub const SYN: u8 = 0x16;
/// Synchronous Idle, as a char
pub const SYN_AS_CHAR: char = '\u{16}';

/// End of Transmit Block
pub const ETB: u8 = 0x17;
/// End of Transmit Block, as a char
pub const ETB_AS_CHAR: char = '\u{17}';

/// Cancel
pub const CAN: u8 = 0x18;
/// Cancel, as a char
pub const CAN_AS_CHAR: char = '\u{18}';

/// End of Medium
pub const EM: u8 = 0x19;
/// End of Medium, as a char
pub const EM_AS_CHAR: char = '\u{19}';

/// Substitute
pub const SUB: u8 = 0x1A;
/// Substitute, as a char
pub const SUB_AS_CHAR: char = '\u{1A}';

/// Escape
pub const ESC: u8 = 0x1B;
/// Escape, as a char
pub const ESC_AS_CHAR: char = '\u{1B}';

/// File Separator
pub const FS: u8 = 0x1C;
/// File Separator, as a char
pub const FS_AS_CHAR: char = '\u{1C}';

/// Group Separator
pub const GS: u8 = 0x1D;
/// Group Separator, as a char
pub const GS_AS_CHAR: char = '\u{1D}';

/// Record Separator
pub const RS: u8 = 0x1E;
/// Record Separator, as a char
pub const RS_AS_CHAR: char = '\u{1E}';

/// Unit Separator
pub const US: u8 = 0x1F;
/// Unit Separator, as a char
pub const US_AS_CHAR: char = '\u{1F}';

/// Delete
pub const DELETE: u8 = 0x7F;
/// Delete, as a char
pub const DELETE_AS_CHAR: char = '\u{7F}';

/// Space
pub const SPACE: u8 = 0x20;
/// Space, as a char
pub const SPACE_AS_CHAR: char = '\u{20}';

} // verus!
