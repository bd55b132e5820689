//! The block of shared work RAM through which the host-side NMOS bridge
//! and the slides talk.
//!
//! Layout, from the start of the block:
//!
//! | offset | size | content                                              |
//! |--------|------|------------------------------------------------------|
//! | 0x00   | 1    | ready flag, 1 when the labels are valid              |
//! | 0x01   | 32   | sender label, game encoding, 0xFF-terminated         |
//! | 0x21   | 32   | receiver label, game encoding, 0xFF-terminated       |
//! | 0x41   | 1    | command to the host: 0 none, 1 connect               |
//! | 0x42   | 1    | connection status: 0 idle, 1 connecting, 2 connected, 3 failed |

use vstd::prelude::*;

use crate::texts::{text_spec, TextId, STATUS_CONNECTED, STATUS_CONNECTING, STATUS_FAILED, STATUS_IDLE, STATUS_UNKNOWN};

verus! {

/// Size of the bridge block in bytes.
pub const BRIDGE_LEN: usize = 0x43;
/// Offset of the ready flag.
pub const READY_OFFSET: usize = 0x00;
/// Offset of the sender label.
pub const SENDER_OFFSET: usize = 0x01;
/// Offset of the receiver label.
pub const RECEIVER_OFFSET: usize = 0x21;
/// Length of each label field.
pub const LABEL_LEN: usize = 32;
/// Offset of the command byte.
pub const COMMAND_OFFSET: usize = 0x41;
/// Offset of the status byte.
pub const STATUS_OFFSET: usize = 0x42;
/// Value of the ready flag when the labels are valid.
pub const READY_VALUE: u8 = 1;
/// Command asking the host to connect the receiver to the sender.
pub const CMD_CONNECT: u8 = 1;

/// A copy of the bridge block.
pub struct BridgeMemory {
    pub bytes: [u8; 0x43],
}

impl View for BridgeMemory {
    type V = Seq<u8>;

    open spec fn view(&self) -> Seq<u8> {
        self.bytes@
    }
}

/// The bytes of a label field that starts at `start`.
pub open spec fn label_field(mem: Seq<u8>, start: int) -> Seq<u8> {
    mem.subrange(start, start + LABEL_LEN)
}

/// Whether the host has written valid labels.
pub fn nmos_ready(mem: &BridgeMemory) -> (r: bool)
    ensures
        r == (mem@[READY_OFFSET as int] == READY_VALUE),
{
    mem.bytes[READY_OFFSET] == READY_VALUE
}

/// Copies the label field that starts at `start`.
fn read_label(mem: &BridgeMemory, start: usize) -> (r: Vec<u8>)
    requires
        start + LABEL_LEN <= BRIDGE_LEN,
    ensures
        r@ == label_field(mem@, start as int),
{
    let mut out: Vec<u8> = Vec::new();
    let mut i: usize = 0;
    while i < LABEL_LEN
        invariant
            i <= LABEL_LEN,
            start + LABEL_LEN <= BRIDGE_LEN,
            mem@.len() == BRIDGE_LEN,
            out@ == mem@.subrange(start as int, start + i),
        decreases LABEL_LEN - i,
    {
        out.push(mem.bytes[start + i]);
        i = i + 1;
        assert(out@ =~= mem@.subrange(start as int, start + i));
    }
    out
}

/// The sender label field, in the game's encoding.
pub fn nmos_sender_label(mem: &BridgeMemory) -> (r: Vec<u8>)
    ensures
        r@ == label_field(mem@, SENDER_OFFSET as int),
{
    read_label(mem, SENDER_OFFSET)
}

/// The receiver label field, in the game's encoding.
pub fn nmos_receiver_label(mem: &BridgeMemory) -> (r: Vec<u8>)
    ensures
        r@ == label_field(mem@, RECEIVER_OFFSET as int),
{
    read_label(mem, RECEIVER_OFFSET)
}

/// The connection status byte.
pub fn nmos_status(mem: &BridgeMemory) -> (r: u8)
    ensures
        r == mem@[STATUS_OFFSET as int],
{
    mem.bytes[STATUS_OFFSET]
}

/// Asks the host to connect the receiver to the sender: writes the connect
/// command and leaves every other byte as it was.
pub fn nmos_request_connect(mem: &mut BridgeMemory)
    ensures
        final(mem)@ == old(mem)@.update(COMMAND_OFFSET as int, CMD_CONNECT),
{
    mem.bytes[COMMAND_OFFSET] = CMD_CONNECT;
}

/// The name under which a status byte is shown.
pub open spec fn status_label_spec(status: u8) -> TextId {
    if status == 0 {
        TextId::StatusIdle
    } else if status == 1 {
        TextId::StatusConnecting
    } else if status == 2 {
        TextId::StatusConnected
    } else if status == 3 {
        TextId::StatusFailed
    } else {
        TextId::StatusUnknown
    }
}

/// The name under which a status byte is shown.
pub fn status_label(status: u8) -> (r: TextId)
    ensures
        r == status_label_spec(status),
{
    match status {
        0 => TextId::StatusIdle,
        1 => TextId::StatusConnecting,
        2 => TextId::StatusConnected,
        3 => TextId::StatusFailed,
        _ => TextId::StatusUnknown,
    }
}

/// Reading a label after a connect request gives what it gave before: the
/// request touches the command byte alone, and a read of the command byte
/// then finds the connect command.
pub proof fn law_connect_request_frame(before: Seq<u8>, after: Seq<u8>)
    requires
        before.len() == BRIDGE_LEN,
        after == before.update(COMMAND_OFFSET as int, CMD_CONNECT),
    ensures
        after[COMMAND_OFFSET as int] == CMD_CONNECT,
        after[READY_OFFSET as int] == before[READY_OFFSET as int],
        after[STATUS_OFFSET as int] == before[STATUS_OFFSET as int],
        label_field(after, SENDER_OFFSET as int) == label_field(before, SENDER_OFFSET as int),
        label_field(after, RECEIVER_OFFSET as int) == label_field(before, RECEIVER_OFFSET as int),
{
    assert(label_field(after, SENDER_OFFSET as int) =~= label_field(before, SENDER_OFFSET as int));
    assert(label_field(after, RECEIVER_OFFSET as int) =~= label_field(before, RECEIVER_OFFSET as int));
}

/// The five fields of the block do not overlap and together fill it, at
/// the offsets the host writes: ready flag at 0, sender label at 1, receiver
/// label at 0x21 (32 bytes each), command at 0x41, status at 0x42; the
/// ready value and the connect command are both 1.
pub proof fn law_layout_partition()
    ensures
        READY_OFFSET == 0 && SENDER_OFFSET == 1 && RECEIVER_OFFSET == 0x21 && LABEL_LEN == 32,
        COMMAND_OFFSET == 0x41 && STATUS_OFFSET == 0x42 && BRIDGE_LEN == 0x43,
        READY_VALUE == 1 && CMD_CONNECT == 1,
        READY_OFFSET + 1 == SENDER_OFFSET,
        SENDER_OFFSET + LABEL_LEN == RECEIVER_OFFSET,
        RECEIVER_OFFSET + LABEL_LEN == COMMAND_OFFSET,
        COMMAND_OFFSET + 1 == STATUS_OFFSET,
        STATUS_OFFSET + 1 == BRIDGE_LEN,
{
}

/// Every status byte has a name: 0 "Idle", 1 "Connecting...", 2
/// "Connected !", 3 "Failed"; the four are distinct, and every other byte
/// is shown as "Unknown".
pub proof fn law_status_names(a: u8, b: u8)
    ensures
        a <= 3 && b <= 3 && a != b ==> text_spec(status_label_spec(a)) != text_spec(status_label_spec(b)),
        a > 3 ==> text_spec(status_label_spec(a)) == "Unknown"@,
        a <= 3 ==> text_spec(status_label_spec(a)) != "Unknown"@,
        text_spec(status_label_spec(0)) == "Idle"@,
        text_spec(status_label_spec(1)) == "Connecting..."@,
        text_spec(status_label_spec(2)) == "Connected !"@,
        text_spec(status_label_spec(3)) == "Failed"@,
{
    reveal_strlit("Idle");
    reveal_strlit("Connecting...");
    reveal_strlit("Connected !");
    reveal_strlit("Failed");
    reveal_strlit("Unknown");
    assert("Idle"@.len() == 4);
    assert("Connecting..."@.len() == 13);
    assert("Connected !"@.len() == 11);
    assert("Failed"@.len() == 6);
    assert("Unknown"@.len() == 7);
}

} // verus!
