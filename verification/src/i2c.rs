//! I2C transaction compiler.
//!
//! [`compile`] turns an ordered list of abstract [`Operation`]s into a
//! wire-correct sequence of hardware [`Message`] descriptors: one message
//! per operation, in the same order, with
//!
//! - the direction bit ([`MSG_READ`]) matching the operation's variant,
//! - a single bus-terminating [`MSG_STOP`] on the final message only, and
//! - [`MSG_RESTART`] exactly where the transfer direction reverses
//!   (a premature stop would release the bus; a missing restart would
//!   corrupt a write-register-address-then-read-value exchange).
//!
//! The bus driver that executes the compiled sequence lives in the host
//! runtime; [`execute_outcome`] maps the status code it reports back to a
//! typed result.

use vstd::prelude::*;

use crate::errors::check_error;
use crate::errors::DeviceError;

verus! {

/// Message flag: the transfer reads from the device into the buffer.
pub const MSG_READ: u32 = 1;

/// Message flag: the bus is released (stop condition) after this message.
pub const MSG_STOP: u32 = 2;

/// Message flag: a start condition is re-asserted, without releasing the
/// bus, before this message.
pub const MSG_RESTART: u32 = 4;

/// Abstract bus operation: read into, or write from, a byte buffer owned
/// by the caller for the duration of the transaction.
#[derive(Debug)]
pub enum Operation {
    /// Read as many bytes from the device as the buffer holds.
    Read(Vec<u8>),
    /// Write the buffer's bytes to the device.
    Write(Vec<u8>),
}

/// Wire-level transfer descriptor: framing flags and transfer length.
/// The bus driver pairs each descriptor with the matching operation's
/// buffer when it executes the transaction.
#[derive(Clone, Copy, Debug, PartialEq, Eq, Structural)]
pub struct Message {
    /// Bitwise or of [`MSG_READ`], [`MSG_STOP`] and [`MSG_RESTART`].
    pub flags: u32,
    /// Number of bytes transferred, the matching buffer's length.
    pub len: u32,
}

/// Whether the operation is a read (its direction bit on the wire).
pub open spec fn op_is_read(op: Operation) -> bool {
    op is Read
}

/// Length of the operation's buffer.
pub open spec fn op_len(op: Operation) -> nat {
    match op {
        Operation::Read(b) => b@.len(),
        Operation::Write(b) => b@.len(),
    }
}

/// Whether operation `i` reverses the transfer direction of operation
/// `i - 1`.
pub open spec fn direction_changes(ops: Seq<Operation>, i: int) -> bool {
    op_is_read(ops[i]) != op_is_read(ops[i - 1])
}

/// The exact flag word of message `i` for the operation sequence `ops`:
/// direction bit from the operation's variant, STOP on the final message,
/// RESTART where the direction reverses.
pub open spec fn msg_flags(ops: Seq<Operation>, i: int) -> u32 {
    (if op_is_read(ops[i]) { MSG_READ } else { 0u32 })
        | (if i == ops.len() - 1 { MSG_STOP } else { 0u32 })
        | (if 0 < i && direction_changes(ops, i) { MSG_RESTART } else { 0u32 })
}

/// `msgs` is the compiled form of `ops`: one message per operation, in
/// order, each with the exact flag word and its operation's buffer length.
pub open spec fn compiled(ops: Seq<Operation>, msgs: Seq<Message>) -> bool {
    &&& msgs.len() == ops.len()
    &&& forall|i: int| 0 <= i < ops.len() ==> (#[trigger] msgs[i]).flags == msg_flags(ops, i)
    &&& forall|i: int| 0 <= i < ops.len() ==> (#[trigger] msgs[i]).len as nat == op_len(ops[i])
}

/// Compiles an ordered operation list into the message sequence the bus
/// driver executes. Pure and total: an empty list yields an empty list.
pub fn compile(ops: &Vec<Operation>) -> (msgs: Vec<Message>)
    requires
        forall|i: int| 0 <= i < ops@.len() ==> op_len(#[trigger] ops@[i]) <= u32::MAX,
    ensures
        compiled(ops@, msgs@),
{
    let n = ops.len();
    let mut msgs: Vec<Message> = Vec::new();
    let mut prev_read: Option<bool> = None;
    let mut i: usize = 0;
    while i < n
        invariant
            n == ops@.len(),
            i <= n,
            msgs@.len() == i,
            forall|j: int| 0 <= j < i ==> (#[trigger] msgs@[j]).flags == msg_flags(ops@, j),
            forall|j: int| 0 <= j < i ==> (#[trigger] msgs@[j]).len as nat == op_len(ops@[j]),
            i == 0 ==> prev_read is None,
            i > 0 ==> prev_read == Some(op_is_read(ops@[i - 1])),
            forall|j: int| 0 <= j < ops@.len() ==> op_len(#[trigger] ops@[j]) <= u32::MAX,
        decreases n - i,
    {
        let op = &ops[i];
        let is_read = matches!(op, Operation::Read(_));
        let restart = match prev_read {
            Some(last_read) => is_read != last_read,
            None => false,
        };
        let f_read: u32 = if is_read { MSG_READ } else { 0 };
        let f_stop: u32 = if i == n - 1 { MSG_STOP } else { 0 };
        let f_restart: u32 = if restart { MSG_RESTART } else { 0 };
        let len_bytes: usize = match op {
            Operation::Read(b) => b.len(),
            Operation::Write(b) => b.len(),
        };
        msgs.push(Message { flags: f_read | f_stop | f_restart, len: len_bytes as u32 });
        prev_read = Some(is_read);
        i = i + 1;
    }
    msgs
}

/// Maps the status code the bus driver reported for a compiled
/// transaction: zero or positive is success, a negative code is a typed
/// failure carrying the negated code. The bus transfer itself is the host
/// runtime's; only its report is interpreted here.
pub fn execute_outcome(status: i32) -> (r: Result<(), DeviceError>)
    ensures
        r is Ok <==> status >= 0,
        status < 0 ==> (r matches Err(e) && e.code as int == -(status as int)),
{
    check_error(status)
}

/// A flag word assembled from the three framing bits answers each bit
/// test by the component it was assembled from.
proof fn lemma_flag_bits(a: u32, b: u32, c: u32)
    by (bit_vector)
    requires
        a == 0 || a == 1,
        b == 0 || b == 2,
        c == 0 || c == 4,
    ensures
        ((a | b | c) & 1u32 != 0) <==> a == 1,
        ((a | b | c) & 2u32 != 0) <==> b == 2,
        ((a | b | c) & 4u32 != 0) <==> c == 4,
{
}

/// For any non-empty compiled transaction, the STOP flag is set on the
/// final message and on no other: the bus is released exactly once, at
/// the end of the transaction.
pub proof fn lemma_stop_on_final_only(ops: Seq<Operation>, msgs: Seq<Message>)
    requires
        compiled(ops, msgs),
        ops.len() > 0,
    ensures
        msgs[msgs.len() - 1].flags & MSG_STOP != 0,
        forall|i: int| 0 <= i < msgs.len() - 1 ==> #[trigger] msgs[i].flags & MSG_STOP == 0,
{
    assert forall|i: int| 0 <= i < msgs.len() implies
        ((#[trigger] msgs[i].flags & MSG_STOP != 0) <==> i == msgs.len() - 1) by {
        let a = if op_is_read(ops[i]) { MSG_READ } else { 0u32 };
        let b = if i == ops.len() - 1 { MSG_STOP } else { 0u32 };
        let c = if 0 < i && direction_changes(ops, i) { MSG_RESTART } else { 0u32 };
        lemma_flag_bits(a, b, c);
    }
}

/// RESTART is never set on the first message, and is set on message `i`
/// (for `i > 0`) exactly when operations `i - 1` and `i` differ in
/// direction.
pub proof fn lemma_restart_iff_direction_change(ops: Seq<Operation>, msgs: Seq<Message>)
    requires
        compiled(ops, msgs),
    ensures
        msgs.len() > 0 ==> msgs[0].flags & MSG_RESTART == 0,
        forall|i: int| 1 <= i < msgs.len() ==>
            ((#[trigger] msgs[i].flags & MSG_RESTART != 0) <==> direction_changes(ops, i)),
{
    assert forall|i: int| 0 <= i < msgs.len() implies
        ((#[trigger] msgs[i].flags & MSG_RESTART != 0) <==> (0 < i && direction_changes(ops, i)))
        by {
        let a = if op_is_read(ops[i]) { MSG_READ } else { 0u32 };
        let b = if i == ops.len() - 1 { MSG_STOP } else { 0u32 };
        let c = if 0 < i && direction_changes(ops, i) { MSG_RESTART } else { 0u32 };
        lemma_flag_bits(a, b, c);
    }
}

/// Each message's direction bit matches its operation's variant.
pub proof fn lemma_direction_bit(ops: Seq<Operation>, msgs: Seq<Message>)
    requires
        compiled(ops, msgs),
    ensures
        forall|i: int| 0 <= i < msgs.len() ==>
            ((#[trigger] msgs[i].flags & MSG_READ != 0) <==> op_is_read(ops[i])),
{
    assert forall|i: int| 0 <= i < msgs.len() implies
        ((#[trigger] msgs[i].flags & MSG_READ != 0) <==> op_is_read(ops[i])) by {
        let a = if op_is_read(ops[i]) { MSG_READ } else { 0u32 };
        let b = if i == ops.len() - 1 { MSG_STOP } else { 0u32 };
        let c = if 0 < i && direction_changes(ops, i) { MSG_RESTART } else { 0u32 };
        lemma_flag_bits(a, b, c);
    }
}

} // verus!
