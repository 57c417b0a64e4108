//! UART interrupt-to-blocking bridge.
//!
//! The external driver delivers receive/transmit notifications from its
//! interrupt or workqueue context; the application wants plain blocking
//! `read`/`write` calls. The bridge sits between the two: the interrupt
//! side offers each notification, copied into a [`UartEvent`], to a
//! bounded FIFO queue through [`UartDevice::push_event`] (never
//! blocking); the blocking side consumes the queue through
//! [`UartDevice::read_poll`] (or event by event through
//! [`UartDevice::on_event`]) until the terminal `RxBufferReleased` event
//! yields the byte count.
//!
//! Arming the receive, cancelling it and transmitting are driver calls
//! that belong to the host runtime; the bridge tells the caller what to
//! do ([`ReadAction`]) and interprets the status codes the driver
//! reports ([`UartDevice::write_outcome`], [`crate::errors::check_error`]).

use vstd::prelude::*;

use crate::errors::check_error;
use crate::errors::DeviceError;
use crate::queue::EventQueue;
use crate::queue::QUEUE_CAPACITY;

verus! {

/// Inactivity timeout, in driver time units, passed to the driver when a
/// receive is armed.
pub const RX_INACTIVITY_TIMEOUT: u32 = 10000;

/// A driver notification, copied by value out of the interrupt context;
/// never shared across the context boundary.
#[derive(Clone, Copy, Debug, PartialEq, Eq, Structural)]
pub enum UartEvent {
    /// `len` received bytes are available in the receive buffer starting
    /// at `offset`.
    RxReady { offset: u32, len: u32 },
    /// Terminal signal: the driver no longer owns the receive buffer and
    /// the blocking reader may return.
    RxBufferReleased,
    /// The blocking transmit completed.
    TxDone,
    /// Any other driver notification, carried by its numeric kind; the
    /// bridge ignores it.
    Other(u32),
}

/// What the blocking reader must do after the bridge consumed one event.
#[derive(Clone, Copy, Debug, PartialEq, Eq, Structural)]
pub enum ReadAction {
    /// Keep waiting for further events.
    Continue,
    /// Ask the driver to disable/cancel the receive (idempotent; a failed
    /// disable is non-fatal), then keep waiting.
    DisableReceive,
    /// The receive finished; return this byte count to the caller.
    Finished(u64),
}

/// Outcome of draining the queued events once.
#[derive(Clone, Copy, Debug, PartialEq, Eq, Structural)]
pub enum ReadPoll {
    /// The terminal event arrived; the read returns this byte count.
    Complete(u64),
    /// The queue ran dry with no terminal event; the caller must block
    /// until the driver produces more events, then poll again.
    Pending,
}

/// Byte count recorded after observing one event: a receive-ready event
/// records `offset + len`, every other event leaves the count unchanged.
pub open spec fn bytes_after(bytes: u64, evt: UartEvent) -> u64 {
    match evt {
        UartEvent::RxReady { offset, len } => (offset + len) as u64,
        _ => bytes,
    }
}

/// The action the reader takes on one event, with `bytes` recorded so
/// far: cancel the receive once data arrived, finish on the terminal
/// event, ignore everything else.
pub open spec fn action_of(bytes: u64, evt: UartEvent) -> ReadAction {
    match evt {
        UartEvent::RxReady { .. } => ReadAction::DisableReceive,
        UartEvent::RxBufferReleased => ReadAction::Finished(bytes),
        _ => ReadAction::Continue,
    }
}

/// Result of draining `events` with `bytes` already recorded: whether the
/// terminal event was reached, the byte count at that point (or after all
/// events), and the events left after the terminal one.
pub open spec fn poll_spec(bytes: u64, events: Seq<UartEvent>) -> (bool, u64, Seq<UartEvent>)
    decreases events.len(),
{
    if events.len() == 0 {
        (false, bytes, events)
    } else if events[0] is RxBufferReleased {
        (true, bytes, events.drop_first())
    } else {
        poll_spec(bytes_after(bytes, events[0]), events.drop_first())
    }
}

/// One UART bridge instance: the bounded event queue it exclusively owns
/// and the byte count recorded by the read in progress. Created once per
/// physical UART; the queue is never shared with another instance.
pub struct UartDevice {
    queue: EventQueue,
    bytes_received: u64,
}

impl UartDevice {
    /// The queued events, oldest first.
    pub closed spec fn events(&self) -> Seq<UartEvent> {
        self.queue@
    }

    /// Byte count recorded so far by the read in progress.
    pub closed spec fn pending_bytes(&self) -> u64 {
        self.bytes_received
    }

    /// Capacity invariant: the queue never exceeds [`QUEUE_CAPACITY`].
    pub open spec fn wf(&self) -> bool {
        self.events().len() <= QUEUE_CAPACITY
    }

    /// Creates a bridge with an empty queue and no read in progress.
    pub fn new() -> (d: UartDevice)
        ensures
            d.events() == Seq::<UartEvent>::empty(),
            d.pending_bytes() == 0,
    {
        UartDevice { queue: EventQueue::new(), bytes_received: 0 }
    }

    /// Interrupt-context entry: offers one event to the bounded queue
    /// without ever blocking. With room the event is appended in
    /// production order and accepted; on a full queue the offered
    /// (newest) event is dropped, nothing else changes, and the drop is
    /// reported.
    pub fn push_event(&mut self, evt: UartEvent) -> (accepted: bool)
        ensures
            accepted <==> old(self).events().len() < QUEUE_CAPACITY,
            accepted ==> final(self).events() == old(self).events().push(evt),
            !accepted ==> final(self).events() == old(self).events(),
            final(self).pending_bytes() == old(self).pending_bytes(),
            old(self).wf() ==> final(self).wf(),
    {
        self.queue.try_send(evt)
    }

    /// Removes and returns the oldest queued event, or `None` when the
    /// queue is empty; the blocking loop's non-waiting step.
    pub fn next_event(&mut self) -> (r: Option<UartEvent>)
        ensures
            old(self).events().len() == 0 ==> r is None && final(self).events()
                == old(self).events(),
            old(self).events().len() > 0 ==> r == Some(old(self).events()[0])
                && final(self).events() == old(self).events().drop_first(),
            final(self).pending_bytes() == old(self).pending_bytes(),
            old(self).wf() ==> final(self).wf(),
    {
        self.queue.try_recv()
    }

    /// Consumes one driver event per the bridge's state machine:
    /// `RxReady { offset, len }` records `offset + len` bytes received
    /// and asks the caller to cancel the receive; the terminal
    /// `RxBufferReleased` yields the recorded count (0 if no `RxReady`
    /// was ever seen) and resets the bridge for the next read; any other
    /// event is ignored.
    pub fn on_event(&mut self, evt: &UartEvent) -> (a: ReadAction)
        ensures
            a == action_of(old(self).pending_bytes(), *evt),
            final(self).pending_bytes() == if *evt is RxBufferReleased {
                0u64
            } else {
                bytes_after(old(self).pending_bytes(), *evt)
            },
            final(self).events() == old(self).events(),
    {
        match evt {
            UartEvent::RxReady { offset, len } => {
                self.bytes_received = (*offset as u64) + (*len as u64);
                ReadAction::DisableReceive
            },
            UartEvent::RxBufferReleased => {
                let n = self.bytes_received;
                self.bytes_received = 0;
                ReadAction::Finished(n)
            },
            _ => ReadAction::Continue,
        }
    }

    /// Drains queued events through the state machine until the terminal
    /// event is reached (`Complete` with the byte count; events produced
    /// after the terminal one stay queued) or the queue runs dry
    /// (`Pending`, with the count recorded so far kept for the next
    /// poll). Never blocks; the caller decides how to wait between
    /// polls.
    pub fn read_poll(&mut self) -> (r: ReadPoll)
        ensures
            ({
                let (done, bytes, rest) = poll_spec(
                    old(self).pending_bytes(),
                    old(self).events(),
                );
                if done {
                    &&& r == ReadPoll::Complete(bytes)
                    &&& final(self).events() == rest
                    &&& final(self).pending_bytes() == 0
                } else {
                    &&& r == ReadPoll::Pending
                    &&& final(self).events() == Seq::<UartEvent>::empty()
                    &&& final(self).pending_bytes() == bytes
                }
            }),
            old(self).wf() ==> final(self).wf(),
    {
        loop
            invariant
                poll_spec(self.pending_bytes(), self.events()) == poll_spec(
                    old(self).pending_bytes(),
                    old(self).events(),
                ),
                self.events().len() <= old(self).events().len(),
            decreases self.events().len(),
        {
            match self.next_event() {
                None => {
                    return ReadPoll::Pending;
                },
                Some(evt) => {
                    match self.on_event(&evt) {
                        ReadAction::Finished(n) => {
                            return ReadPoll::Complete(n);
                        },
                        _ => {},
                    }
                },
            }
        }
    }

    /// Outcome of a blocking transmit of `buf_len` bytes whose driver
    /// status is `status`: the whole buffer counts as written on success,
    /// a negative status is the typed failure carrying the negated code.
    /// The transmit primitive itself is the host runtime's; only its
    /// report is interpreted here.
    pub fn write_outcome(&self, buf_len: usize, status: i32) -> (r: Result<usize, DeviceError>)
        ensures
            status >= 0 ==> r == Ok::<usize, DeviceError>(buf_len),
            status < 0 ==> (r matches Err(e) && e.code as int == -(status as int)),
    {
        match check_error(status) {
            Ok(()) => Ok(buf_len),
            Err(e) => Err(e),
        }
    }
}

/// Line configuration of the UART, as the driver reports and accepts it.
#[derive(Clone, Copy, Debug, PartialEq, Eq, Structural)]
pub struct UartConfig {
    /// Baud rate in bits per second.
    pub baudrate: u32,
    /// Parity mode, in the driver's encoding.
    pub parity: u8,
    /// Stop-bit count, in the driver's encoding.
    pub stop_bits: u8,
    /// Data-bit count, in the driver's encoding.
    pub data_bits: u8,
    /// Flow-control mode, in the driver's encoding.
    pub flow_ctrl: u8,
}

impl UartConfig {
    /// The same configuration with only the baud rate replaced: the
    /// modify step of the read-modify-write by which the device is
    /// reconfigured (the driver's get/set calls around it belong to the
    /// host runtime).
    pub fn with_baudrate(&self, baudrate: u32) -> (r: UartConfig)
        ensures
            r.baudrate == baudrate,
            r.parity == self.parity,
            r.stop_bits == self.stop_bits,
            r.data_bits == self.data_bits,
            r.flow_ctrl == self.flow_ctrl,
    {
        UartConfig {
            baudrate,
            parity: self.parity,
            stop_bits: self.stop_bits,
            data_bits: self.data_bits,
            flow_ctrl: self.flow_ctrl,
        }
    }
}

} // verus!
