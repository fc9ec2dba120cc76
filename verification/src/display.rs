//! Port guard and display model: a handle that stands for "this execution
//! context holds write permission to one fixed I/O port", together with the
//! write path that submits display bytes through it.
//!
//! The model records every submitted write as a (port, byte) pair, which is
//! exactly the observable effect of the real write path: a single-byte,
//! fire-and-forget store to one port and nothing else. The unverified shell
//! mirrors this with the real OS permission request and the raw `out`
//! instruction; the OS permission is granted per thread, so the shell's
//! handle is deliberately neither `Send` nor `Sync`.

use vstd::prelude::*;

use crate::encode::hex_lookalike;
use crate::encode::to_hex_lookalike;
use crate::errors::Error;
use crate::io_delay::IO_DELAY_TYPE_0X80;

verus! {

/// The fixed port of the two-digit POST-code display.
pub const PORT_0X80: u16 = 0x80;

/// The observable effect of one submitted write: the (port, byte) pair is
/// appended to the write history, and nothing else changes.
pub open spec fn write_effect(port: u16, writes: Seq<(u16, u8)>, value: u8) -> Seq<(u16, u8)> {
    writes.push((port, value))
}

/// A guard over write permission for one I/O port, tracking every byte it
/// has submitted.
///
/// Construction is gated on the kernel's io_delay setting: when the kernel
/// reserves the port for itself, acquisition is refused, by design and with
/// no fallback. The guard carries no ownership of the physical device, only
/// of the permission; keeping guards over the same port on several threads
/// apart remains the caller's responsibility.
pub struct Display {
    port: u16,
    writes: Vec<(u16, u8)>,
}

impl Display {
    /// The port this guard was constructed for.
    pub closed spec fn port_spec(&self) -> u16 {
        self.port
    }

    /// Every write submitted through this guard so far, oldest first.
    pub closed spec fn writes_spec(&self) -> Seq<(u16, u8)> {
        self.writes@
    }

    /// Well-formedness: every submitted write targets the guard's own port.
    pub open spec fn wf(&self) -> bool {
        forall|i: int|
            0 <= i < self.writes_spec().len() ==> (#[trigger] self.writes_spec()[i]).0
                == self.port_spec()
    }

    /// Acquires the guard for `port`, refusing when the kernel's io_delay
    /// setting says the kernel itself uses the port. Succeeds exactly when
    /// the setting is not the reserved sentinel, and then returns a guard
    /// for `port` with an empty write history.
    pub fn new(port: u16, io_delay_type: u8) -> (result: Result<Display, Error>)
        ensures
            io_delay_type == IO_DELAY_TYPE_0X80 ==> result == Err::<Display, Error>(
                Error::PortConflictError,
            ),
            io_delay_type != IO_DELAY_TYPE_0X80 ==> (result matches Ok(guard)
                && guard.port_spec() == port && guard.writes_spec() =~= Seq::<(u16, u8)>::empty()
                && guard.wf()),
    {
        if io_delay_type == IO_DELAY_TYPE_0X80 {
            return Err(Error::PortConflictError);
        }
        Ok(Display { port, writes: Vec::new() })
    }

    /// Submits `value` to the guard's port as a raw hexadecimal display
    /// byte. The sole effect is one write of `value` to that port; no other
    /// port or state is touched, and there is no failure mode at this layer.
    pub fn hexadecimal(&mut self, value: u8)
        ensures
            final(self).port_spec() == old(self).port_spec(),
            final(self).writes_spec() == write_effect(
                old(self).port_spec(),
                old(self).writes_spec(),
                value,
            ),
            old(self).wf() ==> final(self).wf(),
    {
        let port = self.port;
        self.writes.push((port, value));
    }

    /// Displays a two-digit decimal value: encodes it as its hex-lookalike
    /// byte and submits that byte to the guard's port.
    pub fn decimal(&mut self, value: u8)
        requires
            value <= 99,
        ensures
            final(self).port_spec() == old(self).port_spec(),
            final(self).writes_spec() == write_effect(
                old(self).port_spec(),
                old(self).writes_spec(),
                hex_lookalike(value),
            ),
            old(self).wf() ==> final(self).wf(),
    {
        let byte = to_hex_lookalike(value);
        self.hexadecimal(byte);
    }

    /// The port this guard writes to.
    pub fn port(&self) -> (port: u16)
        ensures
            port == self.port_spec(),
    {
        self.port
    }

    /// The full write history of this guard, oldest first.
    pub fn submitted(&self) -> (writes: &Vec<(u16, u8)>)
        ensures
            writes@ == self.writes_spec(),
    {
        &self.writes
    }
}

/// Law: acquisition followed by any number of writes alters no machine
/// state besides the target port — every write a well-formed guard has ever
/// submitted went to the guard's own port.
pub proof fn lemma_writes_only_target_port(guard: &Display)
    requires
        guard.wf(),
    ensures
        forall|i: int|
            0 <= i < guard.writes_spec().len() ==> (#[trigger] guard.writes_spec()[i]).0
                == guard.port_spec(),
{
}

/// Law: submitting the same display byte twice produces the same observable
/// write each time — two identical (port, byte) pairs, whatever history the
/// guard already has.
pub proof fn lemma_repeat_write_identical(port: u16, writes: Seq<(u16, u8)>, value: u8)
    ensures
        ({
            let once = write_effect(port, writes, value);
            let twice = write_effect(port, once, value);
            &&& twice.len() == writes.len() + 2
            &&& twice[twice.len() - 1] == twice[twice.len() - 2]
            &&& twice[twice.len() - 1] == (port, value)
        }),
{
}

} // verus!
