//! The capability bridge: what a call from a sandboxed plugin asks of the
//! hardware, and what the plugin is told when the hardware has answered.
//!
//! The bridge decides and the host acts. A call first becomes a
//! `HardwareRequest`, or fails on a bad handle; the host carries the request
//! out on the GPIO driver or the clock; `reply` then turns the driver's outcome
//! into what the plugin sees.

use vstd::prelude::*;
use crate::capability::{
    Capability, CapabilityHandle, CapabilityTable, Delay, HandleFault, InputPin, OutputPin,
};

verus! {

/// The level of a digital line.
#[derive(Clone, Copy, Debug, PartialEq, Eq, Structural)]
pub enum PinState {
    Low,
    High,
}

/// The transition that a wait is for.
#[derive(Clone, Copy, Debug, PartialEq, Eq, Structural)]
pub enum Edge {
    Rising,
    Falling,
    Any,
}

/// The failure that a plugin sees. Nothing more of a driver's failure crosses
/// the sandbox boundary.
#[derive(Clone, Copy, Debug, PartialEq, Eq, Structural)]
pub enum ErrorCode {
    /// The hardware failed.
    Other,
    /// The operation is not implemented.
    Unsupported,
}

/// The driver failed; the reason stays with the host.
#[derive(Clone, Copy, Debug, PartialEq, Eq, Structural)]
pub struct HardwareFault;

/// What the host is asked to do on the hardware.
#[derive(Clone, Copy, Debug, PartialEq, Eq, Structural)]
pub enum HardwareRequest {
    /// Tell whether the input line is low now.
    IsLow { line: u32 },
    /// Tell whether the input line is high now.
    IsHigh { line: u32 },
    /// Subscribe to the edge for this one call, and block until one matching
    /// transition is seen or the subscription fails.
    AwaitEdge { line: u32, edge: Edge },
    /// Drive the output line to the level.
    Drive { line: u32, level: PinState },
    /// Block for the time, as well as the clock allows.
    Sleep { nanoseconds: u64 },
}

/// The line that is leased as output for every plugin run.
pub const OUTPUT_LINE: u32 = 17;

/// What the plugin is told once the driver has answered: the driver's value,
/// or the one error code that stands for every hardware failure.
pub open spec fn reply_of<T>(outcome: Result<T, HardwareFault>) -> Result<T, ErrorCode> {
    match outcome {
        Ok(value) => Ok(value),
        Err(_) => Err(ErrorCode::Other),
    }
}

/// Turns the driver's outcome into what the plugin sees.
pub fn reply<T>(outcome: Result<T, HardwareFault>) -> (r: Result<T, ErrorCode>)
    ensures
        r == reply_of(outcome),
{
    match outcome {
        Ok(value) => Ok(value),
        Err(_) => Err(ErrorCode::Other),
    }
}

/// The host's side of one plugin run: the table of the capabilities that the
/// plugin may use.
pub struct HostComponent {
    pub table: CapabilityTable,
}

impl HostComponent {
    /// The line of the input pin that `handle` names, if it names one.
    pub open spec fn input_line(self, handle: CapabilityHandle) -> Option<u32> {
        if self.table@.contains_key(handle) {
            match self.table@[handle] {
                Capability::InputPin(pin) => Some(pin.0),
                _ => None,
            }
        } else {
            None
        }
    }

    /// The line of the output pin that `handle` names, if it names one.
    pub open spec fn output_line(self, handle: CapabilityHandle) -> Option<u32> {
        if self.table@.contains_key(handle) {
            match self.table@[handle] {
                Capability::OutputPin(pin) => Some(pin.0),
                _ => None,
            }
        } else {
            None
        }
    }

    /// Whether `handle` names a delay.
    pub open spec fn names_delay(self, handle: CapabilityHandle) -> bool {
        self.table@.contains_key(handle) && self.table@[handle] is Delay
    }

    /// The request for an operation on an input pin.
    pub open spec fn input_request(
        self,
        handle: CapabilityHandle,
        make: spec_fn(u32) -> HardwareRequest,
    ) -> Result<HardwareRequest, HandleFault> {
        match self.input_line(handle) {
            Some(line) => Ok(make(line)),
            None => Err(HandleFault),
        }
    }

    /// The request for an operation on an output pin.
    pub open spec fn output_request(
        self,
        handle: CapabilityHandle,
        level: PinState,
    ) -> Result<HardwareRequest, HandleFault> {
        match self.output_line(handle) {
            Some(line) => Ok(HardwareRequest::Drive { line, level }),
            None => Err(HandleFault),
        }
    }

    /// A component over `table`.
    pub fn new(table: CapabilityTable) -> (host: HostComponent)
        ensures
            host.table == table,
    {
        HostComponent { table }
    }

    /// The component for one plugin run: a fresh table with the id `run` that
    /// holds the output pin on `OUTPUT_LINE` and a delay. It returns the
    /// component, the handle of the pin and the handle of the delay.
    pub fn for_plugin(run: u64) -> (r: (HostComponent, CapabilityHandle, CapabilityHandle))
        ensures
            r.0.table.id() == run,
            r.1 != r.2,
            r.0.table@ == Map::<CapabilityHandle, Capability>::empty().insert(
                r.1,
                Capability::OutputPin(OutputPin(OUTPUT_LINE)),
            ).insert(r.2, Capability::Delay(Delay)),
            r.0.output_line(r.1) == Some(OUTPUT_LINE),
            r.0.names_delay(r.2),
    {
        let mut table = CapabilityTable::new(run);
        let led = match table.push(Capability::OutputPin(OutputPin(OUTPUT_LINE))) {
            Some(handle) => handle,
            None => vstd::pervasive::unreached(),
        };
        let delay = match table.push(Capability::Delay(Delay)) {
            Some(handle) => handle,
            None => vstd::pervasive::unreached(),
        };
        (HostComponent { table }, led, delay)
    }

    fn input_pin(&self, handle: CapabilityHandle) -> (r: Result<u32, HandleFault>)
        ensures
            match r {
                Ok(line) => self.input_line(handle) == Some(line),
                Err(_) => self.input_line(handle) is None,
            },
    {
        match self.table.get(handle) {
            Ok(Capability::InputPin(pin)) => Ok(pin.0),
            _ => Err(HandleFault),
        }
    }

    fn output_pin(&self, handle: CapabilityHandle) -> (r: Result<u32, HandleFault>)
        ensures
            match r {
                Ok(line) => self.output_line(handle) == Some(line),
                Err(_) => self.output_line(handle) is None,
            },
    {
        match self.table.get(handle) {
            Ok(Capability::OutputPin(pin)) => Ok(pin.0),
            _ => Err(HandleFault),
        }
    }

    /// A plugin asks whether its input pin is low.
    pub fn is_low(&self, handle: CapabilityHandle) -> (r: Result<HardwareRequest, HandleFault>)
        ensures
            r == self.input_request(handle, |line: u32| HardwareRequest::IsLow { line }),
    {
        match self.input_pin(handle) {
            Ok(line) => Ok(HardwareRequest::IsLow { line }),
            Err(fault) => Err(fault),
        }
    }

    /// A plugin asks whether its input pin is high.
    pub fn is_high(&self, handle: CapabilityHandle) -> (r: Result<HardwareRequest, HandleFault>)
        ensures
            r == self.input_request(handle, |line: u32| HardwareRequest::IsHigh { line }),
    {
        match self.input_pin(handle) {
            Ok(line) => Ok(HardwareRequest::IsHigh { line }),
            Err(fault) => Err(fault),
        }
    }

    /// A plugin waits for its input pin to be high. Waiting for a level is not
    /// implemented: the call fails at once with `Unsupported`, whatever the
    /// handle.
    pub fn wait_for_high(&self, handle: CapabilityHandle) -> (r: Result<(), ErrorCode>)
        ensures
            r == Err::<(), ErrorCode>(ErrorCode::Unsupported),
    {
        Err(ErrorCode::Unsupported)
    }

    /// A plugin waits for its input pin to be low. Waiting for a level is not
    /// implemented: the call fails at once with `Unsupported`, whatever the
    /// handle.
    pub fn wait_for_low(&self, handle: CapabilityHandle) -> (r: Result<(), ErrorCode>)
        ensures
            r == Err::<(), ErrorCode>(ErrorCode::Unsupported),
    {
        Err(ErrorCode::Unsupported)
    }

    /// A plugin waits for a rising edge on its input pin.
    pub fn wait_for_rising_edge(&self, handle: CapabilityHandle) -> (r: Result<
        HardwareRequest,
        HandleFault,
    >)
        ensures
            r == self.input_request(
                handle,
                |line: u32| HardwareRequest::AwaitEdge { line, edge: Edge::Rising },
            ),
    {
        match self.input_pin(handle) {
            Ok(line) => Ok(HardwareRequest::AwaitEdge { line, edge: Edge::Rising }),
            Err(fault) => Err(fault),
        }
    }

    /// A plugin waits for a falling edge on its input pin.
    pub fn wait_for_falling_edge(&self, handle: CapabilityHandle) -> (r: Result<
        HardwareRequest,
        HandleFault,
    >)
        ensures
            r == self.input_request(
                handle,
                |line: u32| HardwareRequest::AwaitEdge { line, edge: Edge::Falling },
            ),
    {
        match self.input_pin(handle) {
            Ok(line) => Ok(HardwareRequest::AwaitEdge { line, edge: Edge::Falling }),
            Err(fault) => Err(fault),
        }
    }

    /// A plugin waits for any edge on its input pin.
    pub fn wait_for_any_edge(&self, handle: CapabilityHandle) -> (r: Result<
        HardwareRequest,
        HandleFault,
    >)
        ensures
            r == self.input_request(
                handle,
                |line: u32| HardwareRequest::AwaitEdge { line, edge: Edge::Any },
            ),
    {
        match self.input_pin(handle) {
            Ok(line) => Ok(HardwareRequest::AwaitEdge { line, edge: Edge::Any }),
            Err(fault) => Err(fault),
        }
    }

    /// A plugin sets its output pin low.
    pub fn set_low(&self, handle: CapabilityHandle) -> (r: Result<HardwareRequest, HandleFault>)
        ensures
            r == self.output_request(handle, PinState::Low),
    {
        self.set_state(handle, PinState::Low)
    }

    /// A plugin sets its output pin high.
    pub fn set_high(&self, handle: CapabilityHandle) -> (r: Result<HardwareRequest, HandleFault>)
        ensures
            r == self.output_request(handle, PinState::High),
    {
        self.set_state(handle, PinState::High)
    }

    /// A plugin sets its output pin to `state`.
    pub fn set_state(&self, handle: CapabilityHandle, state: PinState) -> (r: Result<
        HardwareRequest,
        HandleFault,
    >)
        ensures
            r == self.output_request(handle, state),
    {
        match self.output_pin(handle) {
            Ok(line) => Ok(HardwareRequest::Drive { line, level: state }),
            Err(fault) => Err(fault),
        }
    }

    /// A plugin asks whether its output pin is set high. Reading an output pin
    /// back is not implemented: the call fails at once with `Unsupported`.
    pub fn is_set_high(&self, handle: CapabilityHandle) -> (r: Result<bool, ErrorCode>)
        ensures
            r == Err::<bool, ErrorCode>(ErrorCode::Unsupported),
    {
        Err(ErrorCode::Unsupported)
    }

    /// A plugin asks whether its output pin is set low. Reading an output pin
    /// back is not implemented: the call fails at once with `Unsupported`.
    pub fn is_set_low(&self, handle: CapabilityHandle) -> (r: Result<bool, ErrorCode>)
        ensures
            r == Err::<bool, ErrorCode>(ErrorCode::Unsupported),
    {
        Err(ErrorCode::Unsupported)
    }

    /// A plugin toggles its output pin. Toggling is not implemented: the call
    /// fails at once with `Unsupported`.
    pub fn toggle(&self, handle: CapabilityHandle) -> (r: Result<(), ErrorCode>)
        ensures
            r == Err::<(), ErrorCode>(ErrorCode::Unsupported),
    {
        Err(ErrorCode::Unsupported)
    }

    /// A plugin asks for a pause of `ns` nanoseconds.
    pub fn delay_ns(&self, handle: CapabilityHandle, ns: u32) -> (r: Result<
        HardwareRequest,
        HandleFault,
    >)
        ensures
            r == if self.names_delay(handle) {
                Ok::<HardwareRequest, HandleFault>(HardwareRequest::Sleep { nanoseconds: ns as u64 })
            } else {
                Err::<HardwareRequest, HandleFault>(HandleFault)
            },
    {
        match self.table.get(handle) {
            Ok(Capability::Delay(_)) => Ok(HardwareRequest::Sleep { nanoseconds: ns as u64 }),
            _ => Err(HandleFault),
        }
    }

    /// A plugin drops a handle: its capability leaves the table, and the handle
    /// is invalid from then on. It fails if and only if the table holds nothing
    /// under the handle.
    pub fn drop(&mut self, handle: CapabilityHandle) -> (r: Result<(), HandleFault>)
        ensures
            final(self).table.id() == old(self).table.id(),
            final(self).table.issued() == old(self).table.issued(),
            r is Ok <==> old(self).table@.contains_key(handle),
            final(self).table@ == old(self).table@.remove(handle),
            !final(self).table@.contains_key(handle),
            forall|h: CapabilityHandle| old(self).table.retired(h) ==> final(self).table.retired(h),
    {
        match self.table.delete(handle) {
            Ok(_) => Ok(()),
            Err(fault) => {
                assert(self.table@ =~= old(self).table@.remove(handle));
                Err(fault)
            },
        }
    }
}

} // verus!
