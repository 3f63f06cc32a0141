use vstd::prelude::*;

verus! {

/// A framing or decode invariant that the engine found violated.
#[derive(Clone, Copy, Debug, PartialEq, Eq, Structural)]
pub enum ProtocolFault {
    /// A received packet is shorter than its four-byte header.
    ShortPacket,
    /// An outgoing body does not fit into the send buffer with its header.
    PacketTooLong,
}

/// The failures that the driver reports to its caller.
#[derive(Clone, Copy, Debug, PartialEq, Eq, Structural)]
pub enum ImuError {
    /// The bus itself failed (the device handle has to be reopened).
    Bus,
    /// The transport layer reported a malformed or failed exchange.
    Comm,
    /// No frame arrived within the caller's budget.
    Timeout,
    /// The device announced that it restarted.
    SensorReset,
    /// Bring-up could not confirm the device identity in time.
    ProductId,
    /// A framing or decode invariant was violated.
    Protocol(ProtocolFault),
}

impl ProtocolFault {
    /// A short diagnostic tag for the fault.
    pub fn tag(&self) -> (r: &'static str)
        ensures
            *self == ProtocolFault::ShortPacket ==> r@ == "packet shorter than header"@,
            *self == ProtocolFault::PacketTooLong ==> r@ == "packet longer than send buffer"@,
    {
        match self {
            ProtocolFault::ShortPacket => "packet shorter than header",
            ProtocolFault::PacketTooLong => "packet longer than send buffer",
        }
    }
}

impl ImuError {
    /// A short label for the failure, as metrics and logs report it.
    pub fn label(&self) -> (r: &'static str)
        ensures
            *self == ImuError::Bus ==> r@ == "bus"@,
            *self == ImuError::Comm ==> r@ == "comm"@,
            *self == ImuError::Timeout ==> r@ == "timeout"@,
            *self == ImuError::SensorReset ==> r@ == "sensor_reset"@,
            *self == ImuError::ProductId ==> r@ == "product_id"@,
            *self is Protocol ==> r@ == "protocol"@,
    {
        match self {
            ImuError::Bus => "bus",
            ImuError::Comm => "comm",
            ImuError::Timeout => "timeout",
            ImuError::SensorReset => "sensor_reset",
            ImuError::ProductId => "product_id",
            ImuError::Protocol(_) => "protocol",
        }
    }
}

} // verus!
