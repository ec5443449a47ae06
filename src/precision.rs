use vstd::prelude::*;

verus! {

/// Arithmetic width of the shader and of the uploaded parameter layout.
#[derive(Clone, Copy, Debug, PartialEq, Eq, Structural)]
pub enum PrecisionMode {
    F64,
    F32,
}

/// The capability tier asked for when creating the GPU device.
#[derive(Clone, Copy, Debug, PartialEq, Eq, Structural)]
pub enum DeviceRequest {
    /// Ask for double-precision shader arithmetic.
    WithFloat64,
    /// Ask for no optional capability.
    Reduced,
}

/// What to do after a device request succeeded or failed.
#[derive(Clone, Copy, Debug, PartialEq, Eq, Structural)]
pub enum NegotiationStep {
    /// A device exists: render in this mode, with the matching shader.
    Use(PrecisionMode),
    /// Ask again with this request.
    Retry(DeviceRequest),
    /// No device can be had: rendering is impossible.
    Fatal,
}

/// The request that opens device negotiation.
pub fn first_device_request() -> (r: DeviceRequest)
    ensures
        r == DeviceRequest::WithFloat64,
{
    DeviceRequest::WithFloat64
}

/// One step of the one-time, two-tier device negotiation: a double-precision
/// device gives F64 mode; its failure is retried once without the capability,
/// which gives F32 mode; a failure of the reduced request is fatal.
pub fn next_negotiation_step(request: DeviceRequest, succeeded: bool) -> (r: NegotiationStep)
    ensures
        r == (match (request, succeeded) {
            (DeviceRequest::WithFloat64, true) => NegotiationStep::Use(PrecisionMode::F64),
            (DeviceRequest::WithFloat64, false) => NegotiationStep::Retry(DeviceRequest::Reduced),
            (DeviceRequest::Reduced, true) => NegotiationStep::Use(PrecisionMode::F32),
            (DeviceRequest::Reduced, false) => NegotiationStep::Fatal,
        }),
{
    match request {
        DeviceRequest::WithFloat64 => if succeeded {
            NegotiationStep::Use(PrecisionMode::F64)
        } else {
            NegotiationStep::Retry(DeviceRequest::Reduced)
        },
        DeviceRequest::Reduced => if succeeded {
            NegotiationStep::Use(PrecisionMode::F32)
        } else {
            NegotiationStep::Fatal
        },
    }
}

} // verus!
