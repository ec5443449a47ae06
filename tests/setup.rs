use mandelbrot::precision::{
    first_device_request, next_negotiation_step, DeviceRequest, NegotiationStep, PrecisionMode,
};
use mandelbrot::timing::{FrameTiming, INITIAL_FRAME_MICROS};

#[test]
fn negotiation_prefers_double_precision() {
    let r = first_device_request();
    assert_eq!(r, DeviceRequest::WithFloat64);
    assert_eq!(next_negotiation_step(r, true), NegotiationStep::Use(PrecisionMode::F64));
}

#[test]
fn negotiation_falls_back_once() {
    let step = next_negotiation_step(DeviceRequest::WithFloat64, false);
    assert_eq!(step, NegotiationStep::Retry(DeviceRequest::Reduced));
    assert_eq!(
        next_negotiation_step(DeviceRequest::Reduced, true),
        NegotiationStep::Use(PrecisionMode::F32)
    );
    assert_eq!(next_negotiation_step(DeviceRequest::Reduced, false), NegotiationStep::Fatal);
}

#[test]
fn frame_time_display() {
    let mut t = FrameTiming::new();
    assert_eq!(t.last_frame_micros, INITIAL_FRAME_MICROS);
    assert_eq!(t.fps(), 1);
    assert_eq!(t.millis(), 1000);
    t.record(16_667);
    assert_eq!(t.millis(), 16);
    assert_eq!(t.fps(), 59);
    t.record(999);
    assert_eq!(t.millis(), 0);
    assert_eq!(t.fps(), 1001);
}

#[test]
fn zero_frame_time_does_not_divide_by_zero() {
    let mut t = FrameTiming::new();
    t.record(0);
    assert_eq!(t.fps(), 1_000_000);
    assert_eq!(t.millis(), 0);
}
