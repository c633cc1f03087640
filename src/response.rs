//! The payload reported by a probed endpoint, and the cold-start acceptance rule.
use vstd::prelude::*;

verus! {

/// Bit pattern of the IEEE-754 double `1.0`.
pub const ONE_SECOND_BITS: u64 = 0x3ff0_0000_0000_0000;

/// Bit pattern with only the sign bit set.
pub const SIGN_BIT: u64 = 0x8000_0000_0000_0000;

/// Mask of the exponent field of an IEEE-754 double.
pub const EXPONENT_MASK: u64 = 0x7ff0_0000_0000_0000;

/// Mask of the fraction field of an IEEE-754 double.
pub const FRACTION_MASK: u64 = 0x000f_ffff_ffff_ffff;

/// The sign bit of a double given by its bits.
pub open spec fn sign_of(bits: u64) -> u64 {
    bits >> 63u64
}

/// The biased exponent of a double given by its bits.
pub open spec fn exponent_of(bits: u64) -> u64 {
    (bits >> 52u64) & 0x7ffu64
}

/// The fraction (mantissa without the hidden bit) of a double given by its bits.
pub open spec fn fraction_of(bits: u64) -> u64 {
    bits & FRACTION_MASK
}

/// The double is a NaN: all exponent bits set and a non-zero fraction.
pub open spec fn is_nan_bits(bits: u64) -> bool {
    exponent_of(bits) == 0x7ff && fraction_of(bits) != 0
}

/// The double given by `bits` compares `<= 1.0` under IEEE-754 ordering:
/// it is no NaN, and it is negative (or negative zero), or its biased exponent
/// is below that of 1.0 (so its magnitude is below one, zero and subnormals
/// included), or it is exactly 1.0.
pub open spec fn at_most_one_bits(bits: u64) -> bool {
    &&& !is_nan_bits(bits)
    &&& (sign_of(bits) == 1 || exponent_of(bits) < 1023 || (exponent_of(bits) == 1023
        && fraction_of(bits) == 0))
}

/// How long the probed process had been up when it answered, in seconds,
/// held as the exact bit pattern of the double that the endpoint sent.
#[derive(Clone, Copy, Debug, PartialEq, Eq, Structural)]
pub struct Uptime {
    pub bits: u64,
}

impl Uptime {
    /// The uptime whose double has these IEEE-754 bits.
    pub fn from_bits(bits: u64) -> (r: Uptime)
        ensures
            r.bits == bits,
    {
        Uptime { bits }
    }

    /// The uptime is at most one second (`processUptime <= 1.0`).
    pub open spec fn spec_at_most_one_second(self) -> bool {
        at_most_one_bits(self.bits)
    }

    /// Whether the uptime is at most one second (`processUptime <= 1.0`).
    pub fn at_most_one_second(&self) -> (r: bool)
        ensures
            r == self.spec_at_most_one_second(),
    {
        let b = self.bits;
        let nan = (b & EXPONENT_MASK) == EXPONENT_MASK && (b & FRACTION_MASK) != 0;
        let r = !nan && (b >= SIGN_BIT || b <= ONE_SECOND_BITS);
        assert(r == at_most_one_bits(b)) by (bit_vector)
            requires
                nan == ((b & 0x7ff0_0000_0000_0000u64) == 0x7ff0_0000_0000_0000u64 && (b
                    & 0x000f_ffff_ffff_ffffu64) != 0),
                r == (!nan && (b >= 0x8000_0000_0000_0000u64 || b <= 0x3ff0_0000_0000_0000u64)),
        ;
        r
    }
}

/// Nanoseconds in one second.
pub const NANOS_PER_SEC: u32 = 1_000_000_000;

/// Nanoseconds in one millisecond.
pub const NANOS_PER_MILLI: u32 = 1_000_000;

/// Measured wall-clock time of one probe attempt, as whole seconds and the
/// nanoseconds below one second.
#[derive(Clone, Copy, Debug, PartialEq, Eq, Structural)]
pub struct Latency {
    pub secs: u64,
    pub subsec_nanos: u32,
}

impl Latency {
    /// The nanosecond part is below one second.
    pub open spec fn wf(self) -> bool {
        self.subsec_nanos < NANOS_PER_SEC
    }

    /// Whole milliseconds in the latency (the fraction of a millisecond is dropped).
    pub open spec fn spec_millis(self) -> int {
        self.secs * 1000 + self.subsec_nanos / NANOS_PER_MILLI
    }

    /// A latency of `secs` seconds and `subsec_nanos` nanoseconds.
    pub fn new(secs: u64, subsec_nanos: u32) -> (r: Latency)
        requires
            subsec_nanos < NANOS_PER_SEC,
        ensures
            r.secs == secs,
            r.subsec_nanos == subsec_nanos,
            r.wf(),
    {
        Latency { secs, subsec_nanos }
    }

    /// A latency of a whole number of milliseconds.
    pub fn from_millis(millis: u64) -> (r: Latency)
        ensures
            r.wf(),
            r.spec_millis() == millis,
    {
        let secs = millis / 1000;
        let rest = millis % 1000;
        let subsec_nanos = (rest as u32) * NANOS_PER_MILLI;
        Latency { secs, subsec_nanos }
    }

    /// Whole milliseconds in the latency.
    pub fn as_millis(&self) -> (r: u128)
        ensures
            r == self.spec_millis(),
    {
        (self.secs as u128) * 1000 + (self.subsec_nanos / NANOS_PER_MILLI) as u128
    }
}

/// The fields of an endpoint's JSON answer (`coldStartResult`, `processUptime`,
/// `handlerRunTime`, `staticInitTime`).
#[derive(Clone, Copy, Debug, PartialEq, Eq, Structural)]
pub struct ResponseBody {
    pub cold_start_result: bool,
    pub process_uptime: Uptime,
    /// Epoch milliseconds at which the handler ran.
    pub handler_run_time: i64,
    /// Epoch milliseconds at which static initialisation ran.
    pub static_init_time: i64,
}

/// An endpoint's answer together with how long the request took and which
/// endpoint gave it.
#[derive(Debug)]
pub struct FunctionResponse {
    pub cold_start_result: bool,
    pub process_uptime: Uptime,
    pub handler_run_time: i64,
    pub static_init_time: i64,
    pub request_duration: Latency,
    pub function_name: String,
}

/// Plain-value model of a `FunctionResponse`.
pub struct ResponseView {
    pub cold_start_result: bool,
    pub process_uptime: Uptime,
    pub handler_run_time: i64,
    pub static_init_time: i64,
    pub request_duration: Latency,
    pub function_name: Seq<char>,
}

impl View for FunctionResponse {
    type V = ResponseView;

    open spec fn view(&self) -> ResponseView {
        ResponseView {
            cold_start_result: self.cold_start_result,
            process_uptime: self.process_uptime,
            handler_run_time: self.handler_run_time,
            static_init_time: self.static_init_time,
            request_duration: self.request_duration,
            function_name: self.function_name@,
        }
    }
}

/// The acceptance rule: the endpoint reports a cold start, and its process
/// had been up for at most one second.
pub open spec fn is_cold_start(r: ResponseView) -> bool {
    r.cold_start_result && r.process_uptime.spec_at_most_one_second()
}

/// The response that `body` becomes once stamped with its measured latency
/// and the name of the endpoint that gave it.
pub open spec fn stamped(body: ResponseBody, elapsed: Latency, name: Seq<char>) -> ResponseView {
    ResponseView {
        cold_start_result: body.cold_start_result,
        process_uptime: body.process_uptime,
        handler_run_time: body.handler_run_time,
        static_init_time: body.static_init_time,
        request_duration: elapsed,
        function_name: name,
    }
}

impl FunctionResponse {
    /// Attaches the measured latency and the endpoint's name to a parsed body.
    pub fn stamp(body: ResponseBody, elapsed: Latency, name: &String) -> (r: FunctionResponse)
        ensures
            r@ == stamped(body, elapsed, name@),
    {
        FunctionResponse {
            cold_start_result: body.cold_start_result,
            process_uptime: body.process_uptime,
            handler_run_time: body.handler_run_time,
            static_init_time: body.static_init_time,
            request_duration: elapsed,
            function_name: name.clone(),
        }
    }

    /// Whether this response counts as an observed cold start.
    pub fn is_cold_start(&self) -> (r: bool)
        ensures
            r == is_cold_start(self@),
    {
        self.cold_start_result && self.process_uptime.at_most_one_second()
    }

    /// A copy with the same fields.
    pub fn duplicate(&self) -> (r: FunctionResponse)
        ensures
            r@ == self@,
    {
        FunctionResponse {
            cold_start_result: self.cold_start_result,
            process_uptime: self.process_uptime,
            handler_run_time: self.handler_run_time,
            static_init_time: self.static_init_time,
            request_duration: self.request_duration,
            function_name: self.function_name.clone(),
        }
    }
}

} // verus!
