use cold_start_metrics::response::{FunctionResponse, Latency, ResponseBody, Uptime};

fn uptime(x: f64) -> Uptime {
    Uptime::from_bits(x.to_bits())
}

fn body(cold: bool, up: f64) -> ResponseBody {
    ResponseBody {
        cold_start_result: cold,
        process_uptime: uptime(up),
        handler_run_time: 1715529543389,
        static_init_time: 1715529543384,
    }
}

#[test]
fn uptime_below_one_second_passes() {
    assert!(uptime(0.11).at_most_one_second());
    assert!(uptime(0.116852724).at_most_one_second());
    assert!(uptime(0.0).at_most_one_second());
}

#[test]
fn uptime_of_exactly_one_second_passes() {
    assert!(uptime(1.0).at_most_one_second());
}

#[test]
fn uptime_just_above_one_second_fails() {
    let next = f64::from_bits(1.0f64.to_bits() + 1);
    assert!(next > 1.0);
    assert!(!uptime(next).at_most_one_second());
    assert!(!uptime(1.5).at_most_one_second());
    assert!(!uptime(120.0).at_most_one_second());
}

#[test]
fn uptime_special_values() {
    assert!(uptime(-0.0).at_most_one_second());
    assert!(uptime(-3.5).at_most_one_second());
    assert!(uptime(f64::MIN_POSITIVE / 4.0).at_most_one_second());
    assert!(uptime(f64::NEG_INFINITY).at_most_one_second());
    assert!(!uptime(f64::INFINITY).at_most_one_second());
    assert!(!uptime(f64::NAN).at_most_one_second());
}

#[test]
fn uptime_agrees_with_float_comparison() {
    let samples = [0.0, 0.5, 0.999999, 1.0, 1.0000001, 2.0, 1e300, -1e300, 1e-310, 0.75, 3.25];
    for x in samples {
        assert_eq!(uptime(x).at_most_one_second(), x <= 1.0);
    }
}

#[test]
fn latency_in_whole_milliseconds() {
    assert_eq!(Latency::new(0, 250_000_000).as_millis(), 250);
    assert_eq!(Latency::new(2, 999_999).as_millis(), 2000);
    assert_eq!(Latency::new(1, 1_500_000).as_millis(), 1001);
    assert_eq!(Latency::new(0, 0).as_millis(), 0);
    assert_eq!(Latency::new(u64::MAX, 999_999_999).as_millis(), (u64::MAX as u128) * 1000 + 999);
}

#[test]
fn latency_from_millis_round_trips() {
    let l = Latency::from_millis(250);
    assert_eq!(l, Latency::new(0, 250_000_000));
    assert_eq!(l.as_millis(), 250);
    assert_eq!(Latency::from_millis(61_007).as_millis(), 61_007);
}

#[test]
fn stamp_attaches_latency_and_name() {
    let name = String::from("aws");
    let r = FunctionResponse::stamp(body(true, 0.11), Latency::from_millis(250), &name);
    assert_eq!(r.function_name, "aws");
    assert_eq!(r.request_duration.as_millis(), 250);
    assert!(r.cold_start_result);
    assert_eq!(r.handler_run_time, 1715529543389);
    assert_eq!(r.static_init_time, 1715529543384);
    assert_eq!(r.process_uptime, uptime(0.11));
}

#[test]
fn acceptance_rule_on_responses() {
    let name = String::from("lwa");
    let l = Latency::from_millis(10);
    assert!(FunctionResponse::stamp(body(true, 0.11), l, &name).is_cold_start());
    assert!(FunctionResponse::stamp(body(true, 1.0), l, &name).is_cold_start());
    assert!(!FunctionResponse::stamp(body(true, 1.2), l, &name).is_cold_start());
    assert!(!FunctionResponse::stamp(body(false, 0.11), l, &name).is_cold_start());
    assert!(!FunctionResponse::stamp(body(false, 5.0), l, &name).is_cold_start());
}

#[test]
fn duplicate_keeps_fields() {
    let name = String::from("hono");
    let r = FunctionResponse::stamp(body(true, 0.3), Latency::from_millis(42), &name);
    let d = r.duplicate();
    assert_eq!(d.function_name, "hono");
    assert_eq!(d.request_duration, r.request_duration);
    assert_eq!(d.process_uptime, r.process_uptime);
}
