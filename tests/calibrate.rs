use parallel_ssh::calibrate::{count_overloads, CalibrationError, Calibrator, Probe};
use parallel_ssh::outcome::Response;

/// Runs a calibration against hosts that all fail with the overload signature
/// once more than `k` sessions run at a time; returns the probes run and the
/// recommendation.
fn run_against_threshold(hosts: usize, max: usize, k: usize) -> (Vec<Probe>, Option<usize>) {
    let mut c = Calibrator::new(hosts, max).unwrap();
    let mut probes = Vec::new();
    while let Some(p) = c.next_probe() {
        probes.push(p);
        let results: Vec<Response> = (0..p.size)
            .map(|i| {
                let host = format!("10.0.0.{}", i);
                if p.concurrency > k {
                    Response::from_result(host, Err("handshake: [-42] busy".to_string()), 1)
                } else {
                    Response::from_result(host, Ok("up".to_string()), 1)
                }
            })
            .collect();
        c.record(count_overloads(&results));
    }
    (probes, c.recommendation())
}

#[test]
fn empty_host_set_is_refused() {
    assert_eq!(Calibrator::new(0, 10).err(), Some(CalibrationError::NoHosts));
}

#[test]
fn first_probe_is_concurrency_two_over_at_most_ten_hosts() {
    let c = Calibrator::new(50, 8).unwrap();
    assert_eq!(c.next_probe(), Some(Probe { concurrency: 2, size: 10 }));
    let c = Calibrator::new(4, 8).unwrap();
    assert_eq!(c.next_probe(), Some(Probe { concurrency: 2, size: 4 }));
}

#[test]
fn probe_subset_shrinks_as_concurrency_rises() {
    let (probes, best) = run_against_threshold(100, 50, 1000);
    let sizes: Vec<usize> = probes.iter().map(|p| p.size).collect();
    assert_eq!(sizes, vec![10, 6, 4, 3, 2, 1]);
    assert_eq!(probes.last().unwrap().concurrency, 7);
    assert_eq!(best, Some(7));
}

#[test]
fn stops_just_above_threshold() {
    let (probes, best) = run_against_threshold(100, 50, 4);
    assert_eq!(probes.last().unwrap().concurrency, 5);
    assert_eq!(best, Some(4));
}

#[test]
fn never_exceeds_maximum() {
    let (probes, best) = run_against_threshold(100, 3, 10);
    assert!(probes.iter().all(|p| p.concurrency <= 3));
    assert_eq!(best, Some(3));
    let (probes, best) = run_against_threshold(100, 1, 10);
    assert!(probes.is_empty());
    assert_eq!(best, None);
}

#[test]
fn overload_at_first_round_recommends_nothing() {
    let (probes, best) = run_against_threshold(100, 10, 1);
    assert_eq!(probes.len(), 1);
    assert_eq!(best, None);
}

#[test]
fn calibration_is_repeatable() {
    assert_eq!(run_against_threshold(30, 20, 5), run_against_threshold(30, 20, 5));
}

#[test]
fn ten_percent_is_not_over_threshold() {
    let mut c = Calibrator::new(10, 5).unwrap();
    c.record(1);
    assert_eq!(c.recommendation(), Some(2));
    assert_eq!(c.next_probe(), Some(Probe { concurrency: 3, size: 6 }));
    c.record(1);
    assert_eq!(c.recommendation(), Some(2));
    assert_eq!(c.next_probe(), None);
}

#[test]
fn counts_only_overload_failures() {
    let rs = vec![
        Response::from_result("a".to_string(), Err("x [-42]".to_string()), 0),
        Response::from_result("b".to_string(), Err("x [-19]".to_string()), 0),
        Response::from_result("c".to_string(), Ok("[-42]".to_string()), 0),
        Response::from_result("d".to_string(), Err("[-42][-42]".to_string()), 0),
    ];
    assert_eq!(count_overloads(&rs), 2);
    assert_eq!(count_overloads(&vec![]), 0);
}
