use parallel_ssh::outcome::Response;
use parallel_ssh::scheduler::{DriverAction, FanOut};

#[test]
fn fan_out_bounds_sessions_and_yields_every_outcome() {
    let n = 9;
    let mut f = FanOut::new(n, 3, 1);
    let mut running: Vec<usize> = Vec::new();
    let mut round = 0;
    while !f.is_finished() {
        while let Some(i) = f.try_launch() {
            running.push(i);
        }
        assert!(f.running <= 3);
        assert_eq!(f.running, running.len());
        if f.try_acquire_agent() {
            assert!(!f.try_acquire_agent());
            assert_eq!(f.agents_active, 1);
            f.release_agent();
        }
        // pipelines complete in an order unrelated to launch order
        let done = running.remove(round % running.len());
        let ok = done % 2 == 0;
        let result = if ok { Ok("up".to_string()) } else { Err("down".to_string()) };
        f.complete(Response::from_result(format!("h{}", done), result, 1));
        round += 1;
    }
    assert_eq!(f.outcomes.len(), n);
    assert_eq!(f.launched, n);
    assert_eq!(f.running, 0);
    let mut hosts: Vec<String> = f.outcomes.iter().map(|r| r.hostname.clone()).collect();
    hosts.sort();
    let mut expected: Vec<String> = (0..n).map(|i| format!("h{}", i)).collect();
    expected.sort();
    assert_eq!(hosts, expected);
}

#[test]
fn empty_fan_out_is_finished() {
    let mut f = FanOut::new(0, 4, 1);
    assert!(f.is_finished());
    assert_eq!(f.try_launch(), None);
}

#[test]
fn agent_pool_refuses_without_running_pipeline() {
    let mut f = FanOut::new(2, 2, 2);
    assert!(!f.try_acquire_agent());
    assert_eq!(f.try_launch(), Some(0));
    assert!(f.try_acquire_agent());
    assert!(!f.try_acquire_agent());
    f.release_agent();
    assert_eq!(f.agents_active, 0);
}

#[test]
fn driver_actions_reach_done() {
    let mut f = FanOut::new(5, 2, 1);
    let mut running: Vec<usize> = Vec::new();
    let mut launches = Vec::new();
    let mut steps = 0;
    loop {
        steps += 1;
        assert!(steps < 100);
        match f.next_action() {
            DriverAction::Launch { host } => {
                launches.push(host);
                running.push(host);
                assert!(f.running <= 2);
            }
            DriverAction::AwaitCompletion => {
                assert_eq!(f.running, 2.min(5 - f.outcomes.len()));
                let done = running.pop().unwrap();
                f.complete(Response::from_result(format!("h{}", done), Ok(String::new()), 0));
            }
            DriverAction::Done => break,
        }
    }
    assert_eq!(launches, vec![0, 1, 2, 3, 4]);
    assert_eq!(f.outcomes.len(), 5);
    assert_eq!(FanOut::new(0, 1, 1).next_action(), DriverAction::Done);
    assert_eq!(FanOut::new(3, 0, 1).next_action(), DriverAction::AwaitCompletion);
}
