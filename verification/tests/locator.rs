use bpfcap::errors::CaptureError;
use bpfcap::locator::{acquire, acquire_device, ScriptedPool};

fn pool(plan: Vec<Result<u32, i32>>) -> ScriptedPool {
    ScriptedPool { plan, probed: Vec::new(), default_error: 19 }
}

#[test]
fn first_success_wins_and_probing_stops_there() {
    // nodes 0 and 1 are held elsewhere, node 2 opens
    let mut p = pool(vec![Err(16), Err(16), Ok(2), Ok(3)]);
    let got = acquire(&mut p, 100);
    assert_eq!(got, Ok(2));
    assert_eq!(p.probed, vec![0, 1, 2]);
}

#[test]
fn immediate_success_probes_only_the_first_node() {
    let mut p = pool(vec![Ok(0), Ok(1)]);
    let got = acquire(&mut p, 100);
    assert_eq!(got, Ok(0));
    assert_eq!(p.probed, vec![0]);
}

#[test]
fn exhausted_pool_returns_the_last_failure() {
    // each node fails differently; the LAST failure comes back
    let mut p = pool(vec![Err(16), Err(13), Err(1)]);
    let got = acquire(&mut p, 3);
    assert_eq!(got, Err(1));
    assert_eq!(p.probed, vec![0, 1, 2]);
}

#[test]
fn exhaustion_is_classified_as_no_device_available() {
    let mut p = pool(vec![Err(16), Err(13)]);
    let got = acquire_device(&mut p, 2);
    assert_eq!(got, Err(CaptureError::NoDeviceAvailable));
}

#[test]
fn classified_acquire_still_returns_the_first_handle() {
    let mut p = pool(vec![Err(16), Ok(1)]);
    let got = acquire_device(&mut p, 5);
    assert_eq!(got, Ok(1));
    assert_eq!(p.probed, vec![0, 1]);
}

#[test]
fn probing_runs_past_the_script_into_the_default_failure() {
    let mut p = pool(vec![Err(16)]);
    let got = acquire(&mut p, 4);
    assert_eq!(got, Err(19));
    assert_eq!(p.probed, vec![0, 1, 2, 3]);
}
