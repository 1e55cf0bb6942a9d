use phirlie::timing::{sweep_phase, transition_time, wait_time};

#[test]
fn reduced_motion_removes_outro() {
    assert_eq!(transition_time(true), None);
    assert_eq!(transition_time(false), Some(1400));
    assert_eq!(wait_time(true), 0);
    assert_eq!(wait_time(false), 400);
}

#[test]
fn sweep_cycle() {
    assert_eq!(sweep_phase(0), 0);
    assert_eq!(sweep_phase(300), 0);
    assert_eq!(sweep_phase(301), 1);
    assert_eq!(sweep_phase(1700), 0);
    assert_eq!(sweep_phase(1800), 100);
}
