use noise_cancellation::shutdown::{EngineHandles, StopStep};

fn drain(h: &mut EngineHandles) -> Vec<StopStep> {
    let mut steps = vec![];
    while let Some(s) = h.next_stop_step() {
        steps.push(s);
    }
    steps
}

#[test]
fn started_engine_runs() {
    assert!(EngineHandles::started().is_running());
}

#[test]
fn shutdown_order() {
    let mut h = EngineHandles::started();
    h.begin_stop();
    assert!(!h.is_running());
    assert_eq!(drain(&mut h), vec![StopStep::PauseCapture, StopStep::PausePlayback, StopStep::JoinProcessor]);
}

#[test]
fn second_shutdown_does_nothing() {
    let mut h = EngineHandles::started();
    h.begin_stop();
    drain(&mut h);
    h.begin_stop();
    assert_eq!(drain(&mut h), vec![]);
    assert!(!h.is_running());
}

#[test]
fn interrupted_shutdown_resumes_after_failed_step() {
    let mut h = EngineHandles::started();
    h.begin_stop();
    // the capture stream fails to pause: the shutdown stops here
    assert_eq!(h.next_stop_step(), Some(StopStep::PauseCapture));
    // a later shutdown goes on with what is still held
    h.begin_stop();
    assert_eq!(drain(&mut h), vec![StopStep::PausePlayback, StopStep::JoinProcessor]);
}
