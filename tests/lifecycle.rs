use dotnet_bridge_host::lifecycle::{call_step, phase_after_init, CallStep, HostPhase};

fn run_calls(outcomes: &[bool]) -> (HostPhase, usize) {
    let mut phase = HostPhase::Unloaded;
    let mut inits = 0usize;
    for &ok in outcomes {
        if call_step(phase) == CallStep::Initialize {
            inits += 1;
            phase = phase_after_init(phase, ok);
        }
    }
    (phase, inits)
}

#[test]
fn each_phase_has_its_step() {
    assert_eq!(call_step(HostPhase::Unloaded), CallStep::Initialize);
    assert_eq!(call_step(HostPhase::Ready), CallStep::Invoke);
    assert_eq!(call_step(HostPhase::Failed), CallStep::Abort);
}

#[test]
fn init_outcome_decides_phase() {
    assert_eq!(phase_after_init(HostPhase::Unloaded, true), HostPhase::Ready);
    assert_eq!(phase_after_init(HostPhase::Unloaded, false), HostPhase::Failed);
}

#[test]
fn context_is_built_once_over_many_calls() {
    assert_eq!(run_calls(&[true, true, false, true]), (HostPhase::Ready, 1));
    assert_eq!(run_calls(&[]), (HostPhase::Unloaded, 0));
}

#[test]
fn failed_initialization_aborts_every_later_call() {
    let (phase, inits) = run_calls(&[false, true, true]);
    assert_eq!((phase, inits), (HostPhase::Failed, 1));
    assert_eq!(call_step(phase), CallStep::Abort);
}
