use gamvis::analysis::{AnalysisLoop, Event, Phase};

#[test]
fn one_full_cycle() {
    let mut s = AnalysisLoop::new(2);
    assert_eq!(s.phase, Phase::Idle);
    s = s.step(Event::Start);
    assert_eq!(s.phase, Phase::Filling);
    s = s.step(Event::FrameFilled);
    assert_eq!(s.phase, Phase::Transforming);
    s = s.step(Event::SpectrumReady);
    assert_eq!(s.phase, Phase::Emitting);
    s = s.step(Event::Emitted);
    assert_eq!(s.phase, Phase::Filling);
    assert!(!s.is_terminated());
}

#[test]
fn failed_fills_are_retried_then_give_up() {
    let mut s = AnalysisLoop::new(2).step(Event::Start);
    s = s.step(Event::FillFailed);
    assert_eq!((s.phase, s.failed_fills), (Phase::Filling, 1));
    s = s.step(Event::FillFailed);
    assert_eq!((s.phase, s.failed_fills), (Phase::Filling, 2));
    s = s.step(Event::FillFailed);
    assert_eq!(s.phase, Phase::Terminated);
    assert!(s.is_terminated());
}

#[test]
fn a_whole_frame_resets_the_failure_count() {
    let mut s = AnalysisLoop::new(1).step(Event::Start);
    s = s.step(Event::FillFailed);
    s = s.step(Event::FrameFilled);
    assert_eq!((s.phase, s.failed_fills), (Phase::Transforming, 0));
}

#[test]
fn no_retries_means_first_failure_ends() {
    let s = AnalysisLoop::new(0).step(Event::Start).step(Event::FillFailed);
    assert_eq!(s.phase, Phase::Terminated);
}

#[test]
fn pause_between_cycles() {
    let mut s = AnalysisLoop::new(0);
    s = s.step(Event::Start).step(Event::FrameFilled).step(Event::SpectrumReady);
    s = s.step(Event::PauseToggled);
    assert_eq!(s.phase, Phase::Paused);
    s = s.step(Event::FrameFilled);
    assert_eq!(s.phase, Phase::Paused);
    s = s.step(Event::PauseToggled);
    assert_eq!(s.phase, Phase::Filling);
    s = s.step(Event::PauseToggled);
    assert_eq!(s.phase, Phase::Filling);
}

#[test]
fn shutdown_from_every_phase_is_final() {
    let phases = [
        Phase::Idle,
        Phase::Filling,
        Phase::Transforming,
        Phase::Emitting,
        Phase::Paused,
        Phase::Terminated,
    ];
    for phase in phases {
        let s = AnalysisLoop { phase, failed_fills: 0, max_retries: 3 }.step(Event::Shutdown);
        assert_eq!(s.phase, Phase::Terminated);
        assert_eq!(s.step(Event::Start).phase, Phase::Terminated);
        assert_eq!(s.step(Event::PauseToggled).phase, Phase::Terminated);
    }
}

#[test]
fn out_of_place_events_change_nothing() {
    let s = AnalysisLoop::new(3);
    assert_eq!(s.step(Event::FrameFilled), s);
    assert_eq!(s.step(Event::Emitted), s);
    let t = s.step(Event::Start).step(Event::FrameFilled);
    assert_eq!(t.step(Event::PauseToggled), t);
    assert_eq!(t.step(Event::FillFailed), t);
}
