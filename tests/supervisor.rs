use zop::error::SidecarError;
use zop::supervisor::{SidecarState, StartAction, DEFAULT_AGENT_PORT, START_ATTEMPTS};

/// Starts the companion: launches succeed or fail as told, and probes answer
/// from `verdicts`. Returns the result, the launches and probes performed.
fn start(
    state: &mut SidecarState,
    launch: Result<(), String>,
    verdicts: &[bool],
) -> (Result<(), SidecarError>, usize, usize, usize) {
    let (mut session, mut action) = state.ensure_started();
    let (mut launches, mut probes, mut sleeps) = (0, 0, 0);
    loop {
        if action == StartAction::Sleep {
            sleeps += 1;
        }
        action = match action {
            StartAction::Finished(r) => return (r, launches, probes, sleeps),
            StartAction::Launch => {
                launches += 1;
                session.record_launch(launch.clone())
            }
            StartAction::Probe | StartAction::Sleep => {
                let healthy = verdicts[probes];
                probes += 1;
                session.record_probe(state, healthy)
            }
        };
    }
}

#[test]
fn fresh_state_uses_default_port() {
    let s = SidecarState::new();
    assert_eq!(s.port(), 19820);
    assert_eq!(s.port(), DEFAULT_AGENT_PORT);
    assert!(!s.is_running());
    assert_eq!(SidecarState::default().port(), 19820);
}

#[test]
fn addresses_name_loopback_port() {
    let s = SidecarState::new();
    assert_eq!(s.get_base_url(), "http://127.0.0.1:19820");
    assert_eq!(s.health_url(), "http://127.0.0.1:19820/health");
    assert_eq!(s.generate_sop_url(), "http://127.0.0.1:19820/generate-sop");
    assert_eq!(s.launch_argument(), "19820");
}

#[test]
fn first_start_launches_once_and_marks_running() {
    let mut s = SidecarState::new();
    let (r, launches, probes, sleeps) = start(&mut s, Ok(()), &[false, false, true]);
    assert_eq!(r, Ok(()));
    assert_eq!((launches, probes, sleeps), (1, 3, 2));
    assert!(s.is_running());
}

#[test]
fn running_and_healthy_start_is_noop() {
    let mut s = SidecarState::new();
    start(&mut s, Ok(()), &[true]);
    assert!(s.is_running());
    let (r, launches, probes, sleeps) = start(&mut s, Ok(()), &[true]);
    assert_eq!(r, Ok(()));
    assert_eq!((launches, probes, sleeps), (0, 1, 0));
    assert!(s.is_running());
}

#[test]
fn running_but_unhealthy_start_relaunches() {
    let mut s = SidecarState::new();
    start(&mut s, Ok(()), &[true]);
    let (r, launches, probes, _) = start(&mut s, Ok(()), &[false, true]);
    assert_eq!(r, Ok(()));
    assert_eq!((launches, probes), (1, 2));
}

#[test]
fn failed_launch_is_launch_error() {
    let mut s = SidecarState::new();
    let (r, launches, probes, _) = start(&mut s, Err("no such file".to_string()), &[]);
    assert_eq!(r, Err(SidecarError::Launch("no such file".to_string())));
    assert_eq!((launches, probes), (1, 0));
    assert!(!s.is_running());
}

#[test]
fn never_ready_start_times_out() {
    let mut s = SidecarState::new();
    let verdicts = vec![false; START_ATTEMPTS as usize];
    let (r, launches, probes, sleeps) = start(&mut s, Ok(()), &verdicts);
    assert_eq!(r, Err(SidecarError::ReadinessTimeout));
    assert_eq!((launches, probes, sleeps), (1, 20, 19));
    assert!(!s.is_running());
}

#[test]
fn session_reports_finish() {
    let s = SidecarState::new();
    let (mut session, action) = s.ensure_started();
    assert_eq!(action, StartAction::Launch);
    assert!(!session.is_finished());
    let next = session.record_launch(Err("denied".to_string()));
    assert!(matches!(next, StartAction::Finished(Err(SidecarError::Launch(_)))));
    assert!(session.is_finished());
}
