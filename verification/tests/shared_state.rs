use bashers::pattern::pod_pattern_regex;
use bashers::shared::SharedState;

#[test]
fn test_new_creates_valid_state() {
    let regexes = vec![pod_pattern_regex("test-.*")];
    let mut state = SharedState::new(false, regexes);
    assert!(!state.err_only);
    assert!(state.running);
    assert!(state.active_pods.is_empty());
    assert!(state.closed_pods.is_empty());
    assert_eq!(state.clone_regexes().len(), 1);
}

#[test]
fn test_new_with_err_only() {
    let mut state = SharedState::new(true, vec![]);
    assert!(state.err_only);
}

#[test]
fn test_add_regex() {
    let mut state = SharedState::new(false, vec![]);
    assert_eq!(state.clone_regexes().len(), 0);

    state.add_regex(pod_pattern_regex("pod-a"));
    assert_eq!(state.clone_regexes().len(), 1);

    state.add_regex(pod_pattern_regex("pod-b"));
    assert_eq!(state.clone_regexes().len(), 2);
}

#[test]
fn test_clone_regexes_returns_copy() {
    let regexes = vec![pod_pattern_regex("test")];
    let mut state = SharedState::new(false, regexes);

    let cloned = state.clone_regexes();
    assert_eq!(cloned.len(), 1);
    assert!(cloned[0].is_match("test"));
}

#[test]
fn test_running_flag_toggleable() {
    let mut state = SharedState::new(false, vec![]);
    assert!(state.running);
    state.stop();
    assert!(!state.running);
}
