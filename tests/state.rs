use fuelfinder_client::action::ActionRunner;
use fuelfinder_client::error::ClientError;
use fuelfinder_client::resource::{ResourceCache, ResourceState};

#[test]
fn dispatch_sets_pending_and_settle_records_result() {
    let mut r: ActionRunner<u32, String> = ActionRunner::new();
    assert!(!r.pending());
    assert_eq!(r.value(), &None);
    let t = r.dispatch(7);
    assert!(r.pending());
    assert_eq!(r.pending_input(), &Some(7));
    assert!(r.settle(t, Ok("done".to_string())));
    assert!(!r.pending());
    assert_eq!(r.value(), &Some(Ok("done".to_string())));
}

#[test]
fn superseded_dispatch_result_is_discarded() {
    let mut r: ActionRunner<u32, u32> = ActionRunner::new();
    let first = r.dispatch(1);
    let second = r.dispatch(2);
    assert_ne!(first, second);
    assert!(r.settle(second, Ok(20)));
    assert!(!r.settle(first, Ok(10)));
    assert_eq!(r.value(), &Some(Ok(20)));
    let third = r.dispatch(3);
    assert!(!r.settle(first, Err(ClientError::Server { status: 500 })));
    assert!(r.pending());
    assert_eq!(r.value(), &Some(Ok(20)));
    assert!(r.settle(third, Err(ClientError::Server { status: 500 })));
    assert_eq!(r.value(), &Some(Err(ClientError::Server { status: 500 })));
}

#[test]
fn value_is_kept_while_a_new_dispatch_is_pending() {
    let mut r: ActionRunner<u32, u32> = ActionRunner::new();
    let t = r.dispatch(1);
    r.settle(t, Ok(5));
    r.dispatch(2);
    assert!(r.pending());
    assert_eq!(r.value(), &Some(Ok(5)));
}

#[test]
fn matches_input_scopes_to_pending_input() {
    let mut r: ActionRunner<u32, u32> = ActionRunner::new();
    assert!(!r.matches_input(|i: &u32| *i == 4));
    let t = r.dispatch(4);
    assert!(r.matches_input(|i: &u32| *i == 4));
    assert!(!r.matches_input(|i: &u32| *i == 5));
    r.settle(t, Ok(0));
    assert!(!r.matches_input(|i: &u32| *i == 4));
}

#[test]
fn resource_loads_once_on_observation() {
    let mut c: ResourceCache<u32> = ResourceCache::new();
    assert_eq!(c.state(), &ResourceState::Unloaded);
    let t = c.observe().unwrap();
    assert_eq!(c.state(), &ResourceState::Loading);
    assert!(c.is_loading());
    assert_eq!(c.observe(), None);
    assert!(c.resolve(t, Ok(1)));
    assert_eq!(c.state(), &ResourceState::Ready(1));
    assert!(!c.is_loading());
    assert_eq!(c.observe(), None);
}

#[test]
fn refetch_replaces_or_fails() {
    let mut c: ResourceCache<u32> = ResourceCache::new();
    let t = c.observe().unwrap();
    c.resolve(t, Ok(1));
    let t2 = c.refetch();
    assert_eq!(c.state(), &ResourceState::Ready(1));
    assert!(c.resolve(t2, Ok(2)));
    assert_eq!(c.state(), &ResourceState::Ready(2));
    let t3 = c.refetch();
    assert!(c.resolve(t3, Err(ClientError::Network { detail: "offline".to_string() })));
    assert_eq!(
        c.state(),
        &ResourceState::Failed(ClientError::Network { detail: "offline".to_string() })
    );
}

#[test]
fn overlapping_loads_latest_started_wins() {
    let mut c: ResourceCache<u32> = ResourceCache::new();
    let a = c.refetch();
    let b = c.refetch();
    assert_eq!(c.state(), &ResourceState::Loading);
    assert!(c.resolve(b, Ok(2)));
    assert!(!c.resolve(a, Ok(1)));
    assert_eq!(c.state(), &ResourceState::Ready(2));
}
