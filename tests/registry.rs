use client_registry::clients;
use client_registry::clients::{AppClients, ClientRegistry};

fn bundle(ids: &[u64]) -> AppClients {
    AppClients { client_ids: ids.to_vec() }
}

#[test]
fn new_registry_is_empty() {
    let registry = ClientRegistry::new();
    assert!(!registry.is_initialized());
}

#[test]
fn first_set_succeeds_and_initializes() {
    let mut registry = ClientRegistry::new();
    assert_eq!(clients::set(&mut registry, bundle(&[1, 2])), Ok(()));
    assert!(registry.is_initialized());
}

#[test]
fn later_sets_fail_with_their_own_bundle() {
    let mut registry = ClientRegistry::new();
    assert_eq!(clients::set(&mut registry, bundle(&[1])), Ok(()));
    assert_eq!(clients::set(&mut registry, bundle(&[2])), Err(bundle(&[2])));
    assert_eq!(clients::set(&mut registry, bundle(&[3, 4])), Err(bundle(&[3, 4])));
    assert_eq!(clients::set(&mut registry, bundle(&[])), Err(bundle(&[])));
    assert_eq!(clients::get(&registry), &bundle(&[1]));
}

#[test]
fn rejected_bundle_is_the_callers_own_value() {
    let mut registry = ClientRegistry::new();
    assert_eq!(clients::set(&mut registry, bundle(&[7])), Ok(()));
    let rejected = clients::set(&mut registry, bundle(&[7])).unwrap_err();
    assert_eq!(rejected, bundle(&[7]));
    assert_eq!(clients::get(&registry).client_ids, vec![7]);
}

#[test]
fn get_returns_the_bundle_that_was_set() {
    let mut registry = ClientRegistry::new();
    assert_eq!(clients::set(&mut registry, bundle(&[10, 20, 30])), Ok(()));
    for _ in 0..5 {
        assert_eq!(clients::get(&registry).client_ids, vec![10, 20, 30]);
    }
}

#[test]
fn repeated_gets_see_one_stored_bundle() {
    let mut registry = ClientRegistry::new();
    assert_eq!(clients::set(&mut registry, bundle(&[5])), Ok(()));
    let first = clients::get(&registry);
    let second = clients::get(&registry);
    assert!(std::ptr::eq(first, second));
    assert_eq!(first, &bundle(&[5]));
    assert!(registry.is_initialized());
}

#[test]
fn run_of_sets_has_exactly_one_success() {
    let mut registry = ClientRegistry::new();
    let mut successes: u32 = 0;
    for id in 0..8u64 {
        match clients::set(&mut registry, bundle(&[id])) {
            Ok(()) => successes += 1,
            Err(back) => assert_eq!(back.client_ids, vec![id]),
        }
    }
    assert_eq!(successes, 1);
    assert_eq!(clients::get(&registry).client_ids, vec![0]);
}

#[test]
fn winner_is_kept_and_loser_gets_its_bundle_back() {
    let mut registry = ClientRegistry::new();
    let x = bundle(&[100]);
    let y = bundle(&[200]);
    assert_eq!(clients::set(&mut registry, x), Ok(()));
    assert_eq!(clients::set(&mut registry, y), Err(bundle(&[200])));
    let c = clients::get(&registry);
    let d = clients::get(&registry);
    let e = clients::get(&registry);
    assert_eq!(c, &bundle(&[100]));
    assert_eq!(d, &bundle(&[100]));
    assert_eq!(e, &bundle(&[100]));
}

#[test]
fn empty_bundle_can_be_stored() {
    let mut registry = ClientRegistry::new();
    assert_eq!(clients::set(&mut registry, bundle(&[])), Ok(()));
    assert!(registry.is_initialized());
    assert!(clients::get(&registry).client_ids.is_empty());
}
