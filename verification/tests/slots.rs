use relay_dispatch::routing::route;
use relay_dispatch::routing::Notification;
use relay_dispatch::routing::Route;
use relay_dispatch::slots::ClientSlots;
use relay_dispatch::tokens::TokenSpace;

#[test]
fn new_table_is_empty() {
    let space = TokenSpace::new(3);
    let slots = ClientSlots::new(&space);
    assert_eq!(slots.capacity(), 3);
    for token in 0..10 {
        assert!(!slots.is_held(token));
    }
    assert!(!slots.is_held(usize::MAX));
}

#[test]
fn acquire_hands_out_the_lowest_free_token() {
    let space = TokenSpace::new(3);
    let mut slots = ClientSlots::new(&space);
    assert_eq!(slots.acquire(), Some(3));
    assert_eq!(slots.acquire(), Some(4));
    assert!(slots.release(3));
    assert_eq!(slots.acquire(), Some(3));
    assert_eq!(slots.acquire(), Some(5));
    assert_eq!(slots.acquire(), None);
}

#[test]
fn third_connection_is_refused_at_capacity_two() {
    let space = TokenSpace::new(2);
    let mut slots = ClientSlots::new(&space);
    let first = slots.acquire();
    let second = slots.acquire();
    assert_eq!(first, Some(3));
    assert_eq!(second, Some(4));
    assert_eq!(slots.acquire(), None);
    assert!(slots.is_held(3));
    assert!(slots.is_held(4));
    assert_eq!(slots.capacity(), 2);
    assert_eq!(
        route(&space, &Notification { token: 3, readable: true }),
        Route::Client { token: 3 }
    );
    assert_eq!(
        route(&space, &Notification { token: 4, readable: false }),
        Route::Client { token: 4 }
    );
}

#[test]
fn refusal_changes_nothing() {
    let space = TokenSpace::new(1);
    let mut slots = ClientSlots::new(&space);
    assert_eq!(slots.acquire(), Some(3));
    assert_eq!(slots.acquire(), None);
    assert_eq!(slots.acquire(), None);
    assert!(slots.is_held(3));
    assert!(!slots.is_held(4));
    assert!(slots.release(3));
    assert_eq!(slots.acquire(), Some(3));
}

#[test]
fn release_frees_only_held_tokens() {
    let space = TokenSpace::new(2);
    let mut slots = ClientSlots::new(&space);
    assert!(!slots.release(3));
    assert_eq!(slots.acquire(), Some(3));
    assert!(!slots.release(4));
    assert!(!slots.release(2));
    assert!(!slots.release(5));
    assert!(!slots.release(usize::MAX));
    assert!(slots.is_held(3));
    assert!(slots.release(3));
    assert!(!slots.release(3));
    assert!(!slots.is_held(3));
}

#[test]
fn released_token_is_reused() {
    let space = TokenSpace::new(2);
    let mut slots = ClientSlots::new(&space);
    assert_eq!(slots.acquire(), Some(3));
    assert_eq!(slots.acquire(), Some(4));
    assert!(slots.release(4));
    assert!(slots.is_held(3));
    assert_eq!(slots.acquire(), Some(4));
    assert_eq!(slots.acquire(), None);
}
