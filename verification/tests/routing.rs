use relay_dispatch::routing::route;
use relay_dispatch::routing::Notification;
use relay_dispatch::routing::Route;
use relay_dispatch::tokens::TokenSpace;

fn note(token: usize, readable: bool) -> Notification {
    Notification { token, readable }
}

#[test]
fn wake_token_shuts_down_for_any_readiness() {
    let space = TokenSpace::new(4);
    assert_eq!(route(&space, &note(usize::MAX, true)), Route::Shutdown);
    assert_eq!(route(&space, &note(usize::MAX, false)), Route::Shutdown);
}

#[test]
fn relay_token_is_served_when_readable() {
    let space = TokenSpace::new(4);
    assert_eq!(route(&space, &note(1, true)), Route::Relay);
    assert_eq!(route(&space, &note(1, false)), Route::Pass);
}

#[test]
fn listener_token_accepts_with_the_region_bounds() {
    let space = TokenSpace::new(4);
    assert_eq!(
        route(&space, &note(2, true)),
        Route::Accept { min_token: 3, max_token: 6 }
    );
    assert_eq!(route(&space, &note(2, false)), Route::Pass);
}

#[test]
fn client_tokens_are_served_for_any_readiness() {
    let space = TokenSpace::new(4);
    assert_eq!(route(&space, &note(3, true)), Route::Client { token: 3 });
    assert_eq!(route(&space, &note(6, false)), Route::Client { token: 6 });
}

#[test]
fn tokens_outside_every_region_are_unknown() {
    let space = TokenSpace::new(4);
    assert_eq!(route(&space, &note(0, true)), Route::Unknown { token: 0 });
    assert_eq!(route(&space, &note(7, true)), Route::Unknown { token: 7 });
    assert_eq!(
        route(&space, &note(usize::MAX - 1, false)),
        Route::Unknown { token: usize::MAX - 1 }
    );
}
