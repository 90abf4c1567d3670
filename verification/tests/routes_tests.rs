use cec_bridge::coordinator::LogicalAddress;
use cec_bridge::routes::{handle_request, route, str_eq, HttpMethod, RouteAction};

#[test]
fn post_tv_on_powers_on_the_tv() {
    let (action, response) = handle_request(HttpMethod::Post, "/tv-on");
    assert_eq!(action, RouteAction::CecPowerOn(LogicalAddress::Tv));
    assert_eq!(response.status, 200);
    assert!(response.body.is_empty());
}

#[test]
fn post_tv_off_sends_the_tv_to_standby() {
    let (action, response) = handle_request(HttpMethod::Post, "/tv-off");
    assert_eq!(action, RouteAction::CecStandby(LogicalAddress::Tv));
    assert_eq!(response.status, 200);
    assert!(response.body.is_empty());
}

#[test]
fn post_pc_off_shuts_the_host_down() {
    let (action, response) = handle_request(HttpMethod::Post, "/pc-off");
    assert_eq!(action, RouteAction::Shutdown);
    assert_eq!(response.status, 200);
    assert!(response.body.is_empty());
}

#[test]
fn unknown_path_is_ignored_but_still_succeeds() {
    let (action, response) = handle_request(HttpMethod::Post, "/reboot");
    assert_eq!(action, RouteAction::NoAction);
    assert_eq!(response.status, 200);
    assert!(response.body.is_empty());
}

#[test]
fn non_post_methods_trigger_nothing() {
    assert_eq!(route(HttpMethod::Get, "/tv-on"), RouteAction::NoAction);
    assert_eq!(route(HttpMethod::Get, "/pc-off"), RouteAction::NoAction);
    assert_eq!(route(HttpMethod::Other, "/tv-off"), RouteAction::NoAction);
}

#[test]
fn str_eq_compares_by_content() {
    assert!(str_eq("/tv-on", "/tv-on"));
    assert!(!str_eq("/tv-on", "/tv-off"));
    assert!(!str_eq("/pc-off", "/tv-off"));
    assert!(!str_eq("", "/tv-on"));
    assert!(str_eq("", ""));
}
