use email_mock::service::cors_policy;
use email_mock::service::listen_address;
use email_mock::service::routes;
use email_mock::service::Endpoint;
use email_mock::service::Method;
use email_mock::service::LISTEN_PORT;
use email_mock::shutdown::shutdown_signal;
use email_mock::shutdown::Phase;
use email_mock::shutdown::Signal;

#[test]
fn routes_lists_the_three_endpoints() {
    assert_eq!(
        routes(),
        vec![Endpoint::SendEmail, Endpoint::CheckEmail, Endpoint::Healthcheck]
    );
}

#[test]
fn send_email_route() {
    assert_eq!(Endpoint::SendEmail.method(), Method::Post);
    assert_eq!(Endpoint::SendEmail.path(), "/v1/smtp/:which");
}

#[test]
fn check_email_route() {
    assert_eq!(Endpoint::CheckEmail.method(), Method::Get);
    assert_eq!(Endpoint::CheckEmail.path(), "/v1/check/email/:email");
}

#[test]
fn healthcheck_route() {
    assert_eq!(Endpoint::Healthcheck.method(), Method::Get);
    assert_eq!(Endpoint::Healthcheck.path(), "/healthcheck");
}

#[test]
fn route_paths_are_distinct() {
    let table = routes();
    for (i, a) in table.iter().enumerate() {
        for b in table.iter().skip(i + 1) {
            assert_ne!(a.path(), b.path());
        }
    }
}

#[test]
fn cors_allows_get_and_post_from_anywhere() {
    let policy = cors_policy();
    assert_eq!(policy.allow_methods, vec![Method::Get, Method::Post]);
    assert!(policy.allow_any_origin);
}

#[test]
fn listens_on_port_8001_on_all_interfaces() {
    assert_eq!(LISTEN_PORT, 8001);
    assert_eq!(listen_address(), "0.0.0.0:8001");
    assert_eq!(listen_address(), format!("0.0.0.0:{}", LISTEN_PORT));
}

#[test]
fn first_terminate_starts_the_drain() {
    let transition = shutdown_signal(Phase::Serving, Signal::Terminate);
    assert_eq!(transition.next, Phase::Draining);
    assert!(transition.begin_drain);
    assert_eq!(transition.notice, Some("Terminate signal received".to_string()));
}

#[test]
fn interrupt_and_terminate_are_treated_alike() {
    assert_eq!(
        shutdown_signal(Phase::Serving, Signal::Interrupt),
        shutdown_signal(Phase::Serving, Signal::Terminate)
    );
    assert_eq!(
        shutdown_signal(Phase::Draining, Signal::Interrupt),
        shutdown_signal(Phase::Draining, Signal::Terminate)
    );
}

#[test]
fn second_signal_changes_nothing() {
    let first = shutdown_signal(Phase::Serving, Signal::Interrupt);
    let second = shutdown_signal(first.next, Signal::Terminate);
    assert_eq!(second.next, Phase::Draining);
    assert!(!second.begin_drain);
    assert_eq!(second.notice, None);
}
