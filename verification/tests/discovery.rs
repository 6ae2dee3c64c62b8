use ringtostdout::discovery::ServiceResolver;
use ringtostdout::discovery::classify_discovery;
use ringtostdout::errors::Error;

#[test]
fn empty_discovery_means_no_registrar() {
    assert_eq!(classify_discovery(Ok(vec![])), Err(Error::NoRegistrar));
}

#[test]
fn first_advertised_port_wins() {
    assert_eq!(classify_discovery(Ok(vec![4100, 5200, 6300])), Ok(4100));
}

#[test]
fn discovery_failure_keeps_its_detail() {
    assert_eq!(
        classify_discovery(Err(String::from("Connection to port manager failed"))),
        Err(Error::DiscoveryError(String::from(
            "Connection to port manager failed"
        )))
    );
}

#[test]
fn no_registrar_renders_a_fixed_message() {
    assert_eq!(Error::NoRegistrar.message(), "The ring master is not running");
}

#[test]
fn rejection_message_carries_the_reply_line() {
    let e = Error::RegistrationRejected(String::from("ERROR ring busy"));
    assert_eq!(
        e.message(),
        "Registration rejected by the ring master: ERROR ring busy"
    );
}

#[test]
fn resolver_defaults_to_port_30000() {
    let r = ServiceResolver::new();
    assert_eq!(r.portman_port, 30000);
}

#[test]
fn resolver_port_can_be_overridden() {
    let mut r = ServiceResolver::new();
    r.set_portman_port(31234);
    assert_eq!(r.portman_port, 31234);
}
