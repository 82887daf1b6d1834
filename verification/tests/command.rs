use obirt::command::dispatch;
use obirt::command::Action;
use obirt::command::Command;
use obirt::command::ConnectionParameters;
use obirt::command::DEFAULT_FORCE;
use obirt::command::DEFAULT_INTERFACE;
use obirt::command::DEFAULT_PORT;
use obirt::command::NO_SUBCOMMAND;

#[test]
fn defaults_are_fixed() {
    assert_eq!(DEFAULT_PORT, "9807");
    assert_eq!(DEFAULT_INTERFACE, "obr0");
    assert!(!DEFAULT_FORCE);
    assert_eq!(NO_SUBCOMMAND, "No subcommand was used");
}

#[test]
fn client_with_only_an_address_gets_the_defaults() {
    let action = dispatch(Some(Command::Client {
        address: String::from("203.0.113.5"),
        port: None,
        interface: None,
    }));
    assert_eq!(
        action,
        Action::Connect(ConnectionParameters {
            address: String::from("203.0.113.5"),
            port: String::from("9807"),
            interface_name: String::from("obr0"),
        })
    );
}

#[test]
fn client_options_are_passed_on_unchanged() {
    let action = dispatch(Some(Command::Client {
        address: String::from("tunnel.example"),
        port: Some(String::from("not a number")),
        interface: Some(String::from("tun7")),
    }));
    assert_eq!(
        action,
        Action::Connect(ConnectionParameters {
            address: String::from("tunnel.example"),
            port: String::from("not a number"),
            interface_name: String::from("tun7"),
        })
    );
}

#[test]
fn client_port_alone_leaves_the_default_interface() {
    let action = dispatch(Some(Command::Client {
        address: String::from("198.51.100.9"),
        port: Some(String::from("4000")),
        interface: None,
    }));
    assert_eq!(
        action,
        Action::Connect(ConnectionParameters {
            address: String::from("198.51.100.9"),
            port: String::from("4000"),
            interface_name: String::from("obr0"),
        })
    );
}

#[test]
fn client_interface_alone_leaves_the_default_port() {
    let action = dispatch(Some(Command::Client {
        address: String::from("198.51.100.9"),
        port: None,
        interface: Some(String::from("obr1")),
    }));
    assert_eq!(
        action,
        Action::Connect(ConnectionParameters {
            address: String::from("198.51.100.9"),
            port: String::from("9807"),
            interface_name: String::from("obr1"),
        })
    );
}

#[test]
fn an_empty_address_is_not_judged() {
    let parameters = ConnectionParameters::new(String::new(), None, None);
    assert_eq!(parameters.address, "");
    assert_eq!(parameters.port, "9807");
    assert_eq!(parameters.interface_name, "obr0");
}

#[test]
fn server_serves() {
    assert_eq!(dispatch(Some(Command::Server)), Action::Serve);
}

#[test]
fn generate_without_a_flag_does_not_force() {
    assert_eq!(
        dispatch(Some(Command::Generate { force: None })),
        Action::Generate { force: false }
    );
}

#[test]
fn generate_passes_the_flag_on() {
    assert_eq!(
        dispatch(Some(Command::Generate { force: Some(true) })),
        Action::Generate { force: true }
    );
    assert_eq!(
        dispatch(Some(Command::Generate { force: Some(false) })),
        Action::Generate { force: false }
    );
}

#[test]
fn info_does_nothing() {
    assert_eq!(dispatch(Some(Command::Info)), Action::Nothing);
}

#[test]
fn no_subcommand_is_reported() {
    assert_eq!(dispatch(None), Action::ReportNoSubcommand);
}
