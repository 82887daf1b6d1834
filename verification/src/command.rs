//! The command dispatcher: from a parsed command line to the one action the
//! process performs.
//!
//! Parsing the arguments is the host's business. What arrives here is a
//! [`Command`] in which every option the operator left out is `None`; what
//! leaves is an [`Action`] with every default filled in.

use vstd::prelude::*;

verus! {

/// The port a client connects to when the operator names none.
pub const DEFAULT_PORT: &'static str = "9807";

/// The virtual network interface a client uses when the operator names none.
pub const DEFAULT_INTERFACE: &'static str = "obr0";

/// Whether `generate` overwrites an existing keypair when the operator does
/// not say.
pub const DEFAULT_FORCE: bool = false;

/// The diagnostic printed when the command line names no subcommand.
pub const NO_SUBCOMMAND: &'static str = "No subcommand was used";

/// A subcommand as the operator gave it.
#[derive(Clone, Debug, PartialEq, Eq)]
pub enum Command {
    /// `client <ADDRESS> [-p PORT] [-i INTERFACE]`
    Client { address: String, port: Option<String>, interface: Option<String> },
    /// `server`
    Server,
    /// `generate [-f FORCE]`
    Generate { force: Option<bool> },
    /// `info`
    Info,
}

/// What the client hands to the tunnel when it connects.
#[derive(Clone, Debug, PartialEq, Eq)]
pub struct ConnectionParameters {
    pub address: String,
    pub port: String,
    pub interface_name: String,
}

/// What a [`ConnectionParameters`] holds, as plain text.
pub struct ConnectionText {
    pub address: Seq<char>,
    pub port: Seq<char>,
    pub interface_name: Seq<char>,
}

impl View for ConnectionParameters {
    type V = ConnectionText;

    open spec fn view(&self) -> ConnectionText {
        ConnectionText {
            address: self.address@,
            port: self.port@,
            interface_name: self.interface_name@,
        }
    }
}

/// The one thing the process does for a command line.
#[derive(Clone, Debug, PartialEq, Eq)]
pub enum Action {
    /// Hand the parameters to the tunnel's `connect` and stay until the
    /// session ends.
    Connect(ConnectionParameters),
    /// Run the tunnel's `serve` until the process is stopped.
    Serve,
    /// Provision the keypair and print how it ended.
    Generate { force: bool },
    /// Do nothing: the command is reserved.
    Nothing,
    /// Print [`NO_SUBCOMMAND`].
    ReportNoSubcommand,
}

/// The text of an option, or of its default where it was left out.
pub open spec fn text_or(option: Option<String>, default: Seq<char>) -> Seq<char> {
    match option {
        Some(text) => text@,
        None => default,
    }
}

/// The parameters a `client` command stands for.
pub open spec fn connection_of(
    address: String,
    port: Option<String>,
    interface: Option<String>,
) -> ConnectionText {
    ConnectionText {
        address: address@,
        port: text_or(port, DEFAULT_PORT@),
        interface_name: text_or(interface, DEFAULT_INTERFACE@),
    }
}

/// `action` is what `command` asks for.
pub open spec fn routes(command: Option<Command>, action: Action) -> bool {
    match command {
        Some(Command::Client { address, port, interface }) => {
            &&& action matches Action::Connect(parameters)
            &&& parameters@ == connection_of(address, port, interface)
        },
        Some(Command::Server) => action is Serve,
        Some(Command::Generate { force }) => {
            &&& action matches Action::Generate { force: decided }
            &&& decided == match force {
                Some(given) => given,
                None => DEFAULT_FORCE,
            }
        },
        Some(Command::Info) => action is Nothing,
        None => action is ReportNoSubcommand,
    }
}

impl ConnectionParameters {
    /// The parameters of a connection to `address`, with the default for
    /// each option that is `None`. What is given is passed on as it is.
    pub fn new(address: String, port: Option<String>, interface: Option<String>) -> (parameters:
        ConnectionParameters)
        ensures
            parameters@ == connection_of(address, port, interface),
            parameters@.address == address@,
            port is None ==> parameters@.port == "9807"@,
            interface is None ==> parameters@.interface_name == "obr0"@,
    {
        let port = match port {
            Some(given) => given,
            None => DEFAULT_PORT.to_owned(),
        };
        let interface_name = match interface {
            Some(given) => given,
            None => DEFAULT_INTERFACE.to_owned(),
        };
        ConnectionParameters { address, port, interface_name }
    }
}

/// Selects the action for a command line: exactly one, by the subcommand
/// alone.
pub fn dispatch(command: Option<Command>) -> (action: Action)
    ensures
        routes(command, action),
        command matches Some(Command::Client { address, port: None, interface: None })
            ==> action matches Action::Connect(parameters) && parameters@ == (ConnectionText {
            address: address@,
            port: "9807"@,
            interface_name: "obr0"@,
        }),
{
    match command {
        Some(Command::Client { address, port, interface }) => Action::Connect(
            ConnectionParameters::new(address, port, interface),
        ),
        Some(Command::Server) => Action::Serve,
        Some(Command::Generate { force }) => match force {
            Some(given) => Action::Generate { force: given },
            None => Action::Generate { force: DEFAULT_FORCE },
        },
        Some(Command::Info) => Action::Nothing,
        None => Action::ReportNoSubcommand,
    }
}

} // verus!
