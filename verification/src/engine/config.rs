//! The commands that a configuration card carries: one command character,
//! then the argument of the command.

use crate::network::task::ConnectionState;
use crate::network::task::ConnectionStateView;
use vstd::prelude::*;
use vstd::string::StrSliceExecFns;

verus! {

/// What the JSON parser makes of `text` where a pair of strings is asked
/// for: the pair, or nothing where it refuses the text.
pub uninterp spec fn json_string_pair(text: Seq<char>) -> Option<(Seq<char>, Seq<char>)>;

/// What the JSON parser makes of `text` where a string, a port number and
/// two more strings are asked for: the four, or nothing where it refuses the
/// text.
pub uninterp spec fn json_connection(text: Seq<char>) -> Option<
    (Seq<char>, u16, Seq<char>, Seq<char>),
>;

/// `serde_json::from_str`, asked for a pair of strings: the result is the
/// one that the parser gives for this text, with its error dropped.
#[verifier::external_body]
fn parse_string_pair(text: &str) -> (res: Option<(String, String)>)
    ensures
        match json_string_pair(text@) {
            Some(pair) => res is Some && res.unwrap().0@ == pair.0 && res.unwrap().1@ == pair.1,
            None => res is None,
        },
{
    serde_json::from_str::<(String, String)>(text).ok()
}

/// `serde_json::from_str`, asked for a string, a port number and two more
/// strings: the result is the one that the parser gives for this text, with
/// its error dropped.
#[verifier::external_body]
fn parse_connection(text: &str) -> (res: Option<(String, u16, String, String)>)
    ensures
        match json_connection(text@) {
            Some(found) => {
                &&& res is Some
                &&& res.unwrap().0@ == found.0
                &&& res.unwrap().1 == found.1
                &&& res.unwrap().2@ == found.2
                &&& res.unwrap().3@ == found.3
            },
            None => res is None,
        },
{
    serde_json::from_str::<(String, u16, String, String)>(text).ok()
}

/// What a configuration card asks for.
#[derive(Debug, PartialEq, Eq)]
pub enum ConfigCommand {
    /// `w`: join this wireless network.
    SetWifiCredentials { ssid: String, password: String },
    /// `c`: connect to this server with these credentials.
    SetConnectionState(ConnectionState),
    /// `v`: allow this range of volumes; the argument is JSON text that
    /// holds the lower and the upper bound.
    SetVolumeRange { argument: String },
    /// `u`: make the next card a configuration card too.
    AddConfigCard,
    /// `r`: make this card the only configuration card.
    ResetConfigCards,
    /// `s`: shut the box down.
    Shutdown,
}

/// What a configuration command holds.
pub enum ConfigCommandView {
    SetWifiCredentials { ssid: Seq<char>, password: Seq<char> },
    SetConnectionState(ConnectionStateView),
    SetVolumeRange { argument: Seq<char> },
    AddConfigCard,
    ResetConfigCards,
    Shutdown,
}

impl View for ConfigCommand {
    type V = ConfigCommandView;

    open spec fn view(&self) -> ConfigCommandView {
        match *self {
            ConfigCommand::SetWifiCredentials { ssid, password } => {
                ConfigCommandView::SetWifiCredentials { ssid: ssid@, password: password@ }
            },
            ConfigCommand::SetConnectionState(state) => ConfigCommandView::SetConnectionState(
                state@,
            ),
            ConfigCommand::SetVolumeRange { argument } => ConfigCommandView::SetVolumeRange {
                argument: argument@,
            },
            ConfigCommand::AddConfigCard => ConfigCommandView::AddConfigCard,
            ConfigCommand::ResetConfigCards => ConfigCommandView::ResetConfigCards,
            ConfigCommand::Shutdown => ConfigCommandView::Shutdown,
        }
    }
}

/// Why a configuration card asks for nothing that can be done.
#[derive(Clone, Copy, Debug, PartialEq, Eq, Structural)]
pub enum ConfigError {
    /// The card holds no data.
    CardIsEmpty,
    /// The card holds an empty text.
    EmptyCardData,
    /// The argument of the command is not the JSON that the command takes.
    MalformedArgument,
    /// The command character stands for no command.
    UnknownCommand(char),
}

/// The command of a card with the Wi-Fi command, given what the JSON parser
/// made of its argument.
pub open spec fn wifi_command(parsed: Option<(Seq<char>, Seq<char>)>) -> Result<
    ConfigCommandView,
    ConfigError,
> {
    match parsed {
        Some((ssid, password)) => Ok(ConfigCommandView::SetWifiCredentials { ssid, password }),
        None => Err(ConfigError::MalformedArgument),
    }
}

/// The command of a card with the connection command, given what the JSON
/// parser made of its argument.
pub open spec fn connection_command(
    parsed: Option<(Seq<char>, u16, Seq<char>, Seq<char>)>,
) -> Result<ConfigCommandView, ConfigError> {
    match parsed {
        Some((host, port, client_id, client_secret)) => Ok(
            ConfigCommandView::SetConnectionState(
                ConnectionStateView { host, port, client_id, client_secret },
            ),
        ),
        None => Err(ConfigError::MalformedArgument),
    }
}

/// The command that the text of a card stands for: the first character
/// names the command, and what follows is its argument.
pub open spec fn config_command(data: Option<Seq<char>>) -> Result<ConfigCommandView, ConfigError> {
    match data {
        None => Err(ConfigError::CardIsEmpty),
        Some(text) => if text.len() == 0 {
            Err(ConfigError::EmptyCardData)
        } else {
            let argument = text.skip(1);
            if text[0] == 'w' {
                wifi_command(json_string_pair(argument))
            } else if text[0] == 'c' {
                connection_command(json_connection(argument))
            } else if text[0] == 'v' {
                Ok(ConfigCommandView::SetVolumeRange { argument })
            } else if text[0] == 'u' {
                Ok(ConfigCommandView::AddConfigCard)
            } else if text[0] == 'r' {
                Ok(ConfigCommandView::ResetConfigCards)
            } else if text[0] == 's' {
                Ok(ConfigCommandView::Shutdown)
            } else {
                Err(ConfigError::UnknownCommand(text[0]))
            }
        },
    }
}

/// The Wi-Fi command with the credentials that the JSON parser found, or the
/// error where it found none.
pub fn wifi_command_from(parsed: Option<(String, String)>) -> (res: Result<
    ConfigCommand,
    ConfigError,
>)
    ensures
        match parsed {
            Some(pair) => res is Ok && res.unwrap()@ == (ConfigCommandView::SetWifiCredentials {
                ssid: pair.0@,
                password: pair.1@,
            }),
            None => res is Err && res.unwrap_err() == ConfigError::MalformedArgument,
        },
{
    match parsed {
        Some((ssid, password)) => Ok(ConfigCommand::SetWifiCredentials { ssid, password }),
        None => Err(ConfigError::MalformedArgument),
    }
}

/// The connection command with the state that the JSON parser found, or the
/// error where it found none.
pub fn connection_command_from(parsed: Option<(String, u16, String, String)>) -> (res: Result<
    ConfigCommand,
    ConfigError,
>)
    ensures
        match parsed {
            Some(found) => res is Ok && res.unwrap()@ == ConfigCommandView::SetConnectionState(
                ConnectionStateView {
                    host: found.0@,
                    port: found.1,
                    client_id: found.2@,
                    client_secret: found.3@,
                },
            ),
            None => res is Err && res.unwrap_err() == ConfigError::MalformedArgument,
        },
{
    match parsed {
        Some((host, port, client_id, client_secret)) => Ok(
            ConfigCommand::SetConnectionState(
                ConnectionState { host, port, client_id, client_secret },
            ),
        ),
        None => Err(ConfigError::MalformedArgument),
    }
}

/// Reads the command of a configuration card from the text of the card.
pub fn parse_config_command(data: Option<&str>) -> (res: Result<ConfigCommand, ConfigError>)
    ensures
        match config_command(
            match data {
                Some(text) => Some(text@),
                None => None,
            },
        ) {
            Ok(command) => res is Ok && res.unwrap()@ == command,
            Err(e) => res is Err && res.unwrap_err() == e,
        },
{
    let text = match data {
        Some(text) => text,
        None => {
            return Err(ConfigError::CardIsEmpty);
        },
    };
    let length = text.unicode_len();
    if length == 0 {
        return Err(ConfigError::EmptyCardData);
    }
    let command = text.get_char(0);
    let argument = text.substring_char(1, length);
    assert(argument@ =~= text@.skip(1));
    if command == 'w' {
        wifi_command_from(parse_string_pair(argument))
    } else if command == 'c' {
        connection_command_from(parse_connection(argument))
    } else if command == 'v' {
        Ok(ConfigCommand::SetVolumeRange { argument: argument.to_owned() })
    } else if command == 'u' {
        Ok(ConfigCommand::AddConfigCard)
    } else if command == 'r' {
        Ok(ConfigCommand::ResetConfigCards)
    } else if command == 's' {
        Ok(ConfigCommand::Shutdown)
    } else {
        Err(ConfigError::UnknownCommand(command))
    }
}

} // verus!
