//! Command-line surface: commands, their arguments, and the computations
//! behind each command.
pub mod account;
pub mod activity;
pub mod attempts;
pub mod auth;
pub mod config;
pub mod doctor;
pub mod log;
pub mod me;
pub mod post;
pub mod publish;
pub mod search;
pub mod validation;

use vstd::prelude::*;

verus! {

/// The parsed command line.
pub struct Cli {
    /// Path to the configuration file.
    pub config: Option<String>,
    /// Emit JSON output.
    pub json: bool,
    pub command: Command,
}

pub enum Command {
    Auth(AuthCommand),
    Account(AccountCommand),
    Publish(PublishCommand),
    Post(PostCommand),
    Log(LogCommand),
    Attempts(AttemptsCommand),
    Config(ConfigCommand),
    Doctor(DoctorCommand),
}

pub struct AuthCommand {
    pub command: auth::AuthSubcommand,
}

pub struct AccountCommand {
    pub command: account::AccountSubcommand,
}

pub struct PublishCommand {
    pub command: publish::PublishSubcommand,
}

pub struct PostCommand {
    pub command: post::PostSubcommand,
}

pub struct LogCommand {
    pub command: log::LogSubcommand,
}

pub struct AttemptsCommand {
    pub command: attempts::AttemptsSubcommand,
}

pub struct ConfigCommand {
    pub command: config::ConfigSubcommand,
}

pub struct DoctorCommand {
    pub command: doctor::DoctorSubcommand,
}

/// The name a command reports its errors under.
pub open spec fn command_name_spec(command: Command) -> Seq<char> {
    match command {
        Command::Config(_) => "config"@,
        Command::Doctor(_) => "doctor"@,
        Command::Auth(_) => "auth"@,
        Command::Account(_) => "account"@,
        Command::Publish(_) => "publish"@,
        Command::Post(_) => "post"@,
        Command::Log(_) => "log"@,
        Command::Attempts(_) => "attempts"@,
    }
}

pub fn command_name(command: &Command) -> (r: &'static str)
    ensures
        r@ == command_name_spec(*command),
{
    match command {
        Command::Config(_) => "config",
        Command::Doctor(_) => "doctor",
        Command::Auth(_) => "auth",
        Command::Account(_) => "account",
        Command::Publish(_) => "publish",
        Command::Post(_) => "post",
        Command::Log(_) => "log",
        Command::Attempts(_) => "attempts",
    }
}

} // verus!
