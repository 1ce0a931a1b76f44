//! The settings that the service is started with, and what it is to do.

use vstd::prelude::*;

verus! {

/// The settings of one start of the service.
#[derive(Debug)]
pub struct Config {
    /// The host of the store.
    pub host: String,
    /// The name under which the service logs in to the store.
    pub username: String,
    /// The name of the database.
    pub database: String,
    /// Where the service listens: the number of its TCP socket.
    pub socket: u16,
    /// The directory of the log files.
    pub log_directory: String,
    /// Whether to create a user and leave.
    pub create_user: bool,
    /// The name of the user to create.
    pub new_username: Option<String>,
    /// The password of the user to create.
    pub new_password: Option<String>,
    /// Whether to bring the schema up to date and leave.
    pub migrate: bool,
}

/// What a start of the service is to do.
#[derive(Debug)]
pub enum Task {
    /// Bring the schema up to date, and leave.
    Migrate,
    /// Create this user, and leave.
    CreateUser { username: String, password: String },
    /// Leave: a user was to be created, and no name was given.
    MissingUsername,
    /// Leave: a user was to be created, and no password was given.
    MissingPassword,
    /// Serve requests.
    Serve,
}

/// What the settings ask for. Bringing the schema up to date goes before
/// creating a user, and both go before serving.
pub open spec fn task_of(config: Config) -> Task {
    if config.migrate {
        Task::Migrate
    } else if config.create_user {
        match (config.new_username, config.new_password) {
            (None, _) => Task::MissingUsername,
            (Some(_), None) => Task::MissingPassword,
            (Some(username), Some(password)) => Task::CreateUser { username, password },
        }
    } else {
        Task::Serve
    }
}

impl Config {
    /// What these settings ask for.
    pub fn task(&self) -> (r: Task)
        ensures
            r == task_of(*self),
    {
        if self.migrate {
            return Task::Migrate;
        }
        if self.create_user {
            let username = match &self.new_username {
                Some(username) => username.clone(),
                None => { return Task::MissingUsername; },
            };
            let password = match &self.new_password {
                Some(password) => password.clone(),
                None => { return Task::MissingPassword; },
            };
            return Task::CreateUser { username, password };
        }
        Task::Serve
    }
}

} // verus!
