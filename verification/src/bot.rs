//! The chat bot's configuration and the routing of its `profile` command.

use vstd::prelude::*;
use vstd::string::StringSliceAdditionalSpecFns;
use crate::text::same_text;
use crate::users::{parse_allowed_users, parsed_users};

verus! {

/// What the bot reads from its environment.
#[derive(Debug, PartialEq, Eq)]
pub struct AppConfigurations {
    pub bot_token: String,
    pub server_url: String,
    pub api_token: String,
    pub read_token: String,
    pub allowed_users: Vec<u64>,
}

impl AppConfigurations {
    /// The configuration from the five values that the environment holds
    /// for the bot: its token, the server's address, the two keys, and
    /// the list of the users who may use it.  There is none where the
    /// list is not a list of users.
    pub fn from_values(
        bot_token: String,
        server_url: String,
        api_token: String,
        read_token: String,
        allowed_users: &str,
    ) -> (r: Option<AppConfigurations>)
        ensures
            match parsed_users(allowed_users.spec_bytes(), 0) {
                Some(users) => r matches Some(c) && c.bot_token@ == bot_token@ && c.server_url@
                    == server_url@ && c.api_token@ == api_token@ && c.read_token@ == read_token@
                    && c.allowed_users@ == users,
                None => r is None,
            },
    {
        match parse_allowed_users(allowed_users) {
            Some(users) => Some(
                AppConfigurations {
                    bot_token,
                    server_url,
                    api_token,
                    read_token,
                    allowed_users: users,
                },
            ),
            None => None,
        }
    }
}

/// What the bot's commands need: the server, its two keys, and the users
/// who may use the commands.
#[derive(Debug, PartialEq, Eq)]
pub struct BotConfig {
    server_url: String,
    api_token: String,
    read_token: String,
    allowed_users: Vec<u64>,
}

pub struct BotConfigView {
    pub server_url: Seq<char>,
    pub api_token: Seq<char>,
    pub read_token: Seq<char>,
    pub allowed_users: Seq<u64>,
}

impl View for BotConfig {
    type V = BotConfigView;

    closed spec fn view(&self) -> BotConfigView {
        BotConfigView {
            server_url: self.server_url@,
            api_token: self.api_token@,
            read_token: self.read_token@,
            allowed_users: self.allowed_users@,
        }
    }
}

impl BotConfig {
    pub fn new(api_token: &str, read_token: &str, server_url: &str, allowed_users: &[u64]) -> (r: Self)
        ensures
            r@ == (BotConfigView {
                server_url: server_url@,
                api_token: api_token@,
                read_token: read_token@,
                allowed_users: allowed_users@,
            }),
    {
        Self {
            api_token: api_token.to_owned(),
            read_token: read_token.to_owned(),
            server_url: server_url.to_owned(),
            allowed_users: vstd::slice::slice_to_vec(allowed_users),
        }
    }

    pub fn api_token(&self) -> (r: &str)
        ensures
            r@ == self@.api_token,
    {
        self.api_token.as_str()
    }

    pub fn read_token(&self) -> (r: &str)
        ensures
            r@ == self@.read_token,
    {
        self.read_token.as_str()
    }

    pub fn server_url(&self) -> (r: &str)
        ensures
            r@ == self@.server_url,
    {
        self.server_url.as_str()
    }

    pub fn allowed_users(&self) -> (r: &[u64])
        ensures
            r@ == self@.allowed_users,
    {
        self.allowed_users.as_slice()
    }

    /// Whether a user may use the bot's commands.
    pub fn is_allowed(&self, user: u64) -> (r: bool)
        ensures
            r == self@.allowed_users.contains(user),
    {
        let mut i: usize = 0;
        while i < self.allowed_users.len()
            invariant
                i <= self.allowed_users.len(),
                forall|j: int| 0 <= j < i ==> self.allowed_users@[j] != user,
            decreases self.allowed_users.len() - i,
        {
            if self.allowed_users[i] == user {
                return true;
            }
            i = i + 1;
        }
        false
    }
}

/// The `profile` command of the bot.
#[derive(Clone, Copy, Debug, PartialEq, Eq, Structural)]
pub struct ProfileCommand;

/// What the `profile` command does with an interaction.
#[derive(Clone, Copy, Debug, PartialEq, Eq, Structural)]
pub enum ProfileRoute {
    /// The user may not use the command.
    NotAllowed,
    /// Register a device.
    Create,
    /// Show the registered devices.
    View,
    /// The command has no such option.
    InvalidOption,
}

/// Where an interaction goes: nowhere for a user who is not allowed,
/// else by the name of the command's first option.
pub open spec fn routed(allowed: bool, option: Seq<char>) -> ProfileRoute {
    if !allowed {
        ProfileRoute::NotAllowed
    } else if option == "create"@ {
        ProfileRoute::Create
    } else if option == "view"@ {
        ProfileRoute::View
    } else {
        ProfileRoute::InvalidOption
    }
}

impl ProfileCommand {
    /// The name under which the command is registered.
    pub fn name(&self) -> (r: String)
        ensures
            r@ == "profile"@,
    {
        "profile".to_owned()
    }

    /// Decides what to do with an interaction of `user` whose first
    /// option is named `option`.
    pub fn dispatch(&self, config: &BotConfig, user: u64, option: &str) -> (r: ProfileRoute)
        ensures
            r == routed(config@.allowed_users.contains(user), option@),
    {
        if !config.is_allowed(user) {
            ProfileRoute::NotAllowed
        } else if same_text(option, "create") {
            ProfileRoute::Create
        } else if same_text(option, "view") {
            ProfileRoute::View
        } else {
            ProfileRoute::InvalidOption
        }
    }
}

} // verus!
