//! The command line of the device's agent, after its arguments are parsed.

use vstd::prelude::*;
use crate::client::{ClientConfig, ClientConfigView};
use crate::options::CollectorOptions;
use crate::text::opt_text;

verus! {

/// How the agent runs: once, or again and again with a pause in seconds.
#[derive(Clone, Copy, Debug, PartialEq, Eq, Structural)]
pub enum RunOpt {
    Normal { cpu: bool, memory: bool, os: bool, network: bool, filesystem: bool, swap: bool },
    Service {
        cpu: bool,
        memory: bool,
        os: bool,
        network: bool,
        filesystem: bool,
        swap: bool,
        sleep_interval: u64,
    },
}

/// What the agent is asked to do.
#[derive(Debug, PartialEq, Eq)]
pub enum Cli {
    Run(RunOpt),
    Configure {
        api_key: Option<String>,
        profile_key: Option<String>,
        profile_id: Option<u32>,
        server_url: Option<String>,
    },
}

/// The agent's configuration: the server, and the device it reports for.
#[derive(Debug, PartialEq, Eq)]
pub struct CliConfig {
    pub client: ClientConfig,
    pub profile_key: String,
    pub profile_id: u32,
}

pub struct CliConfigView {
    pub client: ClientConfigView,
    pub profile_key: Seq<char>,
    pub profile_id: u32,
}

impl View for CliConfig {
    type V = CliConfigView;

    open spec fn view(&self) -> CliConfigView {
        CliConfigView {
            client: self.client@,
            profile_key: self.profile_key@,
            profile_id: self.profile_id,
        }
    }
}

impl RunOpt {
    pub open spec fn options_of(self) -> CollectorOptions {
        match self {
            RunOpt::Normal { cpu, memory, os, network, filesystem, swap } => CollectorOptions {
                cpu,
                memory,
                os,
                network,
                filesystem,
                swap,
            },
            RunOpt::Service {
                cpu,
                memory,
                os,
                network,
                filesystem,
                swap,
                sleep_interval,
            } => CollectorOptions { cpu, memory, os, network, filesystem, swap },
        }
    }

    /// The sections that the collector is to fill.
    pub fn options(&self) -> (r: CollectorOptions)
        ensures
            r == self.options_of(),
    {
        match self {
            RunOpt::Normal { cpu, memory, os, network, filesystem, swap } => CollectorOptions::new(
                *cpu,
                *memory,
                *os,
                *network,
                *filesystem,
                *swap,
            ),
            RunOpt::Service {
                cpu,
                memory,
                os,
                network,
                filesystem,
                swap,
                sleep_interval,
            } => CollectorOptions::new(*cpu, *memory, *os, *network, *filesystem, *swap),
        }
    }

    /// The pause between two runs, in seconds; none for a single run.
    pub fn interval(&self) -> (r: Option<u64>)
        ensures
            r == (match *self {
                RunOpt::Normal { .. } => None,
                RunOpt::Service { sleep_interval, .. } => Some(sleep_interval),
            }),
    {
        match self {
            RunOpt::Normal { .. } => None,
            RunOpt::Service { sleep_interval, .. } => Some(*sleep_interval),
        }
    }
}

/// The text that a setting has after it was configured: the new one
/// where one was given, else the old one.
pub open spec fn set_text(old_text: Seq<char>, given: Option<Seq<char>>) -> Seq<char> {
    match given {
        Some(text) => text,
        None => old_text,
    }
}

impl CliConfig {
    /// The configuration of an agent that was never configured.
    pub fn empty() -> (r: Self)
        ensures
            r@ == (CliConfigView {
                client: ClientConfigView {
                    api_key: Seq::<char>::empty(),
                    server_url: Seq::<char>::empty(),
                },
                profile_key: Seq::<char>::empty(),
                profile_id: 0,
            }),
    {
        CliConfig {
            client: ClientConfig { api_key: String::new(), server_url: String::new() },
            profile_key: String::new(),
            profile_id: 0,
        }
    }

    /// Sets what was given and keeps the rest.
    pub fn configure(
        self,
        api_key: Option<String>,
        profile_key: Option<String>,
        profile_id: Option<u32>,
        server_url: Option<String>,
    ) -> (r: Self)
        ensures
            r@ == (CliConfigView {
                client: ClientConfigView {
                    api_key: set_text(self@.client.api_key, opt_text(api_key)),
                    server_url: set_text(self@.client.server_url, opt_text(server_url)),
                },
                profile_key: set_text(self@.profile_key, opt_text(profile_key)),
                profile_id: match profile_id {
                    Some(id) => id,
                    None => self.profile_id,
                },
            }),
    {
        let mut config = self;
        if let Some(key) = api_key {
            config.client.api_key = key;
        }
        if let Some(key) = profile_key {
            config.profile_key = key;
        }
        if let Some(id) = profile_id {
            config.profile_id = id;
        }
        if let Some(url) = server_url {
            config.client.server_url = url;
        }
        config
    }
}

} // verus!
