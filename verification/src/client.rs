//! The device's side of the service: which request each operation sends.
//!
//! A request is described here as plain values; sending it is the
//! caller's.  The caller joins the server's address, the path and, where
//! there is one, the device's id with `/`.

use vstd::prelude::*;
use crate::text::opt_text;

verus! {

/// Where the server is and the API key to show it.
#[derive(Debug, PartialEq, Eq)]
pub struct ClientConfig {
    pub api_key: String,
    pub server_url: String,
}

pub struct ClientConfigView {
    pub api_key: Seq<char>,
    pub server_url: Seq<char>,
}

impl View for ClientConfig {
    type V = ClientConfigView;

    open spec fn view(&self) -> ClientConfigView {
        ClientConfigView { api_key: self.api_key@, server_url: self.server_url@ }
    }
}

impl Clone for ClientConfig {
    fn clone(&self) -> (r: Self)
        ensures
            r@ == self@,
    {
        ClientConfig { api_key: self.api_key.clone(), server_url: self.server_url.clone() }
    }
}

impl ClientConfig {
    pub fn new(api_key: &str, server_url: &str) -> (r: Self)
        ensures
            r@ == (ClientConfigView { api_key: api_key@, server_url: server_url@ }),
    {
        Self { api_key: api_key.to_owned(), server_url: server_url.to_owned() }
    }
}

/// The method of a request.
#[derive(Clone, Copy, Debug, PartialEq, Eq, Structural)]
pub enum Method {
    Get,
    Post,
}

/// A request to the service: its method, its path below the server's
/// address, the device it is for, and the keys it shows.
#[derive(Debug, PartialEq, Eq)]
pub struct ClientRequest {
    pub method: Method,
    pub sub_path: String,
    pub profile_id: Option<i32>,
    pub api_key: String,
    pub profile_key: Option<String>,
    pub read_key: Option<String>,
}

pub struct ClientRequestView {
    pub method: Method,
    pub sub_path: Seq<char>,
    pub profile_id: Option<i32>,
    pub api_key: Seq<char>,
    pub profile_key: Option<Seq<char>>,
    pub read_key: Option<Seq<char>>,
}

impl View for ClientRequest {
    type V = ClientRequestView;

    open spec fn view(&self) -> ClientRequestView {
        ClientRequestView {
            method: self.method,
            sub_path: self.sub_path@,
            profile_id: self.profile_id,
            api_key: self.api_key@,
            profile_key: opt_text(self.profile_key),
            read_key: opt_text(self.read_key),
        }
    }
}

/// A client of one server.
#[derive(Debug, PartialEq, Eq)]
pub struct SysInfoClient {
    pub config: ClientConfig,
}

impl View for SysInfoClient {
    type V = ClientConfigView;

    open spec fn view(&self) -> ClientConfigView {
        self.config@
    }
}

impl SysInfoClient {
    pub fn new(config: ClientConfig) -> (r: Self)
        ensures
            r@ == config@,
    {
        Self { config }
    }

    /// Asks the server for its version: `GET /`.
    pub fn get_version(&self) -> (r: ClientRequest)
        ensures
            r@ == (ClientRequestView {
                method: Method::Get,
                sub_path: Seq::<char>::empty(),
                profile_id: None,
                api_key: self@.api_key,
                profile_key: None,
                read_key: None,
            }),
    {
        ClientRequest {
            method: Method::Get,
            sub_path: String::new(),
            profile_id: None,
            api_key: self.config.api_key.clone(),
            profile_key: None,
            read_key: None,
        }
    }

    /// Asks the server for the list of profiles: `GET /profiles`, with the
    /// read key.
    pub fn get_profiles(&self, read_key: &str) -> (r: ClientRequest)
        ensures
            r@ == (ClientRequestView {
                method: Method::Get,
                sub_path: "profiles"@,
                profile_id: None,
                api_key: self@.api_key,
                profile_key: None,
                read_key: Some(read_key@),
            }),
    {
        ClientRequest {
            method: Method::Get,
            sub_path: "profiles".to_owned(),
            profile_id: None,
            api_key: self.config.api_key.clone(),
            profile_key: None,
            read_key: Some(read_key.to_owned()),
        }
    }

    /// Registers a device: `POST /profiles`.
    pub fn post_profile(&self) -> (r: ClientRequest)
        ensures
            r@ == (ClientRequestView {
                method: Method::Post,
                sub_path: "profiles"@,
                profile_id: None,
                api_key: self@.api_key,
                profile_key: None,
                read_key: None,
            }),
    {
        ClientRequest {
            method: Method::Post,
            sub_path: "profiles".to_owned(),
            profile_id: None,
            api_key: self.config.api_key.clone(),
            profile_key: None,
            read_key: None,
        }
    }

    fn post_with_profile_key(&self, profile_id: i32, profile_key: &str, sub_path: &str) -> (r:
        ClientRequest)
        ensures
            r@ == (ClientRequestView {
                method: Method::Post,
                sub_path: sub_path@,
                profile_id: Some(profile_id),
                api_key: self@.api_key,
                profile_key: Some(profile_key@),
                read_key: None,
            }),
    {
        ClientRequest {
            method: Method::Post,
            sub_path: sub_path.to_owned(),
            profile_id: Some(profile_id),
            api_key: self.config.api_key.clone(),
            profile_key: Some(profile_key.to_owned()),
            read_key: None,
        }
    }

    /// Submits a snapshot of a device: `POST /system-info/` and the id.
    pub fn post_sys_info(&self, profile_id: i32, profile_key: &str) -> (r: ClientRequest)
        ensures
            r@ == (ClientRequestView {
                method: Method::Post,
                sub_path: "system-info"@,
                profile_id: Some(profile_id),
                api_key: self@.api_key,
                profile_key: Some(profile_key@),
                read_key: None,
            }),
    {
        self.post_with_profile_key(profile_id, profile_key, "system-info")
    }

    /// Appends to the error log of a device: `POST /error/` and the id.
    pub fn post_error_log(&self, profile_id: i32, profile_key: &str) -> (r: ClientRequest)
        ensures
            r@ == (ClientRequestView {
                method: Method::Post,
                sub_path: "error"@,
                profile_id: Some(profile_id),
                api_key: self@.api_key,
                profile_key: Some(profile_key@),
                read_key: None,
            }),
    {
        self.post_with_profile_key(profile_id, profile_key, "error")
    }
}

} // verus!
