//! Settings that outlive a session: the last connection and the time zone.
//!
//! This module holds the values and the rules for changing them. Reading and
//! writing the settings file is left to the program.

use crate::utils::{is_valid_timezone, timezone_known};
use vstd::prelude::*;

verus! {

/// Name of the time zone used where none is set.
pub open spec fn default_timezone() -> Seq<char> {
    "UTC"@
}

/// The persisted settings.
#[derive(Debug)]
pub struct Config {
    /// Endpoint of the last successful login.
    pub url: Option<String>,
    /// User name of the last successful login.
    pub username: Option<String>,
    /// Name of the time zone for timestamps.
    pub timezone: Option<String>,
}

impl Default for Config {
    /// No remembered connection, and the default time zone.
    fn default() -> (config: Self)
        ensures
            config.url is None,
            config.username is None,
            config.timezone matches Some(zone) && zone@ == default_timezone(),
    {
        Config { url: None, username: None, timezone: Some("UTC".to_owned()) }
    }
}

impl Clone for Config {
    fn clone(&self) -> (copy: Self)
        ensures
            copy == *self,
    {
        Config {
            url: self.url.clone(),
            username: self.username.clone(),
            timezone: self.timezone.clone(),
        }
    }
}

impl Config {
    /// The time zone to use: the one set, or the default.
    pub open spec fn zone(&self) -> Seq<char> {
        match self.timezone {
            Some(zone) => zone@,
            None => default_timezone(),
        }
    }

    /// Remembers the endpoint and the user name of a successful login.
    pub fn update_connection_info(&mut self, url: &str, username: &str)
        ensures
            final(self).url matches Some(kept) && kept@ == url@,
            final(self).username matches Some(kept) && kept@ == username@,
            final(self).timezone == old(self).timezone,
    {
        self.url = Some(url.to_owned());
        self.username = Some(username.to_owned());
    }

    /// The remembered endpoint, if any.
    pub fn get_last_url(&self) -> (url: Option<String>)
        ensures
            url == self.url,
    {
        self.url.clone()
    }

    /// The remembered user name, if any.
    pub fn get_last_username(&self) -> (username: Option<String>)
        ensures
            username == self.username,
    {
        self.username.clone()
    }

    /// The time zone to use: the one set, or the default.
    pub fn get_timezone(&self) -> (zone: String)
        ensures
            zone@ == self.zone(),
    {
        match &self.timezone {
            Some(zone) => zone.clone(),
            None => "UTC".to_owned(),
        }
    }

    /// Sets the time zone, whatever the name.
    pub fn set_timezone(&mut self, timezone: &str)
        ensures
            final(self).timezone matches Some(zone) && zone@ == timezone@,
            final(self).url == old(self).url,
            final(self).username == old(self).username,
    {
        self.timezone = Some(timezone.to_owned());
    }

    /// Sets the time zone if the time zone database knows the name, and
    /// reports whether it did. An unknown name leaves the settings as they
    /// were.
    pub fn override_timezone(&mut self, timezone: &str) -> (accepted: bool)
        ensures
            accepted == timezone_known(timezone@),
            accepted ==> final(self).zone() == timezone@ && final(self).url == old(self).url
                && final(self).username == old(self).username,
            !accepted ==> *final(self) == *old(self),
    {
        if is_valid_timezone(timezone) {
            self.set_timezone(timezone);
            true
        } else {
            false
        }
    }
}

} // verus!
