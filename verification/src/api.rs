//! Records that the remote daemon reports, as plain values.
//!
//! Each record is a snapshot: a refresh replaces it whole, nothing edits it
//! in place.

use vstd::prelude::*;

verus! {

/// One torrent as the daemon lists it.
#[derive(Debug)]
pub struct Torrent {
    /// Identity of the torrent; no two listed torrents share it.
    pub hash: String,
    pub name: String,
    /// Total size in bytes.
    pub size: i64,
    /// Completion in whole percent.
    pub progress: u8,
    /// Download rate in bytes per second.
    pub dlspeed: i64,
    /// Upload rate in bytes per second.
    pub upspeed: i64,
    /// Estimated seconds until completion, where the daemon gives one.
    pub eta: Option<i64>,
    /// State label, such as `downloading` or `pausedUP`.
    pub state: String,
    pub priority: Option<i32>,
    pub num_seeds: Option<i32>,
    pub num_leechs: Option<i32>,
    /// Share ratio in thousandths.
    pub ratio: Option<i64>,
    pub category: Option<String>,
    pub tags: Option<String>,
    pub added_on: Option<i64>,
    pub completion_on: Option<i64>,
    pub downloaded: Option<i64>,
    pub uploaded: Option<i64>,
}

impl Clone for Torrent {
    fn clone(&self) -> (copy: Self)
        ensures
            copy == *self,
    {
        Torrent {
            hash: self.hash.clone(),
            name: self.name.clone(),
            size: self.size,
            progress: self.progress,
            dlspeed: self.dlspeed,
            upspeed: self.upspeed,
            eta: self.eta,
            state: self.state.clone(),
            priority: self.priority,
            num_seeds: self.num_seeds,
            num_leechs: self.num_leechs,
            ratio: self.ratio,
            category: self.category.clone(),
            tags: self.tags.clone(),
            added_on: self.added_on,
            completion_on: self.completion_on,
            downloaded: self.downloaded,
            uploaded: self.uploaded,
        }
    }
}

/// Transfer summary of the daemon as a whole.
#[derive(Debug)]
pub struct ServerState {
    pub connection_status: String,
    pub dht_nodes: Option<i32>,
    pub dl_info_data: i64,
    pub dl_info_speed: i64,
    pub dl_rate_limit: Option<i64>,
    pub up_info_data: i64,
    pub up_info_speed: i64,
    pub up_rate_limit: Option<i64>,
    pub queueing: Option<bool>,
    pub use_alt_speed_limits: Option<bool>,
    pub refresh_interval: Option<i32>,
}

impl Clone for ServerState {
    fn clone(&self) -> (copy: Self)
        ensures
            copy == *self,
    {
        ServerState {
            connection_status: self.connection_status.clone(),
            dht_nodes: self.dht_nodes,
            dl_info_data: self.dl_info_data,
            dl_info_speed: self.dl_info_speed,
            dl_rate_limit: self.dl_rate_limit,
            up_info_data: self.up_info_data,
            up_info_speed: self.up_info_speed,
            up_rate_limit: self.up_rate_limit,
            queueing: self.queueing,
            use_alt_speed_limits: self.use_alt_speed_limits,
            refresh_interval: self.refresh_interval,
        }
    }
}

/// A category that torrents can be filed under.
#[allow(non_snake_case)]
#[derive(Debug)]
pub struct Category {
    pub name: String,
    pub savePath: String,
}

impl Clone for Category {
    fn clone(&self) -> (copy: Self)
        ensures
            copy == *self,
    {
        Category { name: self.name.clone(), savePath: self.savePath.clone() }
    }
}

} // verus!
