//! The per-command response handlers: each names one way of decoding a
//! reply's lines into its domain type. The dispatcher binds each command to
//! one of these; they can also be used on their own against gathered reply
//! lines.

use vstd::prelude::*;
use core::marker::PhantomData;
use crate::error::Error;
use crate::mapping::{ListallResponse, listall_matches, stats_matches, status_matches,
    state_field_ok};
use crate::protocol::{DatabaseVersion, Stats, Status, Subsystem, Track, subsystem_of};
use crate::respmap::RespMap;
use crate::splitter::{ListallinfoResponse, mixed_from_lines, mixed_matches, records_of,
    tracks_from_lines, tracks_match};
use crate::text::{kv_of, split_kv, str_eq, trim_eol, trim_eol_spec};

verus! {

/// Decodes the reply to a track-returning command.
pub struct Tracks;

impl Tracks {
    /// The tracks of the reply body, in input order.
    pub fn decode(lines: &Vec<String>, diag: &mut Vec<String>) -> (r: Vec<Track>)
        ensures
            tracks_match(r@, records_of(lines.deep_view())),
            old(diag)@.is_prefix_of(final(diag)@),
    {
        tracks_from_lines(lines, diag)
    }
}

/// Decodes the reply to a mixed-listing command.
pub struct MixedResponseResponse;

impl MixedResponseResponse {
    /// The entities of the reply body, grouped by kind.
    pub fn decode(lines: &Vec<String>, diag: &mut Vec<String>) -> (r: ListallinfoResponse)
        ensures
            mixed_matches(r, records_of(lines.deep_view())),
            old(diag)@.is_prefix_of(final(diag)@),
    {
        mixed_from_lines(lines, diag)
    }
}

/// Decodes a reply by accumulating its lines into one reply map and
/// converting that map to the named type.
pub struct RespMapResponse<T> {
    _0: PhantomData<T>,
}

impl RespMapResponse<Stats> {
    /// Database statistics from the reply body.
    pub fn decode(lines: &Vec<String>, diag: &mut Vec<String>) -> (r: Stats)
        ensures
            stats_matches(r, crate::respmap::map_of_lines(lines.deep_view())),
            old(diag)@.is_prefix_of(final(diag)@),
    {
        Stats::from_map(RespMap::from_lines_reporting(lines, diag), diag)
    }
}

impl RespMapResponse<Status> {
    /// The player status from the reply body.
    pub fn decode(lines: &Vec<String>, diag: &mut Vec<String>) -> (r: Result<Status, Error>)
        ensures
            (r is Ok) == state_field_ok(crate::respmap::map_of_lines(lines.deep_view())),
            r matches Ok(st) ==> status_matches(
                st,
                crate::respmap::map_of_lines(lines.deep_view()),
            ),
            old(diag)@.is_prefix_of(final(diag)@),
    {
        Status::from_map(RespMap::from_lines_reporting(lines, diag), diag)
    }
}

impl RespMapResponse<DatabaseVersion> {
    /// The database revision from the reply body.
    pub fn decode(lines: &Vec<String>, diag: &mut Vec<String>) -> (r: DatabaseVersion)
        ensures
            r.0 == crate::mapping::i32_def_field(
                crate::respmap::map_of_lines(lines.deep_view()),
                "updating_db"@,
            ),
            old(diag)@.is_prefix_of(final(diag)@),
    {
        DatabaseVersion::from_map(RespMap::from_lines_reporting(lines, diag), diag)
    }
}

impl RespMapResponse<ListallResponse> {
    /// The listing paths from the reply body.
    pub fn decode(lines: &Vec<String>, diag: &mut Vec<String>) -> (r: ListallResponse)
        ensures
            listall_matches(r, crate::respmap::map_of_lines(lines.deep_view())),
            old(diag)@.is_prefix_of(final(diag)@),
    {
        ListallResponse::from_map(RespMap::from_lines_reporting(lines, diag), diag)
    }
}

/// Decodes a reply that is one `key: value` line carrying one token.
pub struct SingleLineResp<T> {
    _0: PhantomData<T>,
}

impl SingleLineResp<Subsystem> {
    /// The changed subsystem named by a one-line reply.
    pub fn decode(line: &str) -> (r: Result<Subsystem, Error>)
        ensures
            match kv_of(trim_eol_spec(line@)) {
                Some(kv) => (r is Ok) == (subsystem_of(kv.1) is Some) && (r matches Ok(ss)
                    ==> subsystem_of(kv.1) == Some(ss)),
                None => r is Err,
            },
    {
        let t = trim_eol(line);
        match split_kv(t.as_str()) {
            None => Err(Error::ValueError { msg: String::new() }),
            Some(kv) => Subsystem::from_str(kv.1.as_str()),
        }
    }
}

/// Decodes the bare acknowledgement reply of a side-effect command.
pub struct OkResponse;

impl OkResponse {
    /// Expects the raw reply line to trim to the terminator.
    pub fn decode(line: &str) -> (r: Result<(), Error>)
        ensures
            (r is Ok) == (trim_eol_spec(line@) == "OK"@),
            r matches Err(e) ==> (e matches Error::ResponseError { reply, errmsg } && reply@
                == trim_eol_spec(line@) && errmsg@ == "Expected OK"@),
    {
        let t = trim_eol(line);
        if str_eq(t.as_str(), "OK") {
            Ok(())
        } else {
            Err(Error::ResponseError { reply: t, errmsg: String::from_str("Expected OK") })
        }
    }
}

} // verus!
