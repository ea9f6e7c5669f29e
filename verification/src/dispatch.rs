//! The command dispatcher: every command is bound, by exhaustive match on
//! the sealed command union, to exactly one way of decoding its reply, so a
//! reply can never be decoded with the wrong handler. The caller writes the
//! command line, reads the reply as the command's read kind asks, and hands
//! the lines here.

use vstd::prelude::*;
use crate::cmd::Command;
use crate::error::Error;
use crate::mapping::{stats_matches, status_matches, state_field_ok};
use crate::protocol::{DatabaseVersion, Stats, Status, Subsystem, Track, subsystem_of};
use crate::respmap::{RespMap, last_val, map_of_lines, values_for_key};
use crate::splitter::{ListallinfoResponse, mixed_from_lines, mixed_matches, records_of,
    tracks_from_lines, tracks_match};
use crate::text::{kv_of, split_kv, str_eq, trim_eol, trim_eol_spec};

verus! {

/// How a command's reply is read: a single line, or a stream of lines up
/// to the terminator.
#[derive(Clone, Copy, PartialEq, Eq, Structural, Debug)]
pub enum ReadKind {
    OneLine,
    Stream,
}

impl Command {
    /// Whether this command's reply is a line stream closed by the
    /// terminator, rather than a single line.
    pub open spec fn spec_is_stream(&self) -> bool {
        match self {
            Command::Stats => true,
            Command::Status => true,
            Command::Idle => true,
            Command::PlaylistInfo => true,
            Command::Search(_) => true,
            Command::Listall(_) => true,
            Command::ListallInfo(_) => true,
            _ => false,
        }
    }

    /// How this command's reply is read.
    pub fn read_kind(&self) -> (r: ReadKind)
        ensures
            (r is Stream) == self.spec_is_stream(),
    {
        match self {
            Command::Stats => ReadKind::Stream,
            Command::Status => ReadKind::Stream,
            Command::Idle => ReadKind::Stream,
            Command::PlaylistInfo => ReadKind::Stream,
            Command::Search(_) => ReadKind::Stream,
            Command::Listall(_) => ReadKind::Stream,
            Command::ListallInfo(_) => ReadKind::Stream,
            _ => ReadKind::OneLine,
        }
    }
}

/// The decoded reply of a command, in the shape its command asks for.
#[derive(Debug)]
pub enum CommandResponse {
    Done,
    Stats(Stats),
    Status(Status),
    DbVersion(DatabaseVersion),
    Subsystem(Subsystem),
    Tracks(Vec<Track>),
    Paths(Vec<String>),
    Mixed(ListallinfoResponse),
}

/// How the decode of a bare acknowledgement reply must come out: the one
/// raw line must trim to the terminator.
pub open spec fn ok_reply_handled(lines: Seq<Seq<char>>, r: Result<CommandResponse, Error>) -> bool {
    if lines.len() == 1 && trim_eol_spec(lines[0]) == "OK"@ {
        r matches Ok(CommandResponse::Done)
    } else {
        r matches Err(e) && (e matches Error::ResponseError { reply, errmsg } && errmsg@
            == "Expected OK"@ && (lines.len() == 1 ==> reply@ == trim_eol_spec(lines[0])))
    }
}

/// How the decode of a database-version reply must come out: the one raw
/// line must read `updating_db: N`.
pub open spec fn db_reply_handled(lines: Seq<Seq<char>>, r: Result<CommandResponse, Error>) -> bool {
    if lines.len() == 1 {
        match kv_of(trim_eol_spec(lines[0])) {
            Some(kv) => if kv.0 == "updating_db"@ {
                if crate::numbers::valid_i32(kv.1) {
                    r matches Ok(CommandResponse::DbVersion(v)) && v.0 as int
                        == crate::numbers::int_val(kv.1)
                } else {
                    r matches Err(e) && (e matches Error::ValueError { msg } && msg@
                        == Seq::<char>::empty())
                }
            } else {
                r matches Err(e) && (e matches Error::ValueError { msg } && msg@
                    == "updating_db"@)
            },
            None => r matches Err(e) && (e matches Error::ValueError { msg } && msg@
                == "updating_db"@),
        }
    } else {
        r matches Err(e) && (e matches Error::ValueError { msg } && msg@ == "updating_db"@)
    }
}

/// How the decode of an idle reply must come out: the first body line must
/// read `changed: <subsystem>` with a recognized subsystem token.
pub open spec fn idle_reply_handled(
    lines: Seq<Seq<char>>,
    r: Result<CommandResponse, Error>,
) -> bool {
    if lines.len() >= 1 {
        match kv_of(lines[0]) {
            Some(kv) => if kv.0 == "changed"@ {
                match subsystem_of(kv.1) {
                    Some(ss) => r matches Ok(CommandResponse::Subsystem(s2)) && s2 == ss,
                    None => r matches Err(e) && (e matches Error::ValueError { msg } && msg@
                        == kv.1),
                }
            } else {
                r matches Err(e) && (e matches Error::CommandError { msg } && msg@
                    == Seq::<char>::empty())
            },
            None => r matches Err(e) && (e matches Error::CommandError { msg } && msg@
                == Seq::<char>::empty()),
        }
    } else {
        r matches Err(e) && (e matches Error::CommandError { msg } && msg@
            == Seq::<char>::empty())
    }
}

/// How the decode of each command's reply must come out. For single-line
/// commands the lines are the one raw line read; for stream commands they
/// are the trimmed body lines, terminator removed.
pub open spec fn reply_handled(
    cmd: Command,
    lines: Seq<Seq<char>>,
    r: Result<CommandResponse, Error>,
) -> bool {
    match cmd {
        Command::Stats => r matches Ok(CommandResponse::Stats(s)) && stats_matches(
            s,
            map_of_lines(lines),
        ),
        Command::Status => if state_field_ok(map_of_lines(lines)) {
            r matches Ok(CommandResponse::Status(st)) && status_matches(st, map_of_lines(lines))
        } else {
            r matches Err(e) && (e matches Error::ValueError { msg } && last_val(
                map_of_lines(lines),
                "state"@,
            ) == Some(msg@))
        },
        Command::Update(_) => db_reply_handled(lines, r),
        Command::Rescan(_) => db_reply_handled(lines, r),
        Command::Idle => idle_reply_handled(lines, r),
        Command::PlaylistInfo => r matches Ok(CommandResponse::Tracks(ts)) && tracks_match(
            ts@,
            records_of(lines),
        ),
        Command::Search(_) => r matches Ok(CommandResponse::Tracks(ts)) && tracks_match(
            ts@,
            records_of(lines),
        ),
        Command::Listall(_) => r matches Ok(CommandResponse::Paths(ps)) && ps.deep_view()
            == values_for_key(lines, "file"@),
        Command::ListallInfo(_) => r matches Ok(CommandResponse::Mixed(m)) && mixed_matches(
            m,
            records_of(lines),
        ),
        _ => ok_reply_handled(lines, r),
    }
}

/// Decodes the reply to a command with the one handler the command is
/// bound to. `lines` is the single raw line for a one-line command, or the
/// trimmed body lines, terminator removed, for a stream command.
pub fn handle_reply(cmd: &Command, lines: &Vec<String>, diag: &mut Vec<String>) -> (r: Result<
    CommandResponse,
    Error,
>)
    ensures
        reply_handled(*cmd, lines.deep_view(), r),
        old(diag)@.is_prefix_of(final(diag)@),
{
    proof {
        assert(lines.deep_view().len() == lines.len());
    }
    match cmd {
        Command::Stats => {
            let map = RespMap::from_lines_reporting(lines, diag);
            Ok(CommandResponse::Stats(Stats::from_map(map, diag)))
        },
        Command::Status => {
            let map = RespMap::from_lines_reporting(lines, diag);
            match Status::from_map(map, diag) {
                Ok(st) => Ok(CommandResponse::Status(st)),
                Err(e) => Err(e),
            }
        },
        Command::Update(_) => db_reply(lines),
        Command::Rescan(_) => db_reply(lines),
        Command::Idle => idle_reply(lines, diag),
        Command::PlaylistInfo => Ok(CommandResponse::Tracks(tracks_from_lines(lines, diag))),
        Command::Search(_) => Ok(CommandResponse::Tracks(tracks_from_lines(lines, diag))),
        Command::Listall(_) => Ok(CommandResponse::Paths(file_values(lines))),
        Command::ListallInfo(_) => Ok(CommandResponse::Mixed(mixed_from_lines(lines, diag))),
        _ => ok_reply(lines),
    }
}

/// Expects the single raw line of an acknowledgement reply to trim to the
/// terminator.
fn ok_reply(lines: &Vec<String>) -> (r: Result<CommandResponse, Error>)
    ensures
        ok_reply_handled(lines.deep_view(), r),
{
    proof {
        assert(lines.deep_view().len() == lines.len());
    }
    if lines.len() != 1 {
        return Err(
            Error::ResponseError {
                reply: String::new(),
                errmsg: String::from_str("Expected OK"),
            },
        );
    }

    proof {
        assert(lines.deep_view()[0] == lines[0]@);
    }
    let t = trim_eol(lines[0].as_str());
    if str_eq(t.as_str(), "OK") {
        Ok(CommandResponse::Done)
    } else {
        Err(Error::ResponseError { reply: t, errmsg: String::from_str("Expected OK") })
    }
}

/// Expects the single raw line of a maintenance reply to read
/// `updating_db: N`.
fn db_reply(lines: &Vec<String>) -> (r: Result<CommandResponse, Error>)
    ensures
        db_reply_handled(lines.deep_view(), r),
{
    proof {
        assert(lines.deep_view().len() == lines.len());
    }
    if lines.len() != 1 {
        return Err(Error::ValueError { msg: String::from_str("updating_db") });
    }
    proof {
        assert(lines.deep_view()[0] == lines[0]@);
    }
    let t = trim_eol(lines[0].as_str());
    match split_kv(t.as_str()) {
        None => Err(Error::ValueError { msg: String::from_str("updating_db") }),
        Some(kv) => {
            if !str_eq(kv.0.as_str(), "updating_db") {
                return Err(Error::ValueError { msg: String::from_str("updating_db") });
            }
            match crate::numbers::parse_i32(kv.1.as_str()) {
                None => Err(Error::ValueError { msg: String::new() }),
                Some(v) => Ok(CommandResponse::DbVersion(DatabaseVersion(v))),
            }
        },
    }
}

/// Expects the first body line of an idle reply to read
/// `changed: <subsystem>`; further lines are reported and ignored.
fn idle_reply(lines: &Vec<String>, diag: &mut Vec<String>) -> (r: Result<CommandResponse, Error>)
    ensures
        idle_reply_handled(lines.deep_view(), r),
        old(diag)@.is_prefix_of(final(diag)@),
{
    proof {
        assert(lines.deep_view().len() == lines.len());
    }
    if lines.len() == 0 {
        return Err(Error::CommandError { msg: String::new() });
    }
    proof {
        assert(lines.deep_view()[0] == lines[0]@);
    }
    if lines.len() > 1 {
        diag.push(String::from_str("idle reply carried more than one line"));
        proof {
            assert(old(diag)@.is_prefix_of(diag@));
        }
    }
    match split_kv(lines[0].as_str()) {
        None => Err(Error::CommandError { msg: String::new() }),
        Some(kv) => {
            if !str_eq(kv.0.as_str(), "changed") {
                return Err(Error::CommandError { msg: String::new() });
            }
            match Subsystem::from_str(kv.1.as_str()) {
                Ok(ss) => Ok(CommandResponse::Subsystem(ss)),
                Err(e) => Err(e),
            }
        },
    }
}

/// The values of every `file:` line of a listing reply, in order.
fn file_values(lines: &Vec<String>) -> (r: Vec<String>)
    ensures
        r.deep_view() == values_for_key(lines.deep_view(), "file"@),
{
    let mut out: Vec<String> = Vec::new();
    let mut i: usize = 0;
    proof {
        assert(lines.deep_view().subrange(0, 0) =~= Seq::<Seq<char>>::empty());
        assert(out.deep_view() =~= Seq::<Seq<char>>::empty());
    }
    while i < lines.len()
        invariant
            i <= lines.len(),
            lines.deep_view().len() == lines.len(),
            out.deep_view() == values_for_key(lines.deep_view().subrange(0, i as int), "file"@),
        decreases lines.len() - i,
    {
        proof {
            let pre = lines.deep_view().subrange(0, i as int);
            let ext = lines.deep_view().subrange(0, i as int + 1);
            assert(ext.drop_last() =~= pre);
            assert(ext.last() == lines.deep_view()[i as int]);
            assert(lines.deep_view()[i as int] == lines[i as int]@);
        }
        match split_kv(lines[i].as_str()) {
            None => {},
            Some(kv) => {
                if str_eq(kv.0.as_str(), "file") {
                    let ghost pre_out = out.deep_view();
                    out.push(kv.1);
                    proof {
                        assert(out.deep_view() =~= pre_out.push(kv.1@));
                    }
                }
            },
        }
        i += 1;
    }
    proof {
        assert(lines.deep_view().subrange(0, lines.len() as int) =~= lines.deep_view());
    }
    out
}

} // verus!
