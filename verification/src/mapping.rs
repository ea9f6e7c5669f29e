//! Typed response mapping: pure conversions from an accumulated reply map
//! to the domain entities. Each conversion pulls its named fields with the
//! type-appropriate coercion, tolerates absent optional fields, and reports
//! any unconsumed field through the caller-supplied diagnostics sink.

use vstd::prelude::*;
use crate::duration::{Decimal, Duration};
use crate::error::Error;
use crate::protocol::{DatabaseVersion, Directory, Playlist, State, Stats, Status, Subsystem,
    Track, state_of};
use crate::respmap::{RespMap, bint_of, last_val, parsed_duration, parsed_i32, parsed_u16,
    parsed_u32, parsed_u8};
use crate::timestamp::{Timestamp, datetime_of, parse_datetime};

verus! {

/// The view of an optional owned string.
pub open spec fn opt_view(o: Option<String>) -> Option<Seq<char>> {
    match o {
        None => None,
        Some(s) => Some(s@),
    }
}

/// The plain value of an optional timestamp.
pub open spec fn ts_view(o: Option<Timestamp>) -> Option<(i64, u32)> {
    match o {
        None => None,
        Some(t) => Some((t.secs, t.nanos)),
    }
}

/// The timestamp a key's last value denotes, if present and parsable.
pub open spec fn parsed_datetime(v: Option<Seq<char>>) -> Option<(i64, u32)> {
    match v {
        None => None,
        Some(s) => datetime_of(s),
    }
}

/// A bint field: false when absent or malformed, else its token's value.
pub open spec fn bool_field(m: Map<Seq<char>, Seq<Seq<char>>>, k: Seq<char>) -> bool {
    match last_val(m, k) {
        None => false,
        Some(v) => match bint_of(v) {
            None => false,
            Some(b) => b,
        },
    }
}

/// A duration field with the zero default when absent or malformed.
pub open spec fn dur_def_field(m: Map<Seq<char>, Seq<Seq<char>>>, k: Seq<char>) -> Duration {
    match parsed_duration(last_val(m, k)) {
        None => Duration { secs: 0u64, nanos: 0u32 },
        Some(d) => d,
    }
}

/// A u32 field with the zero default when absent or malformed.
pub open spec fn u32_def_field(m: Map<Seq<char>, Seq<Seq<char>>>, k: Seq<char>) -> u32 {
    match parsed_u32(last_val(m, k)) {
        None => 0u32,
        Some(n) => n,
    }
}

/// An i32 field with the zero default when absent or malformed.
pub open spec fn i32_def_field(m: Map<Seq<char>, Seq<Seq<char>>>, k: Seq<char>) -> i32 {
    match parsed_i32(last_val(m, k)) {
        None => 0i32,
        Some(n) => n,
    }
}

/// A string field with the empty default when absent.
pub open spec fn str_def_field(m: Map<Seq<char>, Seq<Seq<char>>>, k: Seq<char>) -> Seq<char> {
    match last_val(m, k) {
        None => Seq::empty(),
        Some(v) => v,
    }
}

/// Every value received for a key, in insertion order; empty when absent.
pub open spec fn vec_field(m: Map<Seq<char>, Seq<Seq<char>>>, k: Seq<char>) -> Seq<Seq<char>> {
    if m.contains_key(k) {
        m[k]
    } else {
        Seq::empty()
    }
}

/// How database statistics relate to the reply map they were read from.
pub open spec fn stats_matches(r: Stats, m: Map<Seq<char>, Seq<Seq<char>>>) -> bool {
    &&& r.uptime == dur_def_field(m, "uptime"@)
    &&& r.playtime == dur_def_field(m, "playtime"@)
    &&& r.artists == u32_def_field(m, "artists"@)
    &&& r.albums == u32_def_field(m, "albums"@)
    &&& r.songs == u32_def_field(m, "songs"@)
    &&& r.db_playtime == dur_def_field(m, "db_playtime"@)
    &&& r.db_update == i32_def_field(m, "db_update"@)
}


/// Appends a warning that a present field's value failed to coerce.
fn warn_bad_field(key: &str, diag: &mut Vec<String>)
    ensures
        old(diag)@.is_prefix_of(final(diag)@),
{
    let mut msg = String::from_str("field ");
    msg.append(key);
    msg.append(" held a value that does not coerce; using the default");
    diag.push(msg);
    proof {
        assert(old(diag)@.is_prefix_of(old(diag)@.push(msg)));
    }
}

impl RespMap {
    /// Reads a string field.
    pub fn field_str(&self, key: &str) -> (r: Option<String>)
        requires
            self.wf(),
        ensures
            opt_view(r) == last_val(self@, key@),
    {
        self.read_str(key)
    }

    /// Reads a string field, empty when absent.
    pub fn field_str_def(&self, key: &str) -> (r: String)
        requires
            self.wf(),
        ensures
            r@ == str_def_field(self@, key@),
    {
        match self.read_str(key) {
            None => String::new(),
            Some(s) => s,
        }
    }

    /// Reads a u32 field, warning when a present value fails to coerce.
    pub fn field_u32(&self, key: &str, diag: &mut Vec<String>) -> (r: Option<u32>)
        requires
            self.wf(),
        ensures
            r == parsed_u32(last_val(self@, key@)),
            old(diag)@.is_prefix_of(final(diag)@),
    {
        match self.read_str(key) {
            None => None,
            Some(s) => match crate::numbers::parse_u32(s.as_str()) {
                None => {
                    warn_bad_field(key, diag);
                    None
                },
                Some(n) => Some(n),
            },
        }
    }

    /// Reads a u16 field, warning when a present value fails to coerce.
    pub fn field_u16(&self, key: &str, diag: &mut Vec<String>) -> (r: Option<u16>)
        requires
            self.wf(),
        ensures
            r == parsed_u16(last_val(self@, key@)),
            old(diag)@.is_prefix_of(final(diag)@),
    {
        match self.read_str(key) {
            None => None,
            Some(s) => match crate::numbers::parse_u16(s.as_str()) {
                None => {
                    warn_bad_field(key, diag);
                    None
                },
                Some(n) => Some(n),
            },
        }
    }

    /// Reads a u8 field, warning when a present value fails to coerce.
    pub fn field_u8(&self, key: &str, diag: &mut Vec<String>) -> (r: Option<u8>)
        requires
            self.wf(),
        ensures
            r == parsed_u8(last_val(self@, key@)),
            old(diag)@.is_prefix_of(final(diag)@),
    {
        match self.read_str(key) {
            None => None,
            Some(s) => match crate::numbers::parse_u8(s.as_str()) {
                None => {
                    warn_bad_field(key, diag);
                    None
                },
                Some(n) => Some(n),
            },
        }
    }

    /// Reads a u32 field with the zero default.
    pub fn field_u32_def(&self, key: &str, diag: &mut Vec<String>) -> (r: u32)
        requires
            self.wf(),
        ensures
            r == u32_def_field(self@, key@),
            old(diag)@.is_prefix_of(final(diag)@),
    {
        match self.field_u32(key, diag) {
            None => 0,
            Some(n) => n,
        }
    }

    /// Reads an i32 field with the zero default.
    pub fn field_i32_def(&self, key: &str, diag: &mut Vec<String>) -> (r: i32)
        requires
            self.wf(),
        ensures
            r == i32_def_field(self@, key@),
            old(diag)@.is_prefix_of(final(diag)@),
    {
        match self.read_str(key) {
            None => 0,
            Some(s) => match crate::numbers::parse_i32(s.as_str()) {
                None => {
                    warn_bad_field(key, diag);
                    0
                },
                Some(n) => n,
            },
        }
    }

    /// Reads a duration field, warning when a present value fails to
    /// coerce.
    pub fn field_duration(&self, key: &str, diag: &mut Vec<String>) -> (r: Option<Duration>)
        requires
            self.wf(),
        ensures
            r == parsed_duration(last_val(self@, key@)),
            old(diag)@.is_prefix_of(final(diag)@),
    {
        match self.read_str(key) {
            None => None,
            Some(s) => match crate::duration::parse_duration(s.as_str()) {
                None => {
                    warn_bad_field(key, diag);
                    None
                },
                Some(d) => Some(d),
            },
        }
    }

    /// Reads a duration field with the zero default.
    pub fn field_duration_def(&self, key: &str, diag: &mut Vec<String>) -> (r: Duration)
        requires
            self.wf(),
        ensures
            r == dur_def_field(self@, key@),
            old(diag)@.is_prefix_of(final(diag)@),
    {
        match self.field_duration(key, diag) {
            None => Duration { secs: 0, nanos: 0 },
            Some(d) => d,
        }
    }

    /// Reads a bint field: false when absent; a token other than `"0"` or
    /// `"1"` degrades to false with a warning.
    pub fn field_bool(&self, key: &str, diag: &mut Vec<String>) -> (r: bool)
        requires
            self.wf(),
        ensures
            r == bool_field(self@, key@),
            old(diag)@.is_prefix_of(final(diag)@),
    {
        match self.read_str(key) {
            None => false,
            Some(s) => match crate::respmap::parse_bint(s.as_str()) {
                Ok(b) => b,
                Err(_) => {
                    warn_bad_field(key, diag);
                    false
                },
            },
        }
    }

    /// Reads a signed decimal field with the zero default.
    pub fn field_decimal_def(&self, key: &str, diag: &mut Vec<String>) -> (r: Decimal)
        requires
            self.wf(),
        ensures
            r == match crate::respmap::parsed_decimal(last_val(self@, key@)) {
                None => Decimal { negative: false, whole: 0u64, nanos: 0u32 },
                Some(d) => d,
            },
            old(diag)@.is_prefix_of(final(diag)@),
    {
        match self.read_str(key) {
            None => Decimal { negative: false, whole: 0, nanos: 0 },
            Some(s) => match crate::duration::parse_decimal(s.as_str()) {
                None => {
                    warn_bad_field(key, diag);
                    Decimal { negative: false, whole: 0, nanos: 0 }
                },
                Some(d) => d,
            },
        }
    }

    /// Reads a timestamp field, warning when a present value fails to
    /// parse.
    pub fn field_datetime(&self, key: &str, diag: &mut Vec<String>) -> (r: Option<Timestamp>)
        requires
            self.wf(),
        ensures
            ts_view(r) == parsed_datetime(last_val(self@, key@)),
            old(diag)@.is_prefix_of(final(diag)@),
    {
        match self.read_str(key) {
            None => None,
            Some(s) => match parse_datetime(s.as_str()) {
                None => {
                    warn_bad_field(key, diag);
                    None
                },
                Some(t) => Some(t),
            },
        }
    }
}

impl Stats {
    /// Reads database statistics from a finalized reply map.
    pub fn from_map(map: RespMap, diag: &mut Vec<String>) -> (r: Stats)
        requires
            map.wf(),
        ensures
            stats_matches(r, map@),
            old(diag)@.is_prefix_of(final(diag)@),
    {
        let mut map = map;
        let uptime = map.field_duration_def("uptime", diag);
        let playtime = map.field_duration_def("playtime", diag);
        let artists = map.field_u32_def("artists", diag);
        let albums = map.field_u32_def("albums", diag);
        let songs = map.field_u32_def("songs", diag);
        let db_playtime = map.field_duration_def("db_playtime", diag);
        let db_update = map.field_i32_def("db_update", diag);
        map.consume("uptime");
        map.consume("playtime");
        map.consume("artists");
        map.consume("albums");
        map.consume("songs");
        map.consume("db_playtime");
        map.consume("db_update");
        warn_leftover(&map, "stats", diag);
        Stats { uptime, playtime, artists, albums, songs, db_playtime, db_update }
    }
}


/// How a track relates to the reply map it was read from.
pub open spec fn track_matches(t: Track, m: Map<Seq<char>, Seq<Seq<char>>>) -> bool {
    &&& t.file@ == str_def_field(m, "file"@)
    &&& opt_view(t.artist_sort) == last_val(m, "ArtistSort"@)
    &&& opt_view(t.album_artist) == last_val(m, "AlbumArtist"@)
    &&& opt_view(t.album_sort) == last_val(m, "AlbumSort"@)
    &&& opt_view(t.album_artist_sort) == last_val(m, "AlbumArtistSort"@)
    &&& t.performer.deep_view() == vec_field(m, "Performer"@)
    &&& opt_view(t.genre) == last_val(m, "Genre"@)
    &&& opt_view(t.title) == last_val(m, "Title"@)
    &&& t.track == parsed_u32(last_val(m, "Track"@))
    &&& opt_view(t.album) == last_val(m, "Album"@)
    &&& opt_view(t.artist) == last_val(m, "Artist"@)
    &&& t.pos == parsed_u32(last_val(m, "Pos"@))
    &&& t.id == parsed_u32(last_val(m, "Id"@))
    &&& ts_view(t.last_modified) == parsed_datetime(last_val(m, "Last-Modified"@))
    &&& opt_view(t.original_date) == last_val(m, "OriginalDate"@)
    &&& opt_view(t.time) == last_val(m, "Time"@)
    &&& opt_view(t.format) == last_val(m, "Format"@)
    &&& t.duration == dur_def_field(m, "duration"@)
    &&& opt_view(t.label) == last_val(m, "Label"@)
    &&& opt_view(t.date) == last_val(m, "Date"@)
    &&& t.disc == parsed_u32(last_val(m, "Disc"@))
    &&& opt_view(t.musicbraiz_trackid) == last_val(m, "MUSICBRAINZ_TRACKID"@)
    &&& opt_view(t.musicbrainz_albumid) == last_val(m, "MUSICBRAINZ_ALBUMID"@)
    &&& opt_view(t.musicbrainz_albumartistid) == last_val(m, "MUSICBRAINZ_ALBUMARTISTID"@)
    &&& opt_view(t.musicbrainz_artistid) == last_val(m, "MUSICBRAINZ_ARTISTID"@)
    &&& opt_view(t.musicbraiz_releasetrackid) == last_val(m, "MUSICBRAINZ_RELEASETRACKID"@)
    &&& opt_view(t.musicbraiz_workid) == last_val(m, "MUSICBRAINZ_WORKID"@)
    &&& t.composer.deep_view() == vec_field(m, "Composer"@)
}

impl Track {
    /// Reads one track's metadata and tags from a finalized reply map.
    pub fn from_map(map: RespMap, diag: &mut Vec<String>) -> (r: Track)
        requires
            map.wf(),
        ensures
            track_matches(r, map@),
            old(diag)@.is_prefix_of(final(diag)@),
    {
        let mut map = map;
        let file = map.field_str_def("file");
        let artist_sort = map.field_str("ArtistSort");
        let album_artist = map.field_str("AlbumArtist");
        let album_sort = map.field_str("AlbumSort");
        let album_artist_sort = map.field_str("AlbumArtistSort");
        let performer = map.read_vec("Performer");
        let genre = map.field_str("Genre");
        let title = map.field_str("Title");
        let track = map.field_u32("Track", diag);
        let album = map.field_str("Album");
        let artist = map.field_str("Artist");
        let pos = map.field_u32("Pos", diag);
        let id = map.field_u32("Id", diag);
        let last_modified = map.field_datetime("Last-Modified", diag);
        let original_date = map.field_str("OriginalDate");
        let time = map.field_str("Time");
        let format = map.field_str("Format");
        let duration = map.field_duration_def("duration", diag);
        let label = map.field_str("Label");
        let date = map.field_str("Date");
        let disc = map.field_u32("Disc", diag);
        let musicbraiz_trackid = map.field_str("MUSICBRAINZ_TRACKID");
        let musicbrainz_albumid = map.field_str("MUSICBRAINZ_ALBUMID");
        let musicbrainz_albumartistid = map.field_str("MUSICBRAINZ_ALBUMARTISTID");
        let musicbrainz_artistid = map.field_str("MUSICBRAINZ_ARTISTID");
        let musicbraiz_releasetrackid = map.field_str("MUSICBRAINZ_RELEASETRACKID");
        let musicbraiz_workid = map.field_str("MUSICBRAINZ_WORKID");
        let composer = map.read_vec("Composer");
        map.consume("file");
        map.consume("ArtistSort");
        map.consume("AlbumArtist");
        map.consume("AlbumSort");
        map.consume("AlbumArtistSort");
        map.consume("Performer");
        map.consume("Genre");
        map.consume("Title");
        map.consume("Track");
        map.consume("Album");
        map.consume("Artist");
        map.consume("Pos");
        map.consume("Id");
        map.consume("Last-Modified");
        map.consume("OriginalDate");
        map.consume("Time");
        map.consume("Format");
        map.consume("duration");
        map.consume("Label");
        map.consume("Date");
        map.consume("Disc");
        map.consume("MUSICBRAINZ_TRACKID");
        map.consume("MUSICBRAINZ_ALBUMID");
        map.consume("MUSICBRAINZ_ALBUMARTISTID");
        map.consume("MUSICBRAINZ_ARTISTID");
        map.consume("MUSICBRAINZ_RELEASETRACKID");
        map.consume("MUSICBRAINZ_WORKID");
        map.consume("Composer");
        warn_leftover(&map, "track", diag);
        Track {
            file,
            artist_sort,
            album_artist,
            album_sort,
            album_artist_sort,
            performer,
            genre,
            title,
            track,
            album,
            artist,
            pos,
            id,
            last_modified,
            original_date,
            time,
            format,
            duration,
            label,
            date,
            disc,
            musicbraiz_trackid,
            musicbrainz_albumid,
            musicbrainz_albumartistid,
            musicbrainz_artistid,
            musicbraiz_releasetrackid,
            musicbraiz_workid,
            composer,
        }
    }
}

/// The player state a status reply carries: stopped when the field is
/// absent, else what its token denotes.
pub open spec fn state_field(m: Map<Seq<char>, Seq<Seq<char>>>) -> State {
    match last_val(m, "state"@) {
        None => State::Stop,
        Some(t) => match state_of(t) {
            None => State::Stop,
            Some(st) => st,
        },
    }
}

/// Whether the status reply's state field is acceptable: absent, or one of
/// the three defined tokens.
pub open spec fn state_field_ok(m: Map<Seq<char>, Seq<Seq<char>>>) -> bool {
    match last_val(m, "state"@) {
        None => true,
        Some(t) => state_of(t) is Some,
    }
}

/// How a status relates to the reply map it was read from.
pub open spec fn status_matches(st: Status, m: Map<Seq<char>, Seq<Seq<char>>>) -> bool {
    &&& opt_view(st.partition) == last_val(m, "partition"@)
    &&& st.volume == parsed_u8(last_val(m, "volume"@))
    &&& st.repeat == bool_field(m, "repeat"@)
    &&& st.random == bool_field(m, "random"@)
    &&& st.single@ == str_def_field(m, "single"@)
    &&& st.consume == bool_field(m, "consume"@)
    &&& st.playlist == u32_def_field(m, "playlist"@)
    &&& st.playlistlength == u32_def_field(m, "playlistlength"@)
    &&& st.song == parsed_u32(last_val(m, "song"@))
    &&& st.songid == parsed_u32(last_val(m, "songid"@))
    &&& st.nextsong == parsed_u32(last_val(m, "nextsong"@))
    &&& st.nextsongid == parsed_u32(last_val(m, "nextsongid"@))
    &&& opt_view(st.time) == last_val(m, "time"@)
    &&& st.elapsed == parsed_duration(last_val(m, "elapsed"@))
    &&& st.duration == parsed_duration(last_val(m, "duration"@))
    &&& st.mixrampdb == (match crate::respmap::parsed_decimal(last_val(m, "mixrampdb"@)) {
        None => Decimal { negative: false, whole: 0u64, nanos: 0u32 },
        Some(d) => d,
    })
    &&& st.mixrampdelay == parsed_u32(last_val(m, "mixrampdelay"@))
    &&& st.state == state_field(m)
    &&& st.bitrate == parsed_u16(last_val(m, "bitrate"@))
    &&& st.xfade == parsed_u32(last_val(m, "xfade"@))
    &&& opt_view(st.audio) == last_val(m, "audio"@)
    &&& st.updating_db == parsed_u32(last_val(m, "updating_db"@))
    &&& opt_view(st.error) == last_val(m, "error"@)
}

impl Status {
    /// Reads the player status from a finalized reply map. The state field
    /// is load-bearing: a present but unrecognized state token is a hard
    /// value error.
    pub fn from_map(map: RespMap, diag: &mut Vec<String>) -> (r: Result<Status, Error>)
        requires
            map.wf(),
        ensures
            (r is Ok) == state_field_ok(map@),
            r matches Ok(st) ==> status_matches(st, map@),
            r matches Err(e) ==> (e matches Error::ValueError { msg } && last_val(map@, "state"@)
                == Some(msg@)),
            old(diag)@.is_prefix_of(final(diag)@),
    {
        let mut map = map;
        let partition = map.field_str("partition");
        let volume = map.field_u8("volume", diag);
        let repeat = map.field_bool("repeat", diag);
        let random = map.field_bool("random", diag);
        let single = map.field_str_def("single");
        let consume = map.field_bool("consume", diag);
        let playlist = map.field_u32_def("playlist", diag);
        let playlistlength = map.field_u32_def("playlistlength", diag);
        let song = map.field_u32("song", diag);
        let songid = map.field_u32("songid", diag);
        let nextsong = map.field_u32("nextsong", diag);
        let nextsongid = map.field_u32("nextsongid", diag);
        let time = map.field_str("time");
        let elapsed = map.field_duration("elapsed", diag);
        let duration = map.field_duration("duration", diag);
        let mixrampdb = map.field_decimal_def("mixrampdb", diag);
        let mixrampdelay = map.field_u32("mixrampdelay", diag);
        let state = match map.field_str("state") {
            None => State::Stop,
            Some(tok) => match State::from_str(tok.as_str()) {
                Ok(st) => st,
                Err(e) => {
                    return Err(e);
                },
            },
        };
        let bitrate = map.field_u16("bitrate", diag);
        let xfade = map.field_u32("xfade", diag);
        let audio = map.field_str("audio");
        let updating_db = map.field_u32("updating_db", diag);
        let error = map.field_str("error");
        map.consume("partition");
        map.consume("volume");
        map.consume("repeat");
        map.consume("random");
        map.consume("single");
        map.consume("consume");
        map.consume("playlist");
        map.consume("playlistlength");
        map.consume("song");
        map.consume("songid");
        map.consume("nextsong");
        map.consume("nextsongid");
        map.consume("time");
        map.consume("elapsed");
        map.consume("duration");
        map.consume("mixrampdb");
        map.consume("mixrampdelay");
        map.consume("state");
        map.consume("bitrate");
        map.consume("xfade");
        map.consume("audio");
        map.consume("updating_db");
        map.consume("error");
        warn_leftover(&map, "status", diag);
        Ok(
            Status {
                partition,
                volume,
                repeat,
                random,
                single,
                consume,
                playlist,
                playlistlength,
                song,
                songid,
                nextsong,
                nextsongid,
                time,
                elapsed,
                duration,
                mixrampdb,
                mixrampdelay,
                state,
                bitrate,
                xfade,
                audio,
                updating_db,
                error,
            },
        )
    }
}

/// How a directory relates to the reply map it was read from.
pub open spec fn directory_matches(d: Directory, m: Map<Seq<char>, Seq<Seq<char>>>) -> bool {
    &&& d.path@ == str_def_field(m, "directory"@)
    &&& ts_view(d.last_modified) == parsed_datetime(last_val(m, "Last-Modified"@))
}

impl Directory {
    /// Reads one directory entry from a finalized reply map.
    pub fn from_map(map: RespMap, diag: &mut Vec<String>) -> (r: Directory)
        requires
            map.wf(),
        ensures
            directory_matches(r, map@),
            old(diag)@.is_prefix_of(final(diag)@),
    {
        let mut map = map;
        let path = map.field_str_def("directory");
        let last_modified = map.field_datetime("Last-Modified", diag);
        map.consume("directory");
        map.consume("Last-Modified");
        warn_leftover(&map, "directory", diag);
        Directory { path, last_modified }
    }
}

/// How a playlist relates to the reply map it was read from.
pub open spec fn playlist_matches(p: Playlist, m: Map<Seq<char>, Seq<Seq<char>>>) -> bool {
    &&& p.path@ == str_def_field(m, "playlist"@)
    &&& ts_view(p.last_modified) == parsed_datetime(last_val(m, "Last-Modified"@))
}

impl Playlist {
    /// Reads one stored-playlist entry from a finalized reply map.
    pub fn from_map(map: RespMap, diag: &mut Vec<String>) -> (r: Playlist)
        requires
            map.wf(),
        ensures
            playlist_matches(r, map@),
            old(diag)@.is_prefix_of(final(diag)@),
    {
        let mut map = map;
        let path = map.field_str_def("playlist");
        let last_modified = map.field_datetime("Last-Modified", diag);
        map.consume("playlist");
        map.consume("Last-Modified");
        warn_leftover(&map, "playlist", diag);
        Playlist { path, last_modified }
    }
}

impl DatabaseVersion {
    /// Reads the database revision a maintenance command reports.
    pub fn from_map(map: RespMap, diag: &mut Vec<String>) -> (r: DatabaseVersion)
        requires
            map.wf(),
        ensures
            r.0 == i32_def_field(map@, "updating_db"@),
            old(diag)@.is_prefix_of(final(diag)@),
    {
        let mut map = map;
        let v = map.field_i32_def("updating_db", diag);
        map.consume("updating_db");
        warn_leftover(&map, "database version", diag);
        DatabaseVersion(v)
    }
}

/// The reply to a full database listing: bare paths grouped by kind.
#[derive(Debug)]
pub struct ListallResponse {
    pub files: Vec<String>,
    pub dirs: Vec<String>,
    pub playlists: Vec<String>,
}

/// How a listing reply relates to the reply map it was read from.
pub open spec fn listall_matches(r: ListallResponse, m: Map<Seq<char>, Seq<Seq<char>>>) -> bool {
    &&& r.files.deep_view() == vec_field(m, "file"@)
    &&& r.dirs.deep_view() == vec_field(m, "directory"@)
    &&& r.playlists.deep_view() == vec_field(m, "playlist"@)
}

impl ListallResponse {
    /// Reads the three path lists of a database listing reply.
    pub fn from_map(map: RespMap, diag: &mut Vec<String>) -> (r: ListallResponse)
        requires
            map.wf(),
        ensures
            listall_matches(r, map@),
            old(diag)@.is_prefix_of(final(diag)@),
    {
        let mut map = map;
        let files = map.read_vec("file");
        let dirs = map.read_vec("directory");
        let playlists = map.read_vec("playlist");
        map.consume("file");
        map.consume("directory");
        map.consume("playlist");
        warn_leftover(&map, "listing", diag);
        ListallResponse { files, dirs, playlists }
    }
}

/// Reports fields that an entity's extraction left unconsumed, as a
/// forward-compatibility warning; never fatal.
fn warn_leftover(map: &RespMap, what: &str, diag: &mut Vec<String>)
    ensures
        old(diag)@.is_prefix_of(final(diag)@),
{
    if !map.is_empty() {
        let mut msg = String::from_str(what);
        msg.append(" reply held fields the decoder does not know");
        diag.push(msg);
        proof {
            assert(old(diag)@.is_prefix_of(old(diag)@.push(msg)));
        }
    }
}

} // verus!
