//! The domain entities a reply decodes into: player state, subsystems,
//! database statistics, status, tracks, directories and playlists, plus the
//! track tags a search filter can name.

use vstd::prelude::*;
use crate::duration::{Decimal, Duration};
use crate::error::Error;
use crate::text::str_eq;
use crate::timestamp::Timestamp;

verus! {

/// A database revision number, as reported by maintenance commands.
#[derive(Clone, Copy, PartialEq, Eq, Structural, Debug)]
pub struct DatabaseVersion(pub i32);

/// The player's state.
#[derive(Clone, Copy, PartialEq, Eq, Structural, Debug)]
pub enum State {
    Play,
    Stop,
    Pause,
}

impl Default for State {
    /// The state an absent field defaults to.
    fn default() -> (r: State)
        ensures
            r == State::Stop,
    {
        State::Stop
    }
}

/// The state a reply token denotes, if it is one of the three the protocol
/// defines.
pub open spec fn state_of(s: Seq<char>) -> Option<State> {
    if s == "play"@ {
        Some(State::Play)
    } else if s == "pause"@ {
        Some(State::Pause)
    } else if s == "stop"@ {
        Some(State::Stop)
    } else {
        None
    }
}

impl State {
    /// Reads a player-state token; the state is load-bearing, so an
    /// unrecognized token is a hard value error.
    pub fn from_str(s: &str) -> (r: Result<State, Error>)
        ensures
            (r is Ok) == (state_of(s@) is Some),
            r matches Ok(st) ==> state_of(s@) == Some(st),
            r matches Err(e) ==> e matches Error::ValueError { msg } && msg@ == s@,
    {
        if str_eq(s, "play") {
            Ok(State::Play)
        } else if str_eq(s, "pause") {
            Ok(State::Pause)
        } else if str_eq(s, "stop") {
            Ok(State::Stop)
        } else {
            Err(Error::ValueError { msg: String::from_str(s) })
        }
    }
}

/// A subsystem the idle command can report a change in.
#[derive(Clone, Copy, PartialEq, Eq, Structural, Debug)]
pub enum Subsystem {
    Database,
    Player,
    Mixer,
    Options,
    Update,
    StoredPlaylist,
    Playlist,
    Output,
    Partitions,
    Sticker,
    Subscription,
    Message,
}

/// The subsystem a reply token denotes, if recognized.
pub open spec fn subsystem_of(s: Seq<char>) -> Option<Subsystem> {
    if s == "partitions"@ {
        Some(Subsystem::Partitions)
    } else if s == "player"@ {
        Some(Subsystem::Player)
    } else if s == "mixer"@ {
        Some(Subsystem::Mixer)
    } else if s == "options"@ {
        Some(Subsystem::Options)
    } else if s == "update"@ {
        Some(Subsystem::Update)
    } else if s == "storedplaylist"@ {
        Some(Subsystem::StoredPlaylist)
    } else if s == "output"@ {
        Some(Subsystem::Output)
    } else {
        None
    }
}

impl Subsystem {
    /// Reads a changed-subsystem token; the name is load-bearing, so an
    /// unrecognized token is a hard value error.
    pub fn from_str(s: &str) -> (r: Result<Subsystem, Error>)
        ensures
            (r is Ok) == (subsystem_of(s@) is Some),
            r matches Ok(ss) ==> subsystem_of(s@) == Some(ss),
            r matches Err(e) ==> e matches Error::ValueError { msg } && msg@ == s@,
    {
        if str_eq(s, "partitions") {
            Ok(Subsystem::Partitions)
        } else if str_eq(s, "player") {
            Ok(Subsystem::Player)
        } else if str_eq(s, "mixer") {
            Ok(Subsystem::Mixer)
        } else if str_eq(s, "options") {
            Ok(Subsystem::Options)
        } else if str_eq(s, "update") {
            Ok(Subsystem::Update)
        } else if str_eq(s, "storedplaylist") {
            Ok(Subsystem::StoredPlaylist)
        } else if str_eq(s, "output") {
            Ok(Subsystem::Output)
        } else {
            Err(Error::ValueError { msg: String::from_str(s) })
        }
    }
}

/// Database statistics.
#[derive(Debug)]
pub struct Stats {
    pub uptime: Duration,
    pub playtime: Duration,
    pub artists: u32,
    pub albums: u32,
    pub songs: u32,
    pub db_playtime: Duration,
    pub db_update: i32,
}

/// The status of the player and the play queue.
#[derive(Debug)]
pub struct Status {
    /// Name of current partition
    pub partition: Option<String>,
    /// Volume (0 - 100)
    pub volume: Option<u8>,
    pub repeat: bool,
    pub random: bool,
    /// 0, 1 or Oneshot
    pub single: String,
    pub consume: bool,
    /// Playlist version number
    pub playlist: u32,
    pub playlistlength: u32,
    pub song: Option<u32>,
    pub songid: Option<u32>,
    pub nextsong: Option<u32>,
    pub nextsongid: Option<u32>,
    pub time: Option<String>,
    pub elapsed: Option<Duration>,
    pub duration: Option<Duration>,
    pub mixrampdb: Decimal,
    /// mixrampdelay in seconds
    pub mixrampdelay: Option<u32>,
    /// Player status
    pub state: State,
    /// Instantaneous bitrate in kbps
    pub bitrate: Option<u16>,
    /// crossfade in seconds
    pub xfade: Option<u32>,
    pub audio: Option<String>,
    pub updating_db: Option<u32>,
    pub error: Option<String>,
}

/// One track with its metadata and tags.
#[derive(Debug)]
pub struct Track {
    pub file: String,
    pub artist_sort: Option<String>,
    pub album_artist: Option<String>,
    pub album_sort: Option<String>,
    pub album_artist_sort: Option<String>,
    pub performer: Vec<String>,
    pub genre: Option<String>,
    pub title: Option<String>,
    pub track: Option<u32>,
    pub album: Option<String>,
    pub artist: Option<String>,
    pub pos: Option<u32>,
    pub id: Option<u32>,
    pub last_modified: Option<Timestamp>,
    pub original_date: Option<String>,
    pub time: Option<String>,
    pub format: Option<String>,
    pub duration: Duration,
    pub label: Option<String>,
    pub date: Option<String>,
    pub disc: Option<u32>,
    pub musicbraiz_trackid: Option<String>,
    pub musicbrainz_albumid: Option<String>,
    pub musicbrainz_albumartistid: Option<String>,
    pub musicbrainz_artistid: Option<String>,
    pub musicbraiz_releasetrackid: Option<String>,
    pub musicbraiz_workid: Option<String>,
    pub composer: Vec<String>,
}

/// A directory on the server.
#[derive(Debug)]
pub struct Directory {
    pub path: String,
    pub last_modified: Option<Timestamp>,
}

/// A stored playlist on the server.
#[derive(Debug)]
pub struct Playlist {
    pub path: String,
    pub last_modified: Option<Timestamp>,
}

/// A track tag a search filter can name.
#[derive(Clone, Copy, PartialEq, Eq, Structural, Debug)]
pub enum Tag {
    Artist,
    ArtistSort,
    Album,
    AlbumSort,
    AlbumArtist,
    AlbumSortOrder,
    Title,
    Track,
    Name,
    Genre,
    Date,
    Composer,
    Performer,
    Conductor,
    Work,
    Grouping,
    Comment,
    Disc,
    Label,
    MusicbrainzArtistId,
    MusicbrainzAlbumId,
    MusicbrainzAlbumArtistId,
    MusicbrainzTrackId,
    MusicbrainzReleaseTrackId,
    MusicbrainzWorkId,
    Any,
}

impl Tag {
    /// The tag's name as it appears in a filter expression.
    pub open spec fn spec_name(self) -> Seq<char> {
        match self {
            Tag::Artist => "Artist"@,
            Tag::ArtistSort => "ArtistSort"@,
            Tag::Album => "Album"@,
            Tag::AlbumSort => "AlbumSort"@,
            Tag::AlbumArtist => "AlbumArtist"@,
            Tag::AlbumSortOrder => "AlbumSortOrder"@,
            Tag::Title => "Title"@,
            Tag::Track => "Track"@,
            Tag::Name => "Name"@,
            Tag::Genre => "Genre"@,
            Tag::Date => "Date"@,
            Tag::Composer => "Composer"@,
            Tag::Performer => "Performer"@,
            Tag::Conductor => "Conductor"@,
            Tag::Work => "Work"@,
            Tag::Grouping => "Grouping"@,
            Tag::Comment => "Comment"@,
            Tag::Disc => "Disc"@,
            Tag::Label => "Label"@,
            Tag::MusicbrainzArtistId => "MusicbrainzArtistId"@,
            Tag::MusicbrainzAlbumId => "MusicbrainzAlbumId"@,
            Tag::MusicbrainzAlbumArtistId => "MusicbrainzAlbumArtistId"@,
            Tag::MusicbrainzTrackId => "MusicbrainzTrackId"@,
            Tag::MusicbrainzReleaseTrackId => "MusicbrainzReleaseTrackId"@,
            Tag::MusicbrainzWorkId => "MusicbrainzWorkId"@,
            Tag::Any => "Any"@,
        }
    }

    /// The tag's name as it appears in a filter expression.
    pub fn name(&self) -> (r: &'static str)
        ensures
            r@ == self.spec_name(),
    {
        match self {
            Tag::Artist => "Artist",
            Tag::ArtistSort => "ArtistSort",
            Tag::Album => "Album",
            Tag::AlbumSort => "AlbumSort",
            Tag::AlbumArtist => "AlbumArtist",
            Tag::AlbumSortOrder => "AlbumSortOrder",
            Tag::Title => "Title",
            Tag::Track => "Track",
            Tag::Name => "Name",
            Tag::Genre => "Genre",
            Tag::Date => "Date",
            Tag::Composer => "Composer",
            Tag::Performer => "Performer",
            Tag::Conductor => "Conductor",
            Tag::Work => "Work",
            Tag::Grouping => "Grouping",
            Tag::Comment => "Comment",
            Tag::Disc => "Disc",
            Tag::Label => "Label",
            Tag::MusicbrainzArtistId => "MusicbrainzArtistId",
            Tag::MusicbrainzAlbumId => "MusicbrainzAlbumId",
            Tag::MusicbrainzAlbumArtistId => "MusicbrainzAlbumArtistId",
            Tag::MusicbrainzTrackId => "MusicbrainzTrackId",
            Tag::MusicbrainzReleaseTrackId => "MusicbrainzReleaseTrackId",
            Tag::MusicbrainzWorkId => "MusicbrainzWorkId",
            Tag::Any => "Any",
        }
    }
}

} // verus!
