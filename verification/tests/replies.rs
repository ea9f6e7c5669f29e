//! Tests of the reply reader, the record splitter and the dispatcher.

use async_mpd::cmd;
use async_mpd::dispatch::{handle_reply, CommandResponse, ReadKind};
use async_mpd::handlers::{MixedResponseResponse, OkResponse, RespMapResponse, SingleLineResp,
    Tracks};
use async_mpd::protocol::Subsystem;
use async_mpd::reply::{reply_step, read_greeting, LineEvent, ReplyStep};
use async_mpd::splitter::{mixed_from_lines, MixedResponse};
use async_mpd::{Command, Duration, Error, RespMap, State};

/// Feeds raw wire lines to the reply reader until it finishes.
fn gather(raw: &[&str]) -> Result<Vec<String>, Error> {
    let mut acc: Vec<String> = Vec::new();
    for line in raw {
        match reply_step(acc, LineEvent::Line(line.to_string())) {
            ReplyStep::More(next) => acc = next,
            ReplyStep::Done(body) => return Ok(body),
            ReplyStep::Failed(e) => return Err(e),
        }
    }
    match reply_step(acc, LineEvent::Eof) {
        ReplyStep::Failed(e) => Err(e),
        _ => unreachable!(),
    }
}

#[test]
fn splitter_two_tracks_in_order() {
    let body =
        gather(&["file: a\n", "Title: A\n", "file: b\n", "Title: B\n", "OK\n"]).unwrap();
    let mut diag = Vec::new();
    let mixed = mixed_from_lines(&body, &mut diag);
    assert_eq!(mixed.files.len(), 2);
    assert_eq!(mixed.dirs.len(), 0);
    assert_eq!(mixed.playlist.len(), 0);
    assert_eq!(mixed.files[0].file, "a");
    assert_eq!(mixed.files[0].title.as_deref(), Some("A"));
    assert_eq!(mixed.files[1].file, "b");
    assert_eq!(mixed.files[1].title.as_deref(), Some("B"));
}

#[test]
fn record_with_directory_and_file_is_directory() {
    let mut map = RespMap::new();
    map.insert("directory", "music/albums");
    map.insert("file", "music/albums/track.flac");
    let mut diag = Vec::new();
    match MixedResponse::from_map(map, &mut diag) {
        MixedResponse::Directory(d) => assert_eq!(d.path, "music/albums"),
        MixedResponse::File(_) => panic!("a directory record must never decode as a track"),
        MixedResponse::Playlist(_) => panic!("a directory record must never decode as a playlist"),
    }
}

#[test]
fn empty_reply_zero_records() {
    let body = gather(&["OK\n"]).unwrap();
    assert!(body.is_empty());
    let mut diag = Vec::new();
    let mixed = mixed_from_lines(&body, &mut diag);
    assert!(mixed.files.is_empty());
    assert!(mixed.dirs.is_empty());
    assert!(mixed.playlist.is_empty());
}

#[test]
fn ack_line_is_command_rejected_with_literal_text() {
    let err = gather(&["ACK [5@0] {play} argument missing\n"]).unwrap_err();
    match err {
        Error::CommandError { msg } => assert_eq!(msg, "ACK [5@0] {play} argument missing"),
        other => panic!("wrong error class: {}", other.label()),
    }
    // partial data is discarded: lines before the rejection never surface
    let err = gather(&["volume: 50\n", "ACK [2@0] {status} boom\n"]).unwrap_err();
    match err {
        Error::CommandError { msg } => assert_eq!(msg, "ACK [2@0] {status} boom"),
        other => panic!("wrong error class: {}", other.label()),
    }
}

#[test]
fn zero_byte_read_is_disconnected() {
    let err = gather(&["volume: 50\n"]).unwrap_err();
    assert!(matches!(err, Error::Disconnected));
    match reply_step(Vec::new(), LineEvent::Eof) {
        ReplyStep::Failed(Error::Disconnected) => {},
        _ => panic!("end of stream must surface as Disconnected"),
    }
}

#[test]
fn greeting_is_version_line() {
    assert_eq!(read_greeting(LineEvent::Line("OK MPD 0.21.11\n".to_string())).unwrap(),
        "OK MPD 0.21.11");
    assert!(matches!(read_greeting(LineEvent::Eof), Err(Error::Disconnected)));
}

#[test]
fn read_kinds() {
    assert_eq!(Command::Status.read_kind(), ReadKind::Stream);
    assert_eq!(Command::ListallInfo(None).read_kind(), ReadKind::Stream);
    assert_eq!(Command::Stop.read_kind(), ReadKind::OneLine);
    assert_eq!(Command::Update(None).read_kind(), ReadKind::OneLine);
}

#[test]
fn dispatch_ok_reply() {
    let mut diag = Vec::new();
    let lines = vec!["OK\n".to_string()];
    assert!(matches!(
        handle_reply(&Command::Stop, &lines, &mut diag),
        Ok(CommandResponse::Done)
    ));
    let lines = vec!["something else\n".to_string()];
    match handle_reply(&Command::Stop, &lines, &mut diag) {
        Err(Error::ResponseError { reply, errmsg }) => {
            assert_eq!(reply, "something else");
            assert_eq!(errmsg, "Expected OK");
        },
        _ => panic!("a non-terminator line must be a response-shape error"),
    }
}

#[test]
fn dispatch_update_reply() {
    let mut diag = Vec::new();
    let lines = vec!["updating_db: 23\n".to_string()];
    match handle_reply(&Command::Update(None), &lines, &mut diag) {
        Ok(CommandResponse::DbVersion(v)) => assert_eq!(v.0, 23),
        _ => panic!("a well-formed maintenance reply must decode"),
    }
    let lines = vec!["upgrading_db: 23\n".to_string()];
    assert!(matches!(
        handle_reply(&Command::Rescan(None), &lines, &mut diag),
        Err(Error::ValueError { .. })
    ));
    let lines = vec!["updating_db: soon\n".to_string()];
    assert!(matches!(
        handle_reply(&Command::Update(None), &lines, &mut diag),
        Err(Error::ValueError { .. })
    ));
}

#[test]
fn dispatch_idle_reply() {
    let mut diag = Vec::new();
    let body = gather(&["changed: player\n", "OK\n"]).unwrap();
    match handle_reply(&Command::Idle, &body, &mut diag) {
        Ok(CommandResponse::Subsystem(s)) => assert_eq!(s, Subsystem::Player),
        _ => panic!("a changed line must decode to its subsystem"),
    }
    let body = gather(&["changed: weather\n", "OK\n"]).unwrap();
    match handle_reply(&Command::Idle, &body, &mut diag) {
        Err(Error::ValueError { msg }) => assert_eq!(msg, "weather"),
        _ => panic!("an unrecognized subsystem token is a hard value error"),
    }
    let body = gather(&["unchanged: player\n", "OK\n"]).unwrap();
    assert!(matches!(
        handle_reply(&Command::Idle, &body, &mut diag),
        Err(Error::CommandError { .. })
    ));
}

#[test]
fn dispatch_listall_paths() {
    let mut diag = Vec::new();
    let body = gather(&[
        "file: a.flac\n",
        "directory: albums\n",
        "file: albums/b.flac\n",
        "OK\n",
    ])
    .unwrap();
    match handle_reply(&Command::Listall(None), &body, &mut diag) {
        Ok(CommandResponse::Paths(ps)) => assert_eq!(ps, vec!["a.flac", "albums/b.flac"]),
        _ => panic!("a listing reply must decode to its paths"),
    }
}

#[test]
fn dispatch_stats_reply() {
    let mut diag = Vec::new();
    let body = gather(&[
        "uptime: 600\n",
        "playtime: 300.5\n",
        "artists: 3\n",
        "albums: 4\n",
        "songs: 5\n",
        "db_playtime: 9000\n",
        "db_update: 1577836800\n",
        "OK\n",
    ])
    .unwrap();
    match handle_reply(&Command::Stats, &body, &mut diag) {
        Ok(CommandResponse::Stats(s)) => {
            assert_eq!(s.uptime, Duration { secs: 600, nanos: 0 });
            assert_eq!(s.playtime, Duration { secs: 300, nanos: 500_000_000 });
            assert_eq!(s.artists, 3);
            assert_eq!(s.albums, 4);
            assert_eq!(s.songs, 5);
            assert_eq!(s.db_playtime, Duration { secs: 9000, nanos: 0 });
            assert_eq!(s.db_update, 1577836800);
        },
        _ => panic!("a stats reply must decode"),
    }
}

#[test]
fn dispatch_status_bad_state_is_hard_error() {
    let mut diag = Vec::new();
    let body = gather(&["state: flying\n", "OK\n"]).unwrap();
    match handle_reply(&Command::Status, &body, &mut diag) {
        Err(Error::ValueError { msg }) => assert_eq!(msg, "flying"),
        _ => panic!("an unrecognized state token is a hard value error"),
    }
}

#[test]
fn unknown_fields_warn_but_do_not_fail() {
    let mut diag = Vec::new();
    let body = gather(&["volume: 50\n", "brand_new_field: 7\n", "OK\n"]).unwrap();
    assert!(matches!(
        handle_reply(&Command::Status, &body, &mut diag),
        Ok(CommandResponse::Status(_))
    ));
    assert!(!diag.is_empty());
}

#[test]
fn handler_ok_and_single_line() {
    assert!(OkResponse::decode("OK\n").is_ok());
    assert!(matches!(
        OkResponse::decode("ACK [5@0] {stop} nope\n"),
        Err(Error::ResponseError { .. })
    ));
    assert_eq!(
        SingleLineResp::<Subsystem>::decode("changed: mixer\n").unwrap(),
        Subsystem::Mixer
    );
    assert!(SingleLineResp::<Subsystem>::decode("nonsense\n").is_err());
}

#[test]
fn state_tokens() {
    assert_eq!(State::from_str("play").unwrap(), State::Play);
    assert_eq!(State::from_str("pause").unwrap(), State::Pause);
    assert_eq!(State::from_str("stop").unwrap(), State::Stop);
    assert!(State::from_str("flying").is_err());
}

#[test]
fn respmap_handlers_parse_status() {
    let input = "\\\nvolume: 50\nrepeat: 1\nrandom: 1\nsingle: 0\nconsume: 0\nplaylist: 2\n\
        playlistlength: 141\nmixrampdb: 0.000000\nstate: play\nsong: 1\nsongid: 2\n\
        time: 149:308\nelapsed: 149.029\nbitrate: 878\nduration: 307.760\naudio: 44100:16:2\n\
        nextsong: 124\nnextsongid: 125\n";
    let mut diag = Vec::new();
    let parsed =
        async_mpd::Status::from_map(RespMap::from_string(input.to_string()), &mut diag).unwrap();
    assert_eq!(parsed.partition, None);
    assert_eq!(parsed.volume, Some(50));
    assert_eq!(parsed.repeat, true);
    assert_eq!(parsed.random, true);
    assert_eq!(parsed.single, "0");
    assert_eq!(parsed.consume, false);
    assert_eq!(parsed.playlist, 2);
    assert_eq!(parsed.playlistlength, 141);
    assert_eq!(parsed.song, Some(1));
    assert_eq!(parsed.songid, Some(2));
    assert_eq!(parsed.nextsong, Some(124));
    assert_eq!(parsed.nextsongid, Some(125));
    assert_eq!(parsed.time.as_deref(), Some("149:308"));
    assert_eq!(parsed.elapsed, Some(Duration { secs: 149, nanos: 29_000_000 }));
    assert_eq!(parsed.duration, Some(Duration { secs: 307, nanos: 760_000_000 }));
    assert_eq!(parsed.mixrampdb, async_mpd::Decimal::default());
    assert_eq!(parsed.mixrampdelay, None);
    assert_eq!(parsed.state, State::Play);
    assert_eq!(parsed.bitrate, Some(878));
    assert_eq!(parsed.xfade, None);
    assert_eq!(parsed.audio.as_deref(), Some("44100:16:2"));
    assert_eq!(parsed.updating_db, None);
    assert_eq!(parsed.error, None);
}

#[test]
fn responses_parse_status() {
    let input = "\\\nvolume: 50\nrepeat: 1\nrandom: 1\nsingle: 0\nconsume: 0\nplaylist: 2\n\
        playlistlength: 141\nmixrampdb: 0.000000\nstate: play\nsong: 1\nsongid: 2\n\
        time: 149:308\nelapsed: 149.029\nbitrate: 878\nduration: 307.760\naudio: 44100:16:2\n\
        nextsong: 124\nnextsongid: 125\n";
    let lines: Vec<String> = input.lines().map(|l| l.to_string()).collect();
    let mut diag = Vec::new();
    match handle_reply(&Command::Status, &lines, &mut diag) {
        Ok(CommandResponse::Status(parsed)) => {
            assert_eq!(parsed.volume, Some(50));
            assert_eq!(parsed.repeat, true);
            assert_eq!(parsed.random, true);
            assert_eq!(parsed.single, "0");
            assert_eq!(parsed.consume, false);
            assert_eq!(parsed.playlist, 2);
            assert_eq!(parsed.playlistlength, 141);
            assert_eq!(parsed.song, Some(1));
            assert_eq!(parsed.songid, Some(2));
            assert_eq!(parsed.nextsong, Some(124));
            assert_eq!(parsed.nextsongid, Some(125));
            assert_eq!(parsed.time.as_deref(), Some("149:308"));
            assert_eq!(parsed.elapsed, Some(Duration { secs: 149, nanos: 29_000_000 }));
            assert_eq!(parsed.duration, Some(Duration { secs: 307, nanos: 760_000_000 }));
            assert_eq!(parsed.state, State::Play);
            assert_eq!(parsed.bitrate, Some(878));
            assert_eq!(parsed.xfade, None);
            assert_eq!(parsed.audio.as_deref(), Some("44100:16:2"));
            assert_eq!(parsed.updating_db, None);
            assert_eq!(parsed.error, None);
        },
        _ => panic!("the reference status reply must decode"),
    }
}

#[test]
fn cmd_structs_bind_to_their_commands() {
    assert!(matches!(cmd::Stats.command(), Command::Stats));
    assert!(matches!(cmd::Setvol(50).command(), Command::SetVol(50)));
    assert!(matches!(cmd::Idle.command(), Command::Idle));
    match cmd::QueueAdd("path/to song.flac").command() {
        Command::QueueAdd(p) => assert_eq!(p, "path/to song.flac"),
        _ => panic!("the queue-add descriptor must bind to its command"),
    }
}

#[test]
fn error_labels() {
    assert_eq!(Error::Disconnected.label(), "disconnected");
    assert_eq!(Error::IOError { msg: "broken pipe".to_string() }.label(), "io error");
}

#[test]
fn respmap_bool_extractor() {
    let mut map = RespMap::new();
    map.insert("repeat", "1");
    map.insert("random", "maybe");
    assert_eq!(map.as_bool("repeat").unwrap(), true);
    assert_eq!(map.as_bool("absent").unwrap(), false);
    assert!(map.as_bool("random").is_err());
}

#[test]
fn handler_respmap_decodes() {
    let mut diag = Vec::new();
    let body = vec!["artists: 3".to_string(), "songs: 5".to_string()];
    let stats = RespMapResponse::<async_mpd::Stats>::decode(&body, &mut diag);
    assert_eq!(stats.artists, 3);
    assert_eq!(stats.songs, 5);
    let body = vec!["updating_db: 9".to_string()];
    let v = RespMapResponse::<async_mpd::DatabaseVersion>::decode(&body, &mut diag);
    assert_eq!(v.0, 9);
    let body = vec!["state: pause".to_string()];
    let st = RespMapResponse::<async_mpd::Status>::decode(&body, &mut diag).unwrap();
    assert_eq!(st.state, State::Pause);
    let body = vec![
        "file: a.flac".to_string(),
        "directory: albums".to_string(),
        "playlist: faves".to_string(),
    ];
    let listing = RespMapResponse::<async_mpd::ListallResponse>::decode(&body, &mut diag);
    assert_eq!(listing.files, vec!["a.flac"]);
    assert_eq!(listing.dirs, vec!["albums"]);
    assert_eq!(listing.playlists, vec!["faves"]);
    let body = vec!["file: a.flac".to_string(), "Title: A".to_string()];
    let tracks = Tracks::decode(&body, &mut diag);
    assert_eq!(tracks.len(), 1);
    let mixed = MixedResponseResponse::decode(&body, &mut diag);
    assert_eq!(mixed.files.len(), 1);
}

#[test]
fn mixed_response_accessors() {
    let mut map = RespMap::new();
    map.insert("playlist", "faves");
    let mut diag = Vec::new();
    let entry = MixedResponse::from_map(map, &mut diag);
    assert!(entry.playlist().is_some());
    assert!(entry.track().is_none());
    assert!(entry.directory().is_none());
    assert_eq!(entry.playlist().unwrap().path, "faves");
}
