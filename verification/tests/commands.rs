//! Tests of command encoding and of filter expression building.

use async_mpd::cmd;
use async_mpd::filter::escape;
use async_mpd::{Cmd, Command, Filter, FilterExpr, Tag, ToFilterExpr};

#[test]
fn encode_playid_and_stop() {
    assert_eq!(cmd::PlayId(7).to_cmdline(), "playid \"7\"\n");
    assert_eq!(cmd::Stop.to_cmdline(), "stop\n");
    assert_eq!(Command::PlayId(7).line(), "playid \"7\"\n");
    assert_eq!(Command::Stop.line(), "stop\n");
}

#[test]
fn encode_the_other_commands() {
    assert_eq!(cmd::Status.to_cmdline(), "status\n");
    assert_eq!(cmd::Stats.to_cmdline(), "stats\n");
    assert_eq!(cmd::Setvol(50).to_cmdline(), "setvol \"50\"\n");
    assert_eq!(cmd::Repeat(true).to_cmdline(), "repeat \"1\"\n");
    assert_eq!(cmd::Random(false).to_cmdline(), "random \"0\"\n");
    assert_eq!(cmd::Consume(true).to_cmdline(), "consume \"1\"\n");
    assert_eq!(cmd::PlayPause(false).to_cmdline(), "pause \"0\"\n");
    assert_eq!(cmd::Next.to_cmdline(), "next\n");
    assert_eq!(cmd::Prev.to_cmdline(), "prev\n");
    assert_eq!(cmd::QueueClear.to_cmdline(), "clear\n");
    assert_eq!(cmd::QueueAdd("some/path.flac").to_cmdline(), "add \"some/path.flac\"\n");
    assert_eq!(cmd::PlaylistInfo.to_cmdline(), "playlistinfo\n");
    assert_eq!(cmd::Idle.to_cmdline(), "idle\n");
    assert_eq!(cmd::NoIdle.to_cmdline(), "noidle\n");
    assert_eq!(cmd::Update(None).to_cmdline(), "update\n");
    assert_eq!(cmd::Update(Some("music")).to_cmdline(), "update \"music\"\n");
    assert_eq!(cmd::Rescan(None).to_cmdline(), "rescan\n");
    assert_eq!(cmd::Listall(Some("albums")).to_cmdline(), "listall \"albums\"\n");
    assert_eq!(cmd::ListallInfo(None).to_cmdline(), "listallinfo\n");
    assert_eq!(cmd::Search(Some("(Artist == \"x\")")).to_cmdline(),
        "search \"(Artist == \"x\")\"\n");
}

#[test]
fn cmd_pairing_renders_like_the_descriptors() {
    assert_eq!(Cmd::new("playid", Some("7".to_string())).to_string(), "playid \"7\"\n");
    assert_eq!(Cmd::new("stop", None).to_string(), "stop\n");
}

#[test]
fn filter_query_composition() {
    let filter = Filter::new()
        .and(Tag::Artist.equals("The Beatles"))
        .and(Tag::Album.contains("White"));
    assert_eq!(
        filter.to_query().unwrap(),
        "((Artist == \\\"The Beatles\\\") AND (Album contains \\\"White\\\"))"
    );
    assert!(Filter::new().to_query().is_none());
    let single = Filter::with(Tag::Title.equals("Help!"));
    assert_eq!(single.to_query().unwrap(), "((Title == \\\"Help!\\\"))");
}

#[test]
fn filter_negation() {
    let filter = Filter::new().and_not(Tag::Genre.equals("Polka"));
    assert_eq!(filter.to_query().unwrap(), "(!(Genre == \\\"Polka\\\"))");
    let expr = FilterExpr::Not(Box::new(Tag::Any.contains("x")));
    assert_eq!(expr.to_query(), "!(Any contains \"x\")");
}

#[test]
fn escaping() {
    assert_eq!(escape("plain"), "plain");
    assert_eq!(escape("a\"b"), "a\\\"b");
    assert_eq!(escape("a\\b"), "a\\\\b");
    assert_eq!(escape("it's"), "it\\'s");
    assert_eq!(escape(""), "");
}
