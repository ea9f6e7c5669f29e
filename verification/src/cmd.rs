//! The command model: each operation as a typed descriptor carrying at most
//! one argument, its rendering as a wire line `VERB "ARG"\n` or `VERB\n`,
//! and the sealed tagged union that binds every command to exactly one way
//! of decoding its reply.

use vstd::prelude::*;
use crate::numbers::{dec_str, u32_to_dec};
use crate::text::push_char;

verus! {

/// The wire line for a verb and its optional argument: the argument is
/// wrapped in double quotes, not escaped at this layer.
pub open spec fn cmdline_of(verb: Seq<char>, arg: Option<Seq<char>>) -> Seq<char> {
    match arg {
        None => verb.push('\n'),
        Some(a) => verb + seq![' ', '"'] + a + seq!['"', '\n'],
    }
}

/// Renders one command line from a verb and an optional argument.
pub fn build_cmdline(verb: &str, arg: Option<&str>) -> (r: String)
    ensures
        arg is None ==> r@ == cmdline_of(verb@, None),
        arg matches Some(a) ==> r@ == cmdline_of(verb@, Some(a@)),
{
    let mut out = String::from_str(verb);
    match arg {
        None => {
            push_char(&mut out, '\n');
            proof {
                assert(out@ =~= verb@.push('\n'));
            }
        },
        Some(a) => {
            push_char(&mut out, ' ');
            push_char(&mut out, '"');
            out.append(a);
            push_char(&mut out, '"');
            push_char(&mut out, '\n');
            proof {
                assert(out@ =~= verb@ + seq![' ', '"'] + a@ + seq!['"', '\n']);
            }
        },
    }
    out
}

/// The view of an optional borrowed argument.
pub open spec fn opt_arg_view(o: Option<&str>) -> Option<Seq<char>> {
    match o {
        None => None,
        Some(s) => Some(s@),
    }
}

/// The view of an optional owned argument.
pub open spec fn opt_string_view(o: Option<String>) -> Option<Seq<char>> {
    match o {
        None => None,
        Some(s) => Some(s@),
    }
}

/// A bint argument: true renders as `1`, false as `0`.
pub open spec fn bool_arg(b: bool) -> Seq<char> {
    if b {
        "1"@
    } else {
        "0"@
    }
}

fn bool_token(b: bool) -> (r: &'static str)
    ensures
        r@ == bool_arg(b),
{
    if b {
        "1"
    } else {
        "0"
    }
}

/// One operation with its argument: the sealed union the dispatcher
/// matches exhaustively, so a reply can never be decoded with the wrong
/// handler.
pub enum Command {
    Stats,
    Status,
    Update(Option<String>),
    Rescan(Option<String>),
    Idle,
    NoIdle,
    SetVol(u32),
    PlayId(u32),
    Consume(bool),
    Repeat(bool),
    Random(bool),
    PlayPaus(bool),
    Next,
    Prev,
    Stop,
    QueueAdd(String),
    QueueClear,
    PlaylistInfo,
    Search(Option<String>),
    Listall(Option<String>),
    ListallInfo(Option<String>),
}

impl Command {
    /// The protocol verb this command sends.
    pub open spec fn spec_verb(&self) -> Seq<char> {
        match self {
            Command::Stats => "stats"@,
            Command::Status => "status"@,
            Command::Update(_) => "update"@,
            Command::Rescan(_) => "rescan"@,
            Command::Idle => "idle"@,
            Command::NoIdle => "noidle"@,
            Command::SetVol(_) => "setvol"@,
            Command::PlayId(_) => "playid"@,
            Command::Consume(_) => "consume"@,
            Command::Repeat(_) => "repeat"@,
            Command::Random(_) => "random"@,
            Command::PlayPaus(_) => "pause"@,
            Command::Next => "next"@,
            Command::Prev => "prev"@,
            Command::Stop => "stop"@,
            Command::QueueAdd(_) => "add"@,
            Command::QueueClear => "clear"@,
            Command::PlaylistInfo => "playlistinfo"@,
            Command::Search(_) => "search"@,
            Command::Listall(_) => "listall"@,
            Command::ListallInfo(_) => "listallinfo"@,
        }
    }

    /// The rendered argument this command sends, if it carries one.
    pub open spec fn spec_arg(&self) -> Option<Seq<char>> {
        match self {
            Command::Update(p) => opt_string_view(*p),
            Command::Rescan(p) => opt_string_view(*p),
            Command::SetVol(v) => Some(dec_str(*v as nat)),
            Command::PlayId(id) => Some(dec_str(*id as nat)),
            Command::Consume(b) => Some(bool_arg(*b)),
            Command::Repeat(b) => Some(bool_arg(*b)),
            Command::Random(b) => Some(bool_arg(*b)),
            Command::PlayPaus(b) => Some(bool_arg(*b)),
            Command::QueueAdd(p) => Some(p@),
            Command::Search(q) => opt_string_view(*q),
            Command::Listall(p) => opt_string_view(*p),
            Command::ListallInfo(p) => opt_string_view(*p),
            _ => None,
        }
    }

    /// The full wire line this command sends.
    pub open spec fn spec_line(&self) -> Seq<char> {
        cmdline_of(self.spec_verb(), self.spec_arg())
    }

    /// Renders the command as its wire line.
    pub fn line(&self) -> (r: String)
        ensures
            r@ == self.spec_line(),
    {
        match self {
            Command::Stats => build_cmdline("stats", None),
            Command::Status => build_cmdline("status", None),
            Command::Update(p) => build_cmdline("update", opt_as_deref(p)),
            Command::Rescan(p) => build_cmdline("rescan", opt_as_deref(p)),
            Command::Idle => build_cmdline("idle", None),
            Command::NoIdle => build_cmdline("noidle", None),
            Command::SetVol(v) => build_cmdline("setvol", Some(u32_to_dec(*v).as_str())),
            Command::PlayId(id) => build_cmdline("playid", Some(u32_to_dec(*id).as_str())),
            Command::Consume(b) => build_cmdline("consume", Some(bool_token(*b))),
            Command::Repeat(b) => build_cmdline("repeat", Some(bool_token(*b))),
            Command::Random(b) => build_cmdline("random", Some(bool_token(*b))),
            Command::PlayPaus(b) => build_cmdline("pause", Some(bool_token(*b))),
            Command::Next => build_cmdline("next", None),
            Command::Prev => build_cmdline("prev", None),
            Command::Stop => build_cmdline("stop", None),
            Command::QueueAdd(p) => build_cmdline("add", Some(p.as_str())),
            Command::QueueClear => build_cmdline("clear", None),
            Command::PlaylistInfo => build_cmdline("playlistinfo", None),
            Command::Search(q) => build_cmdline("search", opt_as_deref(q)),
            Command::Listall(p) => build_cmdline("listall", opt_as_deref(p)),
            Command::ListallInfo(p) => build_cmdline("listallinfo", opt_as_deref(p)),
        }
    }
}

fn opt_as_deref(o: &Option<String>) -> (r: Option<&str>)
    ensures
        opt_arg_view(r) == opt_string_view(*o),
{
    match o {
        None => None,
        Some(s) => Some(s.as_str()),
    }
}

/// A command as a bare verb and optional pre-rendered argument.
pub struct Cmd {
    cmd: &'static str,
    arg: Option<String>,
}

impl Cmd {
    /// The verb this pairing holds.
    pub closed spec fn spec_cmd(&self) -> Seq<char> {
        self.cmd@
    }

    /// The rendered argument this pairing holds, if any.
    pub closed spec fn spec_arg(&self) -> Option<Seq<char>> {
        opt_string_view(self.arg)
    }

    /// Pairs a verb with an optional argument.
    pub fn new(cmd: &'static str, arg: Option<String>) -> (r: Cmd)
        ensures
            r.spec_cmd() == cmd@,
            r.spec_arg() == opt_string_view(arg),
    {
        Cmd { cmd, arg }
    }

    /// The wire line this pairing renders to.
    pub fn to_string(&self) -> (r: String)
        ensures
            r@ == cmdline_of(self.spec_cmd(), self.spec_arg()),
    {
        build_cmdline(self.cmd, opt_as_deref(&self.arg))
    }
}

/// The stats command.
#[derive(Clone, Copy)]
pub struct Stats;

/// The status command.
#[derive(Clone, Copy)]
pub struct Status;

/// Sets the volume.
#[derive(Clone, Copy)]
pub struct Setvol(pub u32);

/// Switches repeat mode.
#[derive(Clone, Copy)]
pub struct Repeat(pub bool);

/// Switches random mode.
#[derive(Clone, Copy)]
pub struct Random(pub bool);

/// Switches consume mode.
#[derive(Clone, Copy)]
pub struct Consume(pub bool);

/// Plays the queue entry with the given id.
#[derive(Clone, Copy)]
pub struct PlayId(pub u32);

/// Clears the play queue.
#[derive(Clone, Copy)]
pub struct QueueClear;

/// Appends a path to the play queue.
#[derive(Clone, Copy)]
pub struct QueueAdd<'a>(pub &'a str);

/// Searches the database with an optional filter expression.
#[derive(Clone, Copy)]
pub struct Search<'a>(pub Option<&'a str>);

/// Lists the play queue with metadata.
#[derive(Clone, Copy)]
pub struct PlaylistInfo;

/// Stops playback.
#[derive(Clone, Copy)]
pub struct Stop;

/// Pauses or resumes playback.
#[derive(Clone, Copy)]
pub struct PlayPause(pub bool);

/// Skips to the next queue entry.
#[derive(Clone, Copy)]
pub struct Next;

/// Skips to the previous queue entry.
#[derive(Clone, Copy)]
pub struct Prev;

/// Rescans the database, optionally below one path.
#[derive(Clone, Copy)]
pub struct Rescan<'a>(pub Option<&'a str>);

/// Updates the database, optionally below one path.
#[derive(Clone, Copy)]
pub struct Update<'a>(pub Option<&'a str>);

/// Waits for a change in some subsystem.
#[derive(Clone, Copy)]
pub struct Idle;

/// Cancels a pending idle.
#[derive(Clone, Copy)]
pub struct NoIdle;

/// Lists every path in the database, optionally below one path.
#[derive(Clone, Copy)]
pub struct Listall<'a>(pub Option<&'a str>);

/// Lists every entity in the database with metadata.
#[derive(Clone, Copy)]
pub struct ListallInfo<'a>(pub Option<&'a str>);

fn opt_to_string(o: Option<&str>) -> (r: Option<String>)
    ensures
        opt_string_view(r) == opt_arg_view(o),
{
    match o {
        None => None,
        Some(s) => Some(String::from_str(s)),
    }
}

impl Stats {
    /// The dispatcher command this descriptor is bound to.
    pub fn command(&self) -> (c: Command)
        ensures
            c == Command::Stats,
    {
        Command::Stats
    }

    /// The wire line this command sends.
    pub fn to_cmdline(&self) -> (r: String)
        ensures
            r@ == cmdline_of("stats"@, None),
    {
        self.command().line()
    }
}

impl Status {
    /// The dispatcher command this descriptor is bound to.
    pub fn command(&self) -> (c: Command)
        ensures
            c == Command::Status,
    {
        Command::Status
    }

    /// The wire line this command sends.
    pub fn to_cmdline(&self) -> (r: String)
        ensures
            r@ == cmdline_of("status"@, None),
    {
        self.command().line()
    }
}

impl Setvol {
    /// The dispatcher command this descriptor is bound to.
    pub fn command(&self) -> (c: Command)
        ensures
            c == Command::SetVol(self.0),
    {
        Command::SetVol(self.0)
    }

    /// The wire line this command sends.
    pub fn to_cmdline(&self) -> (r: String)
        ensures
            r@ == cmdline_of("setvol"@, Some(dec_str(self.0 as nat))),
    {
        self.command().line()
    }
}

impl Repeat {
    /// The dispatcher command this descriptor is bound to.
    pub fn command(&self) -> (c: Command)
        ensures
            c == Command::Repeat(self.0),
    {
        Command::Repeat(self.0)
    }

    /// The wire line this command sends.
    pub fn to_cmdline(&self) -> (r: String)
        ensures
            r@ == cmdline_of("repeat"@, Some(bool_arg(self.0))),
    {
        self.command().line()
    }
}

impl Random {
    /// The dispatcher command this descriptor is bound to.
    pub fn command(&self) -> (c: Command)
        ensures
            c == Command::Random(self.0),
    {
        Command::Random(self.0)
    }

    /// The wire line this command sends.
    pub fn to_cmdline(&self) -> (r: String)
        ensures
            r@ == cmdline_of("random"@, Some(bool_arg(self.0))),
    {
        self.command().line()
    }
}

impl Consume {
    /// The dispatcher command this descriptor is bound to.
    pub fn command(&self) -> (c: Command)
        ensures
            c == Command::Consume(self.0),
    {
        Command::Consume(self.0)
    }

    /// The wire line this command sends.
    pub fn to_cmdline(&self) -> (r: String)
        ensures
            r@ == cmdline_of("consume"@, Some(bool_arg(self.0))),
    {
        self.command().line()
    }
}

impl PlayId {
    /// The dispatcher command this descriptor is bound to.
    pub fn command(&self) -> (c: Command)
        ensures
            c == Command::PlayId(self.0),
    {
        Command::PlayId(self.0)
    }

    /// The wire line this command sends.
    pub fn to_cmdline(&self) -> (r: String)
        ensures
            r@ == cmdline_of("playid"@, Some(dec_str(self.0 as nat))),
    {
        self.command().line()
    }
}

impl QueueClear {
    /// The dispatcher command this descriptor is bound to.
    pub fn command(&self) -> (c: Command)
        ensures
            c == Command::QueueClear,
    {
        Command::QueueClear
    }

    /// The wire line this command sends.
    pub fn to_cmdline(&self) -> (r: String)
        ensures
            r@ == cmdline_of("clear"@, None),
    {
        self.command().line()
    }
}

impl<'a> QueueAdd<'a> {
    /// The dispatcher command this descriptor is bound to.
    pub fn command(&self) -> (c: Command)
        ensures
            c matches Command::QueueAdd(p) && p@ == self.0@,
    {
        Command::QueueAdd(String::from_str(self.0))
    }

    /// The wire line this command sends.
    pub fn to_cmdline(&self) -> (r: String)
        ensures
            r@ == cmdline_of("add"@, Some(self.0@)),
    {
        self.command().line()
    }
}

impl<'a> Search<'a> {
    /// The dispatcher command this descriptor is bound to.
    pub fn command(&self) -> (c: Command)
        ensures
            c matches Command::Search(q) && opt_string_view(q) == opt_arg_view(self.0),
    {
        Command::Search(opt_to_string(self.0))
    }

    /// The wire line this command sends.
    pub fn to_cmdline(&self) -> (r: String)
        ensures
            r@ == cmdline_of("search"@, opt_arg_view(self.0)),
    {
        self.command().line()
    }
}

impl PlaylistInfo {
    /// The dispatcher command this descriptor is bound to.
    pub fn command(&self) -> (c: Command)
        ensures
            c == Command::PlaylistInfo,
    {
        Command::PlaylistInfo
    }

    /// The wire line this command sends.
    pub fn to_cmdline(&self) -> (r: String)
        ensures
            r@ == cmdline_of("playlistinfo"@, None),
    {
        self.command().line()
    }
}

impl Stop {
    /// The dispatcher command this descriptor is bound to.
    pub fn command(&self) -> (c: Command)
        ensures
            c == Command::Stop,
    {
        Command::Stop
    }

    /// The wire line this command sends.
    pub fn to_cmdline(&self) -> (r: String)
        ensures
            r@ == cmdline_of("stop"@, None),
    {
        self.command().line()
    }
}

impl PlayPause {
    /// The dispatcher command this descriptor is bound to.
    pub fn command(&self) -> (c: Command)
        ensures
            c == Command::PlayPaus(self.0),
    {
        Command::PlayPaus(self.0)
    }

    /// The wire line this command sends.
    pub fn to_cmdline(&self) -> (r: String)
        ensures
            r@ == cmdline_of("pause"@, Some(bool_arg(self.0))),
    {
        self.command().line()
    }
}

impl Next {
    /// The dispatcher command this descriptor is bound to.
    pub fn command(&self) -> (c: Command)
        ensures
            c == Command::Next,
    {
        Command::Next
    }

    /// The wire line this command sends.
    pub fn to_cmdline(&self) -> (r: String)
        ensures
            r@ == cmdline_of("next"@, None),
    {
        self.command().line()
    }
}

impl Prev {
    /// The dispatcher command this descriptor is bound to.
    pub fn command(&self) -> (c: Command)
        ensures
            c == Command::Prev,
    {
        Command::Prev
    }

    /// The wire line this command sends.
    pub fn to_cmdline(&self) -> (r: String)
        ensures
            r@ == cmdline_of("prev"@, None),
    {
        self.command().line()
    }
}

impl<'a> Rescan<'a> {
    /// The dispatcher command this descriptor is bound to.
    pub fn command(&self) -> (c: Command)
        ensures
            c matches Command::Rescan(p) && opt_string_view(p) == opt_arg_view(self.0),
    {
        Command::Rescan(opt_to_string(self.0))
    }

    /// The wire line this command sends.
    pub fn to_cmdline(&self) -> (r: String)
        ensures
            r@ == cmdline_of("rescan"@, opt_arg_view(self.0)),
    {
        self.command().line()
    }
}

impl<'a> Update<'a> {
    /// The dispatcher command this descriptor is bound to.
    pub fn command(&self) -> (c: Command)
        ensures
            c matches Command::Update(p) && opt_string_view(p) == opt_arg_view(self.0),
    {
        Command::Update(opt_to_string(self.0))
    }

    /// The wire line this command sends.
    pub fn to_cmdline(&self) -> (r: String)
        ensures
            r@ == cmdline_of("update"@, opt_arg_view(self.0)),
    {
        self.command().line()
    }
}

impl Idle {
    /// The dispatcher command this descriptor is bound to.
    pub fn command(&self) -> (c: Command)
        ensures
            c == Command::Idle,
    {
        Command::Idle
    }

    /// The wire line this command sends.
    pub fn to_cmdline(&self) -> (r: String)
        ensures
            r@ == cmdline_of("idle"@, None),
    {
        self.command().line()
    }
}

impl NoIdle {
    /// The dispatcher command this descriptor is bound to.
    pub fn command(&self) -> (c: Command)
        ensures
            c == Command::NoIdle,
    {
        Command::NoIdle
    }

    /// The wire line this command sends.
    pub fn to_cmdline(&self) -> (r: String)
        ensures
            r@ == cmdline_of("noidle"@, None),
    {
        self.command().line()
    }
}

impl<'a> Listall<'a> {
    /// The dispatcher command this descriptor is bound to.
    pub fn command(&self) -> (c: Command)
        ensures
            c matches Command::Listall(p) && opt_string_view(p) == opt_arg_view(self.0),
    {
        Command::Listall(opt_to_string(self.0))
    }

    /// The wire line this command sends.
    pub fn to_cmdline(&self) -> (r: String)
        ensures
            r@ == cmdline_of("listall"@, opt_arg_view(self.0)),
    {
        self.command().line()
    }
}

impl<'a> ListallInfo<'a> {
    /// The dispatcher command this descriptor is bound to.
    pub fn command(&self) -> (c: Command)
        ensures
            c matches Command::ListallInfo(p) && opt_string_view(p) == opt_arg_view(self.0),
    {
        Command::ListallInfo(opt_to_string(self.0))
    }

    /// The wire line this command sends.
    pub fn to_cmdline(&self) -> (r: String)
        ensures
            r@ == cmdline_of("listallinfo"@, opt_arg_view(self.0)),
    {
        self.command().line()
    }
}


} // verus!
