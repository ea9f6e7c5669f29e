//! The record splitter for streamed multi-record replies. Such a reply is a
//! concatenation of records, each introduced by one of three boundary keys,
//! with no per-record terminator; the splitter partitions the body lines
//! into one reply map per record and discriminates each by fixed priority.
//!
//! The split assumes, as the protocol does, that each record's boundary key
//! is that record's first field. A reply violating this ordering would be
//! mis-split: that assumption is inherited wire behaviour, not an invariant
//! this module could enforce.

use vstd::prelude::*;
use crate::mapping::{directory_matches, playlist_matches, track_matches};
use crate::protocol::{Directory, Playlist, Track};
use crate::respmap::{RespMap, multi_insert, no_entries};
use crate::text::{kv_of, split_kv};

verus! {

/// Whether a field name introduces a new record.
pub open spec fn is_boundary_key(k: Seq<char>) -> bool {
    k == "file"@ || k == "directory"@ || k == "playlist"@
}

/// One step of the splitter: a line either extends the current record or,
/// when it carries a boundary key and the current record already holds
/// data, finalizes it and starts the next.
pub open spec fn split_step(
    st: (Seq<Map<Seq<char>, Seq<Seq<char>>>>, Map<Seq<char>, Seq<Seq<char>>>),
    line: Seq<char>,
) -> (Seq<Map<Seq<char>, Seq<Seq<char>>>>, Map<Seq<char>, Seq<Seq<char>>>) {
    match kv_of(line) {
        None => st,
        Some(kv) => if is_boundary_key(kv.0) && st.1 != no_entries() {
            (st.0.push(st.1), multi_insert(no_entries(), kv.0, kv.1))
        } else {
            (st.0, multi_insert(st.1, kv.0, kv.1))
        },
    }
}

/// The splitter's state after all lines: the finalized records and the
/// still-open current record.
pub open spec fn split_fold(lines: Seq<Seq<char>>) -> (
    Seq<Map<Seq<char>, Seq<Seq<char>>>>,
    Map<Seq<char>, Seq<Seq<char>>>,
)
    decreases lines.len(),
{
    if lines.len() == 0 {
        (Seq::empty(), no_entries())
    } else {
        split_step(split_fold(lines.drop_last()), lines.last())
    }
}

/// The records of a reply body: the overall terminator closes the final
/// record, which is emitted only if it holds data.
pub open spec fn records_of(lines: Seq<Seq<char>>) -> Seq<Map<Seq<char>, Seq<Seq<char>>>> {
    let st = split_fold(lines);
    if st.1 == no_entries() {
        st.0
    } else {
        st.0.push(st.1)
    }
}

/// What kind of entity a finalized record is.
#[derive(Clone, Copy, PartialEq, Eq, Structural, Debug)]
pub enum RecordKind {
    Directory,
    Playlist,
    Track,
}

/// Discrimination by fixed priority: a "directory" key wins, then a
/// "playlist" key; everything else is a track.
pub open spec fn kind_of(m: Map<Seq<char>, Seq<Seq<char>>>) -> RecordKind {
    if m.contains_key("directory"@) {
        RecordKind::Directory
    } else if m.contains_key("playlist"@) {
        RecordKind::Playlist
    } else {
        RecordKind::Track
    }
}

/// A record holding a "directory" key is a directory, whatever other keys
/// it holds; in particular one holding both "directory" and "file" never
/// decodes as a track.
pub proof fn lemma_directory_never_track(m: Map<Seq<char>, Seq<Seq<char>>>)
    requires
        m.contains_key("directory"@),
    ensures
        kind_of(m) == RecordKind::Directory,
        kind_of(m) != RecordKind::Track,
{
}

/// One decoded entity within a multi-record listing reply.
#[derive(Debug)]
pub enum MixedResponse {
    File(Track),
    Directory(Directory),
    Playlist(Playlist),
}

impl MixedResponse {
    /// The track, if this entry is one.
    pub fn track(&self) -> (r: Option<&Track>)
        ensures
            (r is Some) == (self is File),
            r matches Some(t) ==> self matches MixedResponse::File(t2) && t == t2,
    {
        match self {
            MixedResponse::File(t) => Some(t),
            _ => None,
        }
    }

    /// The directory, if this entry is one.
    pub fn directory(&self) -> (r: Option<&Directory>)
        ensures
            (r is Some) == (self is Directory),
            r matches Some(d) ==> self matches MixedResponse::Directory(d2) && d == d2,
    {
        match self {
            MixedResponse::Directory(d) => Some(d),
            _ => None,
        }
    }

    /// The playlist, if this entry is one.
    pub fn playlist(&self) -> (r: Option<&Playlist>)
        ensures
            (r is Some) == (self is Playlist),
            r matches Some(p) ==> self matches MixedResponse::Playlist(p2) && p == p2,
    {
        match self {
            MixedResponse::Playlist(p) => Some(p),
            _ => None,
        }
    }

    /// Decodes one finalized record by its kind.
    pub fn from_map(map: RespMap, diag: &mut Vec<String>) -> (r: MixedResponse)
        requires
            map.wf(),
        ensures
            kind_of(map@) == RecordKind::Directory ==> (r matches MixedResponse::Directory(d)
                && directory_matches(d, map@)),
            kind_of(map@) == RecordKind::Playlist ==> (r matches MixedResponse::Playlist(p)
                && playlist_matches(p, map@)),
            kind_of(map@) == RecordKind::Track ==> (r matches MixedResponse::File(t)
                && track_matches(t, map@)),
            old(diag)@.is_prefix_of(final(diag)@),
    {
        if map.contains_key("directory") {
            MixedResponse::Directory(Directory::from_map(map, diag))
        } else if map.contains_key("playlist") {
            MixedResponse::Playlist(Playlist::from_map(map, diag))
        } else {
            MixedResponse::File(Track::from_map(map, diag))
        }
    }
}

/// The decoded entities of one listing reply, grouped by kind, each group
/// in input order.
#[derive(Debug)]
pub struct ListallinfoResponse {
    pub files: Vec<Track>,
    pub dirs: Vec<Directory>,
    pub playlist: Vec<Playlist>,
}

/// The records of a given kind, in order.
pub open spec fn records_of_kind(
    rs: Seq<Map<Seq<char>, Seq<Seq<char>>>>,
    kind: RecordKind,
) -> Seq<Map<Seq<char>, Seq<Seq<char>>>> {
    rs.filter(|m: Map<Seq<char>, Seq<Seq<char>>>| kind_of(m) == kind)
}

/// How a decoded listing relates to the records of the reply body.
pub open spec fn mixed_matches(
    r: ListallinfoResponse,
    rs: Seq<Map<Seq<char>, Seq<Seq<char>>>>,
) -> bool {
    &&& r.files@.len() == records_of_kind(rs, RecordKind::Track).len()
    &&& forall|i: int|
        0 <= i < r.files@.len() ==> track_matches(
            #[trigger] r.files@[i],
            records_of_kind(rs, RecordKind::Track)[i],
        )
    &&& r.dirs@.len() == records_of_kind(rs, RecordKind::Directory).len()
    &&& forall|i: int|
        0 <= i < r.dirs@.len() ==> directory_matches(
            #[trigger] r.dirs@[i],
            records_of_kind(rs, RecordKind::Directory)[i],
        )
    &&& r.playlist@.len() == records_of_kind(rs, RecordKind::Playlist).len()
    &&& forall|i: int|
        0 <= i < r.playlist@.len() ==> playlist_matches(
            #[trigger] r.playlist@[i],
            records_of_kind(rs, RecordKind::Playlist)[i],
        )
}


/// How a vector of decoded tracks relates to the track-kind records.
pub open spec fn tracks_match(ts: Seq<Track>, rs: Seq<Map<Seq<char>, Seq<Seq<char>>>>) -> bool {
    &&& ts.len() == records_of_kind(rs, RecordKind::Track).len()
    &&& forall|i: int|
        0 <= i < ts.len() ==> track_matches(
            #[trigger] ts[i],
            records_of_kind(rs, RecordKind::Track)[i],
        )
}

/// Splits a reply body into records and decodes each: the heart of every
/// streamed listing command. The lines are the body of the reply, already
/// trimmed, with the terminator line removed.
pub fn mixed_from_lines(lines: &Vec<String>, diag: &mut Vec<String>) -> (r: ListallinfoResponse)
    ensures
        mixed_matches(r, records_of(lines.deep_view())),
        old(diag)@.is_prefix_of(final(diag)@),
{
    let mut files: Vec<Track> = Vec::new();
    let mut dirs: Vec<Directory> = Vec::new();
    let mut playlists: Vec<Playlist> = Vec::new();
    let mut cur = RespMap::new();
    let mut i: usize = 0;
    proof {
        assert(lines.deep_view().subrange(0, 0) =~= Seq::<Seq<char>>::empty());
    }
    while i < lines.len()
        invariant
            i <= lines.len(),
            lines.deep_view().len() == lines.len(),
            cur.wf(),
            cur@ == split_fold(lines.deep_view().subrange(0, i as int)).1,
            emitted_match(
                files@,
                dirs@,
                playlists@,
                split_fold(lines.deep_view().subrange(0, i as int)).0,
            ),
            old(diag)@.is_prefix_of(diag@),
        decreases lines.len() - i,
    {
        proof {
            let pre = lines.deep_view().subrange(0, i as int);
            let ext = lines.deep_view().subrange(0, i as int + 1);
            assert(ext.drop_last() =~= pre);
            assert(ext.last() == lines.deep_view()[i as int]);
            assert(lines.deep_view()[i as int] == lines[i as int]@);
        }
        match split_kv(lines[i].as_str()) {
            None => {
                let mut msg = String::from_str("discarding a line without a separator: ");
                msg.append(lines[i].as_str());
                diag.push(msg);
                proof {
                    assert(old(diag)@.is_prefix_of(diag@));
                }
            },
            Some(kv) => {
                let boundary = crate::text::str_eq(kv.0.as_str(), "file") || crate::text::str_eq(
                    kv.0.as_str(),
                    "directory",
                ) || crate::text::str_eq(kv.0.as_str(), "playlist");
                if boundary && !cur.is_empty() {
                    let done = cur;
                    cur = RespMap::new();
                    let ghost rs_pre = split_fold(lines.deep_view().subrange(0, i as int)).0;
                    emit(done, &mut files, &mut dirs, &mut playlists, diag, Ghost(rs_pre));
                }
                cur.insert(kv.0.as_str(), kv.1.as_str());
            },
        }
        i += 1;
    }
    proof {
        assert(lines.deep_view().subrange(0, lines.len() as int) =~= lines.deep_view());
    }
    if !cur.is_empty() {
        let ghost rs_pre = split_fold(lines.deep_view()).0;
        let done = cur;
        emit(done, &mut files, &mut dirs, &mut playlists, diag, Ghost(rs_pre));
    }
    ListallinfoResponse { files, dirs, playlist: playlists }
}

/// How the per-kind result vectors relate to the finalized records so far.
pub open spec fn emitted_match(
    files: Seq<Track>,
    dirs: Seq<Directory>,
    playlists: Seq<Playlist>,
    rs: Seq<Map<Seq<char>, Seq<Seq<char>>>>,
) -> bool {
    &&& files.len() == records_of_kind(rs, RecordKind::Track).len()
    &&& forall|i: int|
        0 <= i < files.len() ==> track_matches(
            #[trigger] files[i],
            records_of_kind(rs, RecordKind::Track)[i],
        )
    &&& dirs.len() == records_of_kind(rs, RecordKind::Directory).len()
    &&& forall|i: int|
        0 <= i < dirs.len() ==> directory_matches(
            #[trigger] dirs[i],
            records_of_kind(rs, RecordKind::Directory)[i],
        )
    &&& playlists.len() == records_of_kind(rs, RecordKind::Playlist).len()
    &&& forall|i: int|
        0 <= i < playlists.len() ==> playlist_matches(
            #[trigger] playlists[i],
            records_of_kind(rs, RecordKind::Playlist)[i],
        )
}

/// Filtering a sequence extended by one element keeps the filtered prefix
/// and appends the element exactly when it satisfies the predicate.
proof fn lemma_filter_push(
    rs: Seq<Map<Seq<char>, Seq<Seq<char>>>>,
    m: Map<Seq<char>, Seq<Seq<char>>>,
    kind: RecordKind,
)
    ensures
        records_of_kind(rs.push(m), kind) == if kind_of(m) == kind {
            records_of_kind(rs, kind).push(m)
        } else {
            records_of_kind(rs, kind)
        },
{
    assert(rs.push(m).drop_last() =~= rs);
    assert(rs.push(m).last() == m);
    reveal_with_fuel(Seq::filter, 2);
}

/// Decodes one finalized record and appends it to the vector of its kind,
/// carrying the correspondence with the finalized records along.
fn emit(
    map: RespMap,
    files: &mut Vec<Track>,
    dirs: &mut Vec<Directory>,
    playlists: &mut Vec<Playlist>,
    diag: &mut Vec<String>,
    rs: Ghost<Seq<Map<Seq<char>, Seq<Seq<char>>>>>,
)
    requires
        map.wf(),
        emitted_match(old(files)@, old(dirs)@, old(playlists)@, rs@),
    ensures
        emitted_match(final(files)@, final(dirs)@, final(playlists)@, rs@.push(map@)),
        old(diag)@.is_prefix_of(final(diag)@),
{
    proof {
        lemma_filter_push(rs@, map@, RecordKind::Track);
        lemma_filter_push(rs@, map@, RecordKind::Directory);
        lemma_filter_push(rs@, map@, RecordKind::Playlist);
    }
    let ghost m0 = map@;
    match MixedResponse::from_map(map, diag) {
        MixedResponse::File(t) => {
            files.push(t);
            proof {
                assert(files@.drop_last() =~= old(files)@);
                let fr = records_of_kind(rs@.push(m0), RecordKind::Track);
                assert forall|i: int| 0 <= i < files@.len() implies track_matches(
                    #[trigger] files@[i],
                    fr[i],
                ) by {
                    if i < files@.len() - 1 {
                        assert(files@[i] == old(files)@[i]);
                        assert(fr[i] == records_of_kind(rs@, RecordKind::Track)[i]);
                    } else {
                        assert(files@[i] == files@.last());
                        assert(fr[i] == m0);
                    }
                }
            }
        },
        MixedResponse::Directory(d) => {
            dirs.push(d);
            proof {
                assert(dirs@.drop_last() =~= old(dirs)@);
                let fr = records_of_kind(rs@.push(m0), RecordKind::Directory);
                assert forall|i: int| 0 <= i < dirs@.len() implies directory_matches(
                    #[trigger] dirs@[i],
                    fr[i],
                ) by {
                    if i < dirs@.len() - 1 {
                        assert(dirs@[i] == old(dirs)@[i]);
                        assert(fr[i] == records_of_kind(rs@, RecordKind::Directory)[i]);
                    } else {
                        assert(dirs@[i] == dirs@.last());
                        assert(fr[i] == m0);
                    }
                }
            }
        },
        MixedResponse::Playlist(p) => {
            playlists.push(p);
            proof {
                assert(playlists@.drop_last() =~= old(playlists)@);
                let fr = records_of_kind(rs@.push(m0), RecordKind::Playlist);
                assert forall|i: int| 0 <= i < playlists@.len() implies playlist_matches(
                    #[trigger] playlists@[i],
                    fr[i],
                ) by {
                    if i < playlists@.len() - 1 {
                        assert(playlists@[i] == old(playlists)@[i]);
                        assert(fr[i] == records_of_kind(rs@, RecordKind::Playlist)[i]);
                    } else {
                        assert(playlists@[i] == playlists@.last());
                        assert(fr[i] == m0);
                    }
                }
            }
        },
    }
}

/// The tracks of a listing reply, as the track-returning commands hand
/// them out.
pub fn tracks_from_lines(lines: &Vec<String>, diag: &mut Vec<String>) -> (r: Vec<Track>)
    ensures
        tracks_match(r@, records_of(lines.deep_view())),
        old(diag)@.is_prefix_of(final(diag)@),
{
    let mixed = mixed_from_lines(lines, diag);
    mixed.files
}

} // verus!
