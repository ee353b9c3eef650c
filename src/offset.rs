use vstd::prelude::*;
use vstd::string::StringSliceAdditionalSpecFns;
use vstd::utf8::encode_utf8_decode_utf8;

verus! {

/// A configured per-track offset, matched on exact title and artist.
#[derive(Clone, Debug)]
pub struct SongOffsetEntry {
    pub title: String,
    pub artist: String,
    pub offset_ms: i64,
}

/// Settings read once at startup.
#[derive(Clone, Debug)]
pub struct Config {
    /// Preferred MIDI output port, by name.
    pub midi_device: Option<String>,
    /// Whether tracks absent from `songs` disable emission.
    pub disable_songs_outside_config: bool,
    pub songs: Vec<SongOffsetEntry>,
}

/// The offset and gating decision for the current track.
#[derive(Clone, Copy, Debug, PartialEq, Eq, Structural)]
pub struct OffsetState {
    pub offset_ms: i64,
    pub enabled_for_track: bool,
}

/// Whether configuration entry `e` is for the track `title` by `artist`.
pub open spec fn entry_matches(e: SongOffsetEntry, title: Seq<char>, artist: Seq<char>) -> bool {
    e.title@ == title && e.artist@ == artist
}

/// Whether no entry among `songs` matches the track.
pub open spec fn no_match(songs: Seq<SongOffsetEntry>, title: Seq<char>, artist: Seq<char>) -> bool {
    forall|j: int| 0 <= j < songs.len() ==> !entry_matches(#[trigger] songs[j], title, artist)
}

/// Whether `i` is the first entry among `songs` that matches the track.
pub open spec fn first_match(
    songs: Seq<SongOffsetEntry>,
    title: Seq<char>,
    artist: Seq<char>,
    i: int,
) -> bool {
    &&& 0 <= i < songs.len()
    &&& entry_matches(songs[i], title, artist)
    &&& no_match(songs.subrange(0, i), title, artist)
}

/// Exact equality of two strings, compared byte by byte.
pub fn str_equal(a: &str, b: &str) -> (r: bool)
    ensures
        r == (a@ == b@),
{
    let x = a.as_bytes();
    let y = b.as_bytes();
    proof {
        encode_utf8_decode_utf8(a@);
        encode_utf8_decode_utf8(b@);
    }
    if x.len() != y.len() {
        return false;
    }
    let mut i: usize = 0;
    while i < x.len()
        invariant
            x@ == a.spec_bytes(),
            y@ == b.spec_bytes(),
            x@.len() == y@.len(),
            i <= x@.len(),
            forall|j: int| 0 <= j < i ==> x@[j] == y@[j],
        decreases x@.len() - i,
    {
        if x[i] != y[i] {
            return false;
        }
        i = i + 1;
    }
    assert(x@ =~= y@);
    true
}

/// The index of the first entry of `songs` for the track `title` by `artist`.
pub fn find_song(songs: &Vec<SongOffsetEntry>, title: &str, artist: &str) -> (r: Option<usize>)
    ensures
        r matches Some(i) ==> first_match(songs@, title@, artist@, i as int),
        r is None <==> no_match(songs@, title@, artist@),
{
    let mut i: usize = 0;
    while i < songs.len()
        invariant
            i <= songs@.len(),
            no_match(songs@.subrange(0, i as int), title@, artist@),
        decreases songs@.len() - i,
    {
        let e = &songs[i];
        if str_equal(e.title.as_str(), title) && str_equal(e.artist.as_str(), artist) {
            return Some(i);
        }
        assert forall|j: int| 0 <= j < i + 1 implies !entry_matches(
            #[trigger] songs@.subrange(0, i + 1)[j],
            title@,
            artist@,
        ) by {
            if j < i {
                assert(songs@.subrange(0, i + 1)[j] == songs@.subrange(0, i as int)[j]);
            }
        }
        i = i + 1;
    }
    assert(songs@.subrange(0, i as int) =~= songs@);
    None
}

impl OffsetState {
    /// No offset, emission not yet enabled.
    pub fn new() -> (r: OffsetState)
        ensures
            r.offset_ms == 0,
            !r.enabled_for_track,
    {
        OffsetState { offset_ms: 0, enabled_for_track: false }
    }

    /// The state after the track `title` by `artist` starts: a configured
    /// track gets its offset and is enabled; any other track gets offset 0 and
    /// is disabled when `config` disables tracks outside it, else keeps its
    /// enablement.
    pub fn on_track_changed(&mut self, title: &str, artist: &str, config: &Config)
        ensures
            forall|i: int| #[trigger] first_match(config.songs@, title@, artist@, i) ==> *final(self) == (OffsetState {
                offset_ms: config.songs@[i].offset_ms,
                enabled_for_track: true,
            }),
            no_match(config.songs@, title@, artist@) ==> *final(self) == (OffsetState {
                offset_ms: 0,
                enabled_for_track: old(self).enabled_for_track && !config.disable_songs_outside_config,
            }),
    {
        match find_song(&config.songs, title, artist) {
            Some(i) => {
                proof {
                    assert forall|k: int| #[trigger] first_match(config.songs@, title@, artist@, k) implies k == i by {
                        if k < i {
                            assert(config.songs@.subrange(0, i as int)[k] == config.songs@[k]);
                        } else if k > i {
                            assert(config.songs@.subrange(0, k)[i as int] == config.songs@[i as int]);
                        }
                    }
                }
                self.offset_ms = config.songs[i].offset_ms;
                self.enabled_for_track = true;
            },
            None => {
                if config.disable_songs_outside_config {
                    self.enabled_for_track = false;
                }
                self.offset_ms = 0;
            },
        }
    }
}

} // verus!
