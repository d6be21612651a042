//! What the reminder is configured with: the text it shows, the forms it
//! links to, and the songs it may play.

use vstd::prelude::*;
use crate::scheduler::CheckType;

verus! {

/// The reminder's settings, read once when the program starts.
pub struct Config {
    /// Message shown while no check is due.
    pub mentor_text: String,
    /// Form opened for the hourly check.
    pub hourly_link: String,
    /// Form opened for the half-hour check.
    pub thirty_link: String,
    /// Folder the songs were found in.
    pub songs_dir: String,
    /// Paths of the playable songs found there.
    pub songs: Vec<String>,
}

/// A file found in the songs folder: its path, and the extension of its name
/// where it has one that is valid text.
pub struct SongCandidate {
    pub path: String,
    pub extension: Option<String>,
}

/// The file extensions of the audio formats the player can decode.
pub open spec fn is_audio_extension_spec(ext: Seq<char>) -> bool {
    ext == "mp3"@ || ext == "wav"@ || ext == "ogg"@ || ext == "flac"@
}

/// Whether a candidate file is one the player can decode.
pub open spec fn is_playable_spec(c: SongCandidate) -> bool {
    c.extension matches Some(ext) && is_audio_extension_spec(ext@)
}

/// The paths of the playable candidates, in the order found.
pub open spec fn playable_paths(cs: Seq<SongCandidate>) -> Seq<Seq<char>>
    decreases cs.len(),
{
    if cs.len() == 0 {
        Seq::empty()
    } else {
        let rest = playable_paths(cs.drop_last());
        if is_playable_spec(cs.last()) {
            rest.push(cs.last().path@)
        } else {
            rest
        }
    }
}

/// Whether `ext` is the extension of a decodable audio format: mp3, wav, ogg
/// or flac, matched exactly.
pub fn is_audio_extension(ext: &str) -> (r: bool)
    ensures
        r == is_audio_extension_spec(ext@),
{
    let e = ext.to_owned();
    e == "mp3".to_owned() || e == "wav".to_owned() || e == "ogg".to_owned() || e
        == "flac".to_owned()
}

/// Relies on rand::random_range over `0..len`: an index drawn uniformly below
/// `len` from the thread-local generator. It panics on an empty range.
#[verifier::external_body]
fn random_index(len: usize) -> (r: usize)
    requires
        len > 0,
    ensures
        r < len,
{
    rand::random_range(0..len)
}

impl Config {
    /// The view of the song list: each song's path as text.
    pub open spec fn songs_spec(&self) -> Seq<Seq<char>> {
        self.songs@.map_values(|s: String| s@)
    }

    /// The form that belongs to `check`.
    pub fn link_for(&self, check: CheckType) -> (r: &String)
        ensures
            check == CheckType::Hour ==> r@ == self.hourly_link@,
            check == CheckType::HalfHour ==> r@ == self.thirty_link@,
    {
        match check {
            CheckType::Hour => &self.hourly_link,
            CheckType::HalfHour => &self.thirty_link,
        }
    }

    /// The paths of the candidates whose extension names a decodable audio
    /// format, in the order given.
    pub fn playable_songs(candidates: Vec<SongCandidate>) -> (r: Vec<String>)
        ensures
            r@.map_values(|s: String| s@) == playable_paths(candidates@),
    {
        let mut r: Vec<String> = Vec::new();
        let mut i: usize = 0;
        while i < candidates.len()
            invariant
                i <= candidates@.len(),
                r@.map_values(|s: String| s@) == playable_paths(candidates@.subrange(0, i as int)),
            decreases candidates@.len() - i,
        {
            let c = &candidates[i];
            let keep = match &c.extension {
                Some(ext) => is_audio_extension(ext.as_str()),
                None => false,
            };
            proof {
                let pre = candidates@.subrange(0, i as int + 1);
                assert(pre.drop_last() == candidates@.subrange(0, i as int));
                assert(pre.last() == *c);
            }
            if keep {
                r.push(c.path.clone());
                assert(r@.map_values(|s: String| s@) =~= playable_paths(
                    candidates@.subrange(0, i as int + 1),
                ));
            }
            i = i + 1;
        }
        assert(candidates@.subrange(0, candidates@.len() as int) == candidates@);
        r
    }

    /// The song at position `draw`, counted round the list; none when the
    /// list is empty.
    pub fn song_at(&self, draw: usize) -> (r: Option<String>)
        ensures
            self.songs@.len() == 0 ==> r is None,
            self.songs@.len() > 0 ==> (r matches Some(s) && s@ == self.songs@[draw as int
                % self.songs@.len() as int]@),
    {
        if self.songs.len() == 0 {
            None
        } else {
            Some(self.songs[draw % self.songs.len()].clone())
        }
    }

    /// A song drawn at random from the list; none when the list is empty.
    pub fn pick_song(&self) -> (r: Option<String>)
        ensures
            r is None <==> self.songs@.len() == 0,
            r matches Some(s) ==> exists|i: int|
                0 <= i < self.songs@.len() && #[trigger] self.songs@[i]@ == s@,
    {
        if self.songs.len() == 0 {
            None
        } else {
            let draw = random_index(self.songs.len());
            let r = self.song_at(draw);
            assert(draw as int % self.songs@.len() as int == draw as int) by (nonlinear_arith)
                requires
                    draw < self.songs@.len(),
            ;
            r
        }
    }
}

} // verus!
