use vstd::prelude::*;
use vstd::string::StringExecFns;

use crate::text::{contains_seq, contains_str, decimal, decimal_chars, push_char, push_chars, str_equal};

verus! {

/// A performing artist of a track.
#[derive(Debug)]
pub struct Artist {
    pub name: String,
}

impl Clone for Artist {
    fn clone(&self) -> (r: Self)
        ensures
            r == *self,
    {
        Artist { name: self.name.clone() }
    }
}

/// A cover image of an album.
#[derive(Debug)]
pub struct SpotifyImage {
    pub url: String,
}

impl Clone for SpotifyImage {
    fn clone(&self) -> (r: Self)
        ensures
            r == *self,
    {
        SpotifyImage { url: self.url.clone() }
    }
}

/// Clones a vector of images element by element.
fn clone_images(v: &Vec<SpotifyImage>) -> (r: Vec<SpotifyImage>)
    ensures
        r@ == v@,
{
    let r = v.clone();
    assert forall|i: int| 0 <= i < r@.len() implies r@[i] == v@[i] by {
        if vstd::pervasive::strictly_cloned::<SpotifyImage>(v@[i], r@[i]) {
            assert(call_ensures(SpotifyImage::clone, (&v@[i],), r@[i]));
        }
    }
    assert(r@ =~= v@);
    r
}

/// The album a track belongs to.
#[derive(Debug)]
pub struct Album {
    pub name: String,
    pub images: Vec<SpotifyImage>,
}

/// The value an album stands for: its name and the sequence of its images.
pub struct AlbumView {
    pub name: String,
    pub images: Seq<SpotifyImage>,
}

impl View for Album {
    type V = AlbumView;

    open spec fn view(&self) -> AlbumView {
        AlbumView { name: self.name, images: self.images@ }
    }
}

impl Clone for Album {
    fn clone(&self) -> (r: Self)
        ensures
            r@ == self@,
    {
        Album { name: self.name.clone(), images: clone_images(&self.images) }
    }
}

/// Clones a vector of artists element by element.
fn clone_artists(v: &Vec<Artist>) -> (r: Vec<Artist>)
    ensures
        r@ == v@,
{
    let r = v.clone();
    assert forall|i: int| 0 <= i < r@.len() implies r@[i] == v@[i] by {
        if vstd::pervasive::strictly_cloned::<Artist>(v@[i], r@[i]) {
            assert(call_ensures(Artist::clone, (&v@[i],), r@[i]));
        }
    }
    assert(r@ =~= v@);
    r
}

/// Clones an optional string.
pub fn clone_opt_string(s: &Option<String>) -> (r: Option<String>)
    ensures
        r == *s,
{
    match s {
        Some(x) => Some(x.clone()),
        None => None,
    }
}

/// A track of the catalog.
#[derive(Debug)]
pub struct Track {
    pub id: String,
    pub name: String,
    pub artists: Vec<Artist>,
    pub album: Album,
    pub duration_ms: u64,
    pub uri: String,
}

/// The value a track stands for.
pub struct TrackView {
    pub id: String,
    pub name: String,
    pub artists: Seq<Artist>,
    pub album: AlbumView,
    pub duration_ms: u64,
    pub uri: String,
}

impl View for Track {
    type V = TrackView;

    open spec fn view(&self) -> TrackView {
        TrackView {
            id: self.id,
            name: self.name,
            artists: self.artists@,
            album: self.album@,
            duration_ms: self.duration_ms,
            uri: self.uri,
        }
    }
}

impl Clone for Track {
    fn clone(&self) -> (r: Self)
        ensures
            r@ == self@,
    {
        Track {
            id: self.id.clone(),
            name: self.name.clone(),
            artists: clone_artists(&self.artists),
            album: self.album.clone(),
            duration_ms: self.duration_ms,
            uri: self.uri.clone(),
        }
    }
}

/// The values a sequence of tracks stands for.
pub open spec fn track_views(v: Seq<Track>) -> Seq<TrackView> {
    v.map_values(|t: Track| t@)
}

/// Clones a vector of tracks element by element.
pub fn clone_tracks(v: &Vec<Track>) -> (r: Vec<Track>)
    ensures
        track_views(r@) == track_views(v@),
{
    let r = v.clone();
    assert forall|i: int| 0 <= i < r@.len() implies r@[i]@ == v@[i]@ by {
        if vstd::pervasive::strictly_cloned::<Track>(v@[i], r@[i]) {
            assert(call_ensures(Track::clone, (&v@[i],), r@[i]));
        }
    }
    assert(track_views(r@) =~= track_views(v@));
    r
}

/// A device that can play.
#[derive(Debug)]
pub struct Device {
    pub id: Option<String>,
    pub name: String,
    pub is_active: bool,
}

impl Clone for Device {
    fn clone(&self) -> (r: Self)
        ensures
            r == *self,
    {
        Device { id: clone_opt_string(&self.id), name: self.name.clone(), is_active: self.is_active }
    }
}

/// What the player is doing.
#[derive(Debug)]
pub struct PlaybackState {
    pub is_playing: bool,
    pub progress_ms: Option<u64>,
    pub item: Option<Track>,
    pub device: Option<Device>,
    pub shuffle_state: bool,
    /// `"off"`, `"context"` or `"track"`.
    pub repeat_state: String,
}

/// The value a playback state stands for.
pub struct PlaybackStateView {
    pub is_playing: bool,
    pub progress_ms: Option<u64>,
    pub item: Option<TrackView>,
    pub device: Option<Device>,
    pub shuffle_state: bool,
    pub repeat_state: String,
}

impl View for PlaybackState {
    type V = PlaybackStateView;

    open spec fn view(&self) -> PlaybackStateView {
        PlaybackStateView {
            is_playing: self.is_playing,
            progress_ms: self.progress_ms,
            item: match self.item {
                Some(t) => Some(t@),
                None => None,
            },
            device: self.device,
            shuffle_state: self.shuffle_state,
            repeat_state: self.repeat_state,
        }
    }
}

impl Clone for PlaybackState {
    fn clone(&self) -> (r: Self)
        ensures
            r@ == self@,
    {
        PlaybackState {
            is_playing: self.is_playing,
            progress_ms: self.progress_ms,
            item: match &self.item {
                Some(t) => Some(t.clone()),
                None => None,
            },
            device: match &self.device {
                Some(d) => Some(d.clone()),
                None => None,
            },
            shuffle_state: self.shuffle_state,
            repeat_state: self.repeat_state.clone(),
        }
    }
}

/// What a sidebar entry starts when it is chosen.
#[derive(Clone, Copy, Debug, PartialEq, Eq, Structural)]
pub enum PlaylistKind {
    Normal,
    LikedSongs,
    Dj,
}

/// An entry of the playlist sidebar: a playlist, the Liked Songs library, or the AI DJ.
#[derive(Debug)]
pub struct PlaylistEntry {
    pub name: String,
    pub uri: String,
    pub total_tracks: u32,
    pub kind: PlaylistKind,
}

impl Clone for PlaylistEntry {
    fn clone(&self) -> (r: Self)
        ensures
            r == *self,
    {
        PlaylistEntry {
            name: self.name.clone(),
            uri: self.uri.clone(),
            total_tracks: self.total_tracks,
            kind: self.kind,
        }
    }
}

/// Clones a vector of sidebar entries element by element.
pub fn clone_entries(v: &Vec<PlaylistEntry>) -> (r: Vec<PlaylistEntry>)
    ensures
        r@ == v@,
{
    let r = v.clone();
    assert forall|i: int| 0 <= i < r@.len() implies r@[i] == v@[i] by {
        if vstd::pervasive::strictly_cloned::<PlaylistEntry>(v@[i], r@[i]) {
            assert(call_ensures(PlaylistEntry::clone, (&v@[i],), r@[i]));
        }
    }
    assert(r@ =~= v@);
    r
}


// ── Durations ────────────────────────────────────────────────────────────────

/// A number below 60 written with two digits.
pub open spec fn two_digits(n: nat) -> Seq<char> {
    if n < 10 {
        seq!['0'] + decimal(n)
    } else {
        decimal(n)
    }
}

/// A duration in milliseconds written as minutes and seconds, `m:ss`.
pub open spec fn duration_text(ms: nat) -> Seq<char> {
    decimal(ms / 1000 / 60) + seq![':'] + two_digits((ms / 1000) % 60)
}

/// Writes a duration in milliseconds as `m:ss`.
pub fn format_duration(ms: u64) -> (r: String)
    ensures
        r@ == duration_text(ms as nat),
{
    let total_secs = ms / 1000;
    let mut r = String::new();
    push_chars(&mut r, &decimal_chars(total_secs / 60));
    push_char(&mut r, ':');
    let secs = total_secs % 60;
    if secs < 10 {
        push_char(&mut r, '0');
    }
    push_chars(&mut r, &decimal_chars(secs));
    assert(r@ =~= duration_text(ms as nat));
    r
}

// ── Requests ─────────────────────────────────────────────────────────────────

/// The value of the `Authorization` header for an access token.
pub fn bearer_header(access_token: &str) -> (r: String)
    ensures
        r@ == "Bearer "@ + access_token@,
{
    String::from_str("Bearer ").concat(access_token)
}

/// The context URI of a user's Liked Songs library.
pub fn liked_songs_uri(user_id: &str) -> (r: String)
    ensures
        r@ == "spotify:user:"@ + user_id@ + ":collection"@,
{
    String::from_str("spotify:user:").concat(user_id).concat(":collection")
}

/// The position of the first active device.
pub open spec fn first_active(ds: Seq<Device>) -> Option<int>
    decreases ds.len(),
{
    if ds.len() == 0 {
        None
    } else {
        match first_active(ds.drop_last()) {
            Some(i) => Some(i),
            None => if ds.last().is_active {
                Some(ds.len() - 1)
            } else {
                None
            },
        }
    }
}

/// The device that commands go to: the first active one, else the first one.
pub open spec fn chosen_device(ds: Seq<Device>) -> Option<Device> {
    match first_active(ds) {
        Some(i) => Some(ds[i]),
        None => if ds.len() > 0 {
            Some(ds[0])
        } else {
            None
        },
    }
}

proof fn lemma_first_active(ds: Seq<Device>)
    ensures
        first_active(ds) matches Some(i) ==> 0 <= i < ds.len() && ds[i].is_active && forall|
            j: int,
        |
            0 <= j < i ==> !(#[trigger] ds[j]).is_active,
        first_active(ds) is None ==> forall|j: int| 0 <= j < ds.len() ==> !(#[trigger] ds[j]).is_active,
    decreases ds.len(),
{
    if ds.len() > 0 {
        lemma_first_active(ds.drop_last());
        assert(forall|j: int| 0 <= j < ds.len() - 1 ==> ds.drop_last()[j] == ds[j]);
    }
}

/// The id of the device that commands go to: the first active device, else the first
/// device; `None` when there is no device or it has no id.
pub fn choose_device_id(devices: &Vec<Device>) -> (r: Option<String>)
    ensures
        r == match chosen_device(devices@) {
            Some(d) => d.id,
            None => None,
        },
{
    let mut i: usize = 0;
    proof {
        lemma_first_active(devices@);
    }
    while i < devices.len()
        invariant
            i <= devices@.len(),
            forall|j: int| 0 <= j < i ==> !(#[trigger] devices@[j]).is_active,
        decreases devices.len() - i,
    {
        if devices[i].is_active {
            proof {
                lemma_first_active(devices@);
                if let Some(k) = first_active(devices@) {
                    assert(k == i);
                }
            }
            return clone_opt_string(&devices[i].id);
        }
        i = i + 1;
    }
    if devices.len() > 0 {
        clone_opt_string(&devices[0].id)
    } else {
        None
    }
}

/// The URIs of saved tracks, to be played in place of the library; an error when there is
/// none.
pub fn saved_track_uris(tracks: &Vec<Track>) -> (r: Result<Vec<String>, String>)
    ensures
        tracks@.len() == 0 ==> (r matches Err(e) && e@ == "No liked songs found"@),
        tracks@.len() > 0 ==> (r matches Ok(v) && v@.len() == tracks@.len() && forall|i: int|
            0 <= i < v@.len() ==> (#[trigger] v@[i])@ == tracks@[i].uri@),
{
    if tracks.len() == 0 {
        return Err(String::from_str("No liked songs found"));
    }
    let mut v: Vec<String> = Vec::new();
    let mut i: usize = 0;
    while i < tracks.len()
        invariant
            i <= tracks@.len(),
            v@.len() == i,
            forall|k: int| 0 <= k < i ==> (#[trigger] v@[k])@ == tracks@[k].uri@,
        decreases tracks.len() - i,
    {
        v.push(tracks[i].uri.clone());
        i = i + 1;
    }
    Ok(v)
}

// ── The playlist sidebar ─────────────────────────────────────────────────────

/// A playlist of the user, as the catalog lists it.
#[derive(Debug)]
pub struct PlaylistSummary {
    pub name: String,
    pub uri: String,
    pub total_tracks: u32,
}

/// What `str::to_lowercase` gives for a string.
pub uninterp spec fn lowercase_of(s: Seq<char>) -> Seq<char>;

/// Calls `str::to_lowercase`. Its result depends on the string alone (Unicode's lowercase
/// mapping, which this contract does not spell out).
#[verifier::external_body]
fn to_lowercase(s: &str) -> (r: String)
    ensures
        r@ == lowercase_of(s@),
{
    s.to_lowercase()
}

/// Whether a playlist is the AI DJ: its URI holds `spotify:user:spotify`, or its name in
/// lowercase is `dj`.
pub open spec fn is_dj_spec(uri: Seq<char>, lowered_name: Seq<char>) -> bool {
    contains_seq(uri, "spotify:user:spotify"@) || lowered_name == "dj"@
}

/// Whether a playlist is the AI DJ, given its URI and its name in lowercase.
pub fn is_dj_playlist(uri: &str, lowered_name: &str) -> (r: bool)
    ensures
        r == is_dj_spec(uri@, lowered_name@),
{
    contains_str(uri, "spotify:user:spotify") || str_equal(lowered_name, "dj")
}

/// Whether a listed playlist is the AI DJ.
pub open spec fn summary_is_dj(p: PlaylistSummary) -> bool {
    is_dj_spec(p.uri@, lowercase_of(p.name@))
}

/// Whether a sidebar entry shows `name`, plays `uri`, counts `total` tracks and is of
/// `kind`.
pub open spec fn entry_is(
    e: PlaylistEntry,
    name: Seq<char>,
    uri: Seq<char>,
    total: u32,
    kind: PlaylistKind,
) -> bool {
    e.name@ == name && e.uri@ == uri && e.total_tracks == total && e.kind == kind
}

/// The sidebar entry of a listed playlist: the DJ is marked with 🎧 and started as the DJ.
pub open spec fn entry_of_summary(e: PlaylistEntry, p: PlaylistSummary) -> bool {
    if summary_is_dj(p) {
        entry_is(e, "🎧  "@ + p.name@, p.uri@, p.total_tracks, PlaylistKind::Dj)
    } else {
        entry_is(e, p.name@, p.uri@, p.total_tracks, PlaylistKind::Normal)
    }
}

/// The sidebar: Liked Songs first, then a placeholder for the AI DJ unless one of the
/// playlists is the DJ, then the playlists in order.
pub open spec fn sidebar_is(
    r: Seq<PlaylistEntry>,
    liked_total: u32,
    items: Seq<PlaylistSummary>,
) -> bool {
    let has_dj = exists|i: int| 0 <= i < items.len() && summary_is_dj(#[trigger] items[i]);
    let offset: int = if has_dj {
        1
    } else {
        2
    };
    &&& r.len() == offset + items.len()
    &&& entry_is(r[0], "❤️  Liked Songs"@, "liked_songs"@, liked_total, PlaylistKind::LikedSongs)
    &&& !has_dj ==> entry_is(r[1], "🎧  AI DJ"@, "dj"@, 0, PlaylistKind::Dj)
    &&& forall|i: int| 0 <= i < items.len() ==> entry_of_summary(#[trigger] r[offset + i], items[i])
}

/// Builds the sidebar from the user's playlists and the size of the Liked Songs library
/// (0 when it could not be read).
pub fn build_playlist_entries(liked_total: Option<u32>, items: Vec<PlaylistSummary>) -> (r: Vec<
    PlaylistEntry,
>)
    ensures
        sidebar_is(
            r@,
            match liked_total {
                Some(n) => n,
                None => 0,
            },
            items@,
        ),
{
    let total = match liked_total {
        Some(n) => n,
        None => 0,
    };
    let mut dj_flags: Vec<bool> = Vec::new();
    let mut i: usize = 0;
    while i < items.len()
        invariant
            i <= items@.len(),
            dj_flags@.len() == i,
            forall|k: int| 0 <= k < i ==> dj_flags@[k] == summary_is_dj(#[trigger] items@[k]),
        decreases items.len() - i,
    {
        let lowered = to_lowercase(items[i].name.as_str());
        dj_flags.push(is_dj_playlist(items[i].uri.as_str(), lowered.as_str()));
        i = i + 1;
    }
    let mut has_dj = false;
    let mut k: usize = 0;
    while k < dj_flags.len()
        invariant
            k <= dj_flags@.len(),
            dj_flags@.len() == items@.len(),
            forall|m: int| 0 <= m < items@.len() ==> dj_flags@[m] == summary_is_dj(#[trigger] items@[m]),
            has_dj == exists|m: int| 0 <= m < k && summary_is_dj(#[trigger] items@[m]),
        decreases dj_flags.len() - k,
    {
        proof {
            let e_old = exists|q: int| 0 <= q < k && summary_is_dj(#[trigger] items@[q]);
            let e_new = exists|q: int| 0 <= q < k + 1 && summary_is_dj(#[trigger] items@[q]);
            if e_new {
                let q = choose|q: int| 0 <= q < k + 1 && summary_is_dj(#[trigger] items@[q]);
                if q < k {
                    assert(e_old);
                }
            }
            if e_old {
                let q = choose|q: int| 0 <= q < k && summary_is_dj(#[trigger] items@[q]);
                assert(0 <= q < k + 1 && summary_is_dj(items@[q]));
            }
            if summary_is_dj(items@[k as int]) {
                assert(e_new);
            }
            assert(e_new == (e_old || summary_is_dj(items@[k as int])));
        }
        if dj_flags[k] {
            has_dj = true;
        }
        k = k + 1;
    }
    let mut entries: Vec<PlaylistEntry> = Vec::new();
    entries.push(
        PlaylistEntry {
            name: String::from_str("❤️  Liked Songs"),
            uri: String::from_str("liked_songs"),
            total_tracks: total,
            kind: PlaylistKind::LikedSongs,
        },
    );
    if !has_dj {
        entries.push(
            PlaylistEntry {
                name: String::from_str("🎧  AI DJ"),
                uri: String::from_str("dj"),
                total_tracks: 0,
                kind: PlaylistKind::Dj,
            },
        );
    }
    let ghost offset: int = if has_dj {
        1
    } else {
        2
    };
    let ghost head = entries@;
    let mut j: usize = 0;
    while j < items.len()
        invariant
            j <= items@.len(),
            dj_flags@.len() == items@.len(),
            forall|m: int| 0 <= m < items@.len() ==> dj_flags@[m] == summary_is_dj(#[trigger] items@[m]),
            head.len() == offset,
            entries@.len() == offset + j,
            forall|m: int| 0 <= m < offset ==> entries@[m] == head[m],
            forall|m: int| 0 <= m < j ==> entry_of_summary(#[trigger] entries@[offset + m], items@[m]),
        decreases items.len() - j,
    {
        let p = &items[j];
        let is_dj = dj_flags[j];
        let name = if is_dj {
            String::from_str("🎧  ").concat(p.name.as_str())
        } else {
            p.name.clone()
        };
        let ghost prev = entries@;
        entries.push(
            PlaylistEntry {
                name,
                uri: p.uri.clone(),
                total_tracks: p.total_tracks,
                kind: if is_dj {
                    PlaylistKind::Dj
                } else {
                    PlaylistKind::Normal
                },
            },
        );
        proof {
            assert(entries@ == prev.push(entries@.last()));
            assert forall|m: int| 0 <= m < j + 1 implies entry_of_summary(
                #[trigger] entries@[offset + m],
                items@[m],
            ) by {
                if m < j {
                    assert(entries@[offset + m] == prev[offset + m]);
                }
            }
        }
        j = j + 1;
    }
    assert(entries@[0] == head[0]);
    if !has_dj {
        assert(entries@[1] == head[1]);
    }
    entries
}

} // verus!
