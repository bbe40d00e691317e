//! The snapshot that one poll cycle produces, and the rule that fills in
//! empty text.

use vstd::prelude::*;
use crate::status::PlaybackStatus;
use crate::thumbnail::cover_text;

verus! {

/// One record of what is playing: built once per cycle, handed to the sink,
/// then dropped.
#[derive(Clone, Debug, PartialEq, Eq)]
pub struct MediaSnapshot {
    pub title: String,
    pub artist: String,
    pub status: PlaybackStatus,
    pub cover: Option<String>,
}

/// A snapshot as plain mathematical values.
pub ghost struct SnapshotView {
    pub title: Seq<char>,
    pub artist: Seq<char>,
    pub status: PlaybackStatus,
    pub cover: Option<Seq<char>>,
}

impl View for MediaSnapshot {
    type V = SnapshotView;

    open spec fn view(&self) -> SnapshotView {
        SnapshotView {
            title: self.title@,
            artist: self.artist@,
            status: self.status,
            cover: self.cover.deep_view(),
        }
    }
}

/// The title shown when the platform reports none.
pub open spec fn title_placeholder() -> Seq<char> {
    "Sin música"@
}

/// The artist shown when the platform reports none.
pub open spec fn artist_placeholder() -> Seq<char> {
    "Escuchando..."@
}

/// `text`, or `placeholder` where `text` is empty.
pub open spec fn or_placeholder(text: Seq<char>, placeholder: Seq<char>) -> Seq<char> {
    if text.len() == 0 {
        placeholder
    } else {
        text
    }
}

/// Whether `text` is a whole cover: the prefix followed by some payload.
pub open spec fn is_cover(text: Seq<char>) -> bool {
    exists|payload: Seq<char>| text == cover_text(payload)
}

impl SnapshotView {
    /// The snapshot assembled from what the platform reported.
    pub open spec fn assembled(
        title: Seq<char>,
        artist: Seq<char>,
        status: PlaybackStatus,
        cover: Option<Seq<char>>,
    ) -> SnapshotView {
        SnapshotView {
            title: or_placeholder(title, title_placeholder()),
            artist: or_placeholder(artist, artist_placeholder()),
            status,
            cover,
        }
    }

    /// What holds of every snapshot that is published: title and artist are
    /// not empty, and a cover, where there is one, is whole.
    pub open spec fn well_formed(self) -> bool {
        &&& self.title.len() > 0
        &&& self.artist.len() > 0
        &&& self.cover matches Some(text) ==> is_cover(text)
    }
}

/// The placeholder title as a string.
pub fn placeholder_title() -> (text: String)
    ensures
        text@ == title_placeholder(),
{
    "Sin música".to_string()
}

/// The placeholder artist as a string.
pub fn placeholder_artist() -> (text: String)
    ensures
        text@ == artist_placeholder(),
{
    "Escuchando...".to_string()
}

impl MediaSnapshot {
    /// Assembles a snapshot: an empty title or artist is replaced by its
    /// placeholder, status and cover are taken as they are. Given a whole
    /// cover, or none, the snapshot is well formed.
    pub fn assemble(
        title: String,
        artist: String,
        status: PlaybackStatus,
        cover: Option<String>,
    ) -> (snapshot: MediaSnapshot)
        ensures
            snapshot@ == SnapshotView::assembled(title@, artist@, status, cover.deep_view()),
            (cover.deep_view() matches Some(text) ==> is_cover(text)) ==> snapshot@.well_formed(),
    {
        proof {
            lemma_assembled_text(title@, artist@, status, cover.deep_view());
        }
        let title = if title.as_str().is_empty() {
            placeholder_title()
        } else {
            title
        };
        let artist = if artist.as_str().is_empty() {
            placeholder_artist()
        } else {
            artist
        };
        MediaSnapshot { title, artist, status, cover }
    }
}

/// Neither placeholder is empty.
pub proof fn lemma_placeholders_not_empty()
    ensures
        title_placeholder().len() > 0,
        artist_placeholder().len() > 0,
{
    reveal_strlit("Sin música");
    reveal_strlit("Escuchando...");
}

/// An assembled snapshot never has an empty title or artist: text that the
/// platform reported empty is replaced by the placeholder, other text is kept.
/// With a whole cover, or none, the snapshot is well formed.
pub proof fn lemma_assembled_text(
    title: Seq<char>,
    artist: Seq<char>,
    status: PlaybackStatus,
    cover: Option<Seq<char>>,
)
    ensures
        ({
            let snapshot = SnapshotView::assembled(title, artist, status, cover);
            &&& snapshot.title.len() > 0
            &&& snapshot.artist.len() > 0
            &&& title.len() == 0 ==> snapshot.title == title_placeholder()
            &&& artist.len() == 0 ==> snapshot.artist == artist_placeholder()
            &&& title.len() > 0 ==> snapshot.title == title
            &&& artist.len() > 0 ==> snapshot.artist == artist
            &&& (cover matches Some(text) ==> is_cover(text)) ==> snapshot.well_formed()
        }),
{
    lemma_placeholders_not_empty();
}

} // verus!
