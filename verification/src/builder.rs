//! The session snapshot builder: one cycle's chain of questions to the
//! platform, and what each answer leads to.
//!
//! The builder never touches the platform. It names the next [`Query`]; the
//! driver performs it and hands back an [`Outcome`]. The first three steps
//! carry the cycle: where one of them fails the cycle is abandoned. The
//! thumbnail and the playback status only enrich: where one of them fails the
//! snapshot is built without a cover, or as stopped.

use vstd::prelude::*;
use crate::encoding::{encodable, standard_base64};
use crate::snapshot::{
    artist_placeholder, is_cover, lemma_assembled_text, or_placeholder, title_placeholder,
    MediaSnapshot, SnapshotView,
};
use crate::status::PlaybackStatus;
use crate::thumbnail::{
    cover_of, cover_prefix, cover_text, payload_of, read_cover, read_length, request_of, MAX_READ,
};

verus! {

/// A question to the platform.
#[derive(Clone, Copy, Debug, PartialEq, Eq, Structural)]
pub enum Query {
    /// Request the session manager.
    SessionManager,
    /// Take the current session from the manager.
    CurrentSession,
    /// Request the session's media properties: title and artist.
    MediaProperties,
    /// Take the thumbnail reference from the properties.
    Thumbnail,
    /// Open a read stream on the thumbnail reference.
    ThumbnailStream,
    /// Read the stream's declared size.
    StreamSize,
    /// Read this many bytes from the stream, in one request.
    StreamBytes(u32),
    /// Read the session's playback status code.
    PlaybackStatus,
}

/// What came of the last thing the driver was told to do.
#[derive(Clone, Debug, PartialEq, Eq)]
pub enum Outcome {
    /// It failed, or there was nothing to get.
    Failed,
    /// It succeeded, and there is nothing to report but that.
    Done,
    /// The media properties; a text that could not be read is `None`.
    Properties { title: Option<String>, artist: Option<String> },
    /// The declared size of the thumbnail stream.
    Size(u64),
    /// The bytes that the read delivered.
    Bytes(Vec<u8>),
    /// The playback status code.
    Status(i32),
}

/// An outcome as plain mathematical values.
pub ghost enum OutcomeView {
    Failed,
    Done,
    Properties { title: Option<Seq<char>>, artist: Option<Seq<char>> },
    Size(u64),
    Bytes(Seq<u8>),
    Status(i32),
}

impl View for Outcome {
    type V = OutcomeView;

    open spec fn view(&self) -> OutcomeView {
        match self {
            Outcome::Failed => OutcomeView::Failed,
            Outcome::Done => OutcomeView::Done,
            Outcome::Properties { title, artist } => OutcomeView::Properties {
                title: title.deep_view(),
                artist: artist.deep_view(),
            },
            Outcome::Size(raw) => OutcomeView::Size(*raw),
            Outcome::Bytes(bytes) => OutcomeView::Bytes(bytes@),
            Outcome::Status(code) => OutcomeView::Status(*code),
        }
    }
}

impl OutcomeView {
    /// The status code that an outcome carries, if it carries one.
    pub open spec fn status_reading(self) -> Option<i32> {
        match self {
            OutcomeView::Status(code) => Some(code),
            _ => None,
        }
    }
}

/// A text that may be missing, with empty text in place of a missing one.
pub open spec fn text_or_empty(text: Option<Seq<char>>) -> Seq<char> {
    match text {
        Some(t) => t,
        None => Seq::empty(),
    }
}

/// Where a cycle stands: which answer the builder waits for, and what it has
/// gathered so far.
#[derive(Clone, Debug, PartialEq, Eq)]
pub enum Builder {
    AwaitManager,
    AwaitSession,
    AwaitProperties,
    AwaitThumbnail { title: String, artist: String },
    AwaitStream { title: String, artist: String },
    AwaitSize { title: String, artist: String },
    AwaitBytes { title: String, artist: String, declared_size: u32 },
    AwaitStatus { title: String, artist: String, cover: Option<String> },
}

/// A builder state as plain mathematical values.
pub ghost enum BuilderView {
    AwaitManager,
    AwaitSession,
    AwaitProperties,
    AwaitThumbnail { title: Seq<char>, artist: Seq<char> },
    AwaitStream { title: Seq<char>, artist: Seq<char> },
    AwaitSize { title: Seq<char>, artist: Seq<char> },
    AwaitBytes { title: Seq<char>, artist: Seq<char>, declared_size: u32 },
    AwaitStatus { title: Seq<char>, artist: Seq<char>, cover: Option<Seq<char>> },
}

impl View for Builder {
    type V = BuilderView;

    open spec fn view(&self) -> BuilderView {
        match self {
            Builder::AwaitManager => BuilderView::AwaitManager,
            Builder::AwaitSession => BuilderView::AwaitSession,
            Builder::AwaitProperties => BuilderView::AwaitProperties,
            Builder::AwaitThumbnail { title, artist } => BuilderView::AwaitThumbnail {
                title: title@,
                artist: artist@,
            },
            Builder::AwaitStream { title, artist } => BuilderView::AwaitStream {
                title: title@,
                artist: artist@,
            },
            Builder::AwaitSize { title, artist } => BuilderView::AwaitSize {
                title: title@,
                artist: artist@,
            },
            Builder::AwaitBytes { title, artist, declared_size } => BuilderView::AwaitBytes {
                title: title@,
                artist: artist@,
                declared_size: *declared_size,
            },
            Builder::AwaitStatus { title, artist, cover } => BuilderView::AwaitStatus {
                title: title@,
                artist: artist@,
                cover: cover.deep_view(),
            },
        }
    }
}

/// What a step of the builder comes to.
#[derive(Clone, Debug, PartialEq, Eq)]
pub enum Progress {
    /// The cycle goes on: perform the query and resume the builder with its
    /// outcome.
    Ask(Builder, Query),
    /// The cycle is over and has this snapshot to publish.
    Built(MediaSnapshot),
    /// The cycle is over and has nothing to publish.
    Abandoned,
}

/// A step's result as plain mathematical values.
pub ghost enum ProgressView {
    Ask(BuilderView, Query),
    Built(SnapshotView),
    Abandoned,
}

impl View for Progress {
    type V = ProgressView;

    open spec fn view(&self) -> ProgressView {
        match self {
            Progress::Ask(builder, query) => ProgressView::Ask(builder@, *query),
            Progress::Built(snapshot) => ProgressView::Built(snapshot@),
            Progress::Abandoned => ProgressView::Abandoned,
        }
    }
}

impl BuilderView {
    /// The start of every cycle.
    pub open spec fn begin() -> ProgressView {
        ProgressView::Ask(BuilderView::AwaitManager, Query::SessionManager)
    }

    /// The step that skips the rest of the thumbnail: go on to the playback
    /// status with no cover.
    pub open spec fn without_cover(title: Seq<char>, artist: Seq<char>) -> ProgressView {
        ProgressView::Ask(
            BuilderView::AwaitStatus { title, artist, cover: None },
            Query::PlaybackStatus,
        )
    }

    /// What the builder does with the outcome of the query it last asked.
    pub open spec fn resume(self, outcome: OutcomeView) -> ProgressView {
        match self {
            BuilderView::AwaitManager => match outcome {
                OutcomeView::Done => ProgressView::Ask(
                    BuilderView::AwaitSession,
                    Query::CurrentSession,
                ),
                _ => ProgressView::Abandoned,
            },
            BuilderView::AwaitSession => match outcome {
                OutcomeView::Done => ProgressView::Ask(
                    BuilderView::AwaitProperties,
                    Query::MediaProperties,
                ),
                _ => ProgressView::Abandoned,
            },
            BuilderView::AwaitProperties => match outcome {
                OutcomeView::Properties { title, artist } => ProgressView::Ask(
                    BuilderView::AwaitThumbnail {
                        title: text_or_empty(title),
                        artist: text_or_empty(artist),
                    },
                    Query::Thumbnail,
                ),
                _ => ProgressView::Abandoned,
            },
            BuilderView::AwaitThumbnail { title, artist } => match outcome {
                OutcomeView::Done => ProgressView::Ask(
                    BuilderView::AwaitStream { title, artist },
                    Query::ThumbnailStream,
                ),
                _ => Self::without_cover(title, artist),
            },
            BuilderView::AwaitStream { title, artist } => match outcome {
                OutcomeView::Done => ProgressView::Ask(
                    BuilderView::AwaitSize { title, artist },
                    Query::StreamSize,
                ),
                _ => Self::without_cover(title, artist),
            },
            BuilderView::AwaitSize { title, artist } => match outcome {
                OutcomeView::Size(raw) => match request_of(raw) {
                    Some(len) => ProgressView::Ask(
                        BuilderView::AwaitBytes { title, artist, declared_size: len },
                        Query::StreamBytes(len),
                    ),
                    None => Self::without_cover(title, artist),
                },
                _ => Self::without_cover(title, artist),
            },
            BuilderView::AwaitBytes { title, artist, declared_size } => match outcome {
                OutcomeView::Bytes(bytes) => ProgressView::Ask(
                    BuilderView::AwaitStatus {
                        title,
                        artist,
                        cover: cover_of(declared_size, bytes),
                    },
                    Query::PlaybackStatus,
                ),
                _ => Self::without_cover(title, artist),
            },
            BuilderView::AwaitStatus { title, artist, cover } => ProgressView::Built(
                SnapshotView::assembled(
                    title,
                    artist,
                    PlaybackStatus::of_reading(outcome.status_reading()),
                    cover,
                ),
            ),
        }
    }
}

impl BuilderView {
    /// What holds of every state that a cycle reaches: a read is only ever
    /// asked for a positive number of bytes, and a cover that has been
    /// gathered is whole.
    pub open spec fn well_formed(self) -> bool {
        match self {
            BuilderView::AwaitBytes { declared_size, .. } => declared_size > 0,
            BuilderView::AwaitStatus { cover, .. } => cover matches Some(text) ==> is_cover(text),
            _ => true,
        }
    }

    /// The title and the artist as the platform reported them, once the media
    /// properties are in.
    pub open spec fn text(self) -> Option<(Seq<char>, Seq<char>)> {
        match self {
            BuilderView::AwaitManager => None,
            BuilderView::AwaitSession => None,
            BuilderView::AwaitProperties => None,
            BuilderView::AwaitThumbnail { title, artist } => Some((title, artist)),
            BuilderView::AwaitStream { title, artist } => Some((title, artist)),
            BuilderView::AwaitSize { title, artist } => Some((title, artist)),
            BuilderView::AwaitBytes { title, artist, .. } => Some((title, artist)),
            BuilderView::AwaitStatus { title, artist, .. } => Some((title, artist)),
        }
    }

    /// The largest number of outcomes that the cycle can still take before it
    /// is over.
    pub open spec fn steps_left(self) -> nat {
        match self {
            BuilderView::AwaitManager => 8,
            BuilderView::AwaitSession => 7,
            BuilderView::AwaitProperties => 6,
            BuilderView::AwaitThumbnail { .. } => 5,
            BuilderView::AwaitStream { .. } => 4,
            BuilderView::AwaitSize { .. } => 3,
            BuilderView::AwaitBytes { .. } => 2,
            BuilderView::AwaitStatus { .. } => 1,
        }
    }
}

impl ProgressView {
    /// Where a cycle stands once the driver has reported `outcomes`, in
    /// order. A cycle that is over stays as it is.
    pub open spec fn run(self, outcomes: Seq<OutcomeView>) -> ProgressView
        decreases outcomes.len(),
    {
        if outcomes.len() == 0 {
            self
        } else {
            match self {
                ProgressView::Ask(builder, _) => builder.resume(outcomes.first()).run(
                    outcomes.drop_first(),
                ),
                _ => self,
            }
        }
    }

    /// Well-formedness of whatever the step holds.
    pub open spec fn well_formed(self) -> bool {
        match self {
            ProgressView::Ask(builder, _) => builder.well_formed(),
            ProgressView::Built(snapshot) => snapshot.well_formed(),
            ProgressView::Abandoned => true,
        }
    }
}

/// A text that may be missing, as a string: a missing one is empty.
fn owned_or_empty(text: Option<String>) -> (owned: String)
    ensures
        owned@ == text_or_empty(text.deep_view()),
{
    match text {
        Some(t) => t,
        None => String::new(),
    }
}

/// Goes on to the playback status with no cover.
fn skip_cover(title: String, artist: String) -> (progress: Progress)
    ensures
        progress@ == BuilderView::without_cover(title@, artist@),
{
    Progress::Ask(Builder::AwaitStatus { title, artist, cover: None }, Query::PlaybackStatus)
}

impl Builder {
    /// Starts a cycle: the builder asks for the session manager.
    pub fn begin() -> (progress: Progress)
        ensures
            progress@ == BuilderView::begin(),
            progress@.well_formed(),
    {
        Progress::Ask(Builder::AwaitManager, Query::SessionManager)
    }

    /// Takes the outcome of the query that was last asked and says how the
    /// cycle goes on. An outcome of another form than the query calls for
    /// counts as a failure of that query. A well-formed state stays well
    /// formed, and builds only well-formed snapshots.
    pub fn resume(self, outcome: Outcome) -> (progress: Progress)
        ensures
            progress@ == self@.resume(outcome@),
            self@.well_formed() ==> progress@.well_formed(),
    {
        proof {
            if self@.well_formed() {
                lemma_resume_well_formed(self@, outcome@);
            }
        }
        match self {
            Builder::AwaitManager => match outcome {
                Outcome::Done => Progress::Ask(Builder::AwaitSession, Query::CurrentSession),
                _ => Progress::Abandoned,
            },
            Builder::AwaitSession => match outcome {
                Outcome::Done => Progress::Ask(Builder::AwaitProperties, Query::MediaProperties),
                _ => Progress::Abandoned,
            },
            Builder::AwaitProperties => match outcome {
                Outcome::Properties { title, artist } => Progress::Ask(
                    Builder::AwaitThumbnail {
                        title: owned_or_empty(title),
                        artist: owned_or_empty(artist),
                    },
                    Query::Thumbnail,
                ),
                _ => Progress::Abandoned,
            },
            Builder::AwaitThumbnail { title, artist } => match outcome {
                Outcome::Done => Progress::Ask(
                    Builder::AwaitStream { title, artist },
                    Query::ThumbnailStream,
                ),
                _ => skip_cover(title, artist),
            },
            Builder::AwaitStream { title, artist } => match outcome {
                Outcome::Done => Progress::Ask(
                    Builder::AwaitSize { title, artist },
                    Query::StreamSize,
                ),
                _ => skip_cover(title, artist),
            },
            Builder::AwaitSize { title, artist } => match outcome {
                Outcome::Size(raw) => match read_length(raw) {
                    Ok(len) => Progress::Ask(
                        Builder::AwaitBytes { title, artist, declared_size: len },
                        Query::StreamBytes(len),
                    ),
                    Err(_) => skip_cover(title, artist),
                },
                _ => skip_cover(title, artist),
            },
            Builder::AwaitBytes { title, artist, declared_size } => match outcome {
                Outcome::Bytes(bytes) => {
                    let cover = read_cover(declared_size, bytes.as_slice());
                    Progress::Ask(
                        Builder::AwaitStatus { title, artist, cover },
                        Query::PlaybackStatus,
                    )
                },
                _ => skip_cover(title, artist),
            },
            Builder::AwaitStatus { title, artist, cover } => {
                let reading = match outcome {
                    Outcome::Status(code) => Some(code),
                    _ => None,
                };
                Progress::Built(
                    MediaSnapshot::assemble(
                        title,
                        artist,
                        PlaybackStatus::from_reading(reading),
                        cover,
                    ),
                )
            },
        }
    }
}

/// A step keeps the state well formed, and a snapshot that it builds is well
/// formed: title and artist are not empty and the cover is whole or absent.
pub proof fn lemma_resume_well_formed(builder: BuilderView, outcome: OutcomeView)
    requires
        builder.well_formed(),
    ensures
        builder.resume(outcome).well_formed(),
{
    match builder {
        BuilderView::AwaitBytes { title, artist, declared_size } => {
            match outcome {
                OutcomeView::Bytes(bytes) => {
                    match cover_of(declared_size, bytes) {
                        Some(text) => {
                            let payload = payload_of(declared_size, bytes)->0;
                            assert(text == cover_text(payload));
                        },
                        None => {},
                    }
                },
                _ => {},
            }
        },
        BuilderView::AwaitStatus { title, artist, cover } => {
            lemma_assembled_text(
                title,
                artist,
                PlaybackStatus::of_reading(outcome.status_reading()),
                cover,
            );
        },
        _ => {},
    }
}

/// Every step brings the end of the cycle nearer.
pub proof fn lemma_resume_advances(builder: BuilderView, outcome: OutcomeView)
    ensures
        builder.resume(outcome) matches ProgressView::Ask(next, _) ==> next.steps_left()
            < builder.steps_left(),
{
}

/// No cycle is longer than eight outcomes: whatever the driver reports, the
/// builder has then built a snapshot or abandoned the cycle, and what it has
/// built is well formed.
pub proof fn lemma_cycle_ends(outcomes: Seq<OutcomeView>)
    requires
        outcomes.len() >= 8,
    ensures
        !(BuilderView::begin().run(outcomes) is Ask),
        BuilderView::begin().run(outcomes).well_formed(),
{
    lemma_run_ends(BuilderView::AwaitManager, Query::SessionManager, outcomes);
}

/// From any well-formed state, a run of at least as many outcomes as the
/// state has steps left ends the cycle, and ends it well formed.
pub proof fn lemma_run_ends(builder: BuilderView, query: Query, outcomes: Seq<OutcomeView>)
    requires
        builder.well_formed(),
        outcomes.len() >= builder.steps_left(),
    ensures
        !(ProgressView::Ask(builder, query).run(outcomes) is Ask),
        ProgressView::Ask(builder, query).run(outcomes).well_formed(),
    decreases outcomes.len(),
{
    let next = builder.resume(outcomes.first());
    lemma_resume_well_formed(builder, outcomes.first());
    lemma_resume_advances(builder, outcomes.first());
    match next {
        ProgressView::Ask(b, q) => {
            lemma_run_ends(b, q, outcomes.drop_first());
        },
        _ => {
            lemma_run_stays(next, outcomes.drop_first());
        },
    }
}

/// A cycle that is over takes no further step.
pub proof fn lemma_run_stays(progress: ProgressView, outcomes: Seq<OutcomeView>)
    requires
        !(progress is Ask),
    ensures
        progress.run(outcomes) == progress,
{
}

/// A failure at one of the three steps that carry the cycle abandons it:
/// without the session manager, without a current session or without the
/// media properties nothing is built.
pub proof fn lemma_load_bearing_failure(failure: OutcomeView)
    ensures
        !(failure is Done) ==> BuilderView::begin().run(seq![failure]) == ProgressView::Abandoned,
        !(failure is Done) ==> BuilderView::begin().run(seq![OutcomeView::Done, failure])
            == ProgressView::Abandoned,
        !(failure is Properties) ==> BuilderView::begin().run(
            seq![OutcomeView::Done, OutcomeView::Done, failure],
        ) == ProgressView::Abandoned,
{
    reveal_with_fuel(ProgressView::run, 4);
}

/// Once the media properties are in, nothing that follows can cost the
/// snapshot or change its text. However the thumbnail and the status turn
/// out, the cycle is not abandoned, and the snapshot that it builds has the
/// reported title and artist, each replaced by its placeholder where it was
/// empty.
pub proof fn lemma_text_is_kept(
    builder: BuilderView,
    query: Query,
    title: Seq<char>,
    artist: Seq<char>,
    outcomes: Seq<OutcomeView>,
)
    requires
        builder.text() == Some((title, artist)),
    ensures
        match ProgressView::Ask(builder, query).run(outcomes) {
            ProgressView::Ask(next, _) => next.text() == Some((title, artist)),
            ProgressView::Built(snapshot) => {
                &&& snapshot.title == or_placeholder(title, title_placeholder())
                &&& snapshot.artist == or_placeholder(artist, artist_placeholder())
            },
            ProgressView::Abandoned => false,
        },
    decreases outcomes.len(),
{
    if outcomes.len() > 0 {
        match builder.resume(outcomes.first()) {
            ProgressView::Ask(next, asked) => {
                lemma_text_is_kept(next, asked, title, artist, outcomes.drop_first());
            },
            over => {
                lemma_run_stays(over, outcomes.drop_first());
            },
        }
    }
}

/// What decides a cycle. It builds a snapshot exactly if the session manager,
/// the current session and the media properties were all had; it is abandoned
/// exactly if one of the three was not. Nothing after them has a say. And
/// where the properties reported an empty or missing title or artist, the
/// snapshot shows the placeholder.
pub proof fn lemma_cycle_is_decided_by_first_three(outcomes: Seq<OutcomeView>)
    requires
        outcomes.len() >= 8,
    ensures
        ({
            let end = BuilderView::begin().run(outcomes);
            let carried = outcomes[0] is Done && outcomes[1] is Done && outcomes[2] is Properties;
            &&& end is Built <==> carried
            &&& end is Abandoned <==> !carried
            &&& carried ==> {
                &&& end->Built_0.title == or_placeholder(
                    text_or_empty(outcomes[2]->Properties_title),
                    title_placeholder(),
                )
                &&& end->Built_0.artist == or_placeholder(
                    text_or_empty(outcomes[2]->Properties_artist),
                    artist_placeholder(),
                )
            }
        }),
{
    reveal_with_fuel(ProgressView::run, 4);
    lemma_cycle_ends(outcomes);
    let rest = outcomes.drop_first().drop_first().drop_first();
    if outcomes[0] is Done && outcomes[1] is Done && outcomes[2] is Properties {
        let title = text_or_empty(outcomes[2]->Properties_title);
        let artist = text_or_empty(outcomes[2]->Properties_artist);
        lemma_text_is_kept(
            BuilderView::AwaitThumbnail { title, artist },
            Query::Thumbnail,
            title,
            artist,
            rest,
        );
    }
}

/// A failure anywhere on the way to the thumbnail only costs the cover: with
/// no thumbnail reference, no stream, no usable size or no bytes, the builder
/// goes on to the playback status and builds the snapshot without a cover.
pub proof fn lemma_thumbnail_failure_drops_cover(
    title: Seq<char>,
    artist: Seq<char>,
    declared_size: u32,
    failure: OutcomeView,
    status: OutcomeView,
)
    ensures
        ({
            let outcomes = seq![failure, status];
            let built = ProgressView::Built(
                SnapshotView::assembled(
                    title,
                    artist,
                    PlaybackStatus::of_reading(status.status_reading()),
                    None,
                ),
            );
            &&& !(failure is Done) ==> ProgressView::Ask(
                BuilderView::AwaitThumbnail { title, artist },
                Query::Thumbnail,
            ).run(outcomes) == built
            &&& !(failure is Done) ==> ProgressView::Ask(
                BuilderView::AwaitStream { title, artist },
                Query::ThumbnailStream,
            ).run(outcomes) == built
            &&& (failure matches OutcomeView::Size(raw) ==> request_of(raw) is None)
                ==> ProgressView::Ask(
                BuilderView::AwaitSize { title, artist },
                Query::StreamSize,
            ).run(outcomes) == built
            &&& !(failure is Bytes) ==> ProgressView::Ask(
                BuilderView::AwaitBytes { title, artist, declared_size },
                Query::StreamBytes(declared_size),
            ).run(outcomes) == built
        }),
{
    reveal_with_fuel(ProgressView::run, 3);
}

/// A playback status that cannot be read does not cost the snapshot: it is
/// built as stopped. A status that is read is mapped by its code.
pub proof fn lemma_status_failure_is_stopped(
    title: Seq<char>,
    artist: Seq<char>,
    cover: Option<Seq<char>>,
    outcome: OutcomeView,
)
    ensures
        ({
            let waiting = BuilderView::AwaitStatus { title, artist, cover };
            &&& !(outcome is Status) ==> waiting.resume(outcome) == ProgressView::Built(
                SnapshotView::assembled(title, artist, PlaybackStatus::Stopped, cover),
            )
            &&& outcome matches OutcomeView::Status(code) ==> waiting.resume(outcome)
                == ProgressView::Built(
                SnapshotView::assembled(title, artist, PlaybackStatus::of_code(code as int), cover),
            )
        }),
{
}

/// A cycle whose thumbnail stream declares no bytes builds a snapshot without
/// a cover, whatever the title, the artist and the status are.
pub proof fn lemma_empty_stream_has_no_cover(
    title: Option<Seq<char>>,
    artist: Option<Seq<char>>,
    status: OutcomeView,
)
    ensures
        BuilderView::begin().run(
            seq![
                OutcomeView::Done,
                OutcomeView::Done,
                OutcomeView::Properties { title, artist },
                OutcomeView::Done,
                OutcomeView::Done,
                OutcomeView::Size(0),
                status,
            ],
        ) == ProgressView::Built(
            SnapshotView::assembled(
                text_or_empty(title),
                text_or_empty(artist),
                PlaybackStatus::of_reading(status.status_reading()),
                None,
            ),
        ),
{
    reveal_with_fuel(ProgressView::run, 8);
}

/// A cycle whose thumbnail stream declares a positive size, and whose read
/// delivers exactly that many bytes, builds a snapshot whose cover is the
/// prefix followed by the standard base64 text of exactly those bytes,
/// whatever the title, the artist and the status are. (The size has to fit a
/// read request, and the text the machine's largest length.)
pub proof fn lemma_full_read_gives_cover(
    title: Option<Seq<char>>,
    artist: Option<Seq<char>>,
    size: u64,
    bytes: Seq<u8>,
    status: OutcomeView,
)
    requires
        0 < size <= MAX_READ,
        bytes.len() == size,
        encodable(bytes.len()),
    ensures
        BuilderView::begin().run(
            seq![
                OutcomeView::Done,
                OutcomeView::Done,
                OutcomeView::Properties { title, artist },
                OutcomeView::Done,
                OutcomeView::Done,
                OutcomeView::Size(size),
                OutcomeView::Bytes(bytes),
                status,
            ],
        ) == ProgressView::Built(
            SnapshotView::assembled(
                text_or_empty(title),
                text_or_empty(artist),
                PlaybackStatus::of_reading(status.status_reading()),
                Some(cover_prefix() + standard_base64(bytes)),
            ),
        ),
{
    reveal_with_fuel(ProgressView::run, 9);
}

} // verus!
