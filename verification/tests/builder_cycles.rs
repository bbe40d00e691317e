use now_playing::builder::{Builder, Outcome, Progress, Query};
use now_playing::snapshot::{placeholder_artist, placeholder_title, MediaSnapshot};
use now_playing::status::PlaybackStatus;

const PNG_HEADER: [u8; 8] = [0x89, 0x50, 0x4E, 0x47, 0x0D, 0x0A, 0x1A, 0x0A];

fn text(s: &str) -> Option<String> {
    Some(s.to_string())
}

/// Feeds the outcomes to a fresh builder, one by one, and checks on the way
/// that the builder asks the expected questions.
fn run_cycle(outcomes: Vec<Outcome>, expected: &[Query]) -> Progress {
    let mut progress = Builder::begin();
    let mut asked = Vec::new();
    for outcome in outcomes {
        progress = match progress {
            Progress::Ask(builder, query) => {
                asked.push(query);
                builder.resume(outcome)
            }
            other => panic!("the cycle was over before all outcomes were used: {:?}", other),
        };
    }
    assert_eq!(asked.as_slice(), expected);
    progress
}

fn built(progress: Progress) -> MediaSnapshot {
    match progress {
        Progress::Built(snapshot) => snapshot,
        other => panic!("no snapshot was built: {:?}", other),
    }
}

#[test]
fn begin_asks_for_the_session_manager() {
    assert_eq!(
        Builder::begin(),
        Progress::Ask(Builder::AwaitManager, Query::SessionManager)
    );
}

#[test]
fn empty_text_playing_without_thumbnail() {
    let progress = run_cycle(
        vec![
            Outcome::Done,
            Outcome::Done,
            Outcome::Properties { title: text(""), artist: text("") },
            Outcome::Failed,
            Outcome::Status(4),
        ],
        &[
            Query::SessionManager,
            Query::CurrentSession,
            Query::MediaProperties,
            Query::Thumbnail,
            Query::PlaybackStatus,
        ],
    );
    let snapshot = built(progress);
    assert_eq!(
        snapshot,
        MediaSnapshot {
            title: placeholder_title(),
            artist: placeholder_artist(),
            status: PlaybackStatus::Playing,
            cover: None,
        }
    );
    assert_ne!(snapshot.title, "");
    assert_ne!(snapshot.artist, "");
    assert_eq!(snapshot.status.label(), "Playing");
    assert_eq!(snapshot.cover, None);
}

#[test]
fn named_track_paused_with_png_thumbnail() {
    let progress = run_cycle(
        vec![
            Outcome::Done,
            Outcome::Done,
            Outcome::Properties { title: text("Song A"), artist: text("Artist B") },
            Outcome::Done,
            Outcome::Done,
            Outcome::Size(8),
            Outcome::Bytes(PNG_HEADER.to_vec()),
            Outcome::Status(5),
        ],
        &[
            Query::SessionManager,
            Query::CurrentSession,
            Query::MediaProperties,
            Query::Thumbnail,
            Query::ThumbnailStream,
            Query::StreamSize,
            Query::StreamBytes(8),
            Query::PlaybackStatus,
        ],
    );
    let snapshot = built(progress);
    assert_eq!(snapshot.title, "Song A");
    assert_eq!(snapshot.artist, "Artist B");
    assert_eq!(snapshot.status, PlaybackStatus::Paused);
    assert_eq!(snapshot.status.label(), "Paused");
    let cover = snapshot.cover.expect("a cover");
    assert!(cover.starts_with("data:image/png;base64,iVBOR"));
    assert_eq!(cover, "data:image/png;base64,iVBORw0KGgo=");
}

#[test]
fn unrecognized_status_code_is_stopped() {
    let progress = run_cycle(
        vec![
            Outcome::Done,
            Outcome::Done,
            Outcome::Properties { title: text("Song A"), artist: text("Artist B") },
            Outcome::Failed,
            Outcome::Status(99),
        ],
        &[
            Query::SessionManager,
            Query::CurrentSession,
            Query::MediaProperties,
            Query::Thumbnail,
            Query::PlaybackStatus,
        ],
    );
    let snapshot = built(progress);
    assert_eq!(snapshot.status, PlaybackStatus::Stopped);
    assert_eq!(snapshot.status.label(), "Stopped");
}

#[test]
fn no_session_manager_abandons_the_cycle() {
    let progress = run_cycle(vec![Outcome::Failed], &[Query::SessionManager]);
    assert_eq!(progress, Progress::Abandoned);
}

#[test]
fn no_current_session_abandons_the_cycle() {
    let progress = run_cycle(
        vec![Outcome::Done, Outcome::Failed],
        &[Query::SessionManager, Query::CurrentSession],
    );
    assert_eq!(progress, Progress::Abandoned);
}

#[test]
fn no_properties_abandons_the_cycle() {
    let progress = run_cycle(
        vec![Outcome::Done, Outcome::Done, Outcome::Failed],
        &[Query::SessionManager, Query::CurrentSession, Query::MediaProperties],
    );
    assert_eq!(progress, Progress::Abandoned);
}

#[test]
fn an_outcome_of_the_wrong_form_counts_as_failure() {
    assert_eq!(Builder::AwaitManager.resume(Outcome::Status(4)), Progress::Abandoned);
    assert_eq!(Builder::AwaitSession.resume(Outcome::Size(3)), Progress::Abandoned);
    assert_eq!(Builder::AwaitProperties.resume(Outcome::Done), Progress::Abandoned);
    let waiting = Builder::AwaitThumbnail { title: "t".to_string(), artist: "a".to_string() };
    assert_eq!(
        waiting.resume(Outcome::Bytes(vec![1, 2, 3])),
        Progress::Ask(
            Builder::AwaitStatus { title: "t".to_string(), artist: "a".to_string(), cover: None },
            Query::PlaybackStatus
        )
    );
}

#[test]
fn missing_title_and_artist_become_placeholders() {
    let progress = run_cycle(
        vec![
            Outcome::Done,
            Outcome::Done,
            Outcome::Properties { title: None, artist: None },
            Outcome::Failed,
            Outcome::Status(5),
        ],
        &[
            Query::SessionManager,
            Query::CurrentSession,
            Query::MediaProperties,
            Query::Thumbnail,
            Query::PlaybackStatus,
        ],
    );
    let snapshot = built(progress);
    assert_eq!(snapshot.title, "Sin música");
    assert_eq!(snapshot.artist, "Escuchando...");
    assert_eq!(snapshot.status, PlaybackStatus::Paused);
}

#[test]
fn only_the_empty_text_is_replaced() {
    let progress = run_cycle(
        vec![
            Outcome::Done,
            Outcome::Done,
            Outcome::Properties { title: text(""), artist: text("Artist B") },
            Outcome::Failed,
            Outcome::Status(4),
        ],
        &[
            Query::SessionManager,
            Query::CurrentSession,
            Query::MediaProperties,
            Query::Thumbnail,
            Query::PlaybackStatus,
        ],
    );
    let snapshot = built(progress);
    assert_eq!(snapshot.title, "Sin música");
    assert_eq!(snapshot.artist, "Artist B");

    let progress = run_cycle(
        vec![
            Outcome::Done,
            Outcome::Done,
            Outcome::Properties { title: text(" "), artist: text("") },
            Outcome::Failed,
            Outcome::Status(4),
        ],
        &[
            Query::SessionManager,
            Query::CurrentSession,
            Query::MediaProperties,
            Query::Thumbnail,
            Query::PlaybackStatus,
        ],
    );
    let snapshot = built(progress);
    assert_eq!(snapshot.title, " ");
    assert_eq!(snapshot.artist, "Escuchando...");
}

#[test]
fn unreadable_status_is_stopped_and_keeps_the_snapshot() {
    for outcome in [Outcome::Failed, Outcome::Done, Outcome::Size(4)] {
        let mut outcomes = vec![
            Outcome::Done,
            Outcome::Done,
            Outcome::Properties { title: text("Song A"), artist: text("Artist B") },
            Outcome::Failed,
        ];
        outcomes.push(outcome);
        let snapshot = built(run_cycle(
            outcomes,
            &[
                Query::SessionManager,
                Query::CurrentSession,
                Query::MediaProperties,
                Query::Thumbnail,
                Query::PlaybackStatus,
            ],
        ));
        assert_eq!(
            snapshot,
            MediaSnapshot {
                title: "Song A".to_string(),
                artist: "Artist B".to_string(),
                status: PlaybackStatus::Stopped,
                cover: None,
            }
        );
    }
}

#[test]
fn stream_of_declared_size_zero_has_no_cover() {
    let progress = run_cycle(
        vec![
            Outcome::Done,
            Outcome::Done,
            Outcome::Properties { title: text("Song A"), artist: text("Artist B") },
            Outcome::Done,
            Outcome::Done,
            Outcome::Size(0),
            Outcome::Status(4),
        ],
        &[
            Query::SessionManager,
            Query::CurrentSession,
            Query::MediaProperties,
            Query::Thumbnail,
            Query::ThumbnailStream,
            Query::StreamSize,
            Query::PlaybackStatus,
        ],
    );
    let snapshot = built(progress);
    assert_eq!(snapshot.cover, None);
    assert_eq!(snapshot.title, "Song A");
    assert_eq!(snapshot.status, PlaybackStatus::Playing);
}

#[test]
fn stream_larger_than_one_request_has_no_cover() {
    for raw in [0x1_0000_0000u64, 0x1_0000_0005, u64::MAX] {
        let waiting = Builder::AwaitSize { title: "t".to_string(), artist: "a".to_string() };
        assert_eq!(
            waiting.resume(Outcome::Size(raw)),
            Progress::Ask(
                Builder::AwaitStatus {
                    title: "t".to_string(),
                    artist: "a".to_string(),
                    cover: None
                },
                Query::PlaybackStatus
            )
        );
    }
    let waiting = Builder::AwaitSize { title: "t".to_string(), artist: "a".to_string() };
    assert_eq!(
        waiting.resume(Outcome::Size(0xffff_ffff)),
        Progress::Ask(
            Builder::AwaitBytes {
                title: "t".to_string(),
                artist: "a".to_string(),
                declared_size: u32::MAX
            },
            Query::StreamBytes(u32::MAX)
        )
    );
}

#[test]
fn each_thumbnail_failure_only_drops_the_cover() {
    let tails: Vec<Vec<Outcome>> = vec![
        vec![Outcome::Failed],
        vec![Outcome::Done, Outcome::Failed],
        vec![Outcome::Done, Outcome::Done, Outcome::Failed],
        vec![Outcome::Done, Outcome::Done, Outcome::Size(3), Outcome::Failed],
        vec![Outcome::Done, Outcome::Done, Outcome::Size(3), Outcome::Bytes(vec![1, 2])],
        vec![Outcome::Done, Outcome::Done, Outcome::Size(3), Outcome::Bytes(vec![1, 2, 3, 4])],
    ];
    let thumbnail_queries = [
        Query::Thumbnail,
        Query::ThumbnailStream,
        Query::StreamSize,
        Query::StreamBytes(3),
    ];
    for tail in tails {
        let mut expected = vec![
            Query::SessionManager,
            Query::CurrentSession,
            Query::MediaProperties,
        ];
        expected.extend_from_slice(&thumbnail_queries[..tail.len()]);
        expected.push(Query::PlaybackStatus);
        let mut outcomes = vec![
            Outcome::Done,
            Outcome::Done,
            Outcome::Properties { title: text("Song A"), artist: text("Artist B") },
        ];
        outcomes.extend(tail);
        outcomes.push(Outcome::Status(4));
        let snapshot = built(run_cycle(outcomes, &expected));
        assert_eq!(
            snapshot,
            MediaSnapshot {
                title: "Song A".to_string(),
                artist: "Artist B".to_string(),
                status: PlaybackStatus::Playing,
                cover: None,
            }
        );
    }
}

#[test]
fn no_cycle_takes_more_than_eight_outcomes() {
    let progress = run_cycle(
        vec![
            Outcome::Done,
            Outcome::Done,
            Outcome::Properties { title: text("Song A"), artist: text("Artist B") },
            Outcome::Done,
            Outcome::Done,
            Outcome::Size(1),
            Outcome::Bytes(vec![0]),
            Outcome::Failed,
        ],
        &[
            Query::SessionManager,
            Query::CurrentSession,
            Query::MediaProperties,
            Query::Thumbnail,
            Query::ThumbnailStream,
            Query::StreamSize,
            Query::StreamBytes(1),
            Query::PlaybackStatus,
        ],
    );
    let snapshot = built(progress);
    assert_eq!(snapshot.cover.as_deref(), Some("data:image/png;base64,AA=="));
    assert_eq!(snapshot.status, PlaybackStatus::Stopped);
}
