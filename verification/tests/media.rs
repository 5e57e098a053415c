use std::sync::Arc;

use filebelt_database::database::Database;
use filebelt_database::error::DatabaseError;
use filebelt_database::id::Uuid;
use filebelt_database::media::MediaPreviewState;
use filebelt_database::media::MEDIA_MAX_ATTEMPTS;
use filebelt_database::media::MEDIA_PLAYBACK_LIFETIME_SECONDS;
use filebelt_database::row::Cell;
use filebelt_database::row::Column;
use filebelt_database::row::Reply;
use filebelt_database::row::Row;
use filebelt_database::sql::media as sql;
use filebelt_database::step::Command;
use filebelt_database::step::Step;

fn preview(state: &str, cache_key: &[u8]) -> Reply {
    let columns: Vec<(&str, Cell)> = vec![
        ("id", Cell::Id(Uuid { value: 2 })),
        ("drive_id", Cell::Id(Uuid { value: 3 })),
        ("node_id", Cell::Id(Uuid { value: 4 })),
        ("source_version_id", Cell::Id(Uuid { value: 5 })),
        ("state", Cell::Text(state.to_owned())),
        ("attempt_count", Cell::I32(1)),
        ("job_epoch", Cell::I64(6)),
        ("cache_key", Cell::Bytes(Arc::new(cache_key.to_vec()))),
    ];
    Reply::Rows(vec![Row {
        columns: columns
            .into_iter()
            .map(|(name, cell)| Column {
                name: name.to_owned(),
                cell,
            })
            .collect(),
    }])
}

#[test]
fn media_states_and_limits_are_closed() {
    assert_eq!(MEDIA_MAX_ATTEMPTS, 3);
    assert_eq!(MEDIA_PLAYBACK_LIFETIME_SECONDS, 60);
    assert!(matches!(
        MediaPreviewState::parse("ready"),
        Ok(MediaPreviewState::Ready)
    ));
    assert!(matches!(
        MediaPreviewState::parse("adapter_claimed"),
        Err(DatabaseError::InvalidPersistedValue)
    ));
}

#[test]
fn every_state_is_read_back_from_its_name() {
    for name in [
        "requested",
        "running",
        "verifying",
        "ready",
        "failed",
        "quarantined",
        "cancelled",
        "evicting",
        "evicted",
    ] {
        let state = MediaPreviewState::parse(name).expect("a stored state");
        assert_eq!(state.as_str(), name);
    }
    assert!(MediaPreviewState::parse("READY").is_err());
}

#[test]
fn a_preview_is_read_with_its_state_and_key() {
    let tenant = Uuid { value: 1 };
    let wanted = Uuid { value: 2 };
    match Database::media_preview(tenant, wanted, &[]) {
        Step::Ask(Command::Query(query)) => assert_eq!(query.sql, sql::MEDIA_PREVIEW),
        _ => panic!("the preview is asked for"),
    }
    match Database::media_preview(tenant, wanted, &[preview("ready", &[9; 32])]) {
        Step::Done(record) => {
            assert_eq!(record.id, wanted);
            assert_eq!(record.cache_key, [9; 32]);
            assert_eq!(record.job_epoch, 6);
        }
        _ => panic!("the preview is read"),
    }
    assert!(matches!(
        Database::media_preview(tenant, wanted, &[preview("ready", &[9; 31])]),
        Step::Fail(DatabaseError::InvalidPersistedValue)
    ));
    assert!(matches!(
        Database::media_preview(tenant, wanted, &[preview("adapter_claimed", &[9; 32])]),
        Step::Fail(DatabaseError::InvalidPersistedValue)
    ));
    assert!(matches!(
        Database::media_preview(tenant, wanted, &[Reply::Rows(Vec::new())]),
        Step::Fail(DatabaseError::NotFound)
    ));
}
