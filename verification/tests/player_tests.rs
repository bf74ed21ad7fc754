use tbg::models::player::{Player, PlayerRow, UpdateError};
use tbg::Gender;

#[test]
fn test_create_player() {
    let player = Player::new("Test Player".to_string(), Gender::Male);
    assert_eq!(player.name, "Test Player");
    assert_eq!(player.gender.to_db_string(), "male");
}

#[test]
fn new_player_gets_a_version_4_id() {
    let player = Player::new("Ada".to_string(), Gender::Female);
    assert_eq!(player.id, 0);
    assert_eq!((player.uuid >> 76) & 0xf, 4);
    assert_eq!((player.uuid >> 62) & 0x3, 2);
    assert!(player.created_at.nanos < 2_000_000_000);
    let other = Player::new("Ada".to_string(), Gender::Female);
    assert_ne!(player.uuid, other.uuid);
}

#[test]
fn stored_player_loads_back() {
    let player = Player::new("Test Player".to_string(), Gender::Unspecified);
    let row = player.insert_row();
    assert_eq!(row.name, "Test Player");
    assert_eq!(row.gender, "unspecified");
    assert_eq!(row.created_at, player.created_at);
    assert_eq!(row.updated_at, player.created_at);
    assert_eq!(row.uuid.len(), 36);
    assert_eq!(row.uuid.matches('-').count(), 4);
    let stored = PlayerRow {
        id: 7,
        uuid: row.uuid.clone(),
        name: row.name.clone(),
        gender: row.gender.clone(),
        created_at: row.created_at,
        updated_at: row.updated_at,
    };
    let loaded = Player::try_from_row(&stored).expect("stored id reads back");
    assert_eq!(loaded.id, 7);
    assert_eq!(loaded.uuid, player.uuid);
    assert_eq!(loaded.name, "Test Player");
    assert_eq!(loaded.gender, Gender::Unspecified);
    assert_eq!(loaded.updated_at, player.created_at);
}

#[test]
fn known_id_is_written_hyphenated() {
    let player = Player {
        id: 1,
        uuid: 0x67e5504410b1426f9247bb680e5fe0c8,
        name: "Bo".to_string(),
        gender: Gender::Male,
        created_at: tbg::clock::Timestamp { secs: 0, nanos: 0 },
        updated_at: tbg::clock::Timestamp { secs: 5, nanos: 0 },
    };
    assert_eq!(player.insert_row().uuid, "67e55044-10b1-426f-9247-bb680e5fe0c8");
}

#[test]
fn row_with_bad_id_is_refused() {
    let row = PlayerRow {
        id: 1,
        uuid: "not-a-uuid".to_string(),
        name: "X".to_string(),
        gender: "female".to_string(),
        created_at: tbg::clock::Timestamp { secs: 1, nanos: 2 },
        updated_at: tbg::clock::Timestamp { secs: 3, nanos: 4 },
    };
    assert!(Player::try_from_row(&row).is_none());
}

#[test]
fn unknown_stored_gender_reads_as_unspecified() {
    let row = PlayerRow {
        id: 2,
        uuid: "67e55044-10b1-426f-9247-bb680e5fe0c8".to_string(),
        name: "X".to_string(),
        gender: "Male".to_string(),
        created_at: tbg::clock::Timestamp { secs: 1, nanos: 2 },
        updated_at: tbg::clock::Timestamp { secs: 3, nanos: 4 },
    };
    let p = Player::from_row(&row);
    assert_eq!(p.gender, Gender::Unspecified);
    assert_eq!(p.uuid, 0x67e5504410b1426f9247bb680e5fe0c8);
    assert_eq!(p.updated_at.secs, 3);
}

#[test]
fn update_of_no_rows_is_an_error() {
    assert_eq!(Player::update_outcome(0), Err(UpdateError::NoPlayerFound));
    assert_eq!(Player::update_outcome(1), Ok(()));
    let p = Player::new("Cy".to_string(), Gender::Female);
    let u = p.update_row();
    assert_eq!(u.gender, "female");
    assert_eq!(u.name, "Cy");
}
