use conduit_core::entity::{Timestamp, UserEntity, UserFollowEntity};
use conduit_core::row::{check_row, follow_columns, user_columns, ColumnKind, ColumnValue, RowError};

fn sample_user() -> UserEntity {
    UserEntity {
        id: 7,
        created_at: Timestamp::at_micros(10),
        updated_at: Timestamp::at_micros(20),
        username: String::from("ann"),
        email: String::from("ann@example.com"),
        password: String::from("h$ash"),
        bio: String::from("hello"),
        image: String::from("ann.png"),
    }
}

fn user_row() -> Vec<ColumnValue> {
    vec![
        ColumnValue::Int(7),
        ColumnValue::Time(Timestamp::at_micros(10)),
        ColumnValue::Time(Timestamp::at_micros(20)),
        ColumnValue::Text(String::from("ann")),
        ColumnValue::Text(String::from("ann@example.com")),
        ColumnValue::Text(String::from("h$ash")),
        ColumnValue::Text(String::from("hello")),
        ColumnValue::Text(String::from("ann.png")),
    ]
}

#[test]
fn into_dto_keeps_public_fields_and_token() {
    let dto = sample_user().into_dto(String::from("jwt-token"));
    assert_eq!(dto.username, "ann");
    assert_eq!(dto.email, "ann@example.com");
    assert_eq!(dto.bio, "hello");
    assert_eq!(dto.image, "ann.png");
    assert_eq!(dto.token, "jwt-token");
    let shown = format!("{:?}", dto);
    assert!(!shown.contains("h$ash"));
}

#[test]
fn into_profile_keeps_public_fields_and_flag() {
    let p = sample_user().into_profile(true);
    assert_eq!(p.username, "ann");
    assert_eq!(p.bio, "hello");
    assert_eq!(p.image, "ann.png");
    assert!(p.following);
    assert!(!sample_user().into_profile(false).following);
}

#[test]
fn default_user_is_a_stub_with_equal_stamps() {
    let u = UserEntity::default();
    assert_eq!(u.id, 1);
    assert_eq!(u.username, "stub username");
    assert_eq!(u.email, "stub email");
    assert_eq!(u.password, "stub password");
    assert_eq!(u.bio, "stub bio");
    assert_eq!(u.image, "stub image");
    assert_eq!(u.created_at, u.updated_at);
    assert!(u.created_at.unix_micros > 1_500_000_000_000_000);
}

#[test]
fn duplicate_copies_every_field() {
    let d = sample_user().duplicate();
    assert_eq!(d.id, 7);
    assert_eq!(d.password, "h$ash");
    assert_eq!(d.updated_at, Timestamp::at_micros(20));
}

#[test]
fn later_of_picks_the_later_stamp() {
    let a = Timestamp::at_micros(3);
    let b = Timestamp::at_micros(9);
    assert_eq!(a.later_of(b), b);
    assert_eq!(b.later_of(a), b);
    assert_eq!(a.later_of(a), a);
}

#[test]
fn user_row_decodes_by_position() {
    let u = UserEntity::from_row(&user_row()).unwrap();
    assert_eq!(u.id, 7);
    assert_eq!(u.created_at, Timestamp::at_micros(10));
    assert_eq!(u.updated_at, Timestamp::at_micros(20));
    assert_eq!(u.username, "ann");
    assert_eq!(u.email, "ann@example.com");
    assert_eq!(u.password, "h$ash");
    assert_eq!(u.bio, "hello");
    assert_eq!(u.image, "ann.png");
}

#[test]
fn short_user_row_reports_missing_position() {
    let mut row = user_row();
    row.truncate(5);
    assert_eq!(
        UserEntity::from_row(&row).unwrap_err(),
        RowError::ColumnIndexOutOfBounds { index: 5, len: 5 }
    );
    assert_eq!(
        UserEntity::from_row(&Vec::new()).unwrap_err(),
        RowError::ColumnIndexOutOfBounds { index: 0, len: 0 }
    );
}

#[test]
fn mistyped_user_column_reports_first_bad_position() {
    let mut row = user_row();
    row[4] = ColumnValue::Int(3);
    row[6] = ColumnValue::Int(3);
    assert_eq!(UserEntity::from_row(&row).unwrap_err(), RowError::ColumnDecode { index: 4 });
    let mut swapped = user_row();
    swapped.swap(0, 1);
    assert_eq!(UserEntity::from_row(&swapped).unwrap_err(), RowError::ColumnDecode { index: 0 });
}

#[test]
fn follow_row_decodes_by_position() {
    let row = vec![
        ColumnValue::Int(1),
        ColumnValue::Time(Timestamp::at_micros(99)),
        ColumnValue::Int(2),
        ColumnValue::Int(3),
    ];
    let f = UserFollowEntity::from_row(&row).unwrap();
    assert_eq!(
        f,
        UserFollowEntity { id: 1, created_at: Timestamp::at_micros(99), follower_id: 2, followee_id: 3 }
    );
    let bad = vec![ColumnValue::Int(1), ColumnValue::Int(2)];
    assert_eq!(UserFollowEntity::from_row(&bad).unwrap_err(), RowError::ColumnDecode { index: 1 });
}

#[test]
fn layouts_follow_the_table_columns() {
    assert_eq!(
        user_columns(),
        vec![
            ColumnKind::Int,
            ColumnKind::Time,
            ColumnKind::Time,
            ColumnKind::Text,
            ColumnKind::Text,
            ColumnKind::Text,
            ColumnKind::Text,
            ColumnKind::Text,
        ]
    );
    assert_eq!(follow_columns(), vec![ColumnKind::Int, ColumnKind::Time, ColumnKind::Int, ColumnKind::Int]);
    let extra = vec![ColumnValue::Int(1), ColumnValue::Text(String::from("x"))];
    assert!(check_row(&extra, &vec![ColumnKind::Int]).is_ok());
}

#[test]
fn clock_reading_becomes_timestamp() {
    assert_eq!(Timestamp::from_clock_reading(Some(1_234)), Timestamp::at_micros(1_234));
    assert_eq!(Timestamp::from_clock_reading(None), Timestamp::at_micros(0));
}
