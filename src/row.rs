use vstd::prelude::*;
use crate::entity::{Timestamp, UserEntity, UserFollowEntity, UserRecord};

verus! {

/// One decoded column of a store row, addressed by its ordinal position.
#[derive(Debug)]
pub enum ColumnValue {
    Int(i64),
    Time(Timestamp),
    Text(String),
}

/// The type that a position of a row layout expects.
#[derive(Clone, Copy, Debug, PartialEq, Eq, Structural)]
pub enum ColumnKind {
    Int,
    Time,
    Text,
}

/// Why a row could not be decoded.
#[derive(Clone, Copy, Debug, PartialEq, Eq, Structural)]
pub enum RowError {
    /// The layout asks for position `index`, but the row has `len` columns.
    ColumnIndexOutOfBounds { index: usize, len: usize },
    /// The column at `index` holds another type than the layout asks for.
    ColumnDecode { index: usize },
}

/// The type held by a column.
pub open spec fn kind_of(c: ColumnValue) -> ColumnKind {
    match c {
        ColumnValue::Int(_) => ColumnKind::Int,
        ColumnValue::Time(_) => ColumnKind::Time,
        ColumnValue::Text(_) => ColumnKind::Text,
    }
}

/// The first failure met when the columns of `row` are read in layout order,
/// starting at position `i`.
pub open spec fn row_error_from(row: Seq<ColumnValue>, layout: Seq<ColumnKind>, i: nat) -> Option<RowError>
    decreases layout.len() - i,
{
    if i >= layout.len() {
        None
    } else if i >= row.len() {
        Some(RowError::ColumnIndexOutOfBounds { index: i as usize, len: row.len() as usize })
    } else if kind_of(row[i as int]) != layout[i as int] {
        Some(RowError::ColumnDecode { index: i as usize })
    } else {
        row_error_from(row, layout, i + 1)
    }
}

/// The first failure met when `row` is read against `layout`, if any.
pub open spec fn row_error(row: Seq<ColumnValue>, layout: Seq<ColumnKind>) -> Option<RowError> {
    row_error_from(row, layout, 0)
}

pub open spec fn int_at(row: Seq<ColumnValue>, i: int) -> i64 {
    match row[i] {
        ColumnValue::Int(v) => v,
        _ => 0,
    }
}

pub open spec fn time_at(row: Seq<ColumnValue>, i: int) -> Timestamp {
    match row[i] {
        ColumnValue::Time(t) => t,
        _ => Timestamp { unix_micros: 0 },
    }
}

pub open spec fn text_at(row: Seq<ColumnValue>, i: int) -> Seq<char> {
    match row[i] {
        ColumnValue::Text(s) => s@,
        _ => Seq::empty(),
    }
}

/// Column layout of the users table: id, created_at, updated_at, username,
/// email, password, bio, image.
pub open spec fn user_layout() -> Seq<ColumnKind> {
    seq![
        ColumnKind::Int, ColumnKind::Time, ColumnKind::Time, ColumnKind::Text,
        ColumnKind::Text, ColumnKind::Text, ColumnKind::Text, ColumnKind::Text,
    ]
}

/// Column layout of the user_follows table: id, created_at, follower_id, followee_id.
pub open spec fn follow_layout() -> Seq<ColumnKind> {
    seq![ColumnKind::Int, ColumnKind::Time, ColumnKind::Int, ColumnKind::Int]
}

pub fn user_columns() -> (r: Vec<ColumnKind>)
    ensures
        r@ == user_layout(),
{
    let r = vec![
        ColumnKind::Int, ColumnKind::Time, ColumnKind::Time, ColumnKind::Text,
        ColumnKind::Text, ColumnKind::Text, ColumnKind::Text, ColumnKind::Text,
    ];
    assert(r@ =~= user_layout());
    r
}

pub fn follow_columns() -> (r: Vec<ColumnKind>)
    ensures
        r@ == follow_layout(),
{
    let r = vec![ColumnKind::Int, ColumnKind::Time, ColumnKind::Int, ColumnKind::Int];
    assert(r@ =~= follow_layout());
    r
}

fn kind_of_column(c: &ColumnValue) -> (r: ColumnKind)
    ensures
        r == kind_of(*c),
{
    match c {
        ColumnValue::Int(_) => ColumnKind::Int,
        ColumnValue::Time(_) => ColumnKind::Time,
        ColumnValue::Text(_) => ColumnKind::Text,
    }
}

/// Checks `row` against `layout`, reading positions in order and stopping at the
/// first one that is missing or of another type.
pub fn check_row(row: &Vec<ColumnValue>, layout: &Vec<ColumnKind>) -> (r: Result<(), RowError>)
    ensures
        r is Ok <==> row_error(row@, layout@) is None,
        r is Err ==> row_error(row@, layout@) == Some(r->Err_0),
        r is Ok ==> forall|j: int| 0 <= j < layout@.len() ==> j < row@.len() && kind_of(#[trigger] row@[j]) == layout@[j],
{
    let mut i: usize = 0;
    while i < layout.len()
        invariant
            i <= layout@.len(),
            row_error_from(row@, layout@, i as nat) == row_error(row@, layout@),
            forall|j: int| 0 <= j < i ==> j < row@.len() && kind_of(#[trigger] row@[j]) == layout@[j],
        decreases layout@.len() - i,
    {
        if i >= row.len() {
            return Err(RowError::ColumnIndexOutOfBounds { index: i, len: row.len() });
        }
        if kind_of_column(&row[i]) != layout[i] {
            return Err(RowError::ColumnDecode { index: i });
        }
        i = i + 1;
    }
    Ok(())
}

fn int_column(row: &Vec<ColumnValue>, i: usize) -> (r: i64)
    requires
        i < row@.len(),
        kind_of(row@[i as int]) == ColumnKind::Int,
    ensures
        r == int_at(row@, i as int),
{
    match &row[i] {
        ColumnValue::Int(v) => *v,
        _ => 0,
    }
}

fn time_column(row: &Vec<ColumnValue>, i: usize) -> (r: Timestamp)
    requires
        i < row@.len(),
        kind_of(row@[i as int]) == ColumnKind::Time,
    ensures
        r == time_at(row@, i as int),
{
    match &row[i] {
        ColumnValue::Time(t) => *t,
        _ => Timestamp { unix_micros: 0 },
    }
}

fn text_column(row: &Vec<ColumnValue>, i: usize) -> (r: String)
    requires
        i < row@.len(),
        kind_of(row@[i as int]) == ColumnKind::Text,
    ensures
        r@ == text_at(row@, i as int),
{
    match &row[i] {
        ColumnValue::Text(s) => s.clone(),
        _ => String::new(),
    }
}

impl UserEntity {
    /// Decodes a users row by ordinal position (see `user_layout`).
    pub fn from_row(row: &Vec<ColumnValue>) -> (r: Result<UserEntity, RowError>)
        ensures
            r is Ok <==> row_error(row@, user_layout()) is None,
            r is Err ==> row_error(row@, user_layout()) == Some(r->Err_0),
            r is Ok ==> r->Ok_0@ == (UserRecord {
                id: int_at(row@, 0),
                created_at: time_at(row@, 1),
                updated_at: time_at(row@, 2),
                username: text_at(row@, 3),
                email: text_at(row@, 4),
                password: text_at(row@, 5),
                bio: text_at(row@, 6),
                image: text_at(row@, 7),
            }),
    {
        let layout = user_columns();
        match check_row(row, &layout) {
            Err(e) => Err(e),
            Ok(()) => {
                assert(kind_of(row@[0]) == layout@[0] && kind_of(row@[1]) == layout@[1]
                    && kind_of(row@[2]) == layout@[2] && kind_of(row@[3]) == layout@[3]
                    && kind_of(row@[4]) == layout@[4] && kind_of(row@[5]) == layout@[5]
                    && kind_of(row@[6]) == layout@[6] && kind_of(row@[7]) == layout@[7]);
                Ok(UserEntity {
                    id: int_column(row, 0),
                    created_at: time_column(row, 1),
                    updated_at: time_column(row, 2),
                    username: text_column(row, 3),
                    email: text_column(row, 4),
                    password: text_column(row, 5),
                    bio: text_column(row, 6),
                    image: text_column(row, 7),
                })
            },
        }
    }
}

impl UserFollowEntity {
    /// Decodes a user_follows row by ordinal position (see `follow_layout`).
    pub fn from_row(row: &Vec<ColumnValue>) -> (r: Result<UserFollowEntity, RowError>)
        ensures
            r is Ok <==> row_error(row@, follow_layout()) is None,
            r is Err ==> row_error(row@, follow_layout()) == Some(r->Err_0),
            r is Ok ==> r->Ok_0 == (UserFollowEntity {
                id: int_at(row@, 0),
                created_at: time_at(row@, 1),
                follower_id: int_at(row@, 2),
                followee_id: int_at(row@, 3),
            }),
    {
        let layout = follow_columns();
        match check_row(row, &layout) {
            Err(e) => Err(e),
            Ok(()) => {
                assert(kind_of(row@[0]) == layout@[0] && kind_of(row@[1]) == layout@[1]
                    && kind_of(row@[2]) == layout@[2] && kind_of(row@[3]) == layout@[3]);
                Ok(UserFollowEntity {
                    id: int_column(row, 0),
                    created_at: time_column(row, 1),
                    follower_id: int_column(row, 2),
                    followee_id: int_column(row, 3),
                })
            },
        }
    }
}

} // verus!
