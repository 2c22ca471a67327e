use vstd::prelude::*;

verus! {

/// A point in time, as microseconds since the Unix epoch (UTC).
#[derive(Clone, Copy, Debug, PartialEq, Eq, Structural)]
pub struct Timestamp {
    pub unix_micros: i64,
}

impl Timestamp {
    pub open spec fn le(self, other: Timestamp) -> bool {
        self.unix_micros <= other.unix_micros
    }

    pub fn at_micros(unix_micros: i64) -> (r: Timestamp)
        ensures
            r.unix_micros == unix_micros,
    {
        Timestamp { unix_micros }
    }

    /// The later of two timestamps.
    pub open spec fn later(self, other: Timestamp) -> Timestamp {
        if self.unix_micros <= other.unix_micros {
            other
        } else {
            self
        }
    }

    pub fn later_of(self, other: Timestamp) -> (r: Timestamp)
        ensures
            r == self.later(other),
            self.le(r),
            other.le(r),
    {
        if self.unix_micros <= other.unix_micros {
            other
        } else {
            self
        }
    }
}

/// Mathematical view of one persisted user row.
pub struct UserRecord {
    pub id: i64,
    pub created_at: Timestamp,
    pub updated_at: Timestamp,
    pub username: Seq<char>,
    pub email: Seq<char>,
    pub password: Seq<char>,
    pub bio: Seq<char>,
    pub image: Seq<char>,
}

/// One persisted user. `password` always holds a hashed credential.
#[derive(Debug)]
pub struct UserEntity {
    pub id: i64,
    pub created_at: Timestamp,
    pub updated_at: Timestamp,
    pub username: String,
    pub email: String,
    pub password: String,
    pub bio: String,
    pub image: String,
}

impl View for UserEntity {
    type V = UserRecord;

    open spec fn view(&self) -> UserRecord {
        UserRecord {
            id: self.id,
            created_at: self.created_at,
            updated_at: self.updated_at,
            username: self.username@,
            email: self.email@,
            password: self.password@,
            bio: self.bio@,
            image: self.image@,
        }
    }
}

/// One directed follow relation: `follower_id` follows `followee_id`.
#[derive(Clone, Copy, Debug, PartialEq, Eq, Structural)]
pub struct UserFollowEntity {
    pub id: i64,
    pub created_at: Timestamp,
    pub follower_id: i64,
    pub followee_id: i64,
}

/// Transport projection of a user, carrying an authentication token.
#[derive(Debug)]
pub struct UserDto {
    pub email: String,
    pub username: String,
    pub bio: String,
    pub image: String,
    pub token: String,
}

/// Transport projection of a user as seen by a viewer.
#[derive(Debug)]
pub struct ProfileDto {
    pub username: String,
    pub bio: String,
    pub image: String,
    pub following: bool,
}

/// Relies on std::time::SystemTime::elapsed on the Unix epoch: the time now, in
/// microseconds since the epoch; `None` when the clock reads before the epoch
/// or past what an `i64` holds. Nothing is promised of the value.
#[verifier::external_body]
fn unix_micros_now() -> (r: Option<i64>) {
    std::time::UNIX_EPOCH.elapsed().ok().and_then(|d| i64::try_from(d.as_micros()).ok())
}

impl Timestamp {
    /// The timestamp of a clock reading in microseconds since the epoch; the
    /// epoch itself where the clock could not be read as such.
    pub fn from_clock_reading(reading: Option<i64>) -> (r: Timestamp)
        ensures
            r.unix_micros == match reading {
                Some(m) => m,
                None => 0,
            },
    {
        match reading {
            Some(micros) => Timestamp { unix_micros: micros },
            None => Timestamp { unix_micros: 0 },
        }
    }
}

impl UserEntity {
    /// Converts into the user's transport form with the caller's token; the
    /// identity, timestamps and password are dropped.
    pub fn into_dto(self, token: String) -> (r: UserDto)
        ensures
            r.email == self.email,
            r.username == self.username,
            r.bio == self.bio,
            r.image == self.image,
            r.token == token,
    {
        UserDto { email: self.email, username: self.username, bio: self.bio, image: self.image, token }
    }

    /// Converts into the user's profile with the caller's `following` flag.
    pub fn into_profile(self, following: bool) -> (r: ProfileDto)
        ensures
            r.username == self.username,
            r.bio == self.bio,
            r.image == self.image,
            r.following == following,
    {
        ProfileDto { username: self.username, bio: self.bio, image: self.image, following }
    }

    /// A copy with equal fields.
    pub fn duplicate(&self) -> (r: UserEntity)
        ensures
            r@ == self@,
    {
        UserEntity {
            id: self.id,
            created_at: self.created_at,
            updated_at: self.updated_at,
            username: self.username.clone(),
            email: self.email.clone(),
            password: self.password.clone(),
            bio: self.bio.clone(),
            image: self.image.clone(),
        }
    }
}

impl Default for UserEntity {
    /// A stub user stamped with the current time (the epoch where the clock
    /// cannot be read as such).
    fn default() -> (r: UserEntity)
        ensures
            r.id == 1,
            r.created_at == r.updated_at,
            r.username@ == "stub username"@,
            r.email@ == "stub email"@,
            r.password@ == "stub password"@,
            r.bio@ == "stub bio"@,
            r.image@ == "stub image"@,
    {
        let now = Timestamp::from_clock_reading(unix_micros_now());
        UserEntity {
            id: 1,
            created_at: now,
            updated_at: now,
            username: String::from_str("stub username"),
            email: String::from_str("stub email"),
            password: String::from_str("stub password"),
            bio: String::from_str("stub bio"),
            image: String::from_str("stub image"),
        }
    }
}

} // verus!
