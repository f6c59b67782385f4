//! The progression record and the views of it handed to callers.
use vstd::prelude::*;

use crate::calendar::Instant;
use crate::leveling::required;

verus! {

/// A user's progression record, one per user identifier.
#[derive(Clone, Debug)]
pub struct Model {
    pub id: String,
    pub name: String,
    pub email: String,
    pub streak: i32,
    pub level: i32,
    pub experience: i32,
    pub last_experience_at: Option<Instant>,
    pub timezone: String,
}

impl Model {
    /// The record's invariant: a level of at least one, experience below that
    /// level's requirement, a streak that is not negative, and a last activity
    /// instant in range where there is one.
    pub open spec fn wf(&self) -> bool {
        &&& self.level >= 1
        &&& 0 <= self.experience < required(self.level as int)
        &&& self.streak >= 0
        &&& self.last_experience_at matches Some(t) ==> t.in_range()
    }
}

/// Identity claims of a verified token: user identifier, email and name.
#[derive(Clone, Debug)]
pub struct FirebaseClaims {
    pub uid: String,
    pub email: String,
    pub name: String,
}

/// The public view of a user's record.
#[derive(Clone, Debug)]
pub struct UserResponse {
    pub id: String,
    pub name: String,
    pub email: String,
    pub streak: i32,
    pub level: i32,
    pub experience: i32,
    pub last_experience_at: Option<Instant>,
    pub timezone: String,
}

impl UserResponse {
    /// The public view of `user`: every field, unchanged.
    pub fn from_model(user: &Model) -> (r: UserResponse)
        ensures
            r.id@ == user.id@,
            r.name@ == user.name@,
            r.email@ == user.email@,
            r.streak == user.streak,
            r.level == user.level,
            r.experience == user.experience,
            r.last_experience_at == user.last_experience_at,
            r.timezone@ == user.timezone@,
    {
        UserResponse {
            id: user.id.clone(),
            name: user.name.clone(),
            email: user.email.clone(),
            streak: user.streak,
            level: user.level,
            experience: user.experience,
            last_experience_at: user.last_experience_at,
            timezone: user.timezone.clone(),
        }
    }
}

} // verus!
