//! The operations of the progression engine.
use vstd::prelude::*;

use crate::calendar::{is_later_local_day, new_local_day, offset_for_zone, Instant};
use crate::leveling::{lemma_settle_level_grows, required, settle, settle_fits, MAX_LEVEL};
use crate::model::Model;

verus! {

/// Entry point of the progression engine. It holds no state: every operation
/// takes the values it works on and returns new ones.
pub struct UserService;

impl UserService {
    /// Experience needed to advance out of `level`: `100 + (level - 1) * 10`.
    pub fn experience_required_for_level(level: i32) -> (r: i32)
        requires
            1 <= level <= MAX_LEVEL,
        ensures
            r == required(level as int),
    {
        100 + (level - 1) * 10
    }

    /// Adds `gained_exp` to `current_exp` and spends whole requirements on
    /// levels, as many as the total pays for. A negative gain is taken as it
    /// comes: it lowers the experience and never a level.
    pub fn apply_experience(current_level: i32, current_exp: i32, gained_exp: i32) -> (r: (i32, i32))
        requires
            current_level >= 1,
            current_exp >= 0,
            settle_fits(current_level as int, current_exp + gained_exp),
        ensures
            (r.0 as int, r.1 as int) == settle(current_level as int, current_exp + gained_exp),
    {
        let ghost total: int = current_exp + gained_exp;
        let mut level: i32 = current_level;
        let mut exp: i64 = current_exp as i64 + gained_exp as i64;
        proof {
            lemma_settle_level_grows(level as int, exp as int);
        }
        while exp >= Self::experience_required_for_level(level) as i64
            invariant
                1 <= level <= settle(current_level as int, total).0,
                settle(current_level as int, total).0 <= MAX_LEVEL,
                settle(level as int, exp as int) == settle(current_level as int, total),
                i32::MIN <= exp <= total,
            decreases exp,
        {
            exp = exp - Self::experience_required_for_level(level) as i64;
            level = level + 1;
            proof {
                lemma_settle_level_grows(level as int, exp as int);
            }
        }
        proof {
            assert(exp < required(level as int));
            assert(exp <= i32::MAX);
        }
        (level, exp as i32)
    }

    /// Whether `now` falls on a later local calendar day than `last_time` in
    /// zone `tz`. With no earlier activity it is always a new day. A zone name
    /// that the zone database does not know is read as America/Lima.
    pub fn is_new_day(last_time: Option<Instant>, now: Instant, tz: &str) -> (r: bool)
        requires
            now.in_range(),
            last_time matches Some(t) ==> t.in_range(),
        ensures
            r == new_local_day(last_time, now, tz@),
    {
        match last_time {
            None => true,
            Some(last) => {
                let last_offset = offset_for_zone(tz, last);
                let now_offset = offset_for_zone(tz, now);
                is_later_local_day(Some((last.unix_seconds, last_offset)), now.unix_seconds, now_offset)
            },
        }
    }

    /// A new user's record: level one, no experience, no streak, no activity
    /// yet, kept in UTC. A missing name or email becomes an empty string.
    pub fn new_user_record(user_id: String, name: Option<String>, email: Option<String>) -> (r: Model)
        ensures
            r.id@ == user_id@,
            r.name@ == (match name {
                Some(n) => n@,
                None => Seq::<char>::empty(),
            }),
            r.email@ == (match email {
                Some(e) => e@,
                None => Seq::<char>::empty(),
            }),
            r.level == 1,
            r.experience == 0,
            r.streak == 0,
            r.last_experience_at is None,
            r.timezone@ == "UTC"@,
            r.wf(),
    {
        let name = match name {
            Some(n) => n,
            None => String::new(),
        };
        let email = match email {
            Some(e) => e,
            None => String::new(),
        };
        Model {
            id: user_id,
            name,
            email,
            streak: 0,
            level: 1,
            experience: 0,
            last_experience_at: None,
            timezone: String::from_str("UTC"),
        }
    }

    /// The record after gaining `gained_exp` at `now`: experience rolled over
    /// into levels, the streak one higher where `now` starts a new local day
    /// in the record's zone, and `now` as the last activity. The new-day test
    /// reads the record's last activity from before this gain.
    pub fn advance(user: &Model, gained_exp: i32, now: Instant) -> (r: Model)
        requires
            user.level >= 1,
            user.experience >= 0,
            user.streak < i32::MAX,
            settle_fits(user.level as int, user.experience + gained_exp),
            now.in_range(),
            user.last_experience_at matches Some(t) ==> t.in_range(),
        ensures
            (r.level as int, r.experience as int) == settle(user.level as int, user.experience + gained_exp),
            r.streak == user.streak + (if new_local_day(user.last_experience_at, now, user.timezone@) {
                1int
            } else {
                0int
            }),
            r.last_experience_at == Some(now),
            r.id@ == user.id@,
            r.name@ == user.name@,
            r.email@ == user.email@,
            r.timezone@ == user.timezone@,
    {
        let (level, experience) = Self::apply_experience(user.level, user.experience, gained_exp);
        let tz: &str = user.timezone.as_str();
        let streak = if Self::is_new_day(user.last_experience_at, now, tz) {
            user.streak + 1
        } else {
            user.streak
        };
        Model {
            id: user.id.clone(),
            name: user.name.clone(),
            email: user.email.clone(),
            streak,
            level,
            experience,
            last_experience_at: Some(now),
            timezone: user.timezone.clone(),
        }
    }
}

} // verus!

verus! {

/// With no earlier activity, any instant starts a new local day, whatever the
/// zone.
pub proof fn lemma_first_activity_is_new_day(now: Instant, zone: Seq<char>)
    ensures
        new_local_day(None, now, zone),
{
}

/// A fresh record that gains exactly the first level's requirement at any
/// instant moves to level two with no experience left, and its streak starts
/// at one.
pub proof fn lemma_first_gain_of_fresh_record(now: Instant, zone: Seq<char>)
    ensures
        settle(1, 0int + 100int) == (2int, 0int),
        0 + (if new_local_day(None, now, zone) { 1int } else { 0int }) == 1,
{
    assert(settle(2, 0) == (2int, 0int));
}

} // verus!
