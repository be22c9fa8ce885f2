//! Users of the panel.

use vstd::prelude::*;
use crate::clock::UtcTime;
use crate::panel::db::times;
use crate::text;

verus! {

#[derive(Debug, Clone)]
pub struct User {
    pub id: i64,
    pub email: String,
    pub name: String,
    pub password_hash: String,
    pub role: String,
    pub totp_secret: Option<String>,
    pub totp_confirmed_at: Option<UtcTime>,
    pub created_at: UtcTime,
    pub last_login_at: Option<UtcTime>,
}

/// The columns of a user as they are stored.
#[derive(Debug)]
pub struct UserColumns {
    pub id: i64,
    pub email: String,
    pub name: String,
    pub password_hash: String,
    pub role: String,
    pub totp_secret: Option<String>,
    pub totp_confirmed_at: Option<String>,
    pub created_at: String,
    pub last_login_at: Option<String>,
}

/// The first letters of the parts of a name, as capitals. Parts are separated by
/// white space, full stops and at signs.
pub open spec fn part_letters(s: Seq<char>) -> Seq<char>
    decreases s.len(),
{
    if s.len() == 0 {
        Seq::empty()
    } else {
        let before = part_letters(s.drop_last());
        if text::Class::NamePart.spec_has(s.last()) && (s.len() == 1
            || !text::Class::NamePart.spec_has(s[s.len() - 2])) {
            before.push(text::upper(s.last()))
        } else {
            before
        }
    }
}

/// The name of a user, or the email address where there is none.
pub open spec fn shown_name(name: Seq<char>, email: Seq<char>) -> Seq<char> {
    if text::trim(name, text::Class::White).len() == 0 {
        email
    } else {
        name
    }
}

/// Executable form of [`part_letters`].
fn letters_of(s: &[char]) -> (v: Vec<char>)
    ensures
        v@ == part_letters(s@),
{
    let class = text::Class::NamePart;
    let mut v: Vec<char> = Vec::new();
    let mut i: usize = 0;
    assert(s@.take(0) =~= Seq::empty());
    assert(v@ =~= part_letters(s@.take(0)));
    while i < s.len()
        invariant
            i <= s@.len(),
            class == text::Class::NamePart,
            v@ == part_letters(s@.take(i as int)),
        decreases s@.len() - i,
    {
        let ghost next = s@.take(i + 1);
        assert(next.drop_last() =~= s@.take(i as int));
        if i > 0 {
            assert(next[next.len() - 2] == s@[i - 1]);
        }
        let begins = i == 0 || !class.holds(s[i - 1]);
        if class.holds(s[i]) && begins {
            v.push(text::to_upper(s[i]));
        }
        i += 1;
    }
    assert(s@.take(i as int) =~= s@);
    v
}

impl User {
    /// Initials shown in the top-right avatar.
    pub fn initials(&self) -> (s: String)
        ensures
            s@ == text::first(part_letters(shown_name(self.name@, self.email@)), 2),
    {
        let name = self.display_name();
        let cs = text::chars_of(name.as_str());
        let letters = letters_of(cs.as_slice());
        let all = text::string_of(letters.as_slice());
        text::front(all.as_str(), 2)
    }

    pub fn display_name(&self) -> (s: String)
        ensures
            s@ == shown_name(self.name@, self.email@),
    {
        let trimmed = text::trimmed_text(self.name.as_str());
        if trimmed.as_str().is_empty() {
            self.email.clone()
        } else {
            self.name.clone()
        }
    }
}

/// The user that columns stand for; `now` stands for a time that cannot be read.
pub open spec fn user_of(c: UserColumns, now: UtcTime) -> User {
    User {
        id: c.id,
        email: c.email,
        name: c.name,
        password_hash: c.password_hash,
        role: c.role,
        totp_secret: c.totp_secret,
        totp_confirmed_at: times::stored_opt(c.totp_confirmed_at, now),
        created_at: times::stored_or(c.created_at@, now),
        last_login_at: times::stored_opt(c.last_login_at, now),
    }
}

/// Executable form of [`user_of`].
pub fn map(c: UserColumns, now: &UtcTime) -> (u: User)
    ensures
        u == user_of(c, *now),
{
    let totp_confirmed_at = times::parse_ts_opt_or(&c.totp_confirmed_at, now);
    let created_at = times::parse_ts_or(c.created_at.as_str(), now);
    let last_login_at = times::parse_ts_opt_or(&c.last_login_at, now);
    User {
        id: c.id,
        email: c.email,
        name: c.name,
        password_hash: c.password_hash,
        role: c.role,
        totp_secret: c.totp_secret,
        totp_confirmed_at,
        created_at,
        last_login_at,
    }
}

} // verus!
