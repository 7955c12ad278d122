//! The user registry: unique usernames, salted password hashes, roles, and
//! the rule that the last administrator cannot be removed.

use vstd::prelude::*;
use crate::config::same_text;
use crate::error::StoreError;

verus! {

/// bcrypt's error type, carried through without looking inside.
#[verifier::external_type_specification]
#[verifier::external_body]
pub struct ExBcryptError(bcrypt::BcryptError);

/// What `bcrypt::verify` answers for a password and a stored hash: `None`
/// when the hash cannot be parsed, else whether the password matches.
pub uninterp spec fn bcrypt_verdict(password: Seq<char>, hash: Seq<char>) -> Option<bool>;

/// Relies on `bcrypt::verify`: parses the cost and salt out of `hash`,
/// rehashes `password` with them and compares in constant time; fails on a
/// malformed hash. The answer depends on its two arguments alone.
#[verifier::external_body]
fn check_password(password: &str, hash: &str) -> (r: Result<bool, bcrypt::BcryptError>)
    ensures
        match r {
            Ok(b) => bcrypt_verdict(password@, hash@) == Some(b),
            Err(_) => bcrypt_verdict(password@, hash@) is None,
        },
{
    bcrypt::verify(password, hash)
}

/// Relies on `bcrypt::hash`: draws a random salt and hashes `password` at
/// `cost`. It refuses a cost outside 4..=31 (and fails when the OS gives no
/// randomness); a hash it returns carries its cost and salt, so
/// `bcrypt::verify` accepts the same password against it.
#[verifier::external_body]
fn hash_password(password: &str, cost: u32) -> (r: Result<String, bcrypt::BcryptError>)
    ensures
        cost < 4 || cost > 31 ==> r is Err,
        r is Ok ==> bcrypt_verdict(password@, r->Ok_0@) == Some(true),
{
    bcrypt::hash(password, cost)
}

/// bcrypt's default work factor.
pub const DEFAULT_HASH_COST: u32 = 12;

/// Name and password of the account created on first run; the operator is
/// told to change the password at once.
pub const DEFAULT_ADMIN: &'static str = "admin";

#[derive(Debug, Clone, Copy, PartialEq, Eq, Structural)]
pub enum Role {
    Admin,
    Observer,
}

#[derive(Debug, Clone)]
pub struct User {
    pub username: String,
    pub password_hash: String,
    pub role: Role,
    pub quota_gb: Option<u64>,
}

pub struct UserView {
    pub username: Seq<char>,
    pub password_hash: Seq<char>,
    pub role: Role,
    pub quota_gb: Option<u64>,
}

impl View for User {
    type V = UserView;

    open spec fn view(&self) -> UserView {
        UserView {
            username: self.username@,
            password_hash: self.password_hash@,
            role: self.role,
            quota_gb: self.quota_gb,
        }
    }
}

impl User {
    /// A field-by-field copy.
    pub fn duplicate(&self) -> (r: User)
        ensures
            r@ == self@,
    {
        User {
            username: self.username.clone(),
            password_hash: self.password_hash.clone(),
            role: self.role,
            quota_gb: self.quota_gb,
        }
    }
}

pub open spec fn unique_names(us: Seq<UserView>) -> bool {
    forall|i: int, j: int|
        0 <= i < us.len() && 0 <= j < us.len() && i != j ==> us[i].username != us[j].username
}

pub open spec fn has_user(us: Seq<UserView>, name: Seq<char>) -> bool {
    exists|i: int| 0 <= i < us.len() && #[trigger] us[i].username == name
}

/// Some administrator other than `name` exists.
pub open spec fn other_admin(us: Seq<UserView>, name: Seq<char>) -> bool {
    exists|i: int| 0 <= i < us.len() && us[i].username != name && #[trigger] us[i].role == Role::Admin
}

pub open spec fn has_admin(us: Seq<UserView>) -> bool {
    exists|i: int| 0 <= i < us.len() && #[trigger] us[i].role == Role::Admin
}

/// `name` is an administrator and no other administrator exists.
pub open spec fn sole_admin(us: Seq<UserView>, name: Seq<char>) -> bool {
    (exists|i: int| 0 <= i < us.len() && #[trigger] us[i].username == name && us[i].role == Role::Admin)
        && !other_admin(us, name)
}

pub open spec fn without_user(us: Seq<UserView>, name: Seq<char>) -> Seq<UserView> {
    us.filter(|u: UserView| u.username != name)
}

/// The registry after a password change: `name`'s hash replaced.
pub open spec fn with_hash(us: Seq<UserView>, name: Seq<char>, hash: Seq<char>) -> Seq<UserView> {
    us.map_values(
        |u: UserView|
            if u.username == name {
                UserView { password_hash: hash, ..u }
            } else {
                u
            },
    )
}

/// What deleting `name` does: refused when absent or when it is the only
/// administrator, else the record is removed.
pub open spec fn deletion(us: Seq<UserView>, name: Seq<char>) -> Result<Seq<UserView>, StoreError> {
    if !has_user(us, name) {
        Err(StoreError::NotFound)
    } else if sole_admin(us, name) {
        Err(StoreError::LastAdminProtected)
    } else {
        Ok(without_user(us, name))
    }
}

/// What adding a record does: refused when the name is taken, else appended.
pub open spec fn addition(us: Seq<UserView>, u: UserView) -> Result<Seq<UserView>, StoreError> {
    if has_user(us, u.username) {
        Err(StoreError::AlreadyExists)
    } else {
        Ok(us.push(u))
    }
}

pub struct UserManager {
    users: Vec<User>,
    hash_cost: u32,
}

impl View for UserManager {
    type V = Seq<UserView>;

    closed spec fn view(&self) -> Seq<UserView> {
        self.users@.map_values(|u: User| u@)
    }
}

impl Default for UserManager {
    fn default() -> (r: UserManager)
        ensures
            r@ == Seq::<UserView>::empty(),
            r.wf(),
            r.cost() == DEFAULT_HASH_COST,
    {
        UserManager::with_cost(DEFAULT_HASH_COST)
    }
}

impl UserManager {
    /// Usernames are unique.
    pub closed spec fn wf(self) -> bool {
        unique_names(self@)
    }

    /// The bcrypt work factor new hashes are made with.
    pub closed spec fn cost(self) -> u32 {
        self.hash_cost
    }

    /// An empty registry whose new hashes use `hash_cost`.
    pub fn with_cost(hash_cost: u32) -> (r: UserManager)
        ensures
            r@ == Seq::<UserView>::empty(),
            r.wf(),
            r.cost() == hash_cost,
    {
        let r = UserManager { users: Vec::new(), hash_cost };
        assert(r@ =~= Seq::<UserView>::empty());
        r
    }

    /// Builds a registry from persisted records; two records with one
    /// username make the state invalid.
    pub fn from_users(users: Vec<User>, hash_cost: u32) -> (r: Result<UserManager, StoreError>)
        ensures
            unique_names(users@.map_values(|u: User| u@)) ==> r is Ok && r->Ok_0@ == users@.map_values(
                |u: User| u@,
            ) && r->Ok_0.cost() == hash_cost && r->Ok_0.wf(),
            !unique_names(users@.map_values(|u: User| u@)) ==> r == Err::<UserManager, StoreError>(
                StoreError::PersistenceFailed,
            ),
    {
        let ghost vs = users@.map_values(|u: User| u@);
        let mut i: usize = 0;
        while i < users.len()
            invariant
                i <= users@.len(),
                vs == users@.map_values(|u: User| u@),
                forall|a: int, b: int|
                    0 <= a < i && 0 <= b < users@.len() && a != b ==> vs[a].username != vs[b].username,
            decreases users@.len() - i,
        {
            let mut j: usize = 0;
            while j < users.len()
                invariant
                    i < users@.len(),
                    j <= users@.len(),
                    vs == users@.map_values(|u: User| u@),
                    forall|a: int, b: int|
                        0 <= a < i && 0 <= b < users@.len() && a != b ==> vs[a].username
                            != vs[b].username,
                    forall|b: int| 0 <= b < j && b != i ==> vs[i as int].username != vs[b].username,
                decreases users@.len() - j,
            {
                if j != i && users[i].username == users[j].username {
                    assert(vs[i as int].username == vs[j as int].username);
                    return Err(StoreError::PersistenceFailed);
                }
                j = j + 1;
            }
            i = i + 1;
        }
        Ok(UserManager { users, hash_cost })
    }

    fn position(&self, username: &str) -> (r: Option<usize>)
        ensures
            r is None <==> !has_user(self@, username@),
            r is Some ==> r->Some_0 < self@.len() && self@[r->Some_0 as int].username == username@,
    {
        let target = String::from_str(username);
        let mut i: usize = 0;
        while i < self.users.len()
            invariant
                i <= self.users@.len(),
                target@ == username@,
                forall|j: int| 0 <= j < i ==> self@[j].username != username@,
            decreases self.users@.len() - i,
        {
            if self.users[i].username == target {
                assert(self@[i as int].username == username@);
                return Some(i);
            }
            i = i + 1;
        }
        None
    }

    /// Whether some administrator other than `username` exists.
    fn has_other_admin(&self, username: &str) -> (r: bool)
        ensures
            r == other_admin(self@, username@),
    {
        let target = String::from_str(username);
        let mut i: usize = 0;
        while i < self.users.len()
            invariant
                i <= self.users@.len(),
                target@ == username@,
                forall|j: int|
                    0 <= j < i ==> !(self@[j].username != username@ && #[trigger] self@[j].role
                        == Role::Admin),
            decreases self.users@.len() - i,
        {
            if self.users[i].role == Role::Admin && !(self.users[i].username == target) {
                assert(self@[i as int].role == Role::Admin);
                return true;
            }
            i = i + 1;
        }
        false
    }

    pub fn get_user(&self, username: &str) -> (r: Option<&User>)
        ensures
            r is None <==> !has_user(self@, username@),
            r is Some ==> exists|i: int|
                0 <= i < self@.len() && self@[i] == r->Some_0@ && r->Some_0@.username == username@,
    {
        match self.position(username) {
            Some(i) => Some(&self.users[i]),
            None => None,
        }
    }

    /// Every record, in insertion order.
    pub fn list_users(&self) -> (r: Vec<&User>)
        ensures
            r@.map_values(|u: &User| u@) == self@,
    {
        let mut r: Vec<&User> = Vec::new();
        let mut i: usize = 0;
        while i < self.users.len()
            invariant
                i <= self.users@.len(),
                r@.map_values(|u: &User| u@) == self@.take(i as int),
            decreases self.users@.len() - i,
        {
            let ghost before = r@.map_values(|u: &User| u@);
            r.push(&self.users[i]);
            assert(r@.map_values(|u: &User| u@) =~= before.push(self@[i as int]));
            assert(self@.take(i as int + 1) =~= self@.take(i as int).push(self@[i as int]));
            i = i + 1;
        }
        assert(self@.take(self@.len() as int) =~= self@);
        r
    }

    /// Adds a record whose password is already hashed; a taken username is
    /// refused with `AlreadyExists` and nothing changes.
    pub fn add_user_hashed(
        &mut self,
        username: &str,
        password_hash: String,
        role: Role,
        quota_gb: Option<u64>,
    ) -> (r: Result<(), StoreError>)
        requires
            old(self).wf(),
        ensures
            match addition(
                old(self)@,
                UserView { username: username@, password_hash: password_hash@, role, quota_gb },
            ) {
                Ok(us) => r is Ok && final(self)@ == us,
                Err(e) => r == Err::<(), StoreError>(e) && final(self)@ == old(self)@,
            },
            final(self).wf(),
            final(self).cost() == old(self).cost(),
    {
        if self.position(username).is_some() {
            return Err(StoreError::AlreadyExists);
        }
        let ghost before = self@;
        let user = User { username: String::from_str(username), password_hash, role, quota_gb };
        self.users.push(user);
        assert(self@ =~= before.push(user@));
        Ok(())
    }

    /// Adds a user: a taken username is refused with `AlreadyExists` before
    /// any hashing; otherwise the password is hashed (salted) and the record
    /// appended. The stored hash verifies against `password`.
    pub fn add_user(&mut self, username: &str, password: &str, role: Role, quota_gb: Option<u64>) -> (r:
        Result<(), StoreError>)
        requires
            old(self).wf(),
        ensures
            has_user(old(self)@, username@) ==> r == Err::<(), StoreError>(StoreError::AlreadyExists)
                && final(self)@ == old(self)@,
            r is Err ==> final(self)@ == old(self)@,
            !has_user(old(self)@, username@) ==> r is Ok || r == Err::<(), StoreError>(
                StoreError::HashingFailed,
            ),
            !has_user(old(self)@, username@) && (old(self).cost() < 4 || old(self).cost() > 31)
                ==> r == Err::<(), StoreError>(StoreError::HashingFailed),
            r is Ok ==> exists|h: Seq<char>|
                final(self)@ == old(self)@.push(
                    UserView { username: username@, password_hash: h, role, quota_gb },
                ) && bcrypt_verdict(password@, h) == Some(true),
            final(self).wf(),
            final(self).cost() == old(self).cost(),
    {
        if self.position(username).is_some() {
            return Err(StoreError::AlreadyExists);
        }
        match hash_password(password, self.hash_cost) {
            Err(_) => Err(StoreError::HashingFailed),
            Ok(hash) => {
                let ghost h = hash@;
                self.add_user_hashed(username, hash, role, quota_gb)
            },
        }
    }

    /// Deletes `username`: `NotFound` when absent, `LastAdminProtected` when it
    /// is the only administrator; otherwise the record is removed.
    pub fn delete_user(&mut self, username: &str) -> (r: Result<(), StoreError>)
        requires
            old(self).wf(),
        ensures
            match deletion(old(self)@, username@) {
                Ok(us) => r is Ok && final(self)@ == us,
                Err(e) => r == Err::<(), StoreError>(e) && final(self)@ == old(self)@,
            },
            final(self).wf(),
            final(self).cost() == old(self).cost(),
    {
        let pos = self.position(username);
        match pos {
            None => Err(StoreError::NotFound),
            Some(i) => {
                if self.users[i].role == Role::Admin && !self.has_other_admin(username) {
                    return Err(StoreError::LastAdminProtected);
                }
                proof {
                    if sole_admin(self@, username@) {
                        let k = choose|k: int|
                            0 <= k < self@.len() && #[trigger] self@[k].username == username@
                                && self@[k].role == Role::Admin;
                        assert(k == i);
                    }
                }
                let ghost before = self@;
                self.users.remove(i);
                proof {
                    lemma_remove_unique(before, i as int, username@);
                    assert(self@ =~= before.remove(i as int));
                }
                Ok(())
            },
        }
    }

    /// Replaces the stored hash of `username`; `NotFound` when absent.
    pub fn update_password_hashed(&mut self, username: &str, password_hash: String) -> (r: Result<
        (),
        StoreError,
    >)
        requires
            old(self).wf(),
        ensures
            has_user(old(self)@, username@) ==> r is Ok && final(self)@ == with_hash(
                old(self)@,
                username@,
                password_hash@,
            ),
            !has_user(old(self)@, username@) ==> r == Err::<(), StoreError>(StoreError::NotFound)
                && final(self)@ == old(self)@,
            final(self).wf(),
            final(self).cost() == old(self).cost(),
    {
        match self.position(username) {
            None => Err(StoreError::NotFound),
            Some(i) => {
                let ghost before = self@;
                let old_user = self.users.remove(i);
                let user = User { password_hash, ..old_user };
                self.users.insert(i, user);
                proof {
                    assert(self@ =~= with_hash(before, username@, user@.password_hash)) by {
                        assert forall|j: int| 0 <= j < before.len() implies #[trigger] self@[j]
                            == with_hash(before, username@, user@.password_hash)[j] by {
                            if j != i {
                                assert(before[j].username != before[i as int].username);
                            }
                        }
                    }
                }
                Ok(())
            },
        }
    }

    /// Re-hashes the password of `username`; `NotFound` when absent (before
    /// any hashing). The new stored hash verifies against `new_password`.
    pub fn update_password(&mut self, username: &str, new_password: &str) -> (r: Result<
        (),
        StoreError,
    >)
        requires
            old(self).wf(),
        ensures
            !has_user(old(self)@, username@) ==> r == Err::<(), StoreError>(StoreError::NotFound),
            r is Err ==> final(self)@ == old(self)@,
            has_user(old(self)@, username@) ==> r is Ok || r == Err::<(), StoreError>(
                StoreError::HashingFailed,
            ),
            has_user(old(self)@, username@) && (old(self).cost() < 4 || old(self).cost() > 31)
                ==> r == Err::<(), StoreError>(StoreError::HashingFailed),
            r is Ok ==> exists|h: Seq<char>|
                final(self)@ == with_hash(old(self)@, username@, h) && bcrypt_verdict(
                    new_password@,
                    h,
                ) == Some(true),
            final(self).wf(),
            final(self).cost() == old(self).cost(),
    {
        if self.position(username).is_none() {
            return Err(StoreError::NotFound);
        }
        match hash_password(new_password, self.hash_cost) {
            Err(_) => Err(StoreError::HashingFailed),
            Ok(hash) => {
                let ghost h = hash@;
                self.update_password_hashed(username, hash)
            },
        }
    }

    /// The record of `username` when `password` matches its stored hash;
    /// `None` otherwise, without telling an unknown user from a wrong password.
    pub fn verify(&self, username: &str, password: &str) -> (r: Option<User>)
        requires
            self.wf(),
        ensures
            r is Some <==> exists|i: int|
                0 <= i < self@.len() && #[trigger] self@[i].username == username@ && bcrypt_verdict(
                    password@,
                    self@[i].password_hash,
                ) == Some(true),
            r is Some ==> r->Some_0@.username == username@ && has_user(self@, username@)
                && exists|i: int| 0 <= i < self@.len() && self@[i] == r->Some_0@,
    {
        match self.position(username) {
            None => {
                // spend the same effort as for a known user, so timing does
                // not tell an unknown name from a wrong password
                if self.users.len() > 0 {
                    let _ = check_password(password, self.users[0].password_hash.as_str());
                }
                None
            },
            Some(i) => {
                let verdict = check_password(password, self.users[i].password_hash.as_str());
                let r = Self::accept(&self.users[i], verdict);
                proof {
                    assert(self@[i as int] == self.users@[i as int]@);
                    assert forall|j: int|
                        0 <= j < self@.len() && #[trigger] self@[j].username == username@ implies j
                        == i by {
                        if j != i {
                            assert(self@[j].username != self@[i as int].username);
                        }
                    }
                }
                r
            },
        }
    }

    /// The decision after the hash check: the record when the verdict is a
    /// match, `None` on a mismatch or an unreadable hash.
    pub fn accept<E>(user: &User, verdict: Result<bool, E>) -> (r: Option<User>)
        ensures
            r is Some <==> verdict == Ok::<bool, E>(true),
            r is Some ==> r->Some_0@ == user@,
    {
        match verdict {
            Ok(true) => Some(user.duplicate()),
            _ => None,
        }
    }

    /// First-run bootstrap: when the registry is empty, adds the default
    /// administrator with the given hash and reports `true`; otherwise nothing.
    pub fn ensure_default_admin_hashed(&mut self, password_hash: String) -> (r: bool)
        requires
            old(self).wf(),
        ensures
            r == (old(self)@.len() == 0),
            r ==> final(self)@ == seq![
                UserView {
                    username: DEFAULT_ADMIN@,
                    password_hash: password_hash@,
                    role: Role::Admin,
                    quota_gb: None,
                },
            ],
            !r ==> final(self)@ == old(self)@,
            final(self).wf(),
            final(self).cost() == old(self).cost(),
    {
        if self.users.len() == 0 {
            let ghost before = self@;
            let user = User {
                username: String::from_str(DEFAULT_ADMIN),
                password_hash,
                role: Role::Admin,
                quota_gb: None,
            };
            self.users.push(user);
            assert(self@ =~= seq![user@]);
            true
        } else {
            false
        }
    }

    /// First-run bootstrap with the documented default password (the
    /// username), hashed like any other. `Ok(true)` when the account was
    /// created, `Ok(false)` when the registry already had users.
    pub fn ensure_default_admin(&mut self) -> (r: Result<bool, StoreError>)
        requires
            old(self).wf(),
        ensures
            old(self)@.len() != 0 ==> r == Ok::<bool, StoreError>(false) && final(self)@ == old(self)@,
            r is Err ==> r == Err::<bool, StoreError>(StoreError::HashingFailed) && final(self)@
                == old(self)@,
            r == Ok::<bool, StoreError>(true) ==> exists|h: Seq<char>|
                final(self)@ == seq![
                    UserView {
                        username: DEFAULT_ADMIN@,
                        password_hash: h,
                        role: Role::Admin,
                        quota_gb: None,
                    },
                ] && bcrypt_verdict(DEFAULT_ADMIN@, h) == Some(true),
            old(self)@.len() == 0 ==> r is Ok ==> r == Ok::<bool, StoreError>(true),
            final(self).wf(),
            final(self).cost() == old(self).cost(),
    {
        if self.users.len() != 0 {
            return Ok(false);
        }
        match hash_password(DEFAULT_ADMIN, self.hash_cost) {
            Err(_) => Err(StoreError::HashingFailed),
            Ok(hash) => {
                let ghost h = hash@;
                let created = self.ensure_default_admin_hashed(hash);
                Ok(created)
            },
        }
    }
}

proof fn lemma_remove_unique(us: Seq<UserView>, i: int, name: Seq<char>)
    requires
        unique_names(us),
        0 <= i < us.len(),
        us[i].username == name,
    ensures
        us.remove(i) == without_user(us, name),
    decreases us.len(),
{
    let f = |u: UserView| u.username != name;
    if i == us.len() - 1 {
        let p = us.drop_last();
        let x = us[i];
        assert(p.push(x) =~= us);
        assert(us.remove(i) =~= p);
        assert forall|j: int| 0 <= j < p.len() implies f(#[trigger] p[j]) by {
            assert(us[j].username != us[i].username);
        }
        lemma_filter_all(p, f);
        p.lemma_filter_push(x, f);
        assert(!f(x));
    } else {
        let p = us.drop_last();
        assert(unique_names(p));
        lemma_remove_unique(p, i, name);
        assert(us.last().username != name) by {
            assert(us[us.len() - 1].username != us[i].username);
        }
        assert(p.push(us.last()) =~= us);
        p.lemma_filter_push(us.last(), f);
        assert(us.remove(i) =~= p.remove(i).push(us.last()));
    }
}

proof fn lemma_filter_all(s: Seq<UserView>, f: spec_fn(UserView) -> bool)
    requires
        forall|j: int| 0 <= j < s.len() ==> f(#[trigger] s[j]),
    ensures
        s.filter(f) == s,
    decreases s.len(),
{
    reveal(Seq::filter);
    if s.len() > 0 {
        lemma_filter_all(s.drop_last(), f);
        assert(s.drop_last().push(s.last()) =~= s);
    } else {
        assert(s.filter(f) =~= s);
    }
}

/// With a single administrator, deleting that administrator is refused with
/// `LastAdminProtected`; once a second administrator has been added, deleting
/// the first succeeds.
pub proof fn lemma_last_admin_protected(us: Seq<UserView>, admin: Seq<char>, second: UserView)
    requires
        unique_names(us),
        exists|i: int| 0 <= i < us.len() && #[trigger] us[i].username == admin && us[i].role == Role::Admin,
        forall|i: int| 0 <= i < us.len() && #[trigger] us[i].role == Role::Admin ==> us[i].username == admin,
        second.role == Role::Admin,
        !has_user(us, second.username),
    ensures
        deletion(us, admin) == Err::<Seq<UserView>, StoreError>(StoreError::LastAdminProtected),
        addition(us, second) == Ok::<Seq<UserView>, StoreError>(us.push(second)),
        deletion(us.push(second), admin) is Ok,
{
    let vs = us.push(second);
    let i = choose|i: int| 0 <= i < us.len() && #[trigger] us[i].username == admin && us[i].role == Role::Admin;
    assert(has_user(us, admin));
    assert(vs[i].username == admin);
    assert(has_user(vs, admin));
    assert(second.username != admin);
    assert(vs[us.len() as int] == second);
    assert(other_admin(vs, admin));
}

} // verus!
