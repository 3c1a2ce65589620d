//! The credential store: one record per username, with the subject id, the
//! encoded password hash and the role. The session core only reads it;
//! account creation writes it.
use vstd::prelude::*;

use crate::config::Config;
use crate::error::AppError;
use crate::password::{argon2_hashed, hash_password};

verus! {

/// A credential record as the store keeps it. Times are unix seconds.
#[derive(Debug)]
pub struct User {
    pub id: u128,
    pub name: String,
    pub password: String,
    pub role: i16,
    pub created_at: Option<i64>,
    pub updated_at: Option<i64>,
}

/// A credential record without its password hash, as account creation
/// reports it.
#[derive(Debug)]
pub struct SimpleUser {
    pub id: u128,
    pub name: String,
    pub role: i16,
    pub created_at: Option<i64>,
    pub updated_at: Option<i64>,
}

/// A request to create an account.
#[derive(Debug)]
pub struct CreateUserRequest {
    pub name: String,
    pub password: String,
    pub role: i16,
}

/// What the store holds for a username: subject id, password hash, role.
pub struct Credential {
    pub id: u128,
    pub password: Seq<char>,
    pub role: i16,
}

pub open spec fn credential_of(u: User) -> Credential {
    Credential { id: u.id, password: u.password@, role: u.role }
}

/// The capability that the session core needs of a credential store. Every
/// call either answers, exactly when the store is reachable (and, for
/// `create`, the username is free), or fails with `DatabaseError` and changes
/// nothing.
pub trait UserRepository {
    /// The stored credentials, by username. Each store verified here gives
    /// its own definition; for any other it is left unspecified.
    open spec fn credentials(&self) -> Map<Seq<char>, Credential> {
        arbitrary()
    }

    /// Whether the store answers (left unspecified as above).
    open spec fn online(&self) -> bool {
        arbitrary()
    }

    /// Stores a new credential under a username that is not taken yet.
    fn create(&mut self, username: &str, password: &str, role: i16) -> (r: Result<
        SimpleUser,
        AppError,
    >)
        ensures
            final(self).online() == old(self).online(),
            r is Ok <==> old(self).online() && !old(self).credentials().contains_key(username@),
            r is Ok ==> r->Ok_0.name@ == username@ && r->Ok_0.role == role
                && final(self).credentials() == old(self).credentials().insert(
                username@,
                Credential { id: r->Ok_0.id, password: password@, role },
            ),
            r is Err ==> r->Err_0 == AppError::DatabaseError && final(self).credentials() == old(
                self,
            ).credentials(),
    ;

    /// The credential stored under a username, if any.
    fn get_by_name(&self, username: &str) -> (r: Result<Option<User>, AppError>)
        ensures
            r is Ok <==> self.online(),
            r is Ok ==> (r->Ok_0 is Some <==> self.credentials().contains_key(username@)),
            r is Ok && r->Ok_0 is Some ==> r->Ok_0->0.name@ == username@ && credential_of(
                r->Ok_0->0,
            ) == self.credentials()[username@],
            r is Err ==> r->Err_0 == AppError::DatabaseError,
    ;
}

impl From<User> for SimpleUser {
    fn from(user: User) -> (r: Self)
        ensures
            r.id == user.id,
            r.name@ == user.name@,
            r.role == user.role,
            r.created_at == user.created_at,
            r.updated_at == user.updated_at,
    {
        SimpleUser {
            id: user.id,
            name: user.name,
            role: user.role,
            created_at: user.created_at,
            updated_at: user.updated_at,
        }
    }
}

impl vstd::std_specs::convert::FromSpecImpl<User> for SimpleUser {
    open spec fn obeys_from_spec() -> bool {
        false
    }

    open spec fn from_spec(user: User) -> Self {
        arbitrary()
    }
}

/// The credentials that a list of records describes; a later record for a
/// username hides an earlier one.
pub open spec fn table(users: Seq<User>) -> Map<Seq<char>, Credential>
    decreases users.len(),
{
    if users.len() == 0 {
        Map::empty()
    } else {
        table(users.drop_last()).insert(users.last().name@, credential_of(users.last()))
    }
}

proof fn lemma_table_found(users: Seq<User>, name: Seq<char>, k: int)
    requires
        0 <= k < users.len(),
        users[k].name@ == name,
        forall|j: int| k < j < users.len() ==> #[trigger] users[j].name@ != name,
    ensures
        table(users).contains_key(name),
        table(users)[name] == credential_of(users[k]),
    decreases users.len(),
{
    if k < users.len() - 1 {
        let rest = users.drop_last();
        assert(users.last() == users[users.len() - 1]);
        assert forall|j: int| k < j < rest.len() implies #[trigger] rest[j].name@ != name by {
            assert(rest[j] == users[j]);
        }
        lemma_table_found(rest, name, k);
    }
}

proof fn lemma_table_absent(users: Seq<User>, name: Seq<char>)
    requires
        forall|j: int| 0 <= j < users.len() ==> #[trigger] users[j].name@ != name,
    ensures
        !table(users).contains_key(name),
    decreases users.len(),
{
    if users.len() > 0 {
        let rest = users.drop_last();
        assert(users.last() == users[users.len() - 1]);
        assert forall|j: int| 0 <= j < rest.len() implies #[trigger] rest[j].name@ != name by {
            assert(rest[j] == users[j]);
        }
        lemma_table_absent(rest, name);
    }
}

/// A credential store held in memory, for tests and single-process
/// deployments. It hands out subject ids in sequence, and can be switched off
/// line to stand for an unreachable store.
pub struct MemoryUserRepository {
    users: Vec<User>,
    next_id: u128,
    online: bool,
}

impl MemoryUserRepository {
    /// An empty store, reachable, whose first subject id is `first_id`.
    pub fn new(first_id: u128) -> (r: Self)
        ensures
            r.credentials() == Map::<Seq<char>, Credential>::empty(),
            r.online(),
    {
        MemoryUserRepository { users: Vec::new(), next_id: first_id, online: true }
    }

    /// Makes the store reachable or unreachable.
    pub fn set_online(&mut self, online: bool)
        ensures
            final(self).online() == online,
            final(self).credentials() == old(self).credentials(),
    {
        self.online = online;
    }
}

fn copy_user(u: &User) -> (r: User)
    ensures
        r.name@ == u.name@,
        credential_of(r) == credential_of(*u),
{
    User {
        id: u.id,
        name: u.name.clone(),
        password: u.password.clone(),
        role: u.role,
        created_at: u.created_at,
        updated_at: u.updated_at,
    }
}

impl UserRepository for MemoryUserRepository {
    closed spec fn credentials(&self) -> Map<Seq<char>, Credential> {
        table(self.users@)
    }

    closed spec fn online(&self) -> bool {
        self.online
    }

    fn create(&mut self, username: &str, password: &str, role: i16) -> (r: Result<
        SimpleUser,
        AppError,
    >) {
        if !self.online {
            return Err(AppError::DatabaseError);
        }
        match self.get_by_name(username) {
            Ok(Some(_)) => {
                return Err(AppError::DatabaseError);
            },
            _ => {},
        }
        let id = self.next_id;
        self.next_id = if id < u128::MAX { id + 1 } else { 0 };
        let user = User {
            id,
            name: username.to_owned(),
            password: password.to_owned(),
            role,
            created_at: None,
            updated_at: None,
        };
        let ghost before = self.users@;
        self.users.push(user);
        assert(self.users@.drop_last() =~= before);
        Ok(SimpleUser {
            id,
            name: username.to_owned(),
            role,
            created_at: None,
            updated_at: None,
        })
    }

    fn get_by_name(&self, username: &str) -> (r: Result<Option<User>, AppError>) {
        if !self.online {
            return Err(AppError::DatabaseError);
        }
        let key = username.to_owned();
        let mut i: usize = self.users.len();
        while i > 0
            invariant
                i <= self.users.len(),
                self.online,
                key@ == username@,
                forall|j: int| i <= j < self.users.len() ==> #[trigger] self.users@[j].name@
                    != username@,
            decreases i,
        {
            i = i - 1;
            if self.users[i].name == key {
                proof {
                    lemma_table_found(self.users@, username@, i as int);
                }
                return Ok(Some(copy_user(&self.users[i])));
            }
        }
        proof {
            lemma_table_absent(self.users@, username@);
        }
        Ok(None)
    }
}

/// Creates an account: hashes the password, salted with the configured
/// secret, and stores the credential. A hashing failure is reported as
/// `HashPasswordFailed` and leaves the store as it was.
pub fn create_user<U: UserRepository>(req: CreateUserRequest, user_repo: &mut U, config: &Config) -> (r:
    Result<SimpleUser, AppError>)
    ensures
        final(user_repo).online() == old(user_repo).online(),
        match argon2_hashed(req.password@, config.secret_key@) {
            None => r == Err::<SimpleUser, AppError>(AppError::HashPasswordFailed)
                && final(user_repo).credentials() == old(user_repo).credentials(),
            Some(h) => {
                &&& r is Ok <==> old(user_repo).online() && !old(user_repo).credentials().contains_key(req.name@)
                &&& r is Ok ==> r->Ok_0.name@ == req.name@ && r->Ok_0.role == req.role
                    && final(user_repo).credentials() == old(user_repo).credentials().insert(
                    req.name@,
                    Credential { id: r->Ok_0.id, password: h, role: req.role },
                )
                &&& r is Err ==> r->Err_0 == AppError::DatabaseError
                    && final(user_repo).credentials() == old(user_repo).credentials()
            },
        },
{
    match hash_password(req.password.as_str(), config) {
        None => Err(AppError::HashPasswordFailed),
        Some(hash) => user_repo.create(req.name.as_str(), hash.as_str(), req.role),
    }
}

} // verus!
