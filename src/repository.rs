use vstd::prelude::*;
use crate::error::AuthError;
use crate::keys::{
    lemma_key_spaces_disjoint,
    email_key, make_email_key, make_reset_key, make_user_key, make_verification_key, reset_key,
    user_key, verify_key,
};
use crate::model::{user_consistent, User};
use crate::store::{Record, RecordStore};

verus! {

/// The account stored under `id`: none if absent, an internal error if the
/// key holds something other than an account.
pub open spec fn account_of(m: Map<Seq<u8>, Record>, id: u128) -> Result<Option<User>, AuthError> {
    if !m.contains_key(user_key(id)) {
        Ok(None)
    } else {
        match m[user_key(id)] {
            Record::Account(u) => Ok(Some(u)),
            Record::UserRef(_) => Err(AuthError::InternalError),
        }
    }
}

/// The account that the index entry under `index_key` refers to: none if the
/// entry is absent, an internal error if the entry or its account is malformed
/// or missing.
pub open spec fn resolve(m: Map<Seq<u8>, Record>, index_key: Seq<u8>) -> Result<Option<User>, AuthError> {
    if !m.contains_key(index_key) {
        Ok(None)
    } else {
        match m[index_key] {
            Record::UserRef(id) => match account_of(m, id) {
                Ok(Some(u)) => Ok(Some(u)),
                _ => Err(AuthError::InternalError),
            },
            Record::Account(_) => Err(AuthError::InternalError),
        }
    }
}

/// The contents after writing `u`'s record and the indices of its tokens.
pub open spec fn written(m: Map<Seq<u8>, Record>, u: User) -> Map<Seq<u8>, Record> {
    let m1 = m.insert(user_key(u.id), Record::Account(u));
    let m2 = match u.email_verification_token {
        Some(t) => m1.insert(verify_key(t@), Record::UserRef(u.id)),
        None => m1,
    };
    match u.password_reset_token {
        Some(t) => m2.insert(reset_key(t@), Record::UserRef(u.id)),
        None => m2,
    }
}

/// The contents after creating the account `u`: its record, its email index
/// entry and, if it has one, its verification-token index entry.
pub open spec fn created(m: Map<Seq<u8>, Record>, u: User) -> Map<Seq<u8>, Record> {
    let m1 = m.insert(user_key(u.id), Record::Account(u)).insert(
        email_key(u.email@),
        Record::UserRef(u.id),
    );
    match u.email_verification_token {
        Some(t) => m1.insert(verify_key(t@), Record::UserRef(u.id)),
        None => m1,
    }
}

/// Every account record is stored under the key of its own identifier.
pub open spec fn accounts_keyed(m: Map<Seq<u8>, Record>) -> bool {
    forall|k: Seq<u8>|
        #[trigger] m.contains_key(k) && m[k] is Account ==> k == user_key(m[k]->Account_0.id)
}

/// Every stored account meets the account invariants.
pub open spec fn accounts_sound(m: Map<Seq<u8>, Record>) -> bool {
    forall|k: Seq<u8>|
        #[trigger] m.contains_key(k) && m[k] is Account ==> user_consistent(m[k]->Account_0)
}

/// Writing a consistent account keeps the store sound.
pub proof fn lemma_written_sound(m: Map<Seq<u8>, Record>, u: User)
    requires
        accounts_sound(m),
        user_consistent(u),
    ensures
        accounts_sound(written(m, u)),
{
}

/// Creating a consistent account keeps the store sound.
pub proof fn lemma_created_sound(m: Map<Seq<u8>, Record>, u: User)
    requires
        accounts_sound(m),
        user_consistent(u),
    ensures
        accounts_sound(created(m, u)),
{
}

/// Accounts read from a sound store meet the invariants.
pub proof fn lemma_read_consistent(m: Map<Seq<u8>, Record>, k: Seq<u8>, id: u128)
    requires
        accounts_sound(m),
    ensures
        resolve(m, k) matches Ok(Some(u)) ==> user_consistent(u),
        account_of(m, id) matches Ok(Some(u)) ==> user_consistent(u),
{
    if let Ok(Some(u)) = account_of(m, id) {
        assert(m.contains_key(user_key(id)));
    }
    if let Ok(Some(u)) = resolve(m, k) {
        let id2 = m[k]->UserRef_0;
        assert(m.contains_key(user_key(id2)));
    }
}

/// Accounts and their secondary indices, kept in one record store.
pub struct UserRepository {
    store: RecordStore,
}

impl View for UserRepository {
    type V = Map<Seq<u8>, Record>;

    closed spec fn view(&self) -> Map<Seq<u8>, Record> {
        self.store@
    }
}

impl UserRepository {
    pub closed spec fn wf(&self) -> bool {
        self.store.wf() && accounts_keyed(self.store@)
    }

    /// A well-formed repository keeps each account under its own key.
    pub proof fn lemma_accounts_keyed(&self)
        requires
            self.wf(),
        ensures
            accounts_keyed(self@),
    {
    }

    /// An empty repository.
    pub fn new() -> (r: UserRepository)
        ensures
            r.wf(),
            r@ == Map::<Seq<u8>, Record>::empty(),
    {
        UserRepository { store: RecordStore::new() }
    }

    /// Creates `user`, failing with `UserExists` when its email is indexed
    /// already; then nothing is written.
    pub fn create_user(&mut self, user: &User) -> (r: Result<(), AuthError>)
        requires
            old(self).wf(),
        ensures
            final(self).wf(),
            old(self)@.contains_key(email_key(user.email@)) ==> r == Err::<(), AuthError>(
                AuthError::UserExists,
            ) && final(self)@ == old(self)@,
            !old(self)@.contains_key(email_key(user.email@)) ==> r == Ok::<(), AuthError>(())
                && final(self)@ == created(old(self)@, *user),
    {
        proof {
            lemma_key_spaces_disjoint(user.id, user.email@, seq![], seq![]);
            if let Some(t) = &user.email_verification_token {
                lemma_key_spaces_disjoint(user.id, user.email@, t@, seq![]);
            }
        }
        let email_key = make_email_key(user.email.as_str());
        if self.store.get(email_key.as_slice()).is_some() {
            return Err(AuthError::UserExists);
        }
        self.store.set(make_user_key(user.id), Record::Account(user.duplicate()));
        self.store.set(email_key, Record::UserRef(user.id));
        match &user.email_verification_token {
            Some(token) => {
                self.store.set(make_verification_key(token.as_str()), Record::UserRef(user.id));
            },
            None => {},
        }
        Ok(())
    }

    /// Whether `email` is indexed.
    pub fn email_taken(&self, email: &str) -> (r: bool)
        requires
            self.wf(),
        ensures
            r == self@.contains_key(email_key(email@)),
    {
        self.store.get(make_email_key(email).as_slice()).is_some()
    }

    /// The account with identifier `id`.
    pub fn get_user_by_id(&self, id: u128) -> (r: Result<Option<User>, AuthError>)
        requires
            self.wf(),
        ensures
            r == account_of(self@, id),
    {
        match self.store.get(make_user_key(id).as_slice()) {
            None => Ok(None),
            Some(Record::Account(u)) => Ok(Some(u)),
            Some(Record::UserRef(_)) => Err(AuthError::InternalError),
        }
    }

    fn get_by_index(&self, index_key: Vec<u8>) -> (r: Result<Option<User>, AuthError>)
        requires
            self.wf(),
        ensures
            r == resolve(self@, index_key@),
    {
        match self.store.get(index_key.as_slice()) {
            None => Ok(None),
            Some(Record::UserRef(id)) => match self.get_user_by_id(id) {
                Ok(Some(u)) => Ok(Some(u)),
                _ => Err(AuthError::InternalError),
            },
            Some(Record::Account(_)) => Err(AuthError::InternalError),
        }
    }

    /// The account registered under `email`.
    pub fn get_user_by_email(&self, email: &str) -> (r: Result<Option<User>, AuthError>)
        requires
            self.wf(),
        ensures
            r == resolve(self@, email_key(email@)),
    {
        self.get_by_index(make_email_key(email))
    }

    /// The account holding the email-verification token `token`.
    pub fn get_user_by_verification_token(&self, token: &str) -> (r: Result<Option<User>, AuthError>)
        requires
            self.wf(),
        ensures
            r == resolve(self@, verify_key(token@)),
    {
        self.get_by_index(make_verification_key(token))
    }

    /// The account holding the password-reset token `token`.
    pub fn get_user_by_reset_token(&self, token: &str) -> (r: Result<Option<User>, AuthError>)
        requires
            self.wf(),
        ensures
            r == resolve(self@, reset_key(token@)),
    {
        self.get_by_index(make_reset_key(token))
    }

    /// Rewrites `user`'s record and the index entries of the tokens it holds.
    /// Entries of tokens that it no longer holds stay in place.
    pub fn update_user(&mut self, user: &User) -> (r: Result<(), AuthError>)
        requires
            old(self).wf(),
        ensures
            final(self).wf(),
            r is Ok,
            final(self)@ == written(old(self)@, *user),
    {
        proof {
            if let Some(t) = &user.email_verification_token {
                lemma_key_spaces_disjoint(user.id, seq![], t@, seq![]);
            }
            if let Some(t) = &user.password_reset_token {
                lemma_key_spaces_disjoint(user.id, seq![], seq![], t@);
            }
        }
        self.store.set(make_user_key(user.id), Record::Account(user.duplicate()));
        match &user.email_verification_token {
            Some(token) => {
                self.store.set(make_verification_key(token.as_str()), Record::UserRef(user.id));
            },
            None => {},
        }
        match &user.password_reset_token {
            Some(token) => {
                self.store.set(make_reset_key(token.as_str()), Record::UserRef(user.id));
            },
            None => {},
        }
        Ok(())
    }
}

} // verus!
