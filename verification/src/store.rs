//! The secret store: accounts, refresh tokens and single-use tokens, each in a
//! table with keyed lookups, inserts that keep keys unique, and conditional
//! updates. That its keys are unique is the type invariant of each table:
//! no operation can leave a table without it.

use crate::lookup::{
    first_index, lemma_first_index, lemma_first_index_absent, lemma_first_index_found,
};
use crate::models::{
    RefreshToken, RefreshTokenView, SingleUseToken, SingleUseTokenView, User, UserView,
};
use vstd::prelude::*;
use vstd::string::StringExecFns;

verus! {

// ---------------------------------------------------------------------------
// Accounts
// ---------------------------------------------------------------------------
/// Holds of an account with the given email.
pub open spec fn user_with_email(email: Seq<char>) -> spec_fn(UserView) -> bool {
    |u: UserView| u.email == email
}

/// Holds of the account with the given id.
pub open spec fn user_with_id(id: u128) -> spec_fn(UserView) -> bool {
    |u: UserView| u.id == id
}

/// No two accounts share an id or an email.
pub open spec fn users_wf(rows: Seq<UserView>) -> bool {
    forall|i: int, j: int|
        0 <= i < j < rows.len() ==> (#[trigger] rows[i]).id != (#[trigger] rows[j]).id
            && rows[i].email != rows[j].email
}

/// An account can be added when neither its id nor its email is taken.
pub open spec fn users_can_add(rows: Seq<UserView>, user: UserView) -> bool {
    first_index(rows, user_with_id(user.id)) is None && first_index(
        rows,
        user_with_email(user.email),
    ) is None
}

/// The position at which an account can be replaced: that of the account
/// with its id, provided the email stays the same.
pub open spec fn users_replace_at(rows: Seq<UserView>, user: UserView) -> Option<int> {
    match first_index(rows, user_with_id(user.id)) {
        Some(i) => if rows[i].email == user.email {
            Some(i)
        } else {
            None
        },
        None => None,
    }
}

/// Among accounts with unique keys, an account is the one found under its
/// id and under its email.
pub proof fn lemma_user_found(rows: Seq<UserView>, at: int)
    requires
        users_wf(rows),
        0 <= at < rows.len(),
    ensures
        first_index(rows, user_with_id(rows[at].id)) == Some(at),
        first_index(rows, user_with_email(rows[at].email)) == Some(at),
{
    lemma_first_index_found(rows, user_with_id(rows[at].id), at);
    lemma_first_index_found(rows, user_with_email(rows[at].email), at);
}

/// The views of accounts.
pub open spec fn user_rows_view(rows: Seq<User>) -> Seq<UserView> {
    rows.map_values(|u: User| u@)
}

/// The accounts, unique by id and by email.
pub struct UserTable {
    rows: Vec<User>,
}

impl View for UserTable {
    type V = Seq<UserView>;

    closed spec fn view(&self) -> Seq<UserView> {
        user_rows_view(self.rows@)
    }
}

impl UserTable {
    /// No two accounts share an id or an email. This holds of every table.
    #[verifier::type_invariant]
    pub open spec fn wf(&self) -> bool {
        users_wf(self@)
    }

    pub fn new() -> (table: Self)
        ensures
            table@ == Seq::<UserView>::empty(),
            table.wf(),
    {
        let table = UserTable { rows: Vec::new() };
        assert(table@ =~= Seq::<UserView>::empty());
        table
    }

    pub fn len(&self) -> (n: usize)
        ensures
            n == self@.len(),
    {
        self.rows.len()
    }

    /// The account at a position.
    pub fn get(&self, at: usize) -> (user: User)
        requires
            at < self@.len(),
        ensures
            user@ == self@[at as int],
    {
        self.rows[at].clone()
    }

    fn position_by_id(&self, id: u128) -> (at: Option<usize>)
        ensures
            at is Some <==> first_index(self@, user_with_id(id)) is Some,
            at matches Some(k) ==> k < self.rows.len() && first_index(self@, user_with_id(id))
                == Some(k as int),
    {
        let mut k: usize = 0;
        while k < self.rows.len()
            invariant
                k <= self.rows.len(),
                forall|j: int| 0 <= j < k ==> !user_with_id(id)(#[trigger] self@[j]),
            decreases self.rows.len() - k,
        {
            if self.rows[k].id == id {
                proof {
                    lemma_first_index_found(self@, user_with_id(id), k as int);
                }
                return Some(k);
            }
            k = k + 1;
        }
        proof {
            lemma_first_index_absent(self@, user_with_id(id));
        }
        None
    }

    fn position_by_email(&self, email: &String) -> (at: Option<usize>)
        ensures
            at is Some <==> first_index(self@, user_with_email(email@)) is Some,
            at matches Some(k) ==> k < self.rows.len() && first_index(
                self@,
                user_with_email(email@),
            ) == Some(k as int),
    {
        let mut k: usize = 0;
        while k < self.rows.len()
            invariant
                k <= self.rows.len(),
                forall|j: int| 0 <= j < k ==> !user_with_email(email@)(#[trigger] self@[j]),
            decreases self.rows.len() - k,
        {
            if self.rows[k].email == *email {
                proof {
                    lemma_first_index_found(self@, user_with_email(email@), k as int);
                }
                return Some(k);
            }
            k = k + 1;
        }
        proof {
            lemma_first_index_absent(self@, user_with_email(email@));
        }
        None
    }

    /// The account with the given email, compared as written.
    pub fn find_by_email(&self, email: &str) -> (found: Option<User>)
        ensures
            match first_index(self@, user_with_email(email@)) {
                Some(i) => found matches Some(u) && u@ == self@[i],
                None => found is None,
            },
    {
        let wanted = String::from_str(email);
        match self.position_by_email(&wanted) {
            Some(k) => Some(self.rows[k].clone()),
            None => None,
        }
    }

    /// The account with the given id.
    pub fn find_by_id(&self, id: u128) -> (found: Option<User>)
        ensures
            match first_index(self@, user_with_id(id)) {
                Some(i) => found matches Some(u) && u@ == self@[i],
                None => found is None,
            },
    {
        match self.position_by_id(id) {
            Some(k) => Some(self.rows[k].clone()),
            None => None,
        }
    }

    /// Adds an account unless its id or its email is taken.
    pub fn insert(&mut self, user: User) -> (added: bool)
        ensures
            final(self).wf(),
            added == users_can_add(old(self)@, user@),
            final(self)@ == if added {
                old(self)@.push(user@)
            } else {
                old(self)@
            },
    {
        proof {
            use_type_invariant(&*self);
        }
        if self.position_by_id(user.id).is_some() {
            return false;
        }
        if self.position_by_email(&user.email).is_some() {
            return false;
        }
        proof {
            lemma_first_index(self@, user_with_id(user.id));
            lemma_first_index(self@, user_with_email(user.email@));
        }
        let mut rows: Vec<User> = Vec::new();
        core::mem::swap(&mut self.rows, &mut rows);
        rows.push(user);
        assert(user_rows_view(rows@) =~= old(self)@.push(user@));
        self.rows = rows;
        true
    }

    /// Removes the account with the given id, and says whether there was
    /// one.
    pub fn remove(&mut self, id: u128) -> (removed: bool)
        ensures
            final(self).wf(),
            removed == first_index(old(self)@, user_with_id(id)) is Some,
            final(self)@ == match first_index(old(self)@, user_with_id(id)) {
                Some(at) => old(self)@.remove(at),
                None => old(self)@,
            },
    {
        proof {
            use_type_invariant(&*self);
        }
        match self.position_by_id(id) {
            Some(k) => {
                let mut rows: Vec<User> = Vec::new();
                core::mem::swap(&mut self.rows, &mut rows);
                rows.remove(k);
                let ghost after = user_rows_view(rows@);
                assert(after =~= old(self)@.remove(k as int));
                assert forall|i: int, j: int| 0 <= i < j < after.len() implies (
                #[trigger] after[i]).id != (#[trigger] after[j]).id && after[i].email
                    != after[j].email by {
                    let before_i = if i < k {
                        i
                    } else {
                        i + 1
                    };
                    let before_j = if j < k {
                        j
                    } else {
                        j + 1
                    };
                    assert(after[i] == old(self)@[before_i]);
                    assert(after[j] == old(self)@[before_j]);
                }
                self.rows = rows;
                true
            },
            None => false,
        }
    }

    /// Replaces the account that has the same id, provided that the email is
    /// unchanged.
    pub fn replace(&mut self, user: User) -> (replaced: bool)
        ensures
            final(self).wf(),
            replaced == users_replace_at(old(self)@, user@) is Some,
            final(self)@ == match users_replace_at(old(self)@, user@) {
                Some(i) => old(self)@.update(i, user@),
                None => old(self)@,
            },
    {
        proof {
            use_type_invariant(&*self);
            lemma_first_index(self@, user_with_id(user.id));
        }
        match self.position_by_id(user.id) {
            Some(k) => {
                if self.rows[k].email == user.email {
                    let mut rows: Vec<User> = Vec::new();
                    core::mem::swap(&mut self.rows, &mut rows);
                    rows[k] = user;
                    assert(user_rows_view(rows@) =~= old(self)@.update(k as int, user@));
                    self.rows = rows;
                    true
                } else {
                    false
                }
            },
            None => false,
        }
    }
}

// ---------------------------------------------------------------------------
// Refresh tokens
// ---------------------------------------------------------------------------
/// Holds of the refresh-token record with the given id.
pub open spec fn refresh_with_id(id: u128) -> spec_fn(RefreshTokenView) -> bool {
    |t: RefreshTokenView| t.id == id
}

/// Holds of a refresh-token record with the given digest.
pub open spec fn refresh_with_hash(hash: Seq<char>) -> spec_fn(RefreshTokenView) -> bool {
    |t: RefreshTokenView| t.token_hash == hash
}

/// No two refresh-token records share an id or a digest.
pub open spec fn refresh_tokens_wf(rows: Seq<RefreshTokenView>) -> bool {
    forall|i: int, j: int|
        0 <= i < j < rows.len() ==> (#[trigger] rows[i]).id != (#[trigger] rows[j]).id
            && rows[i].token_hash != rows[j].token_hash
}

pub open spec fn refresh_tokens_can_add(
    rows: Seq<RefreshTokenView>,
    token: RefreshTokenView,
) -> bool {
    first_index(rows, refresh_with_id(token.id)) is None && first_index(
        rows,
        refresh_with_hash(token.token_hash),
    ) is None
}

/// A record after its revocation at `now`.
pub open spec fn revoked_record(
    row: RefreshTokenView,
    now: i64,
    replaced_by: Option<u128>,
) -> RefreshTokenView {
    RefreshTokenView { revoked_at: Some(now), replaced_by: replaced_by, ..row }
}

/// The position of the record that a revocation changes: that of the record
/// with the id, provided it is not revoked yet.
pub open spec fn refresh_revoke_at(rows: Seq<RefreshTokenView>, id: u128) -> Option<int> {
    match first_index(rows, refresh_with_id(id)) {
        Some(i) => if rows[i].revoked_at is None {
            Some(i)
        } else {
            None
        },
        None => None,
    }
}

/// The records after every unrevoked one of an account has been revoked.
pub open spec fn revoke_owned(rows: Seq<RefreshTokenView>, user_id: u128, now: i64) -> Seq<
    RefreshTokenView,
> {
    Seq::new(
        rows.len(),
        |i: int|
            if rows[i].user_id == user_id && rows[i].revoked_at is None {
                RefreshTokenView { revoked_at: Some(now), ..rows[i] }
            } else {
                rows[i]
            },
    )
}

/// Holds of the records that do not belong to an account.
pub open spec fn refresh_not_of(user_id: u128) -> spec_fn(RefreshTokenView) -> bool {
    |t: RefreshTokenView| t.user_id != user_id
}

/// The views of refresh-token records.
pub open spec fn refresh_rows_view(rows: Seq<RefreshToken>) -> Seq<RefreshTokenView> {
    rows.map_values(|t: RefreshToken| t@)
}

/// The refresh-token records, unique by id and by digest.
pub struct RefreshTokenTable {
    rows: Vec<RefreshToken>,
}

impl View for RefreshTokenTable {
    type V = Seq<RefreshTokenView>;

    closed spec fn view(&self) -> Seq<RefreshTokenView> {
        refresh_rows_view(self.rows@)
    }
}

impl RefreshTokenTable {
    /// No two records share an id or a digest. This holds of every table.
    #[verifier::type_invariant]
    pub open spec fn wf(&self) -> bool {
        refresh_tokens_wf(self@)
    }

    pub fn new() -> (table: Self)
        ensures
            table@ == Seq::<RefreshTokenView>::empty(),
            table.wf(),
    {
        let table = RefreshTokenTable { rows: Vec::new() };
        assert(table@ =~= Seq::<RefreshTokenView>::empty());
        table
    }

    pub fn len(&self) -> (n: usize)
        ensures
            n == self@.len(),
    {
        self.rows.len()
    }

    /// The record at a position.
    pub fn get(&self, at: usize) -> (token: RefreshToken)
        requires
            at < self@.len(),
        ensures
            token@ == self@[at as int],
    {
        self.rows[at].clone()
    }

    fn position_by_id(&self, id: u128) -> (at: Option<usize>)
        ensures
            at is Some <==> first_index(self@, refresh_with_id(id)) is Some,
            at matches Some(k) ==> k < self.rows.len() && first_index(self@, refresh_with_id(id))
                == Some(k as int),
    {
        let mut k: usize = 0;
        while k < self.rows.len()
            invariant
                k <= self.rows.len(),
                forall|j: int| 0 <= j < k ==> !refresh_with_id(id)(#[trigger] self@[j]),
            decreases self.rows.len() - k,
        {
            if self.rows[k].id == id {
                proof {
                    lemma_first_index_found(self@, refresh_with_id(id), k as int);
                }
                return Some(k);
            }
            k = k + 1;
        }
        proof {
            lemma_first_index_absent(self@, refresh_with_id(id));
        }
        None
    }

    fn position_by_hash(&self, hash: &String) -> (at: Option<usize>)
        ensures
            at is Some <==> first_index(self@, refresh_with_hash(hash@)) is Some,
            at matches Some(k) ==> k < self.rows.len() && first_index(
                self@,
                refresh_with_hash(hash@),
            ) == Some(k as int),
    {
        let mut k: usize = 0;
        while k < self.rows.len()
            invariant
                k <= self.rows.len(),
                forall|j: int| 0 <= j < k ==> !refresh_with_hash(hash@)(#[trigger] self@[j]),
            decreases self.rows.len() - k,
        {
            if self.rows[k].token_hash == *hash {
                proof {
                    lemma_first_index_found(self@, refresh_with_hash(hash@), k as int);
                }
                return Some(k);
            }
            k = k + 1;
        }
        proof {
            lemma_first_index_absent(self@, refresh_with_hash(hash@));
        }
        None
    }

    /// The record with the given id.
    pub fn find_by_id(&self, id: u128) -> (found: Option<RefreshToken>)
        ensures
            match first_index(self@, refresh_with_id(id)) {
                Some(i) => found matches Some(t) && t@ == self@[i],
                None => found is None,
            },
    {
        match self.position_by_id(id) {
            Some(k) => Some(self.rows[k].clone()),
            None => None,
        }
    }

    /// Adds a record unless its id or its digest is taken.
    pub fn insert(&mut self, token: RefreshToken) -> (added: bool)
        ensures
            final(self).wf(),
            added == refresh_tokens_can_add(old(self)@, token@),
            final(self)@ == if added {
                old(self)@.push(token@)
            } else {
                old(self)@
            },
    {
        proof {
            use_type_invariant(&*self);
        }
        if self.position_by_id(token.id).is_some() {
            return false;
        }
        if self.position_by_hash(&token.token_hash).is_some() {
            return false;
        }
        proof {
            lemma_first_index(self@, refresh_with_id(token.id));
            lemma_first_index(self@, refresh_with_hash(token.token_hash@));
        }
        let mut rows: Vec<RefreshToken> = Vec::new();
        core::mem::swap(&mut self.rows, &mut rows);
        rows.push(token);
        assert(refresh_rows_view(rows@) =~= old(self)@.push(token@));
        self.rows = rows;
        true
    }

    /// Revokes the record with the given id if it is not revoked yet, and
    /// says whether it did. A record that is already revoked stays as it is.
    pub fn revoke(&mut self, id: u128, now: i64, replaced_by: Option<u128>) -> (done: bool)
        ensures
            final(self).wf(),
            done == refresh_revoke_at(old(self)@, id) is Some,
            final(self)@ == match refresh_revoke_at(old(self)@, id) {
                Some(i) => old(self)@.update(i, revoked_record(old(self)@[i], now, replaced_by)),
                None => old(self)@,
            },
    {
        proof {
            use_type_invariant(&*self);
        }
        match self.position_by_id(id) {
            Some(k) => {
                if self.rows[k].revoked_at.is_none() {
                    let mut rows: Vec<RefreshToken> = Vec::new();
                    core::mem::swap(&mut self.rows, &mut rows);
                    rows[k].revoked_at = Some(now);
                    rows[k].replaced_by = replaced_by;
                    assert(refresh_rows_view(rows@) =~= old(self)@.update(
                        k as int,
                        revoked_record(old(self)@[k as int], now, replaced_by),
                    ));
                    self.rows = rows;
                    true
                } else {
                    false
                }
            },
            None => false,
        }
    }

    /// Removes every record of an account.
    pub fn remove_for_user(&mut self, user_id: u128)
        ensures
            final(self).wf(),
            final(self)@ == old(self)@.filter(refresh_not_of(user_id)),
    {
        proof {
            use_type_invariant(&*self);
        }
        let ghost before = self@;
        let ghost keep = refresh_not_of(user_id);
        let mut kept: Vec<RefreshToken> = Vec::new();
        let mut k: usize = 0;
        proof {
            assert(before.take(0) =~= Seq::<RefreshTokenView>::empty());
            reveal(Seq::filter);
            assert(refresh_rows_view(kept@) =~= before.take(0).filter(keep));
        }
        while k < self.rows.len()
            invariant
                k <= self.rows.len(),
                self@ == before,
                refresh_tokens_wf(before),
                keep == refresh_not_of(user_id),
                refresh_rows_view(kept@) == before.take(k as int).filter(keep),
                refresh_tokens_wf(refresh_rows_view(kept@)),
                forall|j: int, m: int|
                    0 <= j < kept.len() && k <= m < before.len() ==> (
                    #[trigger] refresh_rows_view(kept@)[j]).id != (#[trigger] before[m]).id
                        && refresh_rows_view(kept@)[j].token_hash != before[m].token_hash,
            decreases self.rows.len() - k,
        {
            let ghost earlier = refresh_rows_view(kept@);
            if self.rows[k].user_id != user_id {
                kept.push(self.rows[k].clone());
                assert(refresh_rows_view(kept@) =~= earlier.push(before[k as int]));
            }
            proof {
                before.take(k as int).lemma_filter_push(before[k as int], keep);
                assert(before.take(k + 1) =~= before.take(k as int).push(before[k as int]));
            }
            k = k + 1;
        }
        assert(before.take(before.len() as int) =~= before);
        self.rows = kept;
    }

    /// Revokes every record of an account that is not revoked yet.
    pub fn revoke_all_for_user(&mut self, user_id: u128, now: i64)
        ensures
            final(self).wf(),
            final(self)@ == revoke_owned(old(self)@, user_id, now),
    {
        proof {
            use_type_invariant(&*self);
        }
        let ghost before = self@;
        let mut rows: Vec<RefreshToken> = Vec::new();
        core::mem::swap(&mut self.rows, &mut rows);
        let mut k: usize = 0;
        while k < rows.len()
            invariant
                k <= rows.len(),
                refresh_rows_view(rows@).len() == before.len(),
                forall|j: int|
                    0 <= j < k ==> refresh_rows_view(rows@)[j] == revoke_owned(
                        before,
                        user_id,
                        now,
                    )[j],
                forall|j: int| k <= j < before.len() ==> refresh_rows_view(rows@)[j] == before[j],
            decreases rows.len() - k,
        {
            let ghost earlier = refresh_rows_view(rows@);
            if rows[k].user_id == user_id && rows[k].revoked_at.is_none() {
                rows[k].revoked_at = Some(now);
                assert(refresh_rows_view(rows@) =~= earlier.update(
                    k as int,
                    RefreshTokenView { revoked_at: Some(now), ..earlier[k as int] },
                ));
            }
            assert(refresh_rows_view(rows@)[k as int] == revoke_owned(before, user_id, now)[k as int]);
            k = k + 1;
        }
        assert(refresh_rows_view(rows@) =~= revoke_owned(before, user_id, now));
        self.rows = rows;
    }
}

// ---------------------------------------------------------------------------
// Single-use tokens
// ---------------------------------------------------------------------------
/// Holds of the single-use token with the given id.
pub open spec fn single_use_with_id(id: u128) -> spec_fn(SingleUseTokenView) -> bool {
    |t: SingleUseTokenView| t.id == id
}

/// Holds of a single-use token with the given digest.
pub open spec fn single_use_with_hash(hash: Seq<char>) -> spec_fn(SingleUseTokenView) -> bool {
    |t: SingleUseTokenView| t.token_hash == hash
}

/// No two single-use tokens of one purpose share an id or a digest.
pub open spec fn single_use_wf(rows: Seq<SingleUseTokenView>) -> bool {
    forall|i: int, j: int|
        0 <= i < j < rows.len() ==> (#[trigger] rows[i]).id != (#[trigger] rows[j]).id
            && rows[i].token_hash != rows[j].token_hash
}

pub open spec fn single_use_can_add(
    rows: Seq<SingleUseTokenView>,
    token: SingleUseTokenView,
) -> bool {
    first_index(rows, single_use_with_id(token.id)) is None && first_index(
        rows,
        single_use_with_hash(token.token_hash),
    ) is None
}

/// The position of the token that a redemption changes: that of the token
/// with the id, provided it is unused.
pub open spec fn single_use_redeem_at(rows: Seq<SingleUseTokenView>, id: u128) -> Option<int> {
    match first_index(rows, single_use_with_id(id)) {
        Some(i) => if rows[i].used_at is None {
            Some(i)
        } else {
            None
        },
        None => None,
    }
}

/// A token after its use at `now`.
pub open spec fn used_record(row: SingleUseTokenView, now: i64) -> SingleUseTokenView {
    SingleUseTokenView { used_at: Some(now), ..row }
}

/// The tokens after every unused one of an account has been marked used.
pub open spec fn use_owned(rows: Seq<SingleUseTokenView>, user_id: u128, now: i64) -> Seq<
    SingleUseTokenView,
> {
    Seq::new(
        rows.len(),
        |i: int|
            if rows[i].user_id == user_id && rows[i].used_at is None {
                used_record(rows[i], now)
            } else {
                rows[i]
            },
    )
}

/// The tokens after a new one has been issued to an account: every unused
/// token the account had is marked used and the new one is added. Nothing
/// is issued where the new token's id or digest is taken.
pub open spec fn single_use_reissue(
    rows: Seq<SingleUseTokenView>,
    token: SingleUseTokenView,
    now: i64,
) -> Option<Seq<SingleUseTokenView>> {
    if single_use_can_add(rows, token) {
        Some(use_owned(rows, token.user_id, now).push(token))
    } else {
        None
    }
}

/// Among tokens with unique keys, a token is the one found under its id and
/// under its digest.
pub proof fn lemma_single_use_found(rows: Seq<SingleUseTokenView>, at: int)
    requires
        single_use_wf(rows),
        0 <= at < rows.len(),
    ensures
        first_index(rows, single_use_with_id(rows[at].id)) == Some(at),
        first_index(rows, single_use_with_hash(rows[at].token_hash)) == Some(at),
{
    lemma_first_index_found(rows, single_use_with_id(rows[at].id), at);
    lemma_first_index_found(rows, single_use_with_hash(rows[at].token_hash), at);
}

/// Holds of the tokens that do not belong to an account.
pub open spec fn single_use_not_of(user_id: u128) -> spec_fn(SingleUseTokenView) -> bool {
    |t: SingleUseTokenView| t.user_id != user_id
}

/// The views of single-use tokens.
pub open spec fn single_use_rows_view(rows: Seq<SingleUseToken>) -> Seq<SingleUseTokenView> {
    rows.map_values(|t: SingleUseToken| t@)
}

/// The single-use tokens of one purpose, unique by id and by digest.
pub struct SingleUseTable {
    rows: Vec<SingleUseToken>,
}

impl View for SingleUseTable {
    type V = Seq<SingleUseTokenView>;

    closed spec fn view(&self) -> Seq<SingleUseTokenView> {
        single_use_rows_view(self.rows@)
    }
}

impl SingleUseTable {
    /// No two tokens share an id or a digest. This holds of every table.
    #[verifier::type_invariant]
    pub open spec fn wf(&self) -> bool {
        single_use_wf(self@)
    }

    pub fn new() -> (table: Self)
        ensures
            table@ == Seq::<SingleUseTokenView>::empty(),
            table.wf(),
    {
        let table = SingleUseTable { rows: Vec::new() };
        assert(table@ =~= Seq::<SingleUseTokenView>::empty());
        table
    }

    pub fn len(&self) -> (n: usize)
        ensures
            n == self@.len(),
    {
        self.rows.len()
    }

    /// The token at a position.
    pub fn get(&self, at: usize) -> (token: SingleUseToken)
        requires
            at < self@.len(),
        ensures
            token@ == self@[at as int],
    {
        self.rows[at].clone()
    }

    fn position_by_id(&self, id: u128) -> (at: Option<usize>)
        ensures
            at is Some <==> first_index(self@, single_use_with_id(id)) is Some,
            at matches Some(k) ==> k < self.rows.len() && first_index(
                self@,
                single_use_with_id(id),
            ) == Some(k as int),
    {
        let mut k: usize = 0;
        while k < self.rows.len()
            invariant
                k <= self.rows.len(),
                forall|j: int| 0 <= j < k ==> !single_use_with_id(id)(#[trigger] self@[j]),
            decreases self.rows.len() - k,
        {
            if self.rows[k].id == id {
                proof {
                    lemma_first_index_found(self@, single_use_with_id(id), k as int);
                }
                return Some(k);
            }
            k = k + 1;
        }
        proof {
            lemma_first_index_absent(self@, single_use_with_id(id));
        }
        None
    }

    fn position_by_hash(&self, hash: &String) -> (at: Option<usize>)
        ensures
            at is Some <==> first_index(self@, single_use_with_hash(hash@)) is Some,
            at matches Some(k) ==> k < self.rows.len() && first_index(
                self@,
                single_use_with_hash(hash@),
            ) == Some(k as int),
    {
        let mut k: usize = 0;
        while k < self.rows.len()
            invariant
                k <= self.rows.len(),
                forall|j: int| 0 <= j < k ==> !single_use_with_hash(hash@)(#[trigger] self@[j]),
            decreases self.rows.len() - k,
        {
            if self.rows[k].token_hash == *hash {
                proof {
                    lemma_first_index_found(self@, single_use_with_hash(hash@), k as int);
                }
                return Some(k);
            }
            k = k + 1;
        }
        proof {
            lemma_first_index_absent(self@, single_use_with_hash(hash@));
        }
        None
    }

    /// The token with the given digest.
    pub fn find_by_hash(&self, hash: &str) -> (found: Option<SingleUseToken>)
        ensures
            match first_index(self@, single_use_with_hash(hash@)) {
                Some(i) => found matches Some(t) && t@ == self@[i],
                None => found is None,
            },
    {
        let wanted = String::from_str(hash);
        match self.position_by_hash(&wanted) {
            Some(k) => Some(self.rows[k].clone()),
            None => None,
        }
    }

    /// Adds a token unless its id or its digest is taken.
    pub fn insert(&mut self, token: SingleUseToken) -> (added: bool)
        ensures
            final(self).wf(),
            added == single_use_can_add(old(self)@, token@),
            final(self)@ == if added {
                old(self)@.push(token@)
            } else {
                old(self)@
            },
    {
        proof {
            use_type_invariant(&*self);
        }
        if self.position_by_id(token.id).is_some() {
            return false;
        }
        if self.position_by_hash(&token.token_hash).is_some() {
            return false;
        }
        proof {
            lemma_first_index(self@, single_use_with_id(token.id));
            lemma_first_index(self@, single_use_with_hash(token.token_hash@));
        }
        let mut rows: Vec<SingleUseToken> = Vec::new();
        core::mem::swap(&mut self.rows, &mut rows);
        rows.push(token);
        assert(single_use_rows_view(rows@) =~= old(self)@.push(token@));
        self.rows = rows;
        true
    }

    /// Issues a token to an account: marks every unused token of the account
    /// as used and adds the new one, unless its id or its digest is taken.
    pub fn reissue(&mut self, token: SingleUseToken, now: i64) -> (issued: bool)
        ensures
            final(self).wf(),
            issued == single_use_reissue(old(self)@, token@, now) is Some,
            final(self)@ == match single_use_reissue(old(self)@, token@, now) {
                Some(rows) => rows,
                None => old(self)@,
            },
    {
        proof {
            use_type_invariant(&*self);
        }
        if self.position_by_id(token.id).is_some() {
            return false;
        }
        if self.position_by_hash(&token.token_hash).is_some() {
            return false;
        }
        self.invalidate_for_user(token.user_id, now);
        proof {
            use_type_invariant(&*self);
            lemma_first_index(old(self)@, single_use_with_id(token.id));
            lemma_first_index(old(self)@, single_use_with_hash(token.token_hash@));
            assert forall|j: int| 0 <= j < self@.len() implies self@[j].id != token.id
                && self@[j].token_hash != token.token_hash@ by {
                assert(self@[j].id == old(self)@[j].id);
                assert(self@[j].token_hash == old(self)@[j].token_hash);
                assert(!single_use_with_id(token.id)(old(self)@[j]));
                assert(!single_use_with_hash(token.token_hash@)(old(self)@[j]));
            }
        }
        let ghost pruned = self@;
        let mut rows: Vec<SingleUseToken> = Vec::new();
        core::mem::swap(&mut self.rows, &mut rows);
        rows.push(token);
        assert(single_use_rows_view(rows@) =~= pruned.push(token@));
        self.rows = rows;
        true
    }

    /// Marks the token with the given id as used if it is unused, and says
    /// whether it did.
    pub fn redeem(&mut self, id: u128, now: i64) -> (done: bool)
        ensures
            final(self).wf(),
            done == single_use_redeem_at(old(self)@, id) is Some,
            final(self)@ == match single_use_redeem_at(old(self)@, id) {
                Some(i) => old(self)@.update(i, used_record(old(self)@[i], now)),
                None => old(self)@,
            },
    {
        proof {
            use_type_invariant(&*self);
        }
        match self.position_by_id(id) {
            Some(k) => {
                if self.rows[k].used_at.is_none() {
                    let mut rows: Vec<SingleUseToken> = Vec::new();
                    core::mem::swap(&mut self.rows, &mut rows);
                    rows[k].used_at = Some(now);
                    assert(single_use_rows_view(rows@) =~= old(self)@.update(
                        k as int,
                        used_record(old(self)@[k as int], now),
                    ));
                    self.rows = rows;
                    true
                } else {
                    false
                }
            },
            None => false,
        }
    }

    /// Removes every token of an account.
    pub fn remove_for_user(&mut self, user_id: u128)
        ensures
            final(self).wf(),
            final(self)@ == old(self)@.filter(single_use_not_of(user_id)),
    {
        proof {
            use_type_invariant(&*self);
        }
        let ghost before = self@;
        let ghost keep = single_use_not_of(user_id);
        let mut kept: Vec<SingleUseToken> = Vec::new();
        let mut k: usize = 0;
        proof {
            assert(before.take(0) =~= Seq::<SingleUseTokenView>::empty());
            reveal(Seq::filter);
            assert(single_use_rows_view(kept@) =~= before.take(0).filter(keep));
        }
        while k < self.rows.len()
            invariant
                k <= self.rows.len(),
                self@ == before,
                single_use_wf(before),
                keep == single_use_not_of(user_id),
                single_use_rows_view(kept@) == before.take(k as int).filter(keep),
                single_use_wf(single_use_rows_view(kept@)),
                forall|j: int, m: int|
                    0 <= j < kept.len() && k <= m < before.len() ==> (
                    #[trigger] single_use_rows_view(kept@)[j]).id != (#[trigger] before[m]).id
                        && single_use_rows_view(kept@)[j].token_hash != before[m].token_hash,
            decreases self.rows.len() - k,
        {
            let ghost earlier = single_use_rows_view(kept@);
            if self.rows[k].user_id != user_id {
                kept.push(self.rows[k].clone());
                assert(single_use_rows_view(kept@) =~= earlier.push(before[k as int]));
            }
            proof {
                before.take(k as int).lemma_filter_push(before[k as int], keep);
                assert(before.take(k + 1) =~= before.take(k as int).push(before[k as int]));
            }
            k = k + 1;
        }
        assert(before.take(before.len() as int) =~= before);
        self.rows = kept;
    }

    /// Marks every unused token of an account as used, so that none issued
    /// before can be redeemed.
    pub fn invalidate_for_user(&mut self, user_id: u128, now: i64)
        ensures
            final(self).wf(),
            final(self)@ == use_owned(old(self)@, user_id, now),
    {
        proof {
            use_type_invariant(&*self);
        }
        let ghost before = self@;
        let mut rows: Vec<SingleUseToken> = Vec::new();
        core::mem::swap(&mut self.rows, &mut rows);
        let mut k: usize = 0;
        while k < rows.len()
            invariant
                k <= rows.len(),
                single_use_rows_view(rows@).len() == before.len(),
                forall|j: int|
                    0 <= j < k ==> single_use_rows_view(rows@)[j] == use_owned(
                        before,
                        user_id,
                        now,
                    )[j],
                forall|j: int|
                    k <= j < before.len() ==> single_use_rows_view(rows@)[j] == before[j],
            decreases rows.len() - k,
        {
            let ghost earlier = single_use_rows_view(rows@);
            if rows[k].user_id == user_id && rows[k].used_at.is_none() {
                rows[k].used_at = Some(now);
                assert(single_use_rows_view(rows@) =~= earlier.update(
                    k as int,
                    used_record(earlier[k as int], now),
                ));
            }
            assert(single_use_rows_view(rows@)[k as int] == use_owned(before, user_id, now)[k as int]);
            k = k + 1;
        }
        assert(single_use_rows_view(rows@) =~= use_owned(before, user_id, now));
        self.rows = rows;
    }
}

// ---------------------------------------------------------------------------
// The store
// ---------------------------------------------------------------------------
/// Everything the authentication core persists.
pub struct SecretStore {
    pub users: UserTable,
    pub refresh_tokens: RefreshTokenTable,
    pub password_resets: SingleUseTable,
    pub email_verifications: SingleUseTable,
}

/// The mathematical view of the store: the rows of its four tables.
pub struct StoreView {
    pub users: Seq<UserView>,
    pub refresh_tokens: Seq<RefreshTokenView>,
    pub password_resets: Seq<SingleUseTokenView>,
    pub email_verifications: Seq<SingleUseTokenView>,
}

impl StoreView {
    /// Every table keeps its keys unique.
    pub open spec fn wf(self) -> bool {
        &&& users_wf(self.users)
        &&& refresh_tokens_wf(self.refresh_tokens)
        &&& single_use_wf(self.password_resets)
        &&& single_use_wf(self.email_verifications)
    }
}

/// The store after the deletion of an account: the account is gone, and
/// with it every refresh token and every single-use token that it owned.
/// Where there is no such account, nothing changes.
pub open spec fn delete_user_model(store: StoreView, id: u128) -> StoreView {
    match first_index(store.users, user_with_id(id)) {
        Some(at) => StoreView {
            users: store.users.remove(at),
            refresh_tokens: store.refresh_tokens.filter(refresh_not_of(id)),
            password_resets: store.password_resets.filter(single_use_not_of(id)),
            email_verifications: store.email_verifications.filter(single_use_not_of(id)),
        },
        None => store,
    }
}

impl View for SecretStore {
    type V = StoreView;

    open spec fn view(&self) -> StoreView {
        StoreView {
            users: self.users@,
            refresh_tokens: self.refresh_tokens@,
            password_resets: self.password_resets@,
            email_verifications: self.email_verifications@,
        }
    }
}

impl SecretStore {
    /// Every table keeps its keys unique. Each table carries this as its
    /// type invariant, so it holds of every store.
    pub open spec fn wf(&self) -> bool {
        self@.wf()
    }

    /// States for a store at hand that its keys are unique.
    pub fn keys_are_unique(&self)
        ensures
            self.wf(),
    {
        proof {
            use_type_invariant(&self.users);
            use_type_invariant(&self.refresh_tokens);
            use_type_invariant(&self.password_resets);
            use_type_invariant(&self.email_verifications);
        }
    }

    /// Deletes an account and, with it, every token it owns. Says whether
    /// there was such an account.
    pub fn delete_user(&mut self, id: u128) -> (deleted: bool)
        ensures
            deleted == first_index(old(self)@.users, user_with_id(id)) is Some,
            final(self)@ == delete_user_model(old(self)@, id),
    {
        if !self.users.remove(id) {
            return false;
        }
        self.refresh_tokens.remove_for_user(id);
        self.password_resets.remove_for_user(id);
        self.email_verifications.remove_for_user(id);
        true
    }

    /// A store without any record.
    pub fn new() -> (store: Self)
        ensures
            store.wf(),
            store@.users.len() == 0,
            store@.refresh_tokens.len() == 0,
            store@.password_resets.len() == 0,
            store@.email_verifications.len() == 0,
    {
        SecretStore {
            users: UserTable::new(),
            refresh_tokens: RefreshTokenTable::new(),
            password_resets: SingleUseTable::new(),
            email_verifications: SingleUseTable::new(),
        }
    }
}

} // verus!
