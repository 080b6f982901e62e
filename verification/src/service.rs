//! The authentication service: the public operations over a secret store.

use crate::config::AuthConfig;
use crate::encoding::{lowercase_of, to_lowercase};
use crate::guard::{after_failed_attempt, after_successful_login, record_failure, record_success};
use crate::lookup::{first_index, lemma_first_index};
use crate::models::{text_view, User};
use crate::store::{
    refresh_revoke_at, revoke_owned, revoked_record, user_with_email, user_with_id, SecretStore,
    StoreView,
};
use vstd::prelude::*;

verus! {

/// The authentication service. It holds the configuration and no other
/// state: every record lives in the store that an operation is given.
pub struct AuthService {
    config: AuthConfig,
}

impl AuthService {
    /// The configuration the service was made with.
    pub closed spec fn spec_config(&self) -> &AuthConfig {
        &self.config
    }

    pub fn new(config: AuthConfig) -> (service: Self)
        ensures
            *service.config() == config,
    {
        AuthService { config }
    }

    #[verifier::when_used_as_spec(spec_config)]
    pub fn config(&self) -> (config: &AuthConfig)
        ensures
            config == self.config(),
    {
        &self.config
    }

    /// The account with an email, compared without regard to case.
    pub fn find_user_by_email(&self, store: &SecretStore, email: &str) -> (found: Option<User>)
        ensures
            match first_index(store@.users, user_with_email(lowercase_of(email@))) {
                Some(at) => found matches Some(user) && user@ == store@.users[at],
                None => found is None,
            },
    {
        let lower = to_lowercase(email);
        store.users.find_by_email(lower.as_str())
    }

    /// The account with an id.
    pub fn find_user_by_id(&self, store: &SecretStore, id: u128) -> (found: Option<User>)
        ensures
            match first_index(store@.users, user_with_id(id)) {
                Some(at) => found matches Some(user) && user@ == store@.users[at],
                None => found is None,
            },
    {
        store.users.find_by_id(id)
    }

    /// Counts a failed password check against an account, and locks the
    /// account once the threshold is reached. Says whether there is such an
    /// account.
    pub fn increment_failed_attempts(&self, store: &mut SecretStore, user_id: u128, now: i64) -> (found:
        bool)
        ensures
            found == first_index(old(store)@.users, user_with_id(user_id)) is Some,
            final(store)@ == match first_index(old(store)@.users, user_with_id(user_id)) {
                Some(at) => StoreView {
                    users: old(store)@.users.update(
                        at,
                        after_failed_attempt(old(store)@.users[at], self.config(), now),
                    ),
                    ..old(store)@
                },
                None => old(store)@,
            },
    {
        proof {
            lemma_first_index(store@.users, user_with_id(user_id));
        }
        match store.users.find_by_id(user_id) {
            Some(user) => {
                let kept = store.users.replace(record_failure(user, &self.config, now));
                assert(kept);
                true
            },
            None => false,
        }
    }

    /// Records a successful login of an account: the failure counter is
    /// reset and the lockout cleared together with the time and address of
    /// the login. Says whether there is such an account.
    pub fn record_successful_login(
        &self,
        store: &mut SecretStore,
        user_id: u128,
        ip: Option<String>,
        now: i64,
    ) -> (found: bool)
        ensures
            found == first_index(old(store)@.users, user_with_id(user_id)) is Some,
            final(store)@ == match first_index(old(store)@.users, user_with_id(user_id)) {
                Some(at) => StoreView {
                    users: old(store)@.users.update(
                        at,
                        after_successful_login(old(store)@.users[at], now, text_view(ip)),
                    ),
                    ..old(store)@
                },
                None => old(store)@,
            },
    {
        proof {
            lemma_first_index(store@.users, user_with_id(user_id));
        }
        match store.users.find_by_id(user_id) {
            Some(user) => {
                let kept = store.users.replace(record_success(user, now, ip));
                assert(kept);
                true
            },
            None => false,
        }
    }

    /// Revokes one refresh token if it is not revoked yet, and says whether
    /// it did.
    pub fn revoke_refresh_token(
        &self,
        store: &mut SecretStore,
        token_id: u128,
        replaced_by: Option<u128>,
        now: i64,
    ) -> (done: bool)
        ensures
            done == refresh_revoke_at(old(store)@.refresh_tokens, token_id) is Some,
            final(store)@ == match refresh_revoke_at(old(store)@.refresh_tokens, token_id) {
                Some(at) => StoreView {
                    refresh_tokens: old(store)@.refresh_tokens.update(
                        at,
                        revoked_record(old(store)@.refresh_tokens[at], now, replaced_by),
                    ),
                    ..old(store)@
                },
                None => old(store)@,
            },
    {
        store.refresh_tokens.revoke(token_id, now, replaced_by)
    }

    /// Revokes every refresh token of an account that is not revoked yet.
    pub fn revoke_all_user_tokens(&self, store: &mut SecretStore, user_id: u128, now: i64)
        ensures
            final(store)@ == (StoreView {
                refresh_tokens: revoke_owned(old(store)@.refresh_tokens, user_id, now),
                ..old(store)@
            }),
    {
        store.refresh_tokens.revoke_all_for_user(user_id, now);
    }
}

} // verus!
