//! Laws of the authentication core that relate several operations.

use crate::account::{forgot_password_model, reset_password_model, verify_email_model};
use crate::config::AuthConfig;
use crate::encoding::lowercase_of;
use crate::error::AuthError;
use crate::guard::{after_failed_attempt, after_successful_login};
use crate::hasher::password_matches;
use crate::lookup::{
    first_index, lemma_first_index, lemma_first_index_absent, lemma_first_index_push,
    lemma_first_index_same,
};
use crate::models::{spec_time_after, SingleUseTokenView, UserStatus, UserView};
use crate::responses::ForgotPasswordResponse;
use crate::session::{issue_model, login_model, logout_model, refresh_model, EntropyView};
use crate::store::{
    refresh_revoke_at, refresh_with_id, revoke_owned, revoked_record, single_use_reissue,
    single_use_with_hash, used_record, user_with_email, user_with_id, StoreView,
};
use crate::token::{refresh_statement_check, refresh_token_parts, token_digest};
use vstd::prelude::*;

verus! {

// ---------------------------------------------------------------------------
// Rotation and reuse detection
// ---------------------------------------------------------------------------
/// Every refresh token of an account is revoked.
pub open spec fn all_revoked_for(store: StoreView, user_id: u128) -> bool {
    forall|j: int|
        0 <= j < store.refresh_tokens.len() && (#[trigger] store.refresh_tokens[j]).user_id
            == user_id ==> store.refresh_tokens[j].is_revoked()
}

/// Rotation. A refresh that succeeds revokes the token it was given, at
/// once, and links it to its successor. When the same token is presented
/// again while its signed statement is still honoured, the answer is that the
/// token is revoked, and every refresh token of the account is revoked with
/// it, the successor too, though it was never misused.
pub proof fn law_refresh_rotation(
    store: StoreView,
    config: &AuthConfig,
    token: Seq<char>,
    first_ip: Option<Seq<char>>,
    first_agent: Option<Seq<char>>,
    first_time: i64,
    first_entropy: EntropyView,
    second_ip: Option<Seq<char>>,
    second_agent: Option<Seq<char>>,
    second_time: i64,
    second_entropy: EntropyView,
)
    requires
        store.wf(),
        refresh_model(
            store,
            config,
            token,
            first_ip,
            first_agent,
            first_time,
            first_entropy,
        ).1 is Ok,
        refresh_statement_check(config, refresh_token_parts(token).unwrap().0, second_time, true) is Ok,
    ensures
        ({
            let rotated = refresh_model(
                store,
                config,
                token,
                first_ip,
                first_agent,
                first_time,
                first_entropy,
            ).0;
            let again = refresh_model(
                rotated,
                config,
                token,
                second_ip,
                second_agent,
                second_time,
                second_entropy,
            );
            let claims = refresh_statement_check(
                config,
                refresh_token_parts(token).unwrap().0,
                first_time,
                true,
            ).unwrap();
            let at = first_index(store.refresh_tokens, refresh_with_id(claims.tid)).unwrap();
            &&& rotated.refresh_tokens.len() == store.refresh_tokens.len() + 1
            &&& rotated.refresh_tokens[at].is_revoked()
            &&& rotated.refresh_tokens[at].replaced_by == Some(first_entropy.id)
            &&& rotated.refresh_tokens.last().id == first_entropy.id
            &&& rotated.refresh_tokens.last().user_id == claims.sub
            &&& !rotated.refresh_tokens.last().is_revoked()
            &&& again.1 == Err::<crate::responses::TokenResponseView, AuthError>(
                AuthError::TokenRevoked,
            )
            &&& all_revoked_for(again.0, claims.sub)
            &&& again.0.refresh_tokens.last().is_revoked()
        }),
{
    let parts = refresh_token_parts(token).unwrap();
    let statement = parts.0;
    let secret = parts.1;
    let claims = refresh_statement_check(config, statement, first_time, true).unwrap();
    let later = refresh_statement_check(config, statement, second_time, true).unwrap();
    assert(later == claims);
    lemma_first_index(store.refresh_tokens, refresh_with_id(claims.tid));
    let at = first_index(store.refresh_tokens, refresh_with_id(claims.tid)).unwrap();
    let record = store.refresh_tokens[at];
    lemma_first_index(store.users, user_with_id(claims.sub));
    let owner = first_index(store.users, user_with_id(claims.sub)).unwrap();
    let issued = issue_model(
        store,
        config,
        store.users[owner],
        first_ip,
        first_agent,
        first_time,
        first_entropy,
    ).0;
    let added = issued.refresh_tokens.last();
    assert(issued.refresh_tokens == store.refresh_tokens.push(added));
    let rotated = refresh_model(
        store,
        config,
        token,
        first_ip,
        first_agent,
        first_time,
        first_entropy,
    ).0;
    let spent = revoked_record(record, first_time, Some(first_entropy.id));
    assert(rotated.refresh_tokens == issued.refresh_tokens.update(at, spent));
    lemma_first_index_push(store.refresh_tokens, added, refresh_with_id(claims.tid));
    assert forall|j: int| 0 <= j < issued.refresh_tokens.len() implies refresh_with_id(claims.tid)(
        #[trigger] issued.refresh_tokens[j],
    ) == refresh_with_id(claims.tid)(#[trigger] rotated.refresh_tokens[j]) by {}
    lemma_first_index_same(
        issued.refresh_tokens,
        rotated.refresh_tokens,
        refresh_with_id(claims.tid),
    );
    assert(first_index(rotated.refresh_tokens, refresh_with_id(claims.tid)) == Some(at));
    assert(rotated.refresh_tokens[at] == spent);
    let again = refresh_model(
        rotated,
        config,
        token,
        second_ip,
        second_agent,
        second_time,
        second_entropy,
    );
    assert(again.0.refresh_tokens == revoke_owned(
        rotated.refresh_tokens,
        claims.sub,
        second_time,
    ));
    assert(rotated.refresh_tokens.last() == added);
}

/// Logout is idempotent: a second logout with the same token succeeds and
/// changes nothing.
pub proof fn law_logout_idempotent(
    store: StoreView,
    config: &AuthConfig,
    token: Seq<char>,
    first_time: i64,
    second_time: i64,
)
    requires
        store.wf(),
        logout_model(store, config, token, first_time).1 is Ok,
    ensures
        ({
            let once = logout_model(store, config, token, first_time).0;
            logout_model(once, config, token, second_time) == (once, Ok::<(), AuthError>(()))
        }),
{
    let statement = refresh_token_parts(token).unwrap().0;
    let claims = refresh_statement_check(config, statement, first_time, false).unwrap();
    assert(refresh_statement_check(config, statement, second_time, false) == Ok::<
        crate::token::RefreshTokenClaimsView,
        AuthError,
    >(claims));
    let once = logout_model(store, config, token, first_time).0;
    lemma_first_index(store.refresh_tokens, refresh_with_id(claims.tid));
    match refresh_revoke_at(store.refresh_tokens, claims.tid) {
        Some(at) => {
            assert forall|j: int| 0 <= j < store.refresh_tokens.len() implies refresh_with_id(
                claims.tid,
            )(#[trigger] store.refresh_tokens[j]) == refresh_with_id(claims.tid)(
                #[trigger] once.refresh_tokens[j],
            ) by {}
            lemma_first_index_same(
                store.refresh_tokens,
                once.refresh_tokens,
                refresh_with_id(claims.tid),
            );
            assert(once.refresh_tokens[at].revoked_at is Some);
        },
        None => {},
    }
}

// ---------------------------------------------------------------------------
// Who may authenticate
// ---------------------------------------------------------------------------
/// An account can authenticate only while it is active and not locked: a
/// login that succeeds was for an account that could log in at that time,
/// with a password that its digest accepts.
pub proof fn law_login_requires_good_standing(
    store: StoreView,
    config: &AuthConfig,
    email: Seq<char>,
    password: Seq<char>,
    ip: Option<Seq<char>>,
    user_agent: Option<Seq<char>>,
    now: i64,
    entropy: EntropyView,
)
    requires
        login_model(store, config, email, password, ip, user_agent, now, entropy).1 is Ok,
    ensures
        first_index(store.users, user_with_email(lowercase_of(email))) is Some,
        ({
            let user = store.users[first_index(
                store.users,
                user_with_email(lowercase_of(email)),
            ).unwrap()];
            user.can_login(now) && password_matches(password, user.password_hash)
        }),
{
}

/// A refresh token is honoured only while its record is valid: a refresh
/// that succeeds was for a record that was unrevoked and unexpired, that
/// held the digest of the presented secret, and whose account could log in.
pub proof fn law_refresh_requires_valid_record(
    store: StoreView,
    config: &AuthConfig,
    token: Seq<char>,
    ip: Option<Seq<char>>,
    user_agent: Option<Seq<char>>,
    now: i64,
    entropy: EntropyView,
)
    requires
        refresh_model(store, config, token, ip, user_agent, now, entropy).1 is Ok,
    ensures
        refresh_token_parts(token) is Some,
        refresh_statement_check(config, refresh_token_parts(token).unwrap().0, now, true) is Ok,
        ({
            let parts = refresh_token_parts(token).unwrap();
            let claims = refresh_statement_check(config, parts.0, now, true).unwrap();
            let at = first_index(store.refresh_tokens, refresh_with_id(claims.tid));
            let owner = first_index(store.users, user_with_id(claims.sub));
            &&& at is Some
            &&& owner is Some
            &&& store.refresh_tokens[at.unwrap()].is_valid(now)
            &&& store.refresh_tokens[at.unwrap()].token_hash == token_digest(parts.1)
            &&& store.refresh_tokens[at.unwrap()].user_id == claims.sub
            &&& store.users[owner.unwrap()].can_login(now)
        }),
{
}

/// Revocation is final: no refresh and no logout changes a record that is
/// revoked already, and every record stays in its place.
pub proof fn law_revocation_is_final(
    store: StoreView,
    config: &AuthConfig,
    token: Seq<char>,
    ip: Option<Seq<char>>,
    user_agent: Option<Seq<char>>,
    now: i64,
    entropy: EntropyView,
    at: int,
)
    requires
        0 <= at < store.refresh_tokens.len(),
        store.refresh_tokens[at].is_revoked(),
    ensures
        ({
            let refreshed = refresh_model(store, config, token, ip, user_agent, now, entropy).0;
            let left = logout_model(store, config, token, now).0;
            &&& at < refreshed.refresh_tokens.len()
            &&& refreshed.refresh_tokens[at] == store.refresh_tokens[at]
            &&& at < left.refresh_tokens.len()
            &&& left.refresh_tokens[at] == store.refresh_tokens[at]
        }),
{
    let refreshed = refresh_model(store, config, token, ip, user_agent, now, entropy).0;
    if refresh_token_parts(token) is Some {
        let parts = refresh_token_parts(token).unwrap();
        if refresh_statement_check(config, parts.0, now, true) is Ok {
            let claims = refresh_statement_check(config, parts.0, now, true).unwrap();
            lemma_first_index(store.refresh_tokens, refresh_with_id(claims.tid));
        }
        if refresh_statement_check(config, parts.0, now, false) is Ok {
            let claims = refresh_statement_check(config, parts.0, now, false).unwrap();
            lemma_first_index(store.refresh_tokens, refresh_with_id(claims.tid));
        }
    }
}

// ---------------------------------------------------------------------------
// Lockout
// ---------------------------------------------------------------------------
/// The store after one login attempt at each of the given times, in order,
/// all for the same email and with the same password.
pub open spec fn after_attempts(
    store: StoreView,
    config: &AuthConfig,
    email: Seq<char>,
    password: Seq<char>,
    times: Seq<i64>,
    entropy: EntropyView,
) -> StoreView
    decreases times.len(),
{
    if times.len() == 0 {
        store
    } else {
        login_model(
            after_attempts(store, config, email, password, times.drop_last(), entropy),
            config,
            email,
            password,
            None,
            None,
            times.last(),
            entropy,
        ).0
    }
}

/// Attempts with a wrong password on an active account that is not locked
/// and has no failure counted, up to the threshold: each one is counted, the
/// account stays unlocked below the threshold and is locked from the last
/// attempt on once the threshold is reached, and nothing else changes.
pub proof fn lemma_failures_count(
    store: StoreView,
    config: &AuthConfig,
    email: Seq<char>,
    wrong: Seq<char>,
    times: Seq<i64>,
    entropy: EntropyView,
)
    requires
        first_index(store.users, user_with_email(lowercase_of(email))) is Some,
        ({
            let user = store.users[first_index(
                store.users,
                user_with_email(lowercase_of(email)),
            ).unwrap()];
            &&& user.status == UserStatus::Active
            &&& user.failed_login_attempts == 0
            &&& user.locked_until is None
            &&& !password_matches(wrong, user.password_hash)
        }),
        times.len() <= config.max_login_attempts,
    ensures
        ({
            let at = first_index(store.users, user_with_email(lowercase_of(email))).unwrap();
            let after = after_attempts(store, config, email, wrong, times, entropy);
            &&& 0 <= at < store.users.len()
            &&& after.users.len() == store.users.len()
            &&& first_index(after.users, user_with_email(lowercase_of(email))) == Some(at)
            &&& after.users[at].status == UserStatus::Active
            &&& after.users[at].password_hash == store.users[at].password_hash
            &&& after.users[at].failed_login_attempts == times.len()
            &&& after.users[at].locked_until == if 0 < times.len()
                == config.max_login_attempts {
                Some(spec_time_after(times.last(), config.lockout_duration))
            } else {
                None
            }
            &&& after.refresh_tokens == store.refresh_tokens
            &&& after.password_resets == store.password_resets
            &&& after.email_verifications == store.email_verifications
        }),
    decreases times.len(),
{
    let wanted = user_with_email(lowercase_of(email));
    lemma_first_index(store.users, wanted);
    let at = first_index(store.users, wanted).unwrap();
    if times.len() > 0 {
        let earlier = times.drop_last();
        lemma_failures_count(store, config, email, wrong, earlier, entropy);
        let before = after_attempts(store, config, email, wrong, earlier, entropy);
        let user = before.users[at];
        assert(user.locked_until is None);
        let after = after_attempts(store, config, email, wrong, times, entropy);
        assert(after.users == before.users.update(
            at,
            after_failed_attempt(user, config, times.last()),
        ));
        assert forall|j: int| 0 <= j < before.users.len() implies wanted(
            #[trigger] before.users[j],
        ) == wanted(#[trigger] after.users[j]) by {}
        lemma_first_index_same(before.users, after.users, wanted);
    }
}

/// Lockout. Take an active account that is not locked and has no failure
/// counted, and as many attempts in a row with a wrong password as the
/// threshold allows. Then the account is locked for the lockout duration
/// from the last of them: until that time a login is refused as locked even
/// with the right password, and changes nothing. From that time on a login
/// with the right password passes the guard: it succeeds wherever the
/// tokens can be issued, and then the failure counter is back at zero and
/// the lockout is cleared.
pub proof fn law_lockout(
    store: StoreView,
    config: &AuthConfig,
    email: Seq<char>,
    wrong: Seq<char>,
    right: Seq<char>,
    times: Seq<i64>,
    entropy: EntropyView,
    ip: Option<Seq<char>>,
    user_agent: Option<Seq<char>>,
    now: i64,
    last_entropy: EntropyView,
)
    requires
        first_index(store.users, user_with_email(lowercase_of(email))) is Some,
        ({
            let user = store.users[first_index(
                store.users,
                user_with_email(lowercase_of(email)),
            ).unwrap()];
            &&& user.status == UserStatus::Active
            &&& user.failed_login_attempts == 0
            &&& user.locked_until is None
            &&& !password_matches(wrong, user.password_hash)
            &&& password_matches(right, user.password_hash)
        }),
        0 < times.len() == config.max_login_attempts,
    ensures
        ({
            let at = first_index(store.users, user_with_email(lowercase_of(email))).unwrap();
            let locked = after_attempts(store, config, email, wrong, times, entropy);
            let until = spec_time_after(times.last(), config.lockout_duration);
            let outcome = login_model(
                locked,
                config,
                email,
                right,
                ip,
                user_agent,
                now,
                last_entropy,
            );
            let welcomed = after_successful_login(locked.users[at], now, ip);
            &&& locked.users[at].failed_login_attempts == config.max_login_attempts
            &&& locked.users[at].locked_until == Some(until)
            &&& now < until ==> outcome == (
                locked,
                Err::<crate::responses::AuthResponseView, AuthError>(AuthError::AccountLocked),
            )
            &&& now >= until ==> (outcome.1 is Ok <==> issue_model(
                locked,
                config,
                welcomed,
                ip,
                user_agent,
                now,
                last_entropy,
            ).1 is Ok)
            &&& now >= until && outcome.1 is Ok ==> outcome.0.users[at].failed_login_attempts == 0
                && outcome.0.users[at].locked_until is None
        }),
{
    lemma_failures_count(store, config, email, wrong, times, entropy);
}

// ---------------------------------------------------------------------------
// Single-use tokens
// ---------------------------------------------------------------------------
/// A reset token can be redeemed once. After a reset that succeeded, a
/// second reset with the same token fails as an invalid token and changes
/// nothing, whatever password it asks for.
pub proof fn law_reset_token_single_use(
    store: StoreView,
    config: &AuthConfig,
    token: Seq<char>,
    first_password: Seq<char>,
    first_confirm: Seq<char>,
    first_time: i64,
    first_entropy: EntropyView,
    second_password: Seq<char>,
    second_confirm: Seq<char>,
    second_time: i64,
    second_entropy: EntropyView,
)
    requires
        store.wf(),
        reset_password_model(
            store,
            config,
            token,
            first_password,
            first_confirm,
            first_time,
            first_entropy,
        ).1 is Ok,
    ensures
        ({
            let spent = reset_password_model(
                store,
                config,
                token,
                first_password,
                first_confirm,
                first_time,
                first_entropy,
            ).0;
            reset_password_model(
                spent,
                config,
                token,
                second_password,
                second_confirm,
                second_time,
                second_entropy,
            ) == (spent, Err::<(), AuthError>(AuthError::InvalidToken))
        }),
{
    let wanted = single_use_with_hash(token_digest(token));
    lemma_first_index(store.password_resets, wanted);
    let at = first_index(store.password_resets, wanted).unwrap();
    let spent = reset_password_model(
        store,
        config,
        token,
        first_password,
        first_confirm,
        first_time,
        first_entropy,
    ).0;
    assert(spent.password_resets == store.password_resets.update(
        at,
        used_record(store.password_resets[at], first_time),
    ));
    assert forall|j: int| 0 <= j < store.password_resets.len() implies wanted(
        #[trigger] store.password_resets[j],
    ) == wanted(#[trigger] spent.password_resets[j]) by {}
    lemma_first_index_same(store.password_resets, spent.password_resets, wanted);
    assert(spent.password_resets[at].used_at is Some);
}

/// A verification token can be redeemed once. After a verification that
/// succeeded, a second one with the same token fails as an invalid token and
/// changes nothing.
pub proof fn law_verification_token_single_use(
    store: StoreView,
    token: Seq<char>,
    first_time: i64,
    second_time: i64,
)
    requires
        store.wf(),
        verify_email_model(store, token, first_time).1 is Ok,
    ensures
        ({
            let spent = verify_email_model(store, token, first_time).0;
            &&& verify_email_model(spent, token, second_time).0 == spent
            &&& verify_email_model(spent, token, second_time).1 is Err
            &&& verify_email_model(spent, token, second_time).1->Err_0 == AuthError::InvalidToken
        }),
{
    let wanted = single_use_with_hash(token_digest(token));
    lemma_first_index(store.email_verifications, wanted);
    let at = first_index(store.email_verifications, wanted).unwrap();
    let spent = verify_email_model(store, token, first_time).0;
    assert(spent.email_verifications == store.email_verifications.update(
        at,
        used_record(store.email_verifications[at], first_time),
    ));
    assert forall|j: int| 0 <= j < store.email_verifications.len() implies wanted(
        #[trigger] store.email_verifications[j],
    ) == wanted(#[trigger] spent.email_verifications[j]) by {}
    lemma_first_index_same(store.email_verifications, spent.email_verifications, wanted);
    assert(spent.email_verifications[at].used_at is Some);
}

/// A new single-use token supersedes the old ones of its purpose: once a
/// token has been issued to an account, no token that the account held
/// before can be redeemed, at any time, while the tokens of other accounts
/// stay as they were.
pub proof fn law_reissue_invalidates(
    rows: Seq<SingleUseTokenView>,
    token: SingleUseTokenView,
    now: i64,
    earlier: int,
    later: i64,
)
    requires
        single_use_reissue(rows, token, now) is Some,
        0 <= earlier < rows.len(),
    ensures
        ({
            let reissued = single_use_reissue(rows, token, now).unwrap();
            &&& reissued.len() == rows.len() + 1
            &&& reissued.last() == token
            &&& rows[earlier].user_id == token.user_id ==> !reissued[earlier].is_usable(later)
            &&& rows[earlier].user_id != token.user_id ==> reissued[earlier] == rows[earlier]
        }),
{
}

// ---------------------------------------------------------------------------
// Anti-enumeration
// ---------------------------------------------------------------------------
/// What a caller is told after a request for a password reset.
pub open spec fn forgot_password_message(outcome: Result<Seq<char>, AuthError>) -> Seq<char> {
    match outcome {
        Ok(_) => ForgotPasswordResponse::neutral_message(),
        Err(e) => e.spec_safe_message(),
    }
}

/// A request for a password reset succeeds for an email that no account
/// has, changes nothing then, and tells the caller the same as it does for
/// an email that an account has.
pub proof fn law_forgot_password_neutral(
    store: StoreView,
    config: &AuthConfig,
    known: Seq<char>,
    unknown: Seq<char>,
    now: i64,
    known_entropy: EntropyView,
    unknown_entropy: EntropyView,
)
    requires
        first_index(store.users, user_with_email(lowercase_of(known))) is Some,
        first_index(store.users, user_with_email(lowercase_of(unknown))) is None,
        forgot_password_model(store, config, known, now, known_entropy).1 is Ok,
    ensures
        forgot_password_model(store, config, unknown, now, unknown_entropy) == (
            store,
            Ok::<Seq<char>, AuthError>(Seq::empty()),
        ),
        forgot_password_message(forgot_password_model(store, config, known, now, known_entropy).1)
            == forgot_password_message(
            forgot_password_model(store, config, unknown, now, unknown_entropy).1,
        ),
{
}

// ---------------------------------------------------------------------------
// Ownership
// ---------------------------------------------------------------------------
/// Whether an account has the id.
pub open spec fn has_account(users: Seq<UserView>, id: u128) -> bool {
    first_index(users, user_with_id(id)) is Some
}

/// Every refresh token and every single-use token belongs to an account of
/// the store.
pub open spec fn every_token_owned(store: StoreView) -> bool {
    &&& forall|j: int|
        0 <= j < store.refresh_tokens.len() ==> has_account(
            store.users,
            (#[trigger] store.refresh_tokens[j]).user_id,
        )
    &&& forall|j: int|
        0 <= j < store.password_resets.len() ==> has_account(
            store.users,
            (#[trigger] store.password_resets[j]).user_id,
        )
    &&& forall|j: int|
        0 <= j < store.email_verifications.len() ==> has_account(
            store.users,
            (#[trigger] store.email_verifications[j]).user_id,
        )
}

/// The account at a position is an account of the store.
pub proof fn lemma_has_account(users: Seq<UserView>, at: int)
    requires
        0 <= at < users.len(),
    ensures
        has_account(users, users[at].id),
{
    lemma_first_index(users, user_with_id(users[at].id));
    if first_index(users, user_with_id(users[at].id)) is None {
        assert(!user_with_id(users[at].id)(users[at]));
    }
}

/// Accounts that keep their ids and their places stay accounts of the store,
/// whatever else changes and whichever accounts are added.
pub proof fn lemma_accounts_kept(before: Seq<UserView>, after: Seq<UserView>, id: u128)
    requires
        before.len() <= after.len(),
        forall|j: int| 0 <= j < before.len() ==> (#[trigger] after[j]).id == before[j].id,
        has_account(before, id),
    ensures
        has_account(after, id),
{
    lemma_first_index(before, user_with_id(id));
    let at = first_index(before, user_with_id(id)).unwrap();
    assert(after[at].id == id);
    lemma_has_account(after, at);
}

/// The tables of two stores hold the same tokens for the same accounts, but
/// for tokens added at the end of the second for accounts that it has.
pub open spec fn tokens_carried_over(before: StoreView, after: StoreView) -> bool {
    &&& before.users.len() <= after.users.len()
    &&& forall|j: int|
        0 <= j < before.users.len() ==> (#[trigger] after.users[j]).id == before.users[j].id
    &&& before.refresh_tokens.len() <= after.refresh_tokens.len()
    &&& forall|j: int|
        0 <= j < before.refresh_tokens.len() ==> (#[trigger] after.refresh_tokens[j]).user_id
            == before.refresh_tokens[j].user_id && after.refresh_tokens[j].id
            == before.refresh_tokens[j].id
    &&& forall|j: int|
        before.refresh_tokens.len() <= j < after.refresh_tokens.len() ==> has_account(
            after.users,
            (#[trigger] after.refresh_tokens[j]).user_id,
        )
    &&& before.password_resets.len() <= after.password_resets.len()
    &&& forall|j: int|
        0 <= j < before.password_resets.len() ==> (#[trigger] after.password_resets[j]).user_id
            == before.password_resets[j].user_id && after.password_resets[j].id
            == before.password_resets[j].id
    &&& forall|j: int|
        before.password_resets.len() <= j < after.password_resets.len() ==> has_account(
            after.users,
            (#[trigger] after.password_resets[j]).user_id,
        )
    &&& before.email_verifications.len() <= after.email_verifications.len()
    &&& forall|j: int|
        0 <= j < before.email_verifications.len() ==> (
        #[trigger] after.email_verifications[j]).user_id == before.email_verifications[j].user_id
            && after.email_verifications[j].id == before.email_verifications[j].id
    &&& forall|j: int|
        before.email_verifications.len() <= j < after.email_verifications.len() ==> has_account(
            after.users,
            (#[trigger] after.email_verifications[j]).user_id,
        )
}

/// Where every token is owned and the tokens are carried over, every token
/// is owned afterwards.
pub proof fn lemma_ownership_carried_over(before: StoreView, after: StoreView)
    requires
        every_token_owned(before),
        tokens_carried_over(before, after),
    ensures
        every_token_owned(after),
{
    assert forall|j: int| 0 <= j < after.refresh_tokens.len() implies has_account(
        after.users,
        (#[trigger] after.refresh_tokens[j]).user_id,
    ) by {
        if j < before.refresh_tokens.len() {
            assert(has_account(before.users, before.refresh_tokens[j].user_id));
            lemma_accounts_kept(before.users, after.users, before.refresh_tokens[j].user_id);
        }
    }
    assert forall|j: int| 0 <= j < after.password_resets.len() implies has_account(
        after.users,
        (#[trigger] after.password_resets[j]).user_id,
    ) by {
        if j < before.password_resets.len() {
            assert(has_account(before.users, before.password_resets[j].user_id));
            lemma_accounts_kept(before.users, after.users, before.password_resets[j].user_id);
        }
    }
    assert forall|j: int| 0 <= j < after.email_verifications.len() implies has_account(
        after.users,
        (#[trigger] after.email_verifications[j]).user_id,
    ) by {
        if j < before.email_verifications.len() {
            assert(has_account(before.users, before.email_verifications[j].user_id));
            lemma_accounts_kept(
                before.users,
                after.users,
                before.email_verifications[j].user_id,
            );
        }
    }
}

/// Sessions keep ownership: after a login, a refresh or a logout every
/// account is still there under its id, every token is the token of the
/// account it was issued to, and a token that was added belongs to an
/// account of the store.
pub proof fn law_sessions_keep_ownership(
    store: StoreView,
    config: &AuthConfig,
    email: Seq<char>,
    password: Seq<char>,
    token: Seq<char>,
    ip: Option<Seq<char>>,
    user_agent: Option<Seq<char>>,
    now: i64,
    entropy: EntropyView,
)
    requires
        every_token_owned(store),
    ensures
        tokens_carried_over(
            store,
            login_model(store, config, email, password, ip, user_agent, now, entropy).0,
        ),
        tokens_carried_over(
            store,
            refresh_model(store, config, token, ip, user_agent, now, entropy).0,
        ),
        tokens_carried_over(store, logout_model(store, config, token, now).0),
        every_token_owned(
            login_model(store, config, email, password, ip, user_agent, now, entropy).0,
        ),
        every_token_owned(refresh_model(store, config, token, ip, user_agent, now, entropy).0),
        every_token_owned(logout_model(store, config, token, now).0),
{
    let logged_in = login_model(store, config, email, password, ip, user_agent, now, entropy).0;
    let wanted = user_with_email(lowercase_of(email));
    lemma_first_index(store.users, wanted);
    if first_index(store.users, wanted) is Some {
        let at = first_index(store.users, wanted).unwrap();
        lemma_has_account(store.users, at);
        lemma_accounts_kept(store.users, logged_in.users, store.users[at].id);
    }
    assert(tokens_carried_over(store, logged_in));
    lemma_ownership_carried_over(store, logged_in);

    let refreshed = refresh_model(store, config, token, ip, user_agent, now, entropy).0;
    let left = logout_model(store, config, token, now).0;
    if refresh_token_parts(token) is Some {
        let parts = refresh_token_parts(token).unwrap();
        if refresh_statement_check(config, parts.0, now, true) is Ok {
            let claims = refresh_statement_check(config, parts.0, now, true).unwrap();
            lemma_first_index(store.refresh_tokens, refresh_with_id(claims.tid));
            lemma_first_index(store.users, user_with_id(claims.sub));
        }
        if refresh_statement_check(config, parts.0, now, false) is Ok {
            let claims = refresh_statement_check(config, parts.0, now, false).unwrap();
            lemma_first_index(store.refresh_tokens, refresh_with_id(claims.tid));
        }
    }
    assert(tokens_carried_over(store, refreshed));
    lemma_ownership_carried_over(store, refreshed);
    assert(tokens_carried_over(store, left));
    lemma_ownership_carried_over(store, left);
}

/// Operations on accounts keep ownership: after a registration, a change of
/// password, a request for a reset, a reset, the issue of a verification
/// token or a verification, every account is still there under its id,
/// every token is the token of the account it was issued to, and a token
/// that was added belongs to an account of the store.
pub proof fn law_accounts_keep_ownership(
    store: StoreView,
    config: &AuthConfig,
    email: Seq<char>,
    password: Seq<char>,
    password_confirm: Seq<char>,
    name: Seq<char>,
    current_password: Seq<char>,
    user_id: u128,
    token: Seq<char>,
    now: i64,
    entropy: EntropyView,
)
    requires
        every_token_owned(store),
    ensures
        every_token_owned(
            crate::account::register_model(
                store,
                config,
                email,
                password,
                password_confirm,
                name,
                now,
                entropy,
            ).0,
        ),
        every_token_owned(
            crate::account::change_password_model(
                store,
                config,
                user_id,
                current_password,
                password,
                password_confirm,
                now,
                entropy,
            ).0,
        ),
        every_token_owned(forgot_password_model(store, config, email, now, entropy).0),
        every_token_owned(
            reset_password_model(store, config, token, password, password_confirm, now, entropy).0,
        ),
        every_token_owned(
            crate::account::create_email_verification_model(store, config, user_id, now, entropy).0,
        ),
        every_token_owned(verify_email_model(store, token, now).0),
{
    let registered = crate::account::register_model(
        store,
        config,
        email,
        password,
        password_confirm,
        name,
        now,
        entropy,
    ).0;
    assert(tokens_carried_over(store, registered));
    lemma_ownership_carried_over(store, registered);

    let changed = crate::account::change_password_model(
        store,
        config,
        user_id,
        current_password,
        password,
        password_confirm,
        now,
        entropy,
    ).0;
    lemma_first_index(store.users, user_with_id(user_id));
    assert(tokens_carried_over(store, changed));
    lemma_ownership_carried_over(store, changed);

    let asked = forgot_password_model(store, config, email, now, entropy).0;
    let by_email = user_with_email(lowercase_of(email));
    lemma_first_index(store.users, by_email);
    if first_index(store.users, by_email) is Some {
        lemma_has_account(store.users, first_index(store.users, by_email).unwrap());
    }
    assert(tokens_carried_over(store, asked));
    lemma_ownership_carried_over(store, asked);

    let reset = reset_password_model(
        store,
        config,
        token,
        password,
        password_confirm,
        now,
        entropy,
    ).0;
    let by_hash = single_use_with_hash(token_digest(token));
    lemma_first_index(store.password_resets, by_hash);
    if first_index(store.password_resets, by_hash) is Some {
        let record = store.password_resets[first_index(store.password_resets, by_hash).unwrap()];
        lemma_first_index(store.users, user_with_id(record.user_id));
    }
    assert(tokens_carried_over(store, reset));
    lemma_ownership_carried_over(store, reset);

    let issued = crate::account::create_email_verification_model(
        store,
        config,
        user_id,
        now,
        entropy,
    ).0;
    assert(tokens_carried_over(store, issued));
    lemma_ownership_carried_over(store, issued);

    let verified = verify_email_model(store, token, now).0;
    lemma_first_index(store.email_verifications, by_hash);
    if first_index(store.email_verifications, by_hash) is Some {
        let record = store.email_verifications[first_index(
            store.email_verifications,
            by_hash,
        ).unwrap()];
        lemma_first_index(store.users, user_with_id(record.user_id));
    }
    assert(tokens_carried_over(store, verified));
    lemma_ownership_carried_over(store, verified);
}

/// Deletion cascades: once an account is deleted, no account has its id,
/// no token is left that it owned, and every token that is left still
/// belongs to an account of the store.
pub proof fn law_deletion_cascades(store: StoreView, id: u128)
    requires
        store.wf(),
        every_token_owned(store),
    ensures
        ({
            let after = crate::store::delete_user_model(store, id);
            &&& !has_account(after.users, id)
            &&& has_account(store.users, id) ==> forall|j: int|
                0 <= j < after.refresh_tokens.len() ==> (#[trigger] after.refresh_tokens[j]).user_id
                    != id
            &&& has_account(store.users, id) ==> forall|j: int|
                0 <= j < after.password_resets.len() ==> (#[trigger] after.password_resets[j]).user_id
                    != id
            &&& has_account(store.users, id) ==> forall|j: int|
                0 <= j < after.email_verifications.len() ==> (
                #[trigger] after.email_verifications[j]).user_id != id
            &&& every_token_owned(after)
        }),
{
    let after = crate::store::delete_user_model(store, id);
    lemma_first_index(store.users, user_with_id(id));
    if first_index(store.users, user_with_id(id)) is Some {
        let at = first_index(store.users, user_with_id(id)).unwrap();
        assert forall|j: int| 0 <= j < after.users.len() implies !user_with_id(id)(
            #[trigger] after.users[j],
        ) by {
            let from = if j < at {
                j
            } else {
                j + 1
            };
            assert(after.users[j] == store.users[from]);
        }
        lemma_first_index_absent(after.users, user_with_id(id));
        assert forall|other: u128| other != id && has_account(store.users, other) implies has_account(
            after.users,
            other,
        ) by {
            lemma_first_index(store.users, user_with_id(other));
            let was = first_index(store.users, user_with_id(other)).unwrap();
            let now_at = if was < at {
                was
            } else {
                was - 1
            };
            assert(after.users[now_at] == store.users[was]);
            lemma_has_account(after.users, now_at);
        }
        let refresh_kept = crate::store::refresh_not_of(id);
        let single_kept = crate::store::single_use_not_of(id);
        assert forall|j: int| 0 <= j < after.refresh_tokens.len() implies (
        #[trigger] after.refresh_tokens[j]).user_id != id && has_account(
            after.users,
            after.refresh_tokens[j].user_id,
        ) by {
            store.refresh_tokens.lemma_filter_pred(refresh_kept, j);
            assert(after.refresh_tokens.contains(after.refresh_tokens[j]));
            store.refresh_tokens.lemma_filter_contains_rev(refresh_kept, after.refresh_tokens[j]);
            let from = choose|m: int|
                0 <= m < store.refresh_tokens.len() && store.refresh_tokens[m]
                    == after.refresh_tokens[j];
            assert(has_account(store.users, store.refresh_tokens[from].user_id));
        }
        assert forall|j: int| 0 <= j < after.password_resets.len() implies (
        #[trigger] after.password_resets[j]).user_id != id && has_account(
            after.users,
            after.password_resets[j].user_id,
        ) by {
            store.password_resets.lemma_filter_pred(single_kept, j);
            assert(after.password_resets.contains(after.password_resets[j]));
            store.password_resets.lemma_filter_contains_rev(single_kept, after.password_resets[j]);
            let from = choose|m: int|
                0 <= m < store.password_resets.len() && store.password_resets[m]
                    == after.password_resets[j];
            assert(has_account(store.users, store.password_resets[from].user_id));
        }
        assert forall|j: int| 0 <= j < after.email_verifications.len() implies (
        #[trigger] after.email_verifications[j]).user_id != id && has_account(
            after.users,
            after.email_verifications[j].user_id,
        ) by {
            store.email_verifications.lemma_filter_pred(single_kept, j);
            assert(after.email_verifications.contains(after.email_verifications[j]));
            store.email_verifications.lemma_filter_contains_rev(
                single_kept,
                after.email_verifications[j],
            );
            let from = choose|m: int|
                0 <= m < store.email_verifications.len() && store.email_verifications[m]
                    == after.email_verifications[j];
            assert(has_account(store.users, store.email_verifications[from].user_id));
        }
    }
}

} // verus!
