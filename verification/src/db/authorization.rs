//! The user authorizations of the main partition.

use vstd::prelude::*;
use vstd::string::*;
use crate::time::{instant_after, latest_or, TimeSpan};
use crate::web::auth::{AuthorizationModel, TwitchUserAccessToken, UserAuthorization};

verus! {

/// The authorizations that a list of rows stands for, by access token; of
/// two rows with one token the later one counts.
pub open spec fn authorizations_by_token(rows: Seq<UserAuthorization>) -> Map<
    Seq<char>,
    AuthorizationModel,
>
    decreases rows.len(),
{
    if rows.len() == 0 {
        Map::empty()
    } else {
        authorizations_by_token(rows.drop_last()).insert(rows.last().access_token@, rows.last()@)
    }
}

/// No access token occurs twice in the list.
pub open spec fn tokens_distinct(rows: Seq<UserAuthorization>) -> bool {
    forall|i: int, j: int|
        0 <= i < j < rows.len() ==> rows[i].access_token@ != rows[j].access_token@
}

/// What a lookup of `access_token` at `now` finds: the authorization under
/// that token, unless it has expired.
pub open spec fn found_authorization(
    table: Map<Seq<char>, AuthorizationModel>,
    access_token: Seq<char>,
    now: i64,
) -> Option<AuthorizationModel> {
    if table.contains_key(access_token) && table[access_token].valid_until >= now {
        Some(table[access_token])
    } else {
        None
    }
}

/// The table after an update: the row under the authorization's token holds
/// the authorization; where there is no such row nothing changes.
pub open spec fn updated_authorizations(
    table: Map<Seq<char>, AuthorizationModel>,
    authorization: AuthorizationModel,
) -> Map<Seq<char>, AuthorizationModel> {
    if table.contains_key(authorization.access_token) {
        table.insert(authorization.access_token, authorization)
    } else {
        table
    }
}

/// In a list without repeated tokens, the map holds a token exactly where
/// some row has it, and then with that row.
pub proof fn lemma_authorizations_lookup(rows: Seq<UserAuthorization>, access_token: Seq<char>)
    requires
        tokens_distinct(rows),
    ensures
        authorizations_by_token(rows).contains_key(access_token) <==> exists|i: int|
            0 <= i < rows.len() && rows[i].access_token@ == access_token,
        forall|i: int|
            0 <= i < rows.len() && rows[i].access_token@ == access_token
                ==> authorizations_by_token(rows)[access_token] == rows[i]@,
    decreases rows.len(),
{
    if rows.len() > 0 {
        let front = rows.drop_last();
        lemma_authorizations_lookup(front, access_token);
        assert forall|i: int| 0 <= i < front.len() implies front[i] == rows[i] by {}
        if rows.last().access_token@ == access_token {
            assert(rows[rows.len() - 1].access_token@ == access_token);
            assert forall|i: int|
                0 <= i < rows.len() && rows[i].access_token@ == access_token implies i
                == rows.len() - 1 by {}
        } else {
            if exists|i: int| 0 <= i < rows.len() && rows[i].access_token@ == access_token {
                let i = choose|i: int| 0 <= i < rows.len() && rows[i].access_token@ == access_token;
                assert(front[i].access_token@ == access_token);
            }
            if authorizations_by_token(front).contains_key(access_token) {
                let i = choose|i: int|
                    0 <= i < front.len() && front[i].access_token@ == access_token;
                assert(rows[i].access_token@ == access_token);
            }
            assert forall|i: int|
                0 <= i < rows.len() && rows[i].access_token@
                    == access_token implies authorizations_by_token(rows)[access_token]
                == rows[i]@ by {
                assert(front[i].access_token@ == access_token);
            }
        }
    }
}

/// Writing a row over the one with the same token changes the map as an
/// insertion under that token does.
pub proof fn lemma_authorizations_update(
    rows: Seq<UserAuthorization>,
    at: int,
    row: UserAuthorization,
)
    requires
        tokens_distinct(rows),
        0 <= at < rows.len(),
        rows[at].access_token@ == row.access_token@,
    ensures
        tokens_distinct(rows.update(at, row)),
        authorizations_by_token(rows.update(at, row)) == authorizations_by_token(rows).insert(
            row.access_token@,
            row@,
        ),
    decreases rows.len(),
{
    let updated = rows.update(at, row);
    if at == rows.len() - 1 {
        assert(updated.drop_last() == rows.drop_last());
        assert(authorizations_by_token(updated) =~= authorizations_by_token(rows).insert(
            row.access_token@,
            row@,
        ));
    } else {
        let front = rows.drop_last();
        lemma_authorizations_update(front, at, row);
        assert(updated.drop_last() == front.update(at, row));
        assert(updated.last() == rows.last());
        assert(rows[rows.len() - 1].access_token@ != rows[at].access_token@);
        assert(authorizations_by_token(updated) =~= authorizations_by_token(rows).insert(
            row.access_token@,
            row@,
        ));
    }
}

/// Taking a row out of a list without repeated tokens takes its token out
/// of the map.
pub proof fn lemma_authorizations_remove(rows: Seq<UserAuthorization>, at: int)
    requires
        tokens_distinct(rows),
        0 <= at < rows.len(),
    ensures
        tokens_distinct(rows.remove(at)),
        authorizations_by_token(rows.remove(at)) == authorizations_by_token(rows).remove(
            rows[at].access_token@,
        ),
    decreases rows.len(),
{
    let removed = rows.remove(at);
    let front = rows.drop_last();
    if at == rows.len() - 1 {
        assert(removed =~= front);
        lemma_authorizations_lookup(front, rows[at].access_token@);
        assert(authorizations_by_token(removed) =~= authorizations_by_token(rows).remove(
            rows[at].access_token@,
        ));
    } else {
        lemma_authorizations_remove(front, at);
        assert(removed.drop_last() =~= front.remove(at));
        assert(removed.last() == rows.last());
        assert(rows[rows.len() - 1].access_token@ != rows[at].access_token@);
        assert(authorizations_by_token(removed) =~= authorizations_by_token(rows).remove(
            rows[at].access_token@,
        ));
    }
}

/// The user authorizations of the main partition, one row for each access
/// token.
#[derive(Debug, Clone)]
pub struct AuthorizationTable {
    pub rows: Vec<UserAuthorization>,
}

impl View for AuthorizationTable {
    type V = Map<Seq<char>, AuthorizationModel>;

    open spec fn view(&self) -> Map<Seq<char>, AuthorizationModel> {
        authorizations_by_token(self.rows@)
    }
}

impl AuthorizationTable {
    /// The invariant of the table: no access token occurs twice.
    pub open spec fn wf(&self) -> bool {
        tokens_distinct(self.rows@)
    }

    /// A table without rows.
    pub fn new() -> (table: Self)
        ensures
            table.wf(),
            table@ == Map::<Seq<char>, AuthorizationModel>::empty(),
    {
        AuthorizationTable { rows: Vec::new() }
    }

    fn find(&self, access_token: &String) -> (found: Option<usize>)
        requires
            self.wf(),
        ensures
            match found {
                Some(i) => i < self.rows.len() && self.rows[i as int].access_token@
                    == access_token@ && self@.contains_key(access_token@)
                    && self@[access_token@] == self.rows[i as int]@,
                None => !self@.contains_key(access_token@),
            },
    {
        let mut i: usize = 0;
        while i < self.rows.len()
            invariant
                i <= self.rows.len(),
                self.wf(),
                forall|j: int| 0 <= j < i ==> self.rows[j].access_token@ != access_token@,
            decreases self.rows.len() - i,
        {
            if self.rows[i].access_token == *access_token {
                proof {
                    lemma_authorizations_lookup(self.rows@, access_token@);
                }
                return Some(i);
            }
            i = i + 1;
        }
        proof {
            lemma_authorizations_lookup(self.rows@, access_token@);
        }
        None
    }

    /// Adds a new authorization. An access token can be stored once: where
    /// the token is taken, nothing is added and the answer is `false`.
    pub fn append_user_authorization(&mut self, user_authorization: UserAuthorization) -> (added:
        bool)
        requires
            old(self).wf(),
        ensures
            final(self).wf(),
            added == !old(self)@.contains_key(user_authorization.access_token@),
            final(self)@ == if added {
                old(self)@.insert(user_authorization.access_token@, user_authorization@)
            } else {
                old(self)@
            },
    {
        match self.find(&user_authorization.access_token) {
            Some(_) => false,
            None => {
                proof {
                    lemma_authorizations_lookup(self.rows@, user_authorization.access_token@);
                    assert(self.rows@.push(user_authorization).drop_last() == self.rows@);
                }
                self.rows.push(user_authorization);
                true
            },
        }
    }

    /// Looks an access token up at `now`. A token that is not stored, or
    /// whose authorization has expired, is not found.
    pub fn get_user_authorization(&self, access_token: &String, now: i64) -> (found: Option<
        UserAuthorization,
    >)
        requires
            self.wf(),
        ensures
            match found {
                Some(authorization) => found_authorization(self@, access_token@, now) == Some(
                    authorization@,
                ),
                None => found_authorization(self@, access_token@, now) is None,
            },
    {
        match self.find(access_token) {
            Some(i) => {
                if self.rows[i].valid_until >= now {
                    let row = &self.rows[i];
                    Some(
                        UserAuthorization {
                            access_token: row.access_token.clone(),
                            twitch_token: TwitchUserAccessToken {
                                access_token: row.twitch_token.access_token.clone(),
                                refresh_token: row.twitch_token.refresh_token.clone(),
                            },
                            twitch_authorization_last_validated: row.twitch_authorization_last_validated,
                            valid_until: row.valid_until,
                            user_id: row.user_id.clone(),
                            user_login: row.user_login.clone(),
                            user_name: row.user_name.clone(),
                            user_profile_image_url: row.user_profile_image_url.clone(),
                        },
                    )
                } else {
                    None
                }
            },
            None => None,
        }
    }

    /// Writes an authorization over the row with its access token, and
    /// tells whether there was such a row.
    pub fn update_user_authorization(&mut self, user_authorization: UserAuthorization) -> (updated:
        bool)
        requires
            old(self).wf(),
        ensures
            final(self).wf(),
            updated == old(self)@.contains_key(user_authorization.access_token@),
            final(self)@ == updated_authorizations(old(self)@, user_authorization@),
    {
        match self.find(&user_authorization.access_token) {
            Some(i) => {
                proof {
                    lemma_authorizations_update(self.rows@, i as int, user_authorization);
                }
                self.rows.set(i, user_authorization);
                true
            },
            None => false,
        }
    }

    /// Removes the authorization under an access token, and tells whether
    /// there was one.
    pub fn delete_user_authorization(&mut self, access_token: &String) -> (deleted: bool)
        requires
            old(self).wf(),
        ensures
            final(self).wf(),
            deleted == old(self)@.contains_key(access_token@),
            final(self)@ == old(self)@.remove(access_token@),
    {
        match self.find(access_token) {
            Some(i) => {
                proof {
                    lemma_authorizations_remove(self.rows@, i as int);
                }
                self.rows.remove(i);
                true
            },
            None => {
                assert(self@.remove(access_token@) =~= self@);
                false
            },
        }
    }
}

/// Authorization round-trip: a freshly created authorization is found; once
/// extended it is found with its new expiry, which is no earlier than the
/// instant of the extension; once revoked it is found at no instant, and an
/// extension that comes after the revocation changes nothing.
pub proof fn lemma_authorization_round_trip(
    table: Map<Seq<char>, AuthorizationModel>,
    created: AuthorizationModel,
    created_at: i64,
    extended_at: i64,
    sessions_expire_after: TimeSpan,
    asked_at: i64,
)
    requires
        !table.contains_key(created.access_token),
        created.valid_until == latest_or(instant_after(created_at as int, sessions_expire_after)),
        created_at <= extended_at <= created.valid_until,
    ensures
        ({
            let token = created.access_token;
            let extended = AuthorizationModel {
                valid_until: latest_or(instant_after(extended_at as int, sessions_expire_after)) as i64,
                ..created
            };
            let fresh = table.insert(token, created);
            let kept = updated_authorizations(fresh, extended);
            let revoked = kept.remove(token);
            &&& found_authorization(fresh, token, created_at) == Some(created)
            &&& found_authorization(fresh, token, extended_at) == Some(created)
            &&& found_authorization(kept, token, extended_at) == Some(extended)
            &&& extended.valid_until >= created.valid_until
            &&& extended.valid_until >= extended_at
            &&& found_authorization(revoked, token, asked_at) is None
            &&& updated_authorizations(revoked, extended) == revoked
        }),
{
}

/// Extending a token: where the record under a token is extended at `now`
/// and the new expiry can be written, the stored record is valid until
/// `now` and the life of a session, which is no earlier than before where
/// the old expiry was no later than that; a lookup finds the record with
/// every other field as it was.
pub proof fn lemma_extend_token(
    table: Map<Seq<char>, AuthorizationModel>,
    record: AuthorizationModel,
    now: i64,
    sessions_expire_after: TimeSpan,
)
    requires
        table.contains_key(record.access_token),
        table[record.access_token] == record,
        now + sessions_expire_after.millis <= i64::MAX,
        record.valid_until <= now + sessions_expire_after.millis,
    ensures
        ({
            let extended = AuthorizationModel {
                valid_until: latest_or(instant_after(now as int, sessions_expire_after)) as i64,
                ..record
            };
            let stored = updated_authorizations(table, extended);
            &&& extended.valid_until == now + sessions_expire_after.millis
            &&& extended.valid_until >= record.valid_until
            &&& found_authorization(stored, record.access_token, now) == Some(extended)
            &&& stored[record.access_token] == (AuthorizationModel {
                valid_until: (now + sessions_expire_after.millis) as i64,
                ..record
            })
            &&& forall|other: Seq<char>|
                other != record.access_token ==> stored.contains_key(other) == table.contains_key(
                    other,
                ) && (table.contains_key(other) ==> #[trigger] stored[other] == table[other])
        }),
{
}

} // verus!
