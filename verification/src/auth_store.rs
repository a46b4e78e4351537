//! The authoritative identity and session state.
//!
//! The store owns every `Identity` and `Session` record.  Its well-formedness
//! invariant — unique usernames, unique ids, and referential integrity from
//! sessions to identities — is what the service layer's guarantees rest on.

use vstd::prelude::*;

verus! {

/// A registered principal: opaque unique id, unique human-chosen username,
/// and an opaque credential hash compared only by equality.
#[derive(Clone, Debug)]
pub struct Identity {
    pub id: String,
    pub username: String,
    pub pass_hash: String,
}

/// Ghost image of an [`Identity`].
#[verifier::ext_equal]
pub struct IdentityView {
    pub id: Seq<char>,
    pub username: Seq<char>,
    pub pass_hash: Seq<char>,
}

impl View for Identity {
    type V = IdentityView;

    open spec fn view(&self) -> IdentityView {
        IdentityView { id: self.id@, username: self.username@, pass_hash: self.pass_hash@ }
    }
}

/// A session: opaque unique id, owning identity, and an absolute expiry
/// timestamp in whole seconds since the Unix epoch.
#[derive(Clone, Debug)]
pub struct Session {
    pub id: String,
    pub user_id: String,
    pub expiry: i64,
}

/// Ghost image of a [`Session`].
#[verifier::ext_equal]
pub struct SessionView {
    pub id: Seq<char>,
    pub user_id: Seq<char>,
    pub expiry: int,
}

impl View for Session {
    type V = SessionView;

    open spec fn view(&self) -> SessionView {
        SessionView { id: self.id@, user_id: self.user_id@, expiry: self.expiry as int }
    }
}

/// The authoritative store of identities and sessions.
#[derive(Clone, Debug)]
pub struct AuthStore {
    pub identities: Vec<Identity>,
    pub sessions: Vec<Session>,
}

/// Ghost image of an [`AuthStore`].
#[verifier::ext_equal]
pub struct AuthStoreView {
    pub identities: Seq<IdentityView>,
    pub sessions: Seq<SessionView>,
}

impl View for AuthStore {
    type V = AuthStoreView;

    open spec fn view(&self) -> AuthStoreView {
        AuthStoreView {
            identities: self.identities@.map_values(|x: Identity| x@),
            sessions: self.sessions@.map_values(|x: Session| x@),
        }
    }
}

impl AuthStoreView {
    /// Some identity has this username.
    pub open spec fn has_username(self, username: Seq<char>) -> bool {
        exists|i: int|
            0 <= i < self.identities.len() && (#[trigger] self.identities[i]).username == username
    }

    /// Some identity has this id.
    pub open spec fn has_identity_id(self, id: Seq<char>) -> bool {
        exists|i: int| 0 <= i < self.identities.len() && (#[trigger] self.identities[i]).id == id
    }

    /// Some identity carries exactly this credential pair.
    pub open spec fn has_credentials(self, username: Seq<char>, pass_hash: Seq<char>) -> bool {
        exists|i: int|
            0 <= i < self.identities.len() && (#[trigger] self.identities[i]).username == username
                && self.identities[i].pass_hash == pass_hash
    }

    /// Some session has this id.
    pub open spec fn has_session(self, session_id: Seq<char>) -> bool {
        exists|i: int|
            0 <= i < self.sessions.len() && (#[trigger] self.sessions[i]).id == session_id
    }

    /// Index of the identity with this id; meaningful when `has_identity_id`
    /// holds.
    pub open spec fn identity_index(self, id: Seq<char>) -> int {
        choose|i: int| 0 <= i < self.identities.len() && (#[trigger] self.identities[i]).id == id
    }

    /// The identity with this id; meaningful when `has_identity_id` holds.
    pub open spec fn identity_with_id(self, id: Seq<char>) -> IdentityView {
        self.identities[self.identity_index(id)]
    }

    /// Index of the session with this id; meaningful when `has_session`
    /// holds.
    pub open spec fn session_index(self, session_id: Seq<char>) -> int {
        choose|i: int|
            0 <= i < self.sessions.len() && (#[trigger] self.sessions[i]).id == session_id
    }

    /// The session with this id; meaningful when `has_session` holds.
    pub open spec fn session_with_id(self, session_id: Seq<char>) -> SessionView {
        self.sessions[self.session_index(session_id)]
    }

    /// A session with this id exists and has not yet expired at `now`.  The
    /// boundary instant counts as expired.
    pub open spec fn session_live(self, session_id: Seq<char>, now: int) -> bool {
        self.has_session(session_id) && now < self.session_with_id(session_id).expiry
    }

    /// The username of the identity that owns the session with this id.
    pub open spec fn session_owner_username(self, session_id: Seq<char>) -> Seq<char> {
        self.identity_with_id(self.session_with_id(session_id).user_id).username
    }

    /// Well-formedness: usernames are unique, identity ids are unique,
    /// session ids are unique, and every session references an existing
    /// identity.
    pub open spec fn wf(self) -> bool {
        &&& forall|i: int, j: int|
            0 <= i < j < self.identities.len()
                ==> (#[trigger] self.identities[i]).username
                != (#[trigger] self.identities[j]).username
        &&& forall|i: int, j: int|
            0 <= i < j < self.identities.len()
                ==> (#[trigger] self.identities[i]).id != (#[trigger] self.identities[j]).id
        &&& forall|i: int, j: int|
            0 <= i < j < self.sessions.len()
                ==> (#[trigger] self.sessions[i]).id != (#[trigger] self.sessions[j]).id
        &&& forall|i: int|
            0 <= i < self.sessions.len()
                ==> self.has_identity_id((#[trigger] self.sessions[i]).user_id)
    }
}

impl AuthStore {
    /// An empty store: no identities, no sessions.
    pub fn new() -> (s: AuthStore)
        ensures
            s@.wf(),
            s@.identities.len() == 0,
            s@.sessions.len() == 0,
    {
        AuthStore { identities: Vec::new(), sessions: Vec::new() }
    }

    /// Index of the identity with this username, if one exists.
    pub fn find_username(&self, username: &String) -> (r: Option<usize>)
        ensures
            r matches Some(i) ==> i < self@.identities.len()
                && self@.identities[i as int].username == username@,
            r is Some ==> self@.has_username(username@),
            r is None ==> !self@.has_username(username@),
    {
        let mut i: usize = 0;
        while i < self.identities.len()
            invariant
                i <= self.identities.len(),
                forall|k: int| 0 <= k < i ==> (#[trigger] self@.identities[k]).username != username@,
            decreases self.identities.len() - i,
        {
            if self.identities[i].username == *username {
                proof {
                    assert(self@.identities[i as int].username == username@);
                }
                return Some(i);
            }
            i += 1;
        }
        None
    }

    /// Index of the identity whose username and credential hash both match,
    /// if one exists.
    pub fn find_credentials(&self, username: &String, pass_hash: &String) -> (r: Option<usize>)
        ensures
            r matches Some(i) ==> i < self@.identities.len()
                && self@.identities[i as int].username == username@
                && self@.identities[i as int].pass_hash == pass_hash@,
            r is Some ==> self@.has_credentials(username@, pass_hash@),
            r is None ==> !self@.has_credentials(username@, pass_hash@),
    {
        let mut i: usize = 0;
        while i < self.identities.len()
            invariant
                i <= self.identities.len(),
                forall|k: int|
                    0 <= k < i ==> !((#[trigger] self@.identities[k]).username == username@
                        && self@.identities[k].pass_hash == pass_hash@),
            decreases self.identities.len() - i,
        {
            let ident = &self.identities[i];
            if ident.username == *username && ident.pass_hash == *pass_hash {
                proof {
                    assert(self@.identities[i as int].username == username@
                        && self@.identities[i as int].pass_hash == pass_hash@);
                }
                return Some(i);
            }
            i += 1;
        }
        None
    }

    /// Index of the identity with this id, if one exists.  Under the
    /// invariant the index is the one `identity_index` denotes.
    pub fn find_identity_id(&self, id: &String) -> (r: Option<usize>)
        requires
            self@.wf(),
        ensures
            r matches Some(i) ==> i < self@.identities.len()
                && self@.identities[i as int].id == id@
                && self@.has_identity_id(id@)
                && self@.identity_index(id@) == i as int
                && self@.identity_with_id(id@) == self@.identities[i as int],
            r is None ==> !self@.has_identity_id(id@),
    {
        let mut i: usize = 0;
        while i < self.identities.len()
            invariant
                self@.wf(),
                i <= self.identities.len(),
                forall|k: int| 0 <= k < i ==> (#[trigger] self@.identities[k]).id != id@,
            decreases self.identities.len() - i,
        {
            if self.identities[i].id == *id {
                proof {
                    assert(self@.identities[i as int].id == id@);
                    assert(self@.has_identity_id(id@));
                    let j = self@.identity_index(id@);
                    assert(0 <= j < self@.identities.len() && self@.identities[j].id == id@);
                    assert(j == i as int) by {
                        if j < i as int {
                            assert(self@.identities[j].id != self@.identities[i as int].id);
                        } else if j > i as int {
                            assert(self@.identities[i as int].id != self@.identities[j].id);
                        }
                    }
                }
                return Some(i);
            }
            i += 1;
        }
        None
    }

    /// Index of the session with this id, if one exists.  Under the
    /// invariant the index is the one `session_index` denotes.
    pub fn find_session(&self, session_id: &String) -> (r: Option<usize>)
        requires
            self@.wf(),
        ensures
            r matches Some(i) ==> i < self@.sessions.len()
                && self@.sessions[i as int].id == session_id@
                && self@.has_session(session_id@)
                && self@.session_index(session_id@) == i as int
                && self@.session_with_id(session_id@) == self@.sessions[i as int],
            r is None ==> !self@.has_session(session_id@),
    {
        let mut i: usize = 0;
        while i < self.sessions.len()
            invariant
                self@.wf(),
                i <= self.sessions.len(),
                forall|k: int| 0 <= k < i ==> (#[trigger] self@.sessions[k]).id != session_id@,
            decreases self.sessions.len() - i,
        {
            if self.sessions[i].id == *session_id {
                proof {
                    assert(self@.sessions[i as int].id == session_id@);
                    assert(self@.has_session(session_id@));
                    let j = self@.session_index(session_id@);
                    assert(0 <= j < self@.sessions.len() && self@.sessions[j].id == session_id@);
                    assert(j == i as int) by {
                        if j < i as int {
                            assert(self@.sessions[j].id != self@.sessions[i as int].id);
                        } else if j > i as int {
                            assert(self@.sessions[i as int].id != self@.sessions[j].id);
                        }
                    }
                }
                return Some(i);
            }
            i += 1;
        }
        None
    }

    /// Appends a new identity.  The caller has already checked that both the
    /// username and the id are unused.
    pub fn add_identity(&mut self, ident: Identity)
        requires
            old(self)@.wf(),
            !old(self)@.has_username(ident@.username),
            !old(self)@.has_identity_id(ident@.id),
        ensures
            final(self)@.wf(),
            final(self)@.identities == old(self)@.identities.push(ident@),
            final(self)@.sessions == old(self)@.sessions,
    {
        let ghost pre = self@;
        let ghost v = ident@;
        self.identities.push(ident);
        proof {
            assert(self@.identities =~= pre.identities.push(v));
            assert(self@.sessions =~= pre.sessions);
            let n = pre.identities.len() as int;
            assert forall|i: int, j: int| 0 <= i < j < self@.identities.len()
                implies (#[trigger] self@.identities[i]).username
                    != (#[trigger] self@.identities[j]).username by {
                if j == n {
                    assert(self@.identities[i] == pre.identities[i]);
                    assert(!pre.has_username(v.username));
                }
            }
            assert forall|i: int, j: int| 0 <= i < j < self@.identities.len()
                implies (#[trigger] self@.identities[i]).id
                    != (#[trigger] self@.identities[j]).id by {
                if j == n {
                    assert(self@.identities[i] == pre.identities[i]);
                    assert(!pre.has_identity_id(v.id));
                }
            }
            assert forall|i: int| 0 <= i < self@.sessions.len()
                implies self@.has_identity_id((#[trigger] self@.sessions[i]).user_id) by {
                assert(pre.has_identity_id(pre.sessions[i].user_id));
                let k = choose|k: int|
                    0 <= k < pre.identities.len()
                        && (#[trigger] pre.identities[k]).id == pre.sessions[i].user_id;
                assert(self@.identities[k].id == self@.sessions[i].user_id);
            }
        }
    }

    /// Appends a new session.  The caller has already checked that the id is
    /// unused and that the owning identity exists.
    pub fn add_session(&mut self, session: Session)
        requires
            old(self)@.wf(),
            !old(self)@.has_session(session@.id),
            old(self)@.has_identity_id(session@.user_id),
        ensures
            final(self)@.wf(),
            final(self)@.sessions == old(self)@.sessions.push(session@),
            final(self)@.identities == old(self)@.identities,
    {
        let ghost pre = self@;
        let ghost v = session@;
        self.sessions.push(session);
        proof {
            assert(self@.sessions =~= pre.sessions.push(v));
            assert(self@.identities =~= pre.identities);
            let n = pre.sessions.len() as int;
            assert forall|i: int, j: int| 0 <= i < j < self@.sessions.len()
                implies (#[trigger] self@.sessions[i]).id != (#[trigger] self@.sessions[j]).id by {
                if j == n {
                    assert(self@.sessions[i] == pre.sessions[i]);
                    assert(!pre.has_session(v.id));
                }
            }
            assert forall|i: int| 0 <= i < self@.sessions.len()
                implies self@.has_identity_id((#[trigger] self@.sessions[i]).user_id) by {
                if i < n {
                    assert(pre.has_identity_id(pre.sessions[i].user_id));
                } else {
                    assert(pre.has_identity_id(v.user_id));
                }
            }
        }
    }
}

} // verus!
