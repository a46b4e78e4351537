//! Credential verification, session issuance and per-request authorization.
//!
//! These functions orchestrate the [`AuthStore`]: they hold no state of
//! their own.  The variants that take an explicit `now` pin the clock, so
//! the lookup and the expiry comparison see the same instant; the variants
//! named after the caller-facing operations read the wall clock themselves.

use vstd::prelude::*;

use crate::auth_errors::AuthServiceError;
use crate::auth_models::{LoginRequest, User};
use crate::auth_store::{AuthStore, AuthStoreView, Identity, IdentityView, Session, SessionView};
use crate::clock::{expiry_from, utc_now_seconds, SESSION_DURATION_SECS};
use crate::ids::fresh_id;

verus! {

/// The store transition of issuing one session: identities unchanged, one
/// session record appended.
pub open spec fn issued_session(
    pre: AuthStoreView,
    post: AuthStoreView,
    user_id: Seq<char>,
    session_id: Seq<char>,
    expiry: int,
) -> bool {
    &&& post.identities == pre.identities
    &&& post.sessions == pre.sessions.push(SessionView { id: session_id, user_id, expiry })
}

/// The store transition of registering one user: one identity appended,
/// together with one session owned by it.
pub open spec fn registered_user(
    pre: AuthStoreView,
    post: AuthStoreView,
    username: Seq<char>,
    pass_hash: Seq<char>,
    user_id: Seq<char>,
    session_id: Seq<char>,
    expiry: int,
) -> bool {
    &&& post.identities == pre.identities.push(
        IdentityView { id: user_id, username, pass_hash },
    )
    &&& post.sessions == pre.sessions.push(SessionView { id: session_id, user_id, expiry })
}

/// Looks up the identity whose username and credential hash both match, by
/// exact equality, and returns its id.  A wrong username and a wrong hash
/// fail with the same error, so a caller cannot tell which part was wrong.
pub fn get_user_id(store: &AuthStore, name: String, pass: String) -> (r: Result<
    String,
    AuthServiceError,
>)
    requires
        store@.wf(),
    ensures
        r is Ok <==> store@.has_credentials(name@, pass@),
        r matches Ok(id) ==> exists|i: int|
            0 <= i < store@.identities.len()
                && (#[trigger] store@.identities[i]).username == name@
                && store@.identities[i].pass_hash == pass@
                && store@.identities[i].id == id@,
        r matches Ok(id) ==> forall|k: int|
            0 <= k < store@.identities.len()
                && (#[trigger] store@.identities[k]).username == name@
                ==> store@.identities[k].id == id@,
        r matches Err(e) ==> e is FailedToAuthenticate,
{
    match store.find_credentials(&name, &pass) {
        Some(i) => {
            let id = store.identities[i].id.clone();
            proof {
                assert(store@.identities[i as int].id == id@);
                assert forall|k: int|
                    0 <= k < store@.identities.len()
                        && (#[trigger] store@.identities[k]).username == name@
                        implies store@.identities[k].id == id@ by {
                    if k < i as int {
                        assert(store@.identities[k].username
                            != store@.identities[i as int].username);
                    } else if k > i as int {
                        assert(store@.identities[i as int].username
                            != store@.identities[k].username);
                    }
                }
            }
            Ok(id)
        },
        None => Err(AuthServiceError::FailedToAuthenticate),
    }
}

/// Persists the session with the given id for the given identity at time
/// `now`, with expiry exactly two hours later, and returns the caller's
/// view of it.  Fails, changing nothing, exactly when the identity
/// reference is invalid or the session id is already taken.
pub fn create_session_with(
    store: &mut AuthStore,
    user_id: &String,
    name: String,
    session_id: String,
    now: i64,
) -> (r: Result<User, AuthServiceError>)
    requires
        old(store)@.wf(),
        now + SESSION_DURATION_SECS <= i64::MAX,
    ensures
        final(store)@.wf(),
        r is Ok <==> (old(store)@.has_identity_id(user_id@) && !old(store)@.has_session(
            session_id@,
        )),
        r matches Ok(u) ==> u.username@ == name@ && u.user_session@ == session_id@
            && issued_session(
            old(store)@,
            final(store)@,
            user_id@,
            session_id@,
            now + SESSION_DURATION_SECS,
        ),
        r is Err ==> final(store)@ == old(store)@,
        r matches Err(e) ==> e is FailedToAuthenticate,
{
    if store.find_identity_id(user_id).is_none() {
        return Err(AuthServiceError::FailedToAuthenticate);
    }
    if store.find_session(&session_id).is_some() {
        return Err(AuthServiceError::FailedToAuthenticate);
    }
    let expiry = expiry_from(now);
    let session = Session { id: session_id.clone(), user_id: user_id.clone(), expiry };
    let ghost srec = session@;
    store.add_session(session);
    proof {
        assert(srec =~= SessionView {
            id: session_id@,
            user_id: user_id@,
            expiry: now + SESSION_DURATION_SECS,
        });
    }
    Ok(User { username: name, user_session: session_id })
}

/// Issues a freshly drawn session id for the identity at time `now`.  The
/// id is random, so unconditional success cannot be promised; what is
/// promised is that an invalid identity reference always fails, that
/// failure changes nothing, that every success appends one session expiring
/// exactly two hours after `now` — and that issuance succeeds whenever no
/// stored session id has the drawn id's 36-character length, so no draw can
/// collide (a fresh store in particular).
pub fn create_session_at(store: &mut AuthStore, user_id: &String, name: String, now: i64) -> (r:
    Result<User, AuthServiceError>)
    requires
        old(store)@.wf(),
        now + SESSION_DURATION_SECS <= i64::MAX,
    ensures
        final(store)@.wf(),
        !old(store)@.has_identity_id(user_id@) ==> r is Err,
        (old(store)@.has_identity_id(user_id@) && (forall|i: int|
            0 <= i < old(store)@.sessions.len()
                ==> (#[trigger] old(store)@.sessions[i]).id.len() != 36)) ==> r is Ok,
        r matches Ok(u) ==> u.username@ == name@ && issued_session(
            old(store)@,
            final(store)@,
            user_id@,
            u.user_session@,
            now + SESSION_DURATION_SECS,
        ),
        r is Err ==> final(store)@ == old(store)@,
        r matches Err(e) ==> e is FailedToAuthenticate,
{
    let session_id = fresh_id();
    proof {
        if (forall|i: int|
            0 <= i < old(store)@.sessions.len()
                ==> (#[trigger] old(store)@.sessions[i]).id.len() != 36) {
            assert forall|i: int| 0 <= i < old(store)@.sessions.len()
                implies (#[trigger] old(store)@.sessions[i]).id != session_id@ by {
                assert(old(store)@.sessions[i].id.len() != 36);
            }
            assert(!old(store)@.has_session(session_id@));
        }
    }
    create_session_with(store, user_id, name, session_id, now)
}

/// Issues a session for the identity at the current wall-clock time.  The
/// expiry is two hours from the instant the clock supplied; a clock reading
/// too large to carry the duration is treated as a storage fault.
pub fn create_session_id(store: &mut AuthStore, user_id: String, name: String) -> (r: Result<
    User,
    AuthServiceError,
>)
    requires
        old(store)@.wf(),
    ensures
        final(store)@.wf(),
        !old(store)@.has_identity_id(user_id@) ==> r is Err,
        r matches Ok(u) ==> u.username@ == name@ && exists|expiry: int|
            #[trigger] issued_session(old(store)@, final(store)@, user_id@, u.user_session@, expiry),
        r is Err ==> final(store)@ == old(store)@,
        r matches Err(e) ==> e is FailedToAuthenticate || e is FailedToRegister,
{
    let now = utc_now_seconds();
    if now > i64::MAX - SESSION_DURATION_SECS {
        return Err(AuthServiceError::FailedToRegister);
    }
    create_session_at(store, &user_id, name, now)
}

/// Registers a user under the given identity and session ids at time `now`.
/// Succeeds — appending exactly one identity and one session — iff the
/// username is free and both ids are unused; any failure changes nothing.
pub fn register_user_with(
    store: &mut AuthStore,
    request: &LoginRequest,
    user_id: String,
    session_id: String,
    now: i64,
) -> (r: Result<User, AuthServiceError>)
    requires
        old(store)@.wf(),
        now + SESSION_DURATION_SECS <= i64::MAX,
    ensures
        final(store)@.wf(),
        r is Ok <==> (!old(store)@.has_username(request.username@) && !old(
            store,
        )@.has_identity_id(user_id@) && !old(store)@.has_session(session_id@)),
        r matches Ok(u) ==> u.username@ == request.username@ && u.user_session@ == session_id@
            && registered_user(
            old(store)@,
            final(store)@,
            request.username@,
            request.pass_hash@,
            user_id@,
            session_id@,
            now + SESSION_DURATION_SECS,
        ),
        r is Err ==> final(store)@ == old(store)@,
        r matches Err(e) ==> e is FailedToRegister,
{
    if store.find_username(&request.username).is_some() {
        return Err(AuthServiceError::FailedToRegister);
    }
    if store.find_identity_id(&user_id).is_some() {
        return Err(AuthServiceError::FailedToRegister);
    }
    if store.find_session(&session_id).is_some() {
        return Err(AuthServiceError::FailedToRegister);
    }
    let ident = Identity {
        id: user_id.clone(),
        username: request.username.clone(),
        pass_hash: request.pass_hash.clone(),
    };
    let ghost irec = ident@;
    let ghost pre = store@;
    store.add_identity(ident);
    proof {
        assert(irec =~= IdentityView {
            id: user_id@,
            username: request.username@,
            pass_hash: request.pass_hash@,
        });
        assert(store@.identities[pre.identities.len() as int].id == user_id@);
        assert(store@.has_identity_id(user_id@));
    }
    match create_session_with(store, &user_id, request.username.clone(), session_id, now) {
        Ok(u) => Ok(u),
        Err(_) => Err(AuthServiceError::FailedToRegister),
    }
}

/// Registers a user at time `now` with freshly drawn ids.  A taken username
/// always fails with `FailedToRegister`; any failure leaves the store
/// unchanged; every success appends the identity and one session expiring
/// exactly two hours after `now`.  Registration succeeds whenever the
/// username is free and no stored id — identity or session — has the drawn
/// ids' 36-character length, so no draw can collide (a fresh store in
/// particular).
pub fn register_user_at(store: &mut AuthStore, request: LoginRequest, now: i64) -> (r: Result<
    User,
    AuthServiceError,
>)
    requires
        old(store)@.wf(),
        now + SESSION_DURATION_SECS <= i64::MAX,
    ensures
        final(store)@.wf(),
        old(store)@.has_username(request.username@) ==> r is Err,
        (!old(store)@.has_username(request.username@) && (forall|i: int|
            0 <= i < old(store)@.identities.len()
                ==> (#[trigger] old(store)@.identities[i]).id.len() != 36) && (forall|i: int|
            0 <= i < old(store)@.sessions.len()
                ==> (#[trigger] old(store)@.sessions[i]).id.len() != 36)) ==> r is Ok,
        r matches Ok(u) ==> u.username@ == request.username@ && exists|user_id: Seq<char>|
            #[trigger] registered_user(
                old(store)@,
                final(store)@,
                request.username@,
                request.pass_hash@,
                user_id,
                u.user_session@,
                now + SESSION_DURATION_SECS,
            ),
        r is Err ==> final(store)@ == old(store)@,
        r matches Err(e) ==> e is FailedToRegister,
{
    let user_id = fresh_id();
    let session_id = fresh_id();
    proof {
        if (forall|i: int|
            0 <= i < old(store)@.identities.len()
                ==> (#[trigger] old(store)@.identities[i]).id.len() != 36) {
            assert forall|i: int| 0 <= i < old(store)@.identities.len()
                implies (#[trigger] old(store)@.identities[i]).id != user_id@ by {
                assert(old(store)@.identities[i].id.len() != 36);
            }
            assert(!old(store)@.has_identity_id(user_id@));
        }
        if (forall|i: int|
            0 <= i < old(store)@.sessions.len()
                ==> (#[trigger] old(store)@.sessions[i]).id.len() != 36) {
            assert forall|i: int| 0 <= i < old(store)@.sessions.len()
                implies (#[trigger] old(store)@.sessions[i]).id != session_id@ by {
                assert(old(store)@.sessions[i].id.len() != 36);
            }
            assert(!old(store)@.has_session(session_id@));
        }
    }
    register_user_with(store, &request, user_id, session_id, now)
}

/// Registers a user at the current wall-clock time and, as the caller-facing
/// path does, immediately issues a session for the new identity.
pub fn create_user(store: &mut AuthStore, request_body: LoginRequest) -> (r: Result<
    User,
    AuthServiceError,
>)
    requires
        old(store)@.wf(),
    ensures
        final(store)@.wf(),
        old(store)@.has_username(request_body.username@) ==> r is Err,
        r matches Ok(u) ==> u.username@ == request_body.username@ && exists|
            user_id: Seq<char>,
            expiry: int,
        |
            #[trigger] registered_user(
                old(store)@,
                final(store)@,
                request_body.username@,
                request_body.pass_hash@,
                user_id,
                u.user_session@,
                expiry,
            ),
        r is Err ==> final(store)@ == old(store)@,
        r matches Err(e) ==> e is FailedToRegister,
{
    let ghost uname = request_body.username@;
    let ghost phash = request_body.pass_hash@;
    let now = utc_now_seconds();
    if now > i64::MAX - SESSION_DURATION_SECS {
        return Err(AuthServiceError::FailedToRegister);
    }
    let r = register_user_at(store, request_body, now);
    proof {
        if r is Ok {
            let u = r->Ok_0;
            let uid = choose|user_id: Seq<char>|
                #[trigger] registered_user(
                    old(store)@,
                    store@,
                    uname,
                    phash,
                    user_id,
                    u.user_session@,
                    now + SESSION_DURATION_SECS,
                );
            assert(registered_user(
                old(store)@,
                store@,
                uname,
                phash,
                uid,
                u.user_session@,
                now + SESSION_DURATION_SECS,
            ));
        }
    }
    r
}

/// Validates a session id against the store at time `now`: succeeds exactly
/// when a session with this id exists and `now` lies strictly before its
/// expiry, returning the owner's username beside the id.  An absent and an
/// expired session fail alike, with `InvalidSessionToken`.
pub fn validate_user_session_at(store: &AuthStore, session_id: String, now: i64) -> (r: Result<
    User,
    AuthServiceError,
>)
    requires
        store@.wf(),
    ensures
        r is Ok <==> store@.session_live(session_id@, now as int),
        r matches Ok(u) ==> u.user_session@ == session_id@ && u.username@
            == store@.session_owner_username(session_id@),
        r matches Err(e) ==> e is InvalidSessionToken,
{
    let i = match store.find_session(&session_id) {
        Some(i) => i,
        None => {
            return Err(AuthServiceError::InvalidSessionToken);
        },
    };
    if store.sessions[i].expiry <= now {
        proof {
            assert(store@.sessions[i as int].expiry <= now as int);
        }
        return Err(AuthServiceError::InvalidSessionToken);
    }
    let j = match store.find_identity_id(&store.sessions[i].user_id) {
        Some(j) => j,
        None => {
            return Err(AuthServiceError::InvalidSessionToken);
        },
    };
    Ok(User { username: store.identities[j].username.clone(), user_session: session_id })
}

/// Validates a session id at the current wall-clock time, re-reading the
/// authoritative state; it never extends an expiry.
pub fn validate_user_session(store: &AuthStore, session_id: String) -> (r: Result<
    User,
    AuthServiceError,
>)
    requires
        store@.wf(),
    ensures
        !store@.has_session(session_id@) ==> r is Err,
        r matches Ok(u) ==> u.user_session@ == session_id@ && u.username@
            == store@.session_owner_username(session_id@) && store@.has_session(session_id@),
        r matches Err(e) ==> e is InvalidSessionToken,
{
    let now = utc_now_seconds();
    validate_user_session_at(store, session_id, now)
}

/// The request gate at time `now`: a request carrying no session credential
/// is forbidden outright; one carrying a credential passes exactly when the
/// session is live.
pub fn validate_request_at(store: &AuthStore, session_id: Option<String>, now: i64) -> (r: Result<
    (),
    AuthServiceError,
>)
    requires
        store@.wf(),
    ensures
        session_id is None ==> r == Err::<(), AuthServiceError>(
            AuthServiceError::GenerallyForbidden,
        ),
        session_id matches Some(sid) ==> (r is Ok <==> store@.session_live(sid@, now as int)),
        session_id matches Some(sid) ==> (r is Err ==> r == Err::<(), AuthServiceError>(
            AuthServiceError::InvalidSessionToken,
        )),
{
    match session_id {
        None => Err(AuthServiceError::GenerallyForbidden),
        Some(sid) => match validate_user_session_at(store, sid, now) {
            Ok(_) => Ok(()),
            Err(_) => Err(AuthServiceError::InvalidSessionToken),
        },
    }
}

/// The request gate at the current wall-clock time: the single check every
/// state-mutating request handler makes before doing its work.
pub fn validate_request(store: &AuthStore, session_id: Option<String>) -> (r: Result<
    (),
    AuthServiceError,
>)
    requires
        store@.wf(),
    ensures
        session_id is None ==> r == Err::<(), AuthServiceError>(
            AuthServiceError::GenerallyForbidden,
        ),
        r is Ok ==> (session_id matches Some(sid) && store@.has_session(sid@)),
        (session_id matches Some(sid) && !store@.has_session(sid@)) ==> r == Err::<
            (),
            AuthServiceError,
        >(AuthServiceError::InvalidSessionToken),
        r matches Err(e) ==> e is GenerallyForbidden || e is InvalidSessionToken,
{
    let now = utc_now_seconds();
    validate_request_at(store, session_id, now)
}

/// Law: at most one identity row matches a credential pair, because
/// usernames are unique — so a verification that succeeds does so against
/// exactly one row.
pub proof fn lemma_at_most_one_credential_match(
    s: AuthStoreView,
    username: Seq<char>,
    pass_hash: Seq<char>,
    i: int,
    j: int,
)
    requires
        s.wf(),
        0 <= i < s.identities.len(),
        0 <= j < s.identities.len(),
        s.identities[i].username == username && s.identities[i].pass_hash == pass_hash,
        s.identities[j].username == username && s.identities[j].pass_hash == pass_hash,
    ensures
        i == j,
{
    if i < j {
        assert(s.identities[i].username != s.identities[j].username);
    } else if j < i {
        assert(s.identities[j].username != s.identities[i].username);
    }
}

/// Law: registering a user makes the same credential pair verifiable — the
/// resulting store holds a matching identity, which is exactly the
/// condition under which `get_user_id` succeeds.
pub proof fn lemma_register_then_verify(
    pre: AuthStoreView,
    post: AuthStoreView,
    username: Seq<char>,
    pass_hash: Seq<char>,
    user_id: Seq<char>,
    session_id: Seq<char>,
    expiry: int,
)
    requires
        registered_user(pre, post, username, pass_hash, user_id, session_id, expiry),
    ensures
        post.has_credentials(username, pass_hash),
{
    let n = pre.identities.len() as int;
    assert(post.identities[n] == IdentityView { id: user_id, username, pass_hash });
}

/// Law: a newly issued session validates exactly on the instants strictly
/// before its expiry — immediately after issuance it is live, and from the
/// expiry instant on it is not.
pub proof fn lemma_issue_then_validate(
    pre: AuthStoreView,
    post: AuthStoreView,
    user_id: Seq<char>,
    session_id: Seq<char>,
    expiry: int,
    t: int,
)
    requires
        pre.wf(),
        !pre.has_session(session_id),
        issued_session(pre, post, user_id, session_id, expiry),
    ensures
        post.session_live(session_id, t) <==> t < expiry,
{
    let n = pre.sessions.len() as int;
    let rec = SessionView { id: session_id, user_id, expiry };
    assert(post.sessions[n] == rec);
    assert(post.has_session(session_id));
    let j = post.session_index(session_id);
    assert(0 <= j < post.sessions.len() && post.sessions[j].id == session_id);
    if j < n {
        assert(pre.sessions[j].id == session_id);
        assert(pre.has_session(session_id));
    }
    assert(post.session_with_id(session_id) == rec);
}

} // verus!
