//! Reconciliation of the two user sources: the local record store and the
//! external directory. Reads merge both sources under a local-wins,
//! union-by-identifier policy; writes are scoped to the local store, and a
//! partial update is computed as a minimal field-level diff.
//!
//! The store and directory calls themselves happen outside; their outcomes
//! are handed in as plain values, and every decision over them is made here.

use vstd::prelude::*;

verus! {

use crate::user::{
    Address,
    AddressView,
    Company,
    CompanyView,
    User,
    UserView,
    address_eq,
    clone_opt_string,
    company_eq,
    opt_string_eq,
    spec_decimal,
    u64_to_string,
};
use crate::user_client::UserClientError;

/// Errors of the record store and of the reconciliation layer.
#[derive(Debug, PartialEq, Eq)]
pub enum DatabaseError {
    /// Neither source has a record for this identifier.
    UserNotFound(String),
    /// The store is unreachable or misconfigured.
    MongoConnectionFailed,
    /// A generic backend failure.
    OperationFailed,
}

/// Whether some record in `s` carries the identifier `id`.
pub open spec fn has_id(s: Seq<UserView>, id: Option<Seq<char>>) -> bool {
    exists|i: int| 0 <= i < s.len() && s[i].id == id
}

/// Whether every record in `s` carries an identifier.
pub open spec fn all_identified(s: Seq<UserView>) -> bool {
    forall|i: int| 0 <= i < s.len() ==> s[i].id is Some
}

/// The directory records that fill gaps in the local set: those whose
/// identifier no local record carries, in directory order.
pub open spec fn extra_directory_records(local: Seq<UserView>, dir: Seq<UserView>) -> Seq<
    UserView,
> {
    dir.filter(|u: UserView| !has_id(local, u.id))
}

/// The merged listing: every local record, in store order, followed by the
/// directory records whose identifier the local store has never seen, in
/// directory order. Local records always win; no record is field-merged
/// across sources.
pub open spec fn spec_merge(local: Seq<UserView>, dir: Seq<UserView>) -> Seq<UserView> {
    local + extra_directory_records(local, dir)
}

/// The local half of a listing: a failed store read degrades to an empty
/// local set instead of failing the listing.
pub open spec fn local_part(r: Result<Vec<User>, DatabaseError>) -> Seq<UserView> {
    match r {
        Ok(v) => v.deep_view(),
        Err(_) => Seq::empty(),
    }
}

/// The directory half of a listing: a failed directory read degrades to an
/// empty directory set.
pub open spec fn directory_part(r: Result<Vec<User>, UserClientError>) -> Seq<UserView> {
    match r {
        Ok(v) => v.deep_view(),
        Err(_) => Seq::empty(),
    }
}

/// The identifier of a record that is known to carry one.
fn id_of(u: &User) -> (r: &String)
    requires
        u@.id is Some,
    ensures
        u@.id == Some(r@),
{
    match &u.id {
        Some(s) => s,
        None => unreached(),
    }
}

/// Whether `target` occurs in `ids`.
fn contains_string(ids: &Vec<String>, target: &String) -> (r: bool)
    ensures
        r == ids.deep_view().contains(target@),
{
    let n = ids.len();
    for i in 0..n
        invariant
            n == ids.len(),
            forall|j: int| 0 <= j < i ==> ids.deep_view()[j] != target@,
    {
        if ids[i] == *target {
            assert(ids.deep_view()[i as int] == target@);
            return true;
        }
    }
    assert(!ids.deep_view().contains(target@));
    false
}

proof fn lemma_ids_represent(local: Seq<UserView>, ids: Seq<Seq<char>>, x: Seq<char>)
    requires
        ids.len() == local.len(),
        forall|j: int| 0 <= j < local.len() ==> local[j].id == Some(#[trigger] ids[j]),
    ensures
        ids.contains(x) <==> has_id(local, Some(x)),
{
    if ids.contains(x) {
        let j = choose|j: int| 0 <= j < ids.len() && ids[j] == x;
        assert(local[j].id == Some(x));
    }
    if has_id(local, Some(x)) {
        let i = choose|i: int| 0 <= i < local.len() && local[i].id == Some(x);
        assert(ids[i] == x);
    }
}

/// Get all users across the record store and the directory, as one merged
/// listing under the local-wins, union-by-identifier policy. A failure of
/// either source degrades that source to an empty set rather than failing
/// the whole listing.
pub fn get_users(local: Result<Vec<User>, DatabaseError>, directory: Result<
    Vec<User>,
    UserClientError,
>) -> (r: Vec<User>)
    requires
        local matches Ok(v) ==> all_identified(v.deep_view()),
        directory matches Ok(v) ==> all_identified(v.deep_view()),
    ensures
        r.deep_view() == spec_merge(local_part(local), directory_part(directory)),
{
    let mut users: Vec<User> = match local {
        Ok(v) => v,
        Err(_) => Vec::new(),
    };
    let ghost local_views: Seq<UserView> = users.deep_view();
    assert(local_views == local_part(local));

    // Snapshot the identifiers the local store holds: only these decide which
    // directory records are gap-fillers.
    let mut database_ids: Vec<String> = Vec::new();
    let n = users.len();
    for i in 0..n
        invariant
            n == users.len(),
            users.deep_view() == local_views,
            all_identified(local_views),
            database_ids.len() == i,
            forall|j: int| 0 <= j < i ==> local_views[j].id == Some(
                #[trigger] database_ids.deep_view()[j],
            ),
    {
        proof {
            assert(local_views[i as int].id is Some);
            assert(users@[i as int].deep_view() == local_views[i as int]);
        }
        let ghost prev_ids = database_ids.deep_view();
        let id = id_of(&users[i]);
        database_ids.push(id.clone());
        proof {
            assert forall|j: int| 0 <= j < i + 1 implies local_views[j].id == Some(
                #[trigger] database_ids.deep_view()[j],
            ) by {
                if j < i {
                    assert(database_ids.deep_view()[j] == prev_ids[j]);
                } else {
                    assert(database_ids.deep_view()[j] == id@);
                }
            }
        }
    }

    let dir_users: Vec<User> = match directory {
        Ok(v) => v,
        Err(_) => Vec::new(),
    };
    let ghost dir_views: Seq<UserView> = dir_users.deep_view();
    assert(dir_views == directory_part(directory));

    let m = dir_users.len();
    for i in 0..m
        invariant
            m == dir_users.len(),
            dir_users.deep_view() == dir_views,
            all_identified(dir_views),
            database_ids.len() == local_views.len(),
            forall|j: int| 0 <= j < local_views.len() ==> local_views[j].id == Some(
                #[trigger] database_ids.deep_view()[j],
            ),
            users.deep_view() == spec_merge(local_views, dir_views.take(i as int)),
    {
        proof {
            assert(dir_views[i as int].id is Some);
            assert(dir_users@[i as int].deep_view() == dir_views[i as int]);
        }
        let du = &dir_users[i];
        let du_id = id_of(du);
        let found = contains_string(&database_ids, du_id);
        proof {
            lemma_ids_represent(local_views, database_ids.deep_view(), du_id@);
            assert(found == has_id(local_views, dir_views[i as int].id));
        }
        let ghost prev_users = users.deep_view();
        if !found {
            users.push(du.clone());
            assert(users.deep_view() =~= prev_users.push(dir_views[i as int]));
        }
        proof {
            reveal(Seq::filter);
            let t1 = dir_views.take(i as int + 1);
            assert(t1.drop_last() =~= dir_views.take(i as int));
            assert(t1.last() == dir_views[i as int]);
            if !found {
                assert(extra_directory_records(local_views, t1) == extra_directory_records(
                    local_views,
                    dir_views.take(i as int),
                ).push(dir_views[i as int]));
            } else {
                assert(extra_directory_records(local_views, t1) == extra_directory_records(
                    local_views,
                    dir_views.take(i as int),
                ));
            }
            assert(users.deep_view() =~= spec_merge(local_views, t1));
        }
    }
    proof {
        assert(dir_views.take(m as int) =~= dir_views);
        assert(users.deep_view() == spec_merge(local_views, dir_views));
    }
    users
}

/// The outcome of a store lookup by identifier: the matching record when the
/// query found one, else `UserNotFound` under the requested identifier.
pub fn store_lookup_outcome(id: &str, found: Option<User>) -> (r: Result<User, DatabaseError>)
    ensures
        found matches Some(u) ==> (r matches Ok(ru) && ru == u),
        found is None ==> (r matches Err(DatabaseError::UserNotFound(s)) && s@ == id@),
{
    match found {
        Some(user) => Ok(user),
        None => Err(DatabaseError::UserNotFound(id.to_owned())),
    }
}

/// Get the user with the given identifier. The store is consulted first and
/// is the authority: on a store hit the directory outcome plays no part (and
/// need not exist at all); only on a store failure of any kind does the
/// directory outcome decide, with its `UserNotFound` surfaced as the unified
/// `UserNotFound(id)` and any other directory failure as a generic
/// `OperationFailed`.
pub fn get_user(id: &str, store: Result<User, DatabaseError>, directory: Option<
    Result<User, UserClientError>,
>) -> (r: Result<User, DatabaseError>)
    requires
        store is Err ==> directory is Some,
    ensures
        store matches Ok(u) ==> (r matches Ok(ru) && ru == u),
        store is Err ==> (match directory {
            Some(Ok(u)) => r matches Ok(ru) && ru == u,
            Some(Err(UserClientError::UserNotFound(_))) => r matches Err(
                DatabaseError::UserNotFound(s),
            ) && s@ == id@,
            Some(Err(_)) => r matches Err(e) && e == DatabaseError::OperationFailed,
            None => true,
        }),
{
    match store {
        Ok(user) => Ok(user),
        Err(_) => match directory {
            Some(Ok(user)) => Ok(user),
            Some(Err(UserClientError::UserNotFound(_))) => Err(
                DatabaseError::UserNotFound(id.to_owned()),
            ),
            Some(Err(_)) => Err(DatabaseError::OperationFailed),
            None => unreached(),
        },
    }
}

/// The record `u` with `id` as its assigned identifier and every other field
/// unchanged.
pub open spec fn with_assigned_id(u: UserView, id: Seq<char>) -> UserView {
    UserView { id: Some(id), ..u }
}

/// Create a new user in the record store. The store assigns the identifier:
/// the decimal form of `count + 101`, where `count` is how many records the
/// store holds — the offset keeps generated identifiers clear of the
/// directory's seed data. The returned record carries the new identifier and
/// is otherwise the caller's record unchanged.
pub fn create_new_user(user: User, count: u64) -> (r: User)
    requires
        count + 101 <= u64::MAX,
    ensures
        r@ == with_assigned_id(user@, spec_decimal((count + 101) as nat)),
{
    let mut user = user;
    user.id = Some(u64_to_string(count + 101));
    user
}

/// The minimal set of top-level record fields differing between an original
/// and an updated record: for each field, the updated value where the two
/// records disagree on it, and nothing where they agree. Applied as a single
/// atomic set-operation, it touches only what actually changed.
#[derive(Debug, PartialEq, Eq)]
pub struct ChangeSet {
    pub id: Option<Option<String>>,
    pub name: Option<String>,
    pub username: Option<String>,
    pub email: Option<String>,
    pub address: Option<Address>,
    pub phone: Option<String>,
    pub website: Option<String>,
    pub company: Option<Company>,
}

/// The abstract value of a `ChangeSet`.
pub struct ChangeSetView {
    pub id: Option<Option<Seq<char>>>,
    pub name: Option<Seq<char>>,
    pub username: Option<Seq<char>>,
    pub email: Option<Seq<char>>,
    pub address: Option<AddressView>,
    pub phone: Option<Seq<char>>,
    pub website: Option<Seq<char>>,
    pub company: Option<CompanyView>,
}

impl View for ChangeSet {
    type V = ChangeSetView;

    open spec fn view(&self) -> ChangeSetView {
        ChangeSetView {
            id: self.id.deep_view(),
            name: self.name.deep_view(),
            username: self.username.deep_view(),
            email: self.email.deep_view(),
            address: self.address.deep_view(),
            phone: self.phone.deep_view(),
            website: self.website.deep_view(),
            company: self.company.deep_view(),
        }
    }
}

impl DeepView for ChangeSet {
    type V = ChangeSetView;

    open spec fn deep_view(&self) -> ChangeSetView {
        self.view()
    }
}

/// The field-level diff between an original and an updated record: a field is
/// staged exactly when its updated value differs from the original value
/// (deep equality on the whole field), and a staged field carries the updated
/// value.
pub open spec fn spec_diff(original: UserView, updated: UserView) -> ChangeSetView {
    ChangeSetView {
        id: if updated.id == original.id {
            None
        } else {
            Some(updated.id)
        },
        name: if updated.name == original.name {
            None
        } else {
            Some(updated.name)
        },
        username: if updated.username == original.username {
            None
        } else {
            Some(updated.username)
        },
        email: if updated.email == original.email {
            None
        } else {
            Some(updated.email)
        },
        address: if updated.address == original.address {
            None
        } else {
            Some(updated.address)
        },
        phone: if updated.phone == original.phone {
            None
        } else {
            Some(updated.phone)
        },
        website: if updated.website == original.website {
            None
        } else {
            Some(updated.website)
        },
        company: if updated.company == original.company {
            None
        } else {
            Some(updated.company)
        },
    }
}

/// Generate the change-set between the given records: an explicit per-field
/// comparison over the record schema, staging exactly the fields on which the
/// updated record differs from the original.
pub fn generate_update_document(original_user: &User, updated_user: &User) -> (r: ChangeSet)
    ensures
        r@ == spec_diff(original_user@, updated_user@),
{
    ChangeSet {
        id: if opt_string_eq(&updated_user.id, &original_user.id) {
            None
        } else {
            Some(clone_opt_string(&updated_user.id))
        },
        name: if updated_user.name == original_user.name {
            None
        } else {
            Some(updated_user.name.clone())
        },
        username: if updated_user.username == original_user.username {
            None
        } else {
            Some(updated_user.username.clone())
        },
        email: if updated_user.email == original_user.email {
            None
        } else {
            Some(updated_user.email.clone())
        },
        address: if address_eq(&updated_user.address, &original_user.address) {
            None
        } else {
            Some(updated_user.address.clone())
        },
        phone: if updated_user.phone == original_user.phone {
            None
        } else {
            Some(updated_user.phone.clone())
        },
        website: if updated_user.website == original_user.website {
            None
        } else {
            Some(updated_user.website.clone())
        },
        company: if company_eq(&updated_user.company, &original_user.company) {
            None
        } else {
            Some(updated_user.company.clone())
        },
    }
}

/// Update a user's record in the store. The caller has resolved identity
/// (the record carries an identifier) and has fetched the store's current
/// record for it; a fetch failure is propagated unchanged — in particular an
/// update can never create a record, so `UserNotFound` stands. On a fetch
/// hit the result is the change-set to apply, computed against the current
/// record, so that only the fields that actually changed are written.
pub fn update_user(user: &User, current: Result<User, DatabaseError>) -> (r: Result<
    ChangeSet,
    DatabaseError,
>)
    requires
        user@.id is Some,
    ensures
        current matches Ok(orig) ==> (r matches Ok(cs) && cs@ == spec_diff(orig@, user@)),
        current matches Err(e) ==> (r matches Err(e2) && e2 == e),
{
    match current {
        Ok(orig) => Ok(generate_update_document(&orig, user)),
        Err(e) => Err(e),
    }
}

/// Law: for any local set and directory set keyed by identifier, the merged
/// listing has length `|local| + |directory records whose identifier is not
/// local|`; it preserves the local records and their order as its prefix and
/// the gap-filling directory records and their order as its suffix; and no
/// identifier is carried both by a record of the local-origin part and a
/// record of the directory-origin part.
pub proof fn lemma_merge_properties(local: Seq<UserView>, dir: Seq<UserView>)
    ensures
        spec_merge(local, dir).len() == local.len() + extra_directory_records(local, dir).len(),
        spec_merge(local, dir).take(local.len() as int) == local,
        spec_merge(local, dir).skip(local.len() as int) == extra_directory_records(local, dir),
        forall|i: int, j: int|
            0 <= i < local.len() && 0 <= j < extra_directory_records(local, dir).len()
                ==> #[trigger] extra_directory_records(local, dir)[j].id != #[trigger] local[i].id,
{
    let extras = extra_directory_records(local, dir);
    assert(spec_merge(local, dir).take(local.len() as int) =~= local);
    assert(spec_merge(local, dir).skip(local.len() as int) =~= extras);
    assert forall|i: int, j: int|
        0 <= i < local.len() && 0 <= j < extras.len() implies #[trigger] extras[j].id
        != #[trigger] local[i].id by {
        Seq::lemma_filter_pred(dir, |u: UserView| !has_id(local, u.id), j);
        assert(!has_id(local, extras[j].id));
    }
}

/// Law: the store strictly shadows the directory — whenever the store has a
/// record for the identifier, `get_user` returns exactly that record,
/// whatever the directory outcome (consulted or not) may hold for it.
pub proof fn lemma_store_shadows_directory(
    id: &str,
    u: User,
    directory: Option<Result<User, UserClientError>>,
    got: Result<User, DatabaseError>,
)
    requires
        call_ensures(get_user, (id, Result::<User, DatabaseError>::Ok(u), directory), got),
    ensures
        got matches Ok(g) && g == u,
{
}

/// Law: an identifier absent from both sources — the store fails to produce a
/// record and the directory answers that it has none — yields `UserNotFound`
/// under the requested identifier.
pub proof fn lemma_absent_from_both(
    id: &str,
    store_err: DatabaseError,
    missing: String,
    got: Result<User, DatabaseError>,
)
    requires
        call_ensures(
            get_user,
            (
                id,
                Result::<User, DatabaseError>::Err(store_err),
                Some(
                    Result::<User, UserClientError>::Err(
                        UserClientError::UserNotFound(missing),
                    ),
                ),
            ),
            got,
        ),
    ensures
        got matches Err(DatabaseError::UserNotFound(s)) && s@ == id@,
{
}

/// Law: an update that changes only the name field, resending every other
/// field unchanged, produces a change-set staging exactly the name.
pub proof fn lemma_diff_only_name(original: UserView, updated: UserView)
    requires
        updated.id == original.id,
        updated.username == original.username,
        updated.email == original.email,
        updated.address == original.address,
        updated.phone == original.phone,
        updated.website == original.website,
        updated.name != original.name,
        updated.company == original.company,
    ensures
        spec_diff(original, updated) == (ChangeSetView {
            id: None,
            name: Some(updated.name),
            username: None,
            email: None,
            address: None,
            phone: None,
            website: None,
            company: None,
        }),
{
}

/// Law: a round trip — `create_new_user` against a store holding `count`
/// records, followed by `get_user` answered by the store with the record just
/// created — returns a record equal to the caller's in every field except
/// the newly assigned identifier, which is the decimal form of `count + 101`.
pub proof fn lemma_create_then_get_round_trip(
    user: User,
    count: u64,
    created: User,
    id: &str,
    directory: Option<Result<User, UserClientError>>,
    got: Result<User, DatabaseError>,
)
    requires
        call_ensures(create_new_user, (user, count), created),
        call_ensures(get_user, (id, Result::<User, DatabaseError>::Ok(created), directory), got),
    ensures
        got matches Ok(g) && g == created,
        created@.id == Some(spec_decimal((count + 101) as nat)),
        created@.name == user@.name,
        created@.username == user@.username,
        created@.email == user@.email,
        created@.address == user@.address,
        created@.phone == user@.phone,
        created@.website == user@.website,
        created@.company == user@.company,
{
}

} // verus!
