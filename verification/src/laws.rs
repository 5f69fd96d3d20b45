//! What holds of the commands whatever the store held before: proved of
//! the commands run against the store in memory.

use vstd::prelude::*;
use crate::cmd::identified;
use crate::commands::{gathered, page_skip};
use crate::error::ErrorView;
use crate::hasher::{verifies, verify_outcome};
use crate::ident::{hex_encode, lemma_hex_injective};
use crate::memory::{
    empty_store, first_user, has_email, has_username, id_bytes, in_search, is_first_keyed,
    issued_before, keyed, keyed_index, lemma_id_number, owned_by, page_of, respond, rows_for,
    well_formed, StoreView,
};
use crate::model::{info_of, MedicineView, UserView};
use crate::session::{
    delete_run, get_run, initialize_run, insert_run, login_run, search_run, signup_creation,
    signup_refusal, update_run,
};
use crate::store::RequestView;
use crate::user::new_user;

verus! {

/// A store that holds nothing is in order.
pub proof fn law_empty_store_in_order()
    ensures
        well_formed(empty_store()),
{
}

/// Whatever is asked of a store in order, it is in order afterwards.
pub proof fn law_store_stays_in_order(s: StoreView, request: RequestView)
    requires
        well_formed(s),
    ensures
        well_formed(respond(s, request).0),
{
    let t = respond(s, request).0;
    match request {
        RequestView::InsertUser { user } => {
            if s.issued < u64::MAX {
                lemma_id_number(s.issued);
            }
        },
        RequestView::InsertMedicine { medicine } => {
            if s.issued < u64::MAX {
                lemma_id_number(s.issued);
            }
        },
        RequestView::UpdateMedicine { medicine } => {
            match keyed_index(s.medicines, medicine.id, medicine.user_id) {
                Some(i) => {
                    assert(is_first_keyed(s.medicines, medicine.id, medicine.user_id, i));
                },
                None => {},
            }
        },
        RequestView::DeleteMedicine { id, owner } => {
            match keyed_index(s.medicines, Some(id), owner) {
                Some(i) => {
                    assert(is_first_keyed(s.medicines, Some(id), owner, i));
                    s.medicines.remove_ensures(i);
                    assert forall|a: int| 0 <= a < t.medicines.len() implies issued_before(
                        (#[trigger] t.medicines[a]).id,
                        t.issued,
                    ) by {
                        if a < i {
                            assert(t.medicines[a] == s.medicines[a]);
                        } else {
                            assert(t.medicines[a] == s.medicines[a + 1]);
                        }
                    }
                    assert forall|a: int, b: int| 0 <= a < b < t.medicines.len() implies (
                    #[trigger] t.medicines[a]).id != (#[trigger] t.medicines[b]).id by {
                        let a0 = if a < i {
                            a
                        } else {
                            a + 1
                        };
                        let b0 = if b < i {
                            b
                        } else {
                            b + 1
                        };
                        assert(t.medicines[a] == s.medicines[a0]);
                        assert(t.medicines[b] == s.medicines[b0]);
                    }
                },
                None => {},
            }
        },
        _ => {},
    }
}

/// A listing changes nothing and returns the records of the owner, each of
/// them and no other, in the order in which they were persisted.
pub proof fn law_list_shows_own_records(s: StoreView, owner: Seq<char>)
    ensures
        get_run(s, owner) == (s, Ok::<_, ErrorView>(s.medicines.filter(owned_by(owner)))),
        forall|i: int|
            0 <= i < s.medicines.filter(owned_by(owner)).len() ==> (
            #[trigger] s.medicines.filter(owned_by(owner))[i]).user_id == owner,
        forall|i: int|
            0 <= i < s.medicines.len() && s.medicines[i].user_id == owner
                ==> s.medicines.filter(owned_by(owner)).contains(#[trigger] s.medicines[i]),
{
    let listed = s.medicines.filter(owned_by(owner));
    assert forall|i: int| 0 <= i < listed.len() implies (#[trigger] listed[i]).user_id
        == owner by {
        s.medicines.lemma_filter_pred(owned_by(owner), i);
    }
    assert forall|i: int|
        0 <= i < s.medicines.len() && s.medicines[i].user_id == owner implies listed.contains(
        #[trigger] s.medicines[i],
    ) by {
        s.medicines.lemma_filter_contains(owned_by(owner), i);
    }
}

/// The record that the store holds for an inserted one: all its fields, and
/// the identifier that the store gave it.
pub open spec fn persisted(medicine: MedicineView, s: StoreView) -> MedicineView {
    MedicineView { id: Some(id_bytes(s.issued)), ..medicine }
}

/// After a record is inserted for an owner, a listing for that owner ends
/// with the record, all fields as they were inserted, and a listing for any
/// other owner is what it was before.
pub proof fn law_insert_then_list(s: StoreView, medicine: MedicineView, other: Seq<char>)
    requires
        s.issued < u64::MAX,
        other != medicine.user_id,
    ensures
        insert_run(s, medicine).1 == Ok::<_, ErrorView>("Medicine inserted successfully."@),
        get_run(insert_run(s, medicine).0, medicine.user_id).1 == Ok::<_, ErrorView>(
            get_run(s, medicine.user_id).1->Ok_0.push(persisted(medicine, s)),
        ),
        get_run(insert_run(s, medicine).0, other).1 == get_run(s, other).1,
{
    let stored = persisted(medicine, s);
    s.medicines.lemma_filter_push(stored, owned_by(medicine.user_id));
    s.medicines.lemma_filter_push(stored, owned_by(other));
}

/// An update or a deletion that names a record of another owner ends in
/// `NotFound` and leaves the store as it was.
pub proof fn law_foreign_record_untouched(s: StoreView, i: int, medicine: MedicineView)
    requires
        well_formed(s),
        0 <= i < s.medicines.len(),
        medicine.id == s.medicines[i].id,
        medicine.user_id != s.medicines[i].user_id,
    ensures
        update_run(s, medicine) == (s, Err::<Seq<char>, _>(ErrorView::NotFound)),
        delete_run(s, medicine.user_id, medicine.id->Some_0) == (
            s,
            Err::<Seq<char>, _>(ErrorView::NotFound),
        ),
{
    assert(issued_before(s.medicines[i].id, s.issued));
    assert forall|k: int| !is_first_keyed(s.medicines, medicine.id, medicine.user_id, k) by {
        if 0 <= k < s.medicines.len() && keyed(s.medicines[k], medicine.id, medicine.user_id) {
            if k < i {
                assert(s.medicines[k].id != s.medicines[i].id);
            } else if i < k {
                assert(s.medicines[i].id != s.medicines[k].id);
            }
        }
    }
    assert(medicine.id == Some(medicine.id->Some_0));
}

/// An update of one's own record replaces it by the fields given, keeps its
/// identifier and its place, and touches no other record.
pub proof fn law_update_overwrites(s: StoreView, i: int, medicine: MedicineView)
    requires
        well_formed(s),
        0 <= i < s.medicines.len(),
        medicine.id == s.medicines[i].id,
        medicine.user_id == s.medicines[i].user_id,
    ensures
        update_run(s, medicine) == (
            StoreView { medicines: s.medicines.update(i, medicine), ..s },
            Ok::<_, ErrorView>("Medicine updated successfully."@),
        ),
{
    assert(issued_before(s.medicines[i].id, s.issued));
    assert(is_first_keyed(s.medicines, medicine.id, medicine.user_id, i)) by {
        assert forall|j: int| 0 <= j < i implies !keyed(
            #[trigger] s.medicines[j],
            medicine.id,
            medicine.user_id,
        ) by {
            assert(s.medicines[j].id != s.medicines[i].id);
        }
    }
    let k = choose|k: int| is_first_keyed(s.medicines, medicine.id, medicine.user_id, k);
    crate::memory::lemma_first_keyed_unique(s.medicines, medicine.id, medicine.user_id, k, i);
}

/// A deletion of one's own record removes it and no other.
pub proof fn law_delete_removes(s: StoreView, i: int)
    requires
        well_formed(s),
        0 <= i < s.medicines.len(),
    ensures
        delete_run(s, s.medicines[i].user_id, s.medicines[i].id->Some_0) == (
            StoreView { medicines: s.medicines.remove(i), ..s },
            Ok::<_, ErrorView>("Medicine deleted successfully."@),
        ),
{
    let id = s.medicines[i].id;
    let owner = s.medicines[i].user_id;
    assert(issued_before(id, s.issued));
    assert(id == Some(id->Some_0));
    assert(is_first_keyed(s.medicines, id, owner, i)) by {
        assert forall|j: int| 0 <= j < i implies !keyed(#[trigger] s.medicines[j], id, owner) by {
            assert(s.medicines[j].id != s.medicines[i].id);
        }
    }
    let k = choose|k: int| is_first_keyed(s.medicines, id, owner, k);
    crate::memory::lemma_first_keyed_unique(s.medicines, id, owner, k, i);
}

/// The matches of a search from `from` up to `to`, both cut at the number
/// of matches.
pub open spec fn window<A>(matches: Seq<A>, from: int, to: int) -> Seq<A> {
    let n = matches.len() as int;
    matches.subrange(
        if from <= n {
            from
        } else {
            n
        },
        if to <= n {
            to
        } else {
            n
        },
    )
}

/// Page `page` of a search with `limit` records a page holds the matches
/// from `(page - 1) * limit` up to `page * limit`, in the order in which the
/// store holds them, each shown by its name and its selling price. A search
/// changes nothing.
pub proof fn law_search_pages(
    s: StoreView,
    owner: Seq<char>,
    query: Seq<char>,
    page: u32,
    limit: u32,
)
    requires
        page >= 1,
    ensures
        search_run(s, owner, query, page, limit) == (
            s,
            Ok::<_, ErrorView>(
                window(
                    s.medicines.filter(in_search(owner, query)),
                    (page - 1) * limit,
                    page * limit,
                ).map_values(|m: MedicineView| info_of(m)),
            ),
        ),
{
    crate::commands::lemma_page_skip_fits(page, limit);
    let matches = s.medicines.filter(in_search(owner, query));
    let skip = page_skip(page, limit) as u64;
    assert((page - 1) * limit + limit == page * limit) by (nonlinear_arith);
    let shown = page_of(matches, skip, limit);
    assert(shown == window(matches, (page - 1) * limit, page * limit));
    let rows = rows_for(shown);
    assert(crate::commands::all_info(rows, rows.len() as int));
    assert(gathered(rows)->Ok_0 =~= shown.map_values(|m: MedicineView| info_of(m)));
}

/// Initialising the partition of an owner succeeds every time it is
/// repeated, and never touches a record or an account.
pub proof fn law_initialize_repeats(s: StoreView, owner: Seq<char>)
    requires
        owner.len() > 0,
    ensures
        initialize_run(s, owner).1 is Ok,
        initialize_run(initialize_run(s, owner).0, owner).1 == initialize_run(s, owner).1,
        initialize_run(s, owner).0.medicines == s.medicines,
        initialize_run(s, owner).0.users == s.users,
        initialize_run(initialize_run(s, owner).0, owner).0.medicines == s.medicines,
        initialize_run(initialize_run(s, owner).0, owner).0.users == s.users,
{
}

/// A signup with an email that an account already has ends in
/// `DuplicateEmail`, and the one request that it made, the lookup of the
/// email, left the store as it was.
pub proof fn law_duplicate_email_refused(s: StoreView, email: Seq<char>, i: int)
    requires
        0 <= i < s.users.len(),
        s.users[i].email == email,
    ensures
        signup_refusal(s, email) == Some(ErrorView::DuplicateEmail),
        respond(s, RequestView::FindUserByEmail { email: email }).0 == s,
{
    s.users.lemma_filter_contains(has_email(email), i);
    let hits = s.users.filter(has_email(email));
    assert(hits.contains(s.users[i]));
    assert(hits.len() > 0);
}

/// The account that the store holds after a signup.
pub open spec fn enrolled(
    s: StoreView,
    username: Seq<char>,
    password_hash: Seq<char>,
    email: Seq<char>,
) -> UserView {
    UserView { id: Some(id_bytes(s.issued)), ..new_user(username, password_hash, email) }
}

/// A signup with a free email persists one account, after all others, with
/// the name, the email and the hash, and returns the identifier that the
/// store gave it.
pub proof fn law_signup_creates_account(
    s: StoreView,
    username: Seq<char>,
    password_hash: Seq<char>,
    email: Seq<char>,
)
    requires
        s.issued < u64::MAX,
        first_user(s.users, has_email(email)) is None,
    ensures
        signup_refusal(s, email) is None,
        signup_creation(s, username, password_hash, email) == (
            StoreView {
                users: s.users.push(enrolled(s, username, password_hash, email)),
                issued: (s.issued + 1) as u64,
                ..s
            },
            Ok::<_, ErrorView>(hex_encode(id_bytes(s.issued))),
        ),
{
    let account = enrolled(s, username, password_hash, email);
    s.users.lemma_filter_push(account, has_email(email));
    assert(s.users.filter(has_email(email)).len() == 0);
    assert(s.users.push(account).filter(has_email(email))[0] == account);
}

/// The identifier that a signup returns is new: no account that the store
/// held before has it.
pub proof fn law_signup_identifier_is_new(s: StoreView, i: int)
    requires
        well_formed(s),
        0 <= i < s.users.len(),
    ensures
        identified(Ok(s.users[i])) != Ok::<_, ErrorView>(hex_encode(id_bytes(s.issued))),
{
    assert(issued_before(s.users[i].id, s.issued));
    let held = s.users[i].id->Some_0;
    lemma_id_number(s.issued);
    if hex_encode(held) == hex_encode(id_bytes(s.issued)) {
        lemma_hex_injective(held, id_bytes(s.issued));
    }
}

/// Two signups with different emails, one after the other, return
/// different identifiers.
pub proof fn law_signups_differ(
    s: StoreView,
    username1: Seq<char>,
    hash1: Seq<char>,
    email1: Seq<char>,
    username2: Seq<char>,
    hash2: Seq<char>,
    email2: Seq<char>,
)
    requires
        well_formed(s),
        s.issued + 1 < u64::MAX,
        email1 != email2,
        first_user(s.users, has_email(email1)) is None,
        first_user(s.users, has_email(email2)) is None,
    ensures
        signup_creation(s, username1, hash1, email1).1 is Ok,
        signup_refusal(signup_creation(s, username1, hash1, email1).0, email2) is None,
        signup_creation(signup_creation(s, username1, hash1, email1).0, username2, hash2, email2).1
            is Ok,
        signup_creation(signup_creation(s, username1, hash1, email1).0, username2, hash2, email2).1
            != signup_creation(s, username1, hash1, email1).1,
{
    law_signup_creates_account(s, username1, hash1, email1);
    let s1 = signup_creation(s, username1, hash1, email1).0;
    let first = enrolled(s, username1, hash1, email1);
    s.users.lemma_filter_push(first, has_email(email2));
    law_signup_creates_account(s1, username2, hash2, email2);
    law_store_stays_in_order(
        s,
        RequestView::InsertUser { user: new_user(username1, hash1, email1) },
    );
    assert(s1.users[s.users.len() as int] == first);
    law_signup_identifier_is_new(s1, s.users.len() as int);
}

/// After a signup with a free email and a free username, a login with the
/// same username and password returns the identifier that the signup
/// returned, and a login with a password that the hash does not verify
/// against ends in `InvalidCredentials`.
pub proof fn law_login_after_signup(
    s: StoreView,
    username: Seq<char>,
    password: Seq<char>,
    password_hash: Seq<char>,
    email: Seq<char>,
    wrong: Seq<char>,
)
    requires
        s.issued < u64::MAX,
        first_user(s.users, has_email(email)) is None,
        first_user(s.users, has_username(username)) is None,
        verifies(password, password_hash),
        verify_outcome(wrong, password_hash) == Some(false),
    ensures
        login_run(signup_creation(s, username, password_hash, email).0, username, password) == Some(
            signup_creation(s, username, password_hash, email).1,
        ),
        login_run(signup_creation(s, username, password_hash, email).0, username, wrong) == Some(
            Err::<Seq<char>, _>(ErrorView::InvalidCredentials),
        ),
{
    law_signup_creates_account(s, username, password_hash, email);
    let account = enrolled(s, username, password_hash, email);
    s.users.lemma_filter_push(account, has_username(username));
    assert(s.users.filter(has_username(username)).len() == 0);
    assert(s.users.push(account).filter(has_username(username))[0] == account);
}

/// A login with a username that no account has ends in
/// `InvalidCredentials`, whatever the password.
pub proof fn law_unknown_username_refused(s: StoreView, username: Seq<char>, password: Seq<char>)
    requires
        first_user(s.users, has_username(username)) is None,
    ensures
        login_run(s, username, password) == Some(
            Err::<Seq<char>, _>(ErrorView::InvalidCredentials),
        ),
{
}

} // verus!
