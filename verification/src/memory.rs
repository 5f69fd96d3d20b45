//! A document store held in memory. It answers every request of the
//! commands, and it fixes what the commands expect of a store: `respond`
//! says so as a function, and `MemoryStore::perform` computes it.

use vstd::prelude::*;
use vstd::bytes::{spec_u64_from_le_bytes, spec_u64_to_le_bytes};
use crate::ident::RecordId;
use crate::model::{info_of, Medicine, MedicineInfo, MedicineView, User, UserView};
use crate::store::{ReplyView, RequestView, RowView, SearchRow, StoreReply, StoreRequest};

verus! {

/// What a store holds: the accounts and the records in the order in which
/// they were persisted, the collections that a marker was written into, and
/// the number of identifiers given out.
pub struct StoreView {
    pub users: Seq<UserView>,
    pub medicines: Seq<MedicineView>,
    pub markers: Seq<Seq<char>>,
    pub issued: u64,
}

/// The `n`-th identifier that a store gives out.
pub open spec fn id_bytes(n: u64) -> Seq<u8> {
    seq![0u8, 0u8, 0u8, 0u8] + spec_u64_to_le_bytes(n)
}

/// The place of an identifier among those that a store gives out.
pub open spec fn id_number(id: Seq<u8>) -> u64 {
    spec_u64_from_le_bytes(id.skip(4))
}

/// Whether a record carries an identifier that was given out before the
/// `n`-th.
pub open spec fn issued_before(id: Option<Seq<u8>>, n: u64) -> bool {
    id matches Some(bytes) && id_number(bytes) < n
}

/// Every identifier has its own place.
pub proof fn lemma_id_number(n: u64)
    ensures
        id_bytes(n).len() == 12,
        id_number(id_bytes(n)) == n,
{
    vstd::bytes::lemma_auto_spec_u64_to_from_le_bytes();
    assert(id_bytes(n).skip(4) =~= spec_u64_to_le_bytes(n));
}

/// The accounts with this email.
pub open spec fn has_email(email: Seq<char>) -> spec_fn(UserView) -> bool {
    |u: UserView| u.email == email
}

/// The accounts with exactly this username.
pub open spec fn has_username(username: Seq<char>) -> spec_fn(UserView) -> bool {
    |u: UserView| u.username == username
}

/// The first account that `wanted` holds of, in the order of persistence.
pub open spec fn first_user(users: Seq<UserView>, wanted: spec_fn(UserView) -> bool) -> Option<
    UserView,
> {
    let hits = users.filter(wanted);
    if hits.len() > 0 {
        Some(hits[0])
    } else {
        None
    }
}

/// The records of this owner.
pub open spec fn owned_by(owner: Seq<char>) -> spec_fn(MedicineView) -> bool {
    |m: MedicineView| m.user_id == owner
}

/// A letter `A` to `Z` as its small letter; any other character as itself.
pub open spec fn fold_case(c: char) -> char {
    if 'A' <= c && c <= 'Z' {
        ((c as u8) + 32) as char
    } else {
        c
    }
}

/// Whether `query` stands in `name` from position `k` on, letters compared
/// without regard to case.
pub open spec fn matches_at(name: Seq<char>, query: Seq<char>, k: int) -> bool {
    &&& 0 <= k
    &&& k + query.len() <= name.len()
    &&& forall|j: int| 0 <= j < query.len() ==> fold_case(#[trigger] name[k + j]) == fold_case(query[j])
}

/// Whether `name` contains `query`, letters compared without regard to case.
pub open spec fn name_matches(name: Seq<char>, query: Seq<char>) -> bool {
    exists|k: int| matches_at(name, query, k)
}

/// The records of this owner whose name contains `query`.
pub open spec fn in_search(owner: Seq<char>, query: Seq<char>) -> spec_fn(MedicineView) -> bool {
    |m: MedicineView| m.user_id == owner && name_matches(m.name, query)
}

/// The part of `matches` that is left when the first `skip` are left out
/// and at most `limit` are kept.
pub open spec fn page_of<A>(matches: Seq<A>, skip: u64, limit: u32) -> Seq<A> {
    let from = if skip <= matches.len() {
        skip as int
    } else {
        matches.len() as int
    };
    let to = if skip + limit <= matches.len() {
        skip + limit
    } else {
        matches.len() as int
    };
    matches.subrange(from, to)
}

/// The row that a search shows for a record.
pub open spec fn row_of(m: MedicineView) -> RowView {
    RowView::Info { info: info_of(m) }
}

/// The rows that a search shows for the records of a page.
pub open spec fn rows_for(records: Seq<MedicineView>) -> Seq<RowView> {
    Seq::new(records.len(), |i: int| row_of(records[i]))
}

/// The records that a listing or a search looks for: those of the owner,
/// and with a query those among them whose name contains it.
pub open spec fn selected(owner: Seq<char>, query: Option<Seq<char>>) -> spec_fn(
    MedicineView,
) -> bool {
    match query {
        Some(q) => in_search(owner, q),
        None => owned_by(owner),
    }
}

/// Whether a record has this identifier and this owner.
pub open spec fn keyed(m: MedicineView, id: Option<Seq<u8>>, owner: Seq<char>) -> bool {
    id is Some && m.id == id && m.user_id == owner
}

/// Whether record `i` is the first that has this identifier and this owner.
pub open spec fn is_first_keyed(
    medicines: Seq<MedicineView>,
    id: Option<Seq<u8>>,
    owner: Seq<char>,
    i: int,
) -> bool {
    &&& 0 <= i < medicines.len()
    &&& keyed(medicines[i], id, owner)
    &&& forall|j: int| 0 <= j < i ==> !keyed(#[trigger] medicines[j], id, owner)
}

/// The place of the first record that has this identifier and this owner.
pub open spec fn keyed_index(
    medicines: Seq<MedicineView>,
    id: Option<Seq<u8>>,
    owner: Seq<char>,
) -> Option<int> {
    if exists|i: int| is_first_keyed(medicines, id, owner, i) {
        Some(choose|i: int| is_first_keyed(medicines, id, owner, i))
    } else {
        None
    }
}

/// Only one record can be the first that has an identifier and an owner.
pub proof fn lemma_first_keyed_unique(
    medicines: Seq<MedicineView>,
    id: Option<Seq<u8>>,
    owner: Seq<char>,
    a: int,
    b: int,
)
    requires
        is_first_keyed(medicines, id, owner, a),
        is_first_keyed(medicines, id, owner, b),
    ensures
        a == b,
{
    if a < b {
        assert(!keyed(medicines[a], id, owner));
    }
    if b < a {
        assert(!keyed(medicines[b], id, owner));
    }
}

/// The message of a store that has no identifier left to give.
pub open spec fn exhausted_text() -> Seq<char> {
    "No identifier is left"@
}

/// What a store answers to a request, and what it holds afterwards.
pub open spec fn respond(s: StoreView, request: RequestView) -> (StoreView, ReplyView) {
    match request {
        RequestView::FindUserByEmail { email } => (
            s,
            ReplyView::User { found: first_user(s.users, has_email(email)) },
        ),
        RequestView::FindUserByUsername { username } => (
            s,
            ReplyView::User { found: first_user(s.users, has_username(username)) },
        ),
        RequestView::InsertUser { user } => if s.issued == u64::MAX {
            (s, ReplyView::Failed { message: exhausted_text() })
        } else {
            (
                StoreView {
                    users: s.users.push(UserView { id: Some(id_bytes(s.issued)), ..user }),
                    issued: (s.issued + 1) as u64,
                    ..s
                },
                ReplyView::Written,
            )
        },
        RequestView::InsertMarker { collection } => (
            StoreView { markers: s.markers.push(collection), ..s },
            ReplyView::Written,
        ),
        RequestView::FindMedicines { owner } => (
            s,
            ReplyView::Medicines { list: s.medicines.filter(owned_by(owner)) },
        ),
        RequestView::InsertMedicine { medicine } => if s.issued == u64::MAX {
            (s, ReplyView::Failed { message: exhausted_text() })
        } else {
            (
                StoreView {
                    medicines: s.medicines.push(
                        MedicineView { id: Some(id_bytes(s.issued)), ..medicine },
                    ),
                    issued: (s.issued + 1) as u64,
                    ..s
                },
                ReplyView::Written,
            )
        },
        RequestView::UpdateMedicine { medicine } => match keyed_index(
            s.medicines,
            medicine.id,
            medicine.user_id,
        ) {
            Some(i) => (
                StoreView { medicines: s.medicines.update(i, medicine), ..s },
                ReplyView::Changed { count: 1 },
            ),
            None => (s, ReplyView::Changed { count: 0 }),
        },
        RequestView::DeleteMedicine { id, owner } => match keyed_index(
            s.medicines,
            Some(id),
            owner,
        ) {
            Some(i) => (
                StoreView { medicines: s.medicines.remove(i), ..s },
                ReplyView::Changed { count: 1 },
            ),
            None => (s, ReplyView::Changed { count: 0 }),
        },
        RequestView::SearchMedicines { owner, query, skip, limit } => (
            s,
            ReplyView::Rows {
                rows: rows_for(page_of(s.medicines.filter(in_search(owner, query)), skip, limit)),
            },
        ),
    }
}

/// Whether a store is in order: every record carries an identifier that the
/// store gave out, and no two records carry the same.
pub open spec fn well_formed(s: StoreView) -> bool {
    &&& forall|i: int| 0 <= i < s.users.len() ==> issued_before((#[trigger] s.users[i]).id, s.issued)
    &&& forall|i: int|
        0 <= i < s.medicines.len() ==> issued_before((#[trigger] s.medicines[i]).id, s.issued)
    &&& forall|i: int, j: int|
        0 <= i < j < s.medicines.len() ==> (#[trigger] s.medicines[i]).id != (
        #[trigger] s.medicines[j]).id
    &&& forall|i: int, j: int|
        0 <= i < j < s.users.len() ==> (#[trigger] s.users[i]).id != (#[trigger] s.users[j]).id
}

/// A document store in memory.
pub struct MemoryStore {
    users: Vec<User>,
    medicines: Vec<Medicine>,
    markers: Vec<String>,
    issued: u64,
}

impl View for MemoryStore {
    type V = StoreView;

    closed spec fn view(&self) -> StoreView {
        StoreView {
            users: self.users.deep_view(),
            medicines: self.medicines.deep_view(),
            markers: self.markers.deep_view(),
            issued: self.issued,
        }
    }
}

/// A store that holds nothing and has given out no identifier.
pub open spec fn empty_store() -> StoreView {
    StoreView { users: Seq::empty(), medicines: Seq::empty(), markers: Seq::empty(), issued: 0 }
}

/// A character with its case folded.
fn fold(c: char) -> (r: char)
    ensures
        r == fold_case(c),
{
    if 'A' <= c && c <= 'Z' {
        ((c as u8) + 32) as char
    } else {
        c
    }
}

/// The characters of a text.
fn chars_of(s: &str) -> (r: Vec<char>)
    ensures
        r@ == s@,
{
    let n = s.unicode_len();
    let mut r: Vec<char> = Vec::new();
    let mut i: usize = 0;
    while i < n
        invariant
            n == s@.len(),
            i <= n,
            r@ == s@.take(i as int),
        decreases n - i,
    {
        r.push(s.get_char(i));
        assert(s@.take(i + 1) =~= s@.take(i as int).push(s@[i as int]));
        i += 1;
    }
    assert(s@.take(n as int) =~= s@);
    r
}

/// Whether `query` stands in `name` from position `k` on.
fn stands_at(name: &Vec<char>, query: &Vec<char>, k: usize) -> (r: bool)
    requires
        k + query.len() <= name.len(),
    ensures
        r == matches_at(name@, query@, k as int),
{
    let mut j: usize = 0;
    while j < query.len()
        invariant
            j <= query.len(),
            k + query.len() <= name.len(),
            forall|t: int| 0 <= t < j ==> fold_case(#[trigger] name@[k + t]) == fold_case(query@[t]),
        decreases query.len() - j,
    {
        if fold(name[k + j]) != fold(query[j]) {
            assert(fold_case(name@[k + j]) != fold_case(query@[j as int]));
            return false;
        }
        j += 1;
    }
    true
}

/// Whether `name` contains `query`.
fn contains_folded(name: &Vec<char>, query: &Vec<char>) -> (r: bool)
    ensures
        r == name_matches(name@, query@),
{
    if query.len() > name.len() {
        return false;
    }
    let last: usize = name.len() - query.len();
    let mut k: usize = 0;
    while k <= last
        invariant
            last == name.len() - query.len(),
            k <= last + 1,
            forall|t: int| 0 <= t < k ==> !matches_at(name@, query@, t),
        decreases last + 1 - k,
    {
        if stands_at(name, query, k) {
            return true;
        }
        k += 1;
    }
    false
}

impl MemoryStore {
    /// A store that holds nothing.
    pub fn new() -> (store: MemoryStore)
        ensures
            store@ == empty_store(),
            well_formed(store@),
    {
        let store = MemoryStore {
            users: Vec::new(),
            medicines: Vec::new(),
            markers: Vec::new(),
            issued: 0,
        };
        assert(store.users.deep_view() =~= Seq::empty());
        assert(store.medicines.deep_view() =~= Seq::empty());
        assert(store.markers.deep_view() =~= Seq::empty());
        store
    }

    /// The number of accounts that the store holds.
    pub fn user_count(&self) -> (n: usize)
        ensures
            n == self@.users.len(),
    {
        self.users.len()
    }

    /// The number of records that the store holds, of all owners.
    pub fn medicine_count(&self) -> (n: usize)
        ensures
            n == self@.medicines.len(),
    {
        self.medicines.len()
    }

    /// The first account with this email, or with this username.
    fn find_user(&self, key: &String, by_email: bool) -> (found: Option<User>)
        ensures
            found.deep_view() == first_user(
                self@.users,
                if by_email {
                    has_email(key@)
                } else {
                    has_username(key@)
                },
            ),
    {
        let ghost all = self.users.deep_view();
        let ghost wanted = if by_email {
            has_email(key@)
        } else {
            has_username(key@)
        };
        let mut found: Option<User> = None;
        let mut i: usize = 0;
        proof {
            reveal(Seq::filter);
            assert(all.take(0).filter(wanted) =~= Seq::empty());
        }
        while i < self.users.len()
            invariant
                i <= self.users.len(),
                all == self.users.deep_view(),
                all.len() == self.users.len(),
                wanted == if by_email {
                    has_email(key@)
                } else {
                    has_username(key@)
                },
                found.deep_view() == first_user(all.take(i as int), wanted),
            decreases self.users.len() - i,
        {
            let user = &self.users[i];
            proof {
                assert(all[i as int] == user@);
                assert(all.take(i + 1) =~= all.take(i as int).push(all[i as int]));
                all.take(i as int).lemma_filter_push(all[i as int], wanted);
            }
            let hit = if by_email {
                user.email == *key
            } else {
                user.username == *key
            };
            assert(hit == wanted(all[i as int]));
            if hit && found.is_none() {
                found = Some(user.clone());
            }
            i += 1;
        }
        assert(all.take(all.len() as int) =~= all);
        found
    }

    /// Gives out the next identifier, if one is left.
    fn issue(&mut self) -> (id: Option<RecordId>)
        ensures
            old(self).issued == u64::MAX ==> id is None && *final(self) == *old(self),
            old(self).issued < u64::MAX ==> {
                &&& id matches Some(fresh)
                &&& fresh@ == id_bytes(old(self).issued)
                &&& final(self).issued == old(self).issued + 1
                &&& final(self).users == old(self).users
                &&& final(self).medicines == old(self).medicines
                &&& final(self).markers == old(self).markers
            },
    {
        if self.issued == u64::MAX {
            return None;
        }
        let le = vstd::bytes::u64_to_le_bytes(self.issued);
        let bytes: [u8; 12] = [0, 0, 0, 0, le[0], le[1], le[2], le[3], le[4], le[5], le[6], le[7]];
        assert(bytes@ =~= id_bytes(self.issued));
        self.issued = self.issued + 1;
        Some(RecordId { bytes })
    }

    /// Copies of the records of `owner`, with a query of those among them
    /// whose name contains it.
    fn select(&self, owner: &String, query: Option<&String>) -> (hits: Vec<Medicine>)
        ensures
            hits.deep_view() == self@.medicines.filter(
                selected(
                    owner@,
                    match query {
                        Some(q) => Some(q@),
                        None => None,
                    },
                ),
            ),
    {
        let ghost all = self.medicines.deep_view();
        let ghost wanted = selected(
            owner@,
            match query {
                Some(q) => Some(q@),
                None => None,
            },
        );
        let needle: Vec<char> = match query {
            Some(q) => chars_of(q.as_str()),
            None => Vec::new(),
        };
        let mut hits: Vec<Medicine> = Vec::new();
        let mut i: usize = 0;
        proof {
            reveal(Seq::filter);
            assert(all.take(0).filter(wanted) =~= Seq::empty());
            assert(hits.deep_view() =~= Seq::empty());
        }
        while i < self.medicines.len()
            invariant
                i <= self.medicines.len(),
                all == self.medicines.deep_view(),
                all.len() == self.medicines.len(),
                wanted == selected(
                    owner@,
                    match query {
                        Some(q) => Some(q@),
                        None => None,
                    },
                ),
                query matches Some(q) ==> needle@ == q@,
                hits.deep_view() == all.take(i as int).filter(wanted),
            decreases self.medicines.len() - i,
        {
            let record = &self.medicines[i];
            proof {
                assert(all[i as int] == record@);
                assert(all.take(i + 1) =~= all.take(i as int).push(all[i as int]));
                all.take(i as int).lemma_filter_push(all[i as int], wanted);
            }
            let hit = record.user_id == *owner && match query {
                Some(_) => contains_folded(&chars_of(record.name.as_str()), &needle),
                None => true,
            };
            assert(hit == wanted(all[i as int]));
            if hit {
                let ghost before = hits.deep_view();
                hits.push(record.clone());
                assert(hits.deep_view() =~= before.push(record@));
            }
            i += 1;
        }
        assert(all.take(all.len() as int) =~= all);
        hits
    }

    /// The place of the first record with this identifier and this owner.
    fn find_keyed(&self, id: &Option<RecordId>, owner: &String) -> (at: Option<usize>)
        ensures
            match at {
                Some(i) => keyed_index(self@.medicines, id.deep_view(), owner@) == Some(i as int)
                    && i < self.medicines.len(),
                None => keyed_index(self@.medicines, id.deep_view(), owner@) is None,
            },
    {
        let ghost all = self.medicines.deep_view();
        let wanted = match id {
            Some(wanted) => wanted,
            None => {
                return None;
            },
        };
        let mut i: usize = 0;
        while i < self.medicines.len()
            invariant
                i <= self.medicines.len(),
                all == self.medicines.deep_view(),
                all.len() == self.medicines.len(),
                *id == Some(*wanted),
                forall|j: int| 0 <= j < i ==> !keyed(#[trigger] all[j], id.deep_view(), owner@),
            decreases self.medicines.len() - i,
        {
            let record = &self.medicines[i];
            assert(all[i as int] == record@);
            let hit = match &record.id {
                Some(own) => own.same(wanted) && record.user_id == *owner,
                None => false,
            };
            assert(hit == keyed(all[i as int], id.deep_view(), owner@));
            if hit {
                proof {
                    assert(is_first_keyed(all, id.deep_view(), owner@, i as int));
                    let k = choose|k: int| is_first_keyed(all, id.deep_view(), owner@, k);
                    lemma_first_keyed_unique(all, id.deep_view(), owner@, k, i as int);
                }
                return Some(i);
            }
            i += 1;
        }
        None
    }

    /// Carries out one request and answers it, as `respond` says. A store
    /// that was in order is in order afterwards.
    pub fn perform(&mut self, request: &StoreRequest) -> (reply: StoreReply)
        ensures
            (final(self)@, reply@) == respond(old(self)@, request@),
            well_formed(old(self)@) ==> well_formed(final(self)@),
    {
        proof {
            if well_formed(old(self)@) {
                crate::laws::law_store_stays_in_order(old(self)@, request@);
            }
        }
        match request {
            StoreRequest::FindUserByEmail { email } => StoreReply::User {
                found: self.find_user(email, true),
            },
            StoreRequest::FindUserByUsername { username } => StoreReply::User {
                found: self.find_user(username, false),
            },
            StoreRequest::InsertUser { user } => match self.issue() {
                Some(id) => {
                    let mut stored = user.clone();
                    stored.id = Some(id);
                    self.users.push(stored);
                    assert(self.users.deep_view() =~= old(self).users.deep_view().push(stored@));
                    StoreReply::Written
                },
                None => StoreReply::Failed { message: "No identifier is left".to_owned() },
            },
            StoreRequest::InsertMarker { collection } => {
                self.markers.push(collection.clone());
                assert(self.markers.deep_view() =~= old(self).markers.deep_view().push(
                    collection@,
                ));
                StoreReply::Written
            },
            StoreRequest::FindMedicines { owner } => {
                let list = self.select(owner, None);
                StoreReply::Medicines { list }
            },
            StoreRequest::InsertMedicine { medicine } => match self.issue() {
                Some(id) => {
                    let mut stored = medicine.clone();
                    stored.id = Some(id);
                    self.medicines.push(stored);
                    assert(self.medicines.deep_view() =~= old(self).medicines.deep_view().push(
                        stored@,
                    ));
                    StoreReply::Written
                },
                None => StoreReply::Failed { message: "No identifier is left".to_owned() },
            },
            StoreRequest::UpdateMedicine { medicine } => match self.find_keyed(
                &medicine.id,
                &medicine.user_id,
            ) {
                Some(i) => {
                    self.medicines[i] = medicine.clone();
                    assert(self.medicines.deep_view() =~= old(self).medicines.deep_view().update(
                        i as int,
                        medicine@,
                    ));
                    StoreReply::Changed { count: 1 }
                },
                None => StoreReply::Changed { count: 0 },
            },
            StoreRequest::DeleteMedicine { id, owner } => match self.find_keyed(&Some(*id), owner) {
                Some(i) => {
                    self.medicines.remove(i);
                    assert(self.medicines.deep_view() =~= old(self).medicines.deep_view().remove(
                        i as int,
                    ));
                    StoreReply::Changed { count: 1 }
                },
                None => StoreReply::Changed { count: 0 },
            },
            StoreRequest::SearchMedicines { owner, query, skip, limit } => {
                let hits = self.select(owner, Some(query));
                StoreReply::Rows { rows: page_rows(&hits, *skip, *limit) }
            },
        }
    }
}

/// The rows of one page of the records that a search matched.
fn page_rows(hits: &Vec<Medicine>, skip: u64, limit: u32) -> (rows: Vec<SearchRow>)
    ensures
        rows.deep_view() == rows_for(page_of(hits.deep_view(), skip, limit)),
{
    let ghost all = hits.deep_view();
    let n: usize = hits.len();
    let from: usize = if skip <= n as u64 {
        skip as usize
    } else {
        n
    };
    let to: usize = if (n - from) as u64 >= limit as u64 && skip <= n as u64 {
        from + limit as usize
    } else {
        n
    };
    assert(page_of(all, skip, limit) == all.subrange(from as int, to as int));
    let mut rows: Vec<SearchRow> = Vec::new();
    let mut i: usize = from;
    while i < to
        invariant
            from <= i <= to <= n,
            n == hits.len(),
            all == hits.deep_view(),
            rows.len() == i - from,
            forall|j: int| 0 <= j < i - from ==> (#[trigger] rows[j])@ == row_of(all[from + j]),
        decreases to - i,
    {
        let record = &hits[i];
        assert(all[i as int] == record@);
        rows.push(
            SearchRow::Info {
                info: MedicineInfo {
                    name: record.name.clone(),
                    selling_price: Some(record.selling_price),
                },
            },
        );
        i += 1;
    }
    assert(rows.deep_view() =~= rows_for(all.subrange(from as int, to as int)));
    rows
}

} // verus!
