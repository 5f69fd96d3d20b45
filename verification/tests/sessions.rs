use med_inventory::error::CommandError;
use med_inventory::ident::RecordId;
use med_inventory::memory::MemoryStore;
use med_inventory::model::{MedicineInfo, Price};
use med_inventory::session::conclude;
use med_inventory::store::{Step, StoreRequest};

fn price(x: f64) -> Price {
    Price { bits: x.to_bits() }
}

fn add(store: &mut MemoryStore, owner: &str, name: &str, quantity: u32) -> Result<String, CommandError> {
    store.insert_medicine(
        owner,
        name,
        "B-1",
        "2030-12-31",
        quantity,
        price(1.5),
        price(3.25),
        "Acme",
        "2025-01-01",
    )
}

#[test]
fn insert_then_list_example() {
    let mut store = MemoryStore::new();
    assert_eq!(
        add(&mut store, "u1", "Paracetamol", 100),
        Ok("Medicine inserted successfully.".to_string())
    );
    let listed = store.get_medicine("u1").unwrap();
    assert_eq!(listed.len(), 1);
    assert_eq!(listed[0].name, "Paracetamol");
    assert_eq!(listed[0].quantity, 100);
    assert_eq!(store.get_medicine("u2"), Ok(vec![]));
}

#[test]
fn insert_then_list_keeps_every_field() {
    let mut store = MemoryStore::new();
    store
        .insert_medicine(
            "owner-7",
            "Amoxicillin",
            "LOT-42",
            "31/12/2026",
            12,
            price(0.1),
            price(1e9),
            "Wholesale & Co",
            "yesterday",
        )
        .unwrap();
    let listed = store.get_medicine("owner-7").unwrap();
    assert_eq!(listed.len(), 1);
    let m = &listed[0];
    assert!(m.id.is_some());
    assert_eq!(m.name, "Amoxicillin");
    assert_eq!(m.batch_number, "LOT-42");
    assert_eq!(m.expiry_date, "31/12/2026");
    assert_eq!(m.quantity, 12);
    assert_eq!(f64::from_bits(m.purchase_price.bits), 0.1);
    assert_eq!(f64::from_bits(m.selling_price.bits), 1e9);
    assert_eq!(m.wholesaler_name, "Wholesale & Co");
    assert_eq!(m.purchase_date, "yesterday");
    assert_eq!(m.user_id, "owner-7");
    assert_eq!(store.get_medicine("owner-8"), Ok(vec![]));
    assert_eq!(store.get_medicine(""), Ok(vec![]));
}

#[test]
fn update_of_a_foreign_record_is_not_found() {
    let mut store = MemoryStore::new();
    add(&mut store, "u1", "Paracetamol", 100).unwrap();
    let before = store.get_medicine("u1").unwrap();
    let id = before[0].id.unwrap().to_hex();
    let r = store.update_medicine("u2", &id, "Stolen", "x", "x", 0, price(0.0), price(0.0), "x", "x");
    assert_eq!(r, Err(CommandError::NotFound));
    assert_eq!(store.get_medicine("u1").unwrap(), before);
    assert_eq!(store.get_medicine("u2"), Ok(vec![]));
}

#[test]
fn delete_of_a_foreign_record_is_not_found() {
    let mut store = MemoryStore::new();
    add(&mut store, "u1", "Paracetamol", 100).unwrap();
    let before = store.get_medicine("u1").unwrap();
    let id = before[0].id.unwrap().to_hex();
    assert_eq!(store.delete_medicine("u2", &id), Err(CommandError::NotFound));
    assert_eq!(store.get_medicine("u1").unwrap(), before);
}

#[test]
fn update_and_delete_of_an_unknown_record_are_not_found() {
    let mut store = MemoryStore::new();
    add(&mut store, "u1", "Paracetamol", 100).unwrap();
    let unknown = RecordId { bytes: [0xaa; 12] }.to_hex();
    assert_eq!(
        store.update_medicine("u1", &unknown, "n", "b", "e", 1, price(1.0), price(1.0), "w", "p"),
        Err(CommandError::NotFound)
    );
    assert_eq!(store.delete_medicine("u1", &unknown), Err(CommandError::NotFound));
    assert_eq!(store.medicine_count(), 1);
}

#[test]
fn update_overwrites_all_fields_of_the_own_record() {
    let mut store = MemoryStore::new();
    add(&mut store, "u1", "Paracetamol", 100).unwrap();
    add(&mut store, "u1", "Ibuprofen", 50).unwrap();
    let id = store.get_medicine("u1").unwrap()[0].id.unwrap();
    let r = store.update_medicine(
        "u1",
        &id.to_hex(),
        "Paracetamol 500",
        "B-2",
        "2031-01-01",
        90,
        price(2.0),
        price(4.0),
        "Other",
        "2025-02-02",
    );
    assert_eq!(r, Ok("Medicine updated successfully.".to_string()));
    let listed = store.get_medicine("u1").unwrap();
    assert_eq!(listed.len(), 2);
    assert_eq!(listed[0].id, Some(id));
    assert_eq!(listed[0].name, "Paracetamol 500");
    assert_eq!(listed[0].batch_number, "B-2");
    assert_eq!(listed[0].expiry_date, "2031-01-01");
    assert_eq!(listed[0].quantity, 90);
    assert_eq!(listed[0].purchase_price, price(2.0));
    assert_eq!(listed[0].selling_price, price(4.0));
    assert_eq!(listed[0].wholesaler_name, "Other");
    assert_eq!(listed[0].purchase_date, "2025-02-02");
    assert_eq!(listed[0].user_id, "u1");
    assert_eq!(listed[1].name, "Ibuprofen");
    assert_eq!(listed[1].quantity, 50);
}

#[test]
fn delete_removes_the_own_record() {
    let mut store = MemoryStore::new();
    add(&mut store, "u1", "Paracetamol", 100).unwrap();
    add(&mut store, "u1", "Ibuprofen", 50).unwrap();
    let id = store.get_medicine("u1").unwrap()[0].id.unwrap().to_hex();
    assert_eq!(
        store.delete_medicine("u1", &id),
        Ok("Medicine deleted successfully.".to_string())
    );
    let listed = store.get_medicine("u1").unwrap();
    assert_eq!(listed.len(), 1);
    assert_eq!(listed[0].name, "Ibuprofen");
    assert_eq!(store.delete_medicine("u1", &id), Err(CommandError::NotFound));
}

#[test]
fn malformed_identifiers_change_nothing() {
    let mut store = MemoryStore::new();
    add(&mut store, "u1", "Paracetamol", 100).unwrap();
    let before = store.get_medicine("u1").unwrap();
    assert!(matches!(
        store.delete_medicine("u1", "not-an-id"),
        Err(CommandError::InvalidArgument { .. })
    ));
    assert!(matches!(
        store.update_medicine("u1", "0", "n", "b", "e", 1, price(1.0), price(1.0), "w", "p"),
        Err(CommandError::InvalidArgument { .. })
    ));
    assert_eq!(store.get_medicine("u1").unwrap(), before);
}

#[test]
fn search_pages_cover_the_matches_in_order() {
    let mut store = MemoryStore::new();
    for i in 0..7u32 {
        add(&mut store, "u1", &format!("Med {}", i), i).unwrap();
        add(&mut store, "u2", &format!("Med other {}", i), i).unwrap();
        add(&mut store, "u1", &format!("Other {}", i), i).unwrap();
    }
    let page = |store: &mut MemoryStore, k: u32| -> Vec<String> {
        store
            .search_medicines("u1", "med", k, 3)
            .unwrap()
            .into_iter()
            .map(|info| info.name)
            .collect()
    };
    assert_eq!(page(&mut store, 1), vec!["Med 0", "Med 1", "Med 2"]);
    assert_eq!(page(&mut store, 2), vec!["Med 3", "Med 4", "Med 5"]);
    assert_eq!(page(&mut store, 3), vec!["Med 6"]);
    assert_eq!(page(&mut store, 4), Vec::<String>::new());
    assert_eq!(page(&mut store, u32::MAX), Vec::<String>::new());
}

#[test]
fn search_shows_name_and_price_only() {
    let mut store = MemoryStore::new();
    add(&mut store, "u1", "Paracetamol", 100).unwrap();
    assert_eq!(
        store.search_medicines("u1", "CETA", 1, 10),
        Ok(vec![MedicineInfo {
            name: "Paracetamol".to_string(),
            selling_price: Some(price(3.25)),
        }])
    );
    assert_eq!(store.search_medicines("u1", "ceta", 1, 0), Ok(vec![]));
}

#[test]
fn search_run_refuses_page_zero() {
    let mut store = MemoryStore::new();
    add(&mut store, "u1", "Paracetamol", 100).unwrap();
    assert_eq!(
        store.search_medicines("u1", "para", 0, 10),
        Err(CommandError::InvalidArgument { message: "Page numbers start at 1".to_string() })
    );
}

#[test]
fn initialize_can_be_repeated() {
    let mut store = MemoryStore::new();
    add(&mut store, "u1", "Paracetamol", 100).unwrap();
    let before = store.get_medicine("u1").unwrap();
    let first = store.initialize_db("u1");
    let second = store.initialize_db("u1");
    assert_eq!(first, Ok("Medicines collection for user u1 is ready.".to_string()));
    assert_eq!(second, first);
    assert_eq!(store.get_medicine("u1").unwrap(), before);
    assert_eq!(store.medicine_count(), 1);
}

#[test]
fn initialize_run_refuses_an_empty_owner() {
    let mut store = MemoryStore::new();
    assert_eq!(
        store.initialize_db(""),
        Err(CommandError::InvalidArgument { message: "User ID cannot be empty".to_string() })
    );
}

#[test]
fn signup_then_login() {
    let mut store = MemoryStore::new();
    let id = store.signup("ann", "correct horse", "ann@example.org").unwrap();
    assert_eq!(id.len(), 24);
    assert!(RecordId::parse(&id).is_ok());
    assert_eq!(store.user_count(), 1);
    assert_eq!(store.login("ann", "correct horse"), Ok(id));
}

#[test]
fn login_with_a_wrong_password_or_name() {
    let mut store = MemoryStore::new();
    store.signup("ann", "correct horse", "ann@example.org").unwrap();
    assert_eq!(store.login("ann", "wrong horse"), Err(CommandError::InvalidCredentials));
    assert_eq!(store.login("bob", "correct horse"), Err(CommandError::InvalidCredentials));
    assert_eq!(store.login("", ""), Err(CommandError::InvalidCredentials));
}

#[test]
fn signups_with_different_emails_get_different_identifiers() {
    let mut store = MemoryStore::new();
    let a = store.signup("ann", "pw-a", "ann@example.org").unwrap();
    let b = store.signup("bob", "pw-b", "bob@example.org").unwrap();
    assert_ne!(a, b);
    assert_eq!(store.user_count(), 2);
    assert_eq!(store.login("bob", "pw-b"), Ok(b));
}

#[test]
fn signup_with_a_taken_email_creates_nothing() {
    let mut store = MemoryStore::new();
    let first = store.signup("ann", "pw", "ann@example.org").unwrap();
    assert_eq!(
        store.signup("ann2", "pw2", "ann@example.org"),
        Err(CommandError::DuplicateEmail)
    );
    assert_eq!(store.user_count(), 1);
    assert_eq!(store.login("ann2", "pw2"), Err(CommandError::InvalidCredentials));
    assert_eq!(store.login("ann", "pw"), Ok(first));
}

#[test]
fn a_second_account_of_the_same_name_does_not_hide_the_first() {
    let mut store = MemoryStore::new();
    let first = store.signup("ann", "pw-1", "one@example.org").unwrap();
    let second = store.signup("ann", "pw-2", "two@example.org").unwrap();
    assert_ne!(first, second);
    assert_eq!(store.login("ann", "pw-1"), Ok(first));
}

#[test]
fn conclude_takes_the_result_of_a_last_step() {
    let done: Step<String> = Step::Finish { result: Ok("x".to_string()) };
    assert_eq!(conclude(done), Ok("x".to_string()));
    let asks: Step<String> =
        Step::Ask { request: StoreRequest::FindMedicines { owner: "u1".to_string() } };
    assert_eq!(
        conclude(asks),
        Err(CommandError::DatabaseError { message: "Unexpected reply from the store".to_string() })
    );
}
