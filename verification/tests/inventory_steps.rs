use med_inventory::commands::{
    delete_medicine, gather_rows, get_medicine, initialize_db, insert_medicine, search_medicines,
    update_medicine,
};
use med_inventory::error::CommandError;
use med_inventory::ident::RecordId;
use med_inventory::model::{Medicine, MedicineInfo, Price};
use med_inventory::store::{SearchRow, Step, StoreReply, StoreRequest};

fn price(x: f64) -> Price {
    Price { bits: x.to_bits() }
}

fn info(name: &str, selling: f64) -> MedicineInfo {
    MedicineInfo { name: name.to_string(), selling_price: Some(price(selling)) }
}

fn sample(id: Option<RecordId>, owner: &str) -> Medicine {
    Medicine {
        id,
        name: "Paracetamol".to_string(),
        batch_number: "B-17".to_string(),
        expiry_date: "2027-01-31".to_string(),
        quantity: 100,
        purchase_price: price(1.25),
        selling_price: price(2.5),
        wholesaler_name: "Acme".to_string(),
        purchase_date: "2025-06-01".to_string(),
        user_id: owner.to_string(),
    }
}

fn unexpected<T>() -> Step<T> {
    Step::Finish {
        result: Err(CommandError::DatabaseError {
            message: "Unexpected reply from the store".to_string(),
        }),
    }
}

#[test]
fn search_asks_for_the_page() {
    let step = search_medicines("u1", "para", 3, 10, None);
    assert_eq!(
        step,
        Step::Ask {
            request: StoreRequest::SearchMedicines {
                owner: "u1".to_string(),
                query: "para".to_string(),
                skip: 20,
                limit: 10,
            }
        }
    );
}

#[test]
fn search_first_page_skips_nothing() {
    let step = search_medicines("u1", "", 1, 25, None);
    assert_eq!(
        step,
        Step::Ask {
            request: StoreRequest::SearchMedicines {
                owner: "u1".to_string(),
                query: String::new(),
                skip: 0,
                limit: 25,
            }
        }
    );
}

#[test]
fn search_skip_does_not_wrap() {
    let step = search_medicines("u1", "x", u32::MAX, u32::MAX, None);
    assert_eq!(
        step,
        Step::Ask {
            request: StoreRequest::SearchMedicines {
                owner: "u1".to_string(),
                query: "x".to_string(),
                skip: 4294967294u64 * 4294967295u64,
                limit: u32::MAX,
            }
        }
    );
    let step = search_medicines("u1", "x", 65537, 65536, None);
    assert_eq!(
        step,
        Step::Ask {
            request: StoreRequest::SearchMedicines {
                owner: "u1".to_string(),
                query: "x".to_string(),
                skip: 4294967296,
                limit: 65536,
            }
        }
    );
}

#[test]
fn search_refuses_page_zero() {
    let expected: Step<Vec<MedicineInfo>> = Step::Finish {
        result: Err(CommandError::InvalidArgument {
            message: "Page numbers start at 1".to_string(),
        }),
    };
    assert_eq!(search_medicines("u1", "x", 0, 10, None), expected);
    let reply = StoreReply::Rows { rows: vec![] };
    assert_eq!(search_medicines("u1", "x", 0, 10, Some(reply)), expected);
}

#[test]
fn search_returns_the_rows_in_order() {
    let rows = vec![
        SearchRow::Info { info: info("Paracetamol", 2.5) },
        SearchRow::Info { info: MedicineInfo { name: "Parafin".to_string(), selling_price: None } },
    ];
    let step = search_medicines("u1", "para", 1, 10, Some(StoreReply::Rows { rows }));
    assert_eq!(
        step,
        Step::Finish {
            result: Ok(vec![
                info("Paracetamol", 2.5),
                MedicineInfo { name: "Parafin".to_string(), selling_price: None },
            ])
        }
    );
}

#[test]
fn search_of_no_rows_is_empty() {
    let step = search_medicines("u1", "para", 1, 10, Some(StoreReply::Rows { rows: vec![] }));
    assert_eq!(step, Step::Finish { result: Ok(vec![]) });
}

#[test]
fn search_stops_at_a_malformed_row() {
    let rows = vec![
        SearchRow::Info { info: info("A", 1.0) },
        SearchRow::Malformed,
        SearchRow::Info { info: info("B", 2.0) },
    ];
    let step = search_medicines("u1", "", 1, 10, Some(StoreReply::Rows { rows }));
    assert_eq!(step, Step::Finish { result: Err(CommandError::MalformedRecord) });
}

#[test]
fn search_reports_the_first_bad_row() {
    let rows = vec![
        SearchRow::Info { info: info("A", 1.0) },
        SearchRow::Failed { message: "cursor lost".to_string() },
        SearchRow::Malformed,
    ];
    assert_eq!(
        gather_rows(&rows),
        Err(CommandError::DatabaseError {
            message: "Error retrieving medicine: cursor lost".to_string()
        })
    );
    let rows = vec![
        SearchRow::Malformed,
        SearchRow::Failed { message: "cursor lost".to_string() },
    ];
    assert_eq!(gather_rows(&rows), Err(CommandError::MalformedRecord));
}

#[test]
fn search_reports_a_failed_query() {
    let reply = StoreReply::Failed { message: "timeout".to_string() };
    let step = search_medicines("u1", "x", 1, 10, Some(reply));
    assert_eq!(
        step,
        Step::Finish {
            result: Err(CommandError::DatabaseError {
                message: "Database error: timeout".to_string()
            })
        }
    );
}

#[test]
fn search_refuses_a_reply_of_another_kind() {
    assert_eq!(search_medicines("u1", "x", 1, 10, Some(StoreReply::Written)), unexpected());
    assert_eq!(
        search_medicines("u1", "x", 1, 10, Some(StoreReply::Medicines { list: vec![] })),
        unexpected()
    );
}

#[test]
fn get_asks_for_the_owner() {
    assert_eq!(
        get_medicine("u1", None),
        Step::Ask { request: StoreRequest::FindMedicines { owner: "u1".to_string() } }
    );
}

#[test]
fn get_returns_the_list_as_it_came() {
    let id = RecordId { bytes: [3; 12] };
    let list = vec![sample(Some(id), "u1"), sample(None, "u1")];
    let step = get_medicine("u1", Some(StoreReply::Medicines { list }));
    assert_eq!(
        step,
        Step::Finish { result: Ok(vec![sample(Some(id), "u1"), sample(None, "u1")]) }
    );
}

#[test]
fn get_reports_a_failure_verbatim() {
    let reply = StoreReply::Failed { message: "no route to host".to_string() };
    assert_eq!(
        get_medicine("u1", Some(reply)),
        Step::Finish {
            result: Err(CommandError::DatabaseError { message: "no route to host".to_string() })
        }
    );
    assert_eq!(get_medicine("u1", Some(StoreReply::Changed { count: 1 })), unexpected());
}

#[test]
fn insert_asks_to_persist_the_record_without_identifier() {
    let step = insert_medicine(
        "u1",
        "Paracetamol",
        "B-17",
        "2027-01-31",
        100,
        price(1.25),
        price(2.5),
        "Acme",
        "2025-06-01",
        None,
    );
    assert_eq!(
        step,
        Step::Ask { request: StoreRequest::InsertMedicine { medicine: sample(None, "u1") } }
    );
}

#[test]
fn insert_accepts_fields_as_they_are() {
    let step = insert_medicine("", "", "", "not a date", 0, price(-1.0), price(f64::NAN), "", "", None);
    match step {
        Step::Ask { request: StoreRequest::InsertMedicine { medicine } } => {
            assert_eq!(medicine.id, None);
            assert_eq!(medicine.user_id, "");
            assert_eq!(medicine.expiry_date, "not a date");
            assert_eq!(medicine.quantity, 0);
            assert_eq!(f64::from_bits(medicine.purchase_price.bits), -1.0);
            assert!(f64::from_bits(medicine.selling_price.bits).is_nan());
        }
        other => panic!("expected an insertion, got {:?}", other),
    }
}

#[test]
fn insert_confirms_or_reports() {
    let run = |reply: StoreReply| {
        insert_medicine("u1", "n", "b", "e", 1, price(1.0), price(2.0), "w", "p", Some(reply))
    };
    assert_eq!(
        run(StoreReply::Written),
        Step::Finish { result: Ok("Medicine inserted successfully.".to_string()) }
    );
    assert_eq!(
        run(StoreReply::Failed { message: "disk full".to_string() }),
        Step::Finish {
            result: Err(CommandError::DatabaseError { message: "disk full".to_string() })
        }
    );
    assert_eq!(run(StoreReply::Changed { count: 1 }), unexpected());
}

#[test]
fn update_asks_to_overwrite_by_identifier_and_owner() {
    let step = update_medicine(
        "u1",
        "000102030405060708090a0b",
        "Paracetamol",
        "B-17",
        "2027-01-31",
        100,
        price(1.25),
        price(2.5),
        "Acme",
        "2025-06-01",
        None,
    );
    let id = RecordId { bytes: [0, 1, 2, 3, 4, 5, 6, 7, 8, 9, 10, 11] };
    assert_eq!(
        step,
        Step::Ask { request: StoreRequest::UpdateMedicine { medicine: sample(Some(id), "u1") } }
    );
}

#[test]
fn update_refuses_a_malformed_identifier() {
    let step = update_medicine("u1", "12345", "n", "b", "e", 1, price(1.0), price(2.0), "w", "p", None);
    assert!(matches!(
        step,
        Step::Finish { result: Err(CommandError::InvalidArgument { .. }) }
    ));
    let step = update_medicine(
        "u1",
        "12345",
        "n",
        "b",
        "e",
        1,
        price(1.0),
        price(2.0),
        "w",
        "p",
        Some(StoreReply::Changed { count: 1 }),
    );
    assert!(matches!(
        step,
        Step::Finish { result: Err(CommandError::InvalidArgument { .. }) }
    ));
}

#[test]
fn update_tells_found_from_not_found() {
    let run = |reply: StoreReply| {
        update_medicine(
            "u1",
            "000102030405060708090a0b",
            "n",
            "b",
            "e",
            1,
            price(1.0),
            price(2.0),
            "w",
            "p",
            Some(reply),
        )
    };
    assert_eq!(
        run(StoreReply::Changed { count: 1 }),
        Step::Finish { result: Ok("Medicine updated successfully.".to_string()) }
    );
    assert_eq!(
        run(StoreReply::Changed { count: 0 }),
        Step::Finish { result: Err(CommandError::NotFound) }
    );
    assert_eq!(
        run(StoreReply::Failed { message: "down".to_string() }),
        Step::Finish { result: Err(CommandError::DatabaseError { message: "down".to_string() }) }
    );
    assert_eq!(run(StoreReply::Written), unexpected());
}

#[test]
fn delete_asks_by_identifier_and_owner() {
    let id = RecordId { bytes: [0xab; 12] };
    assert_eq!(
        delete_medicine("u1", "abababababababababababab", None),
        Step::Ask { request: StoreRequest::DeleteMedicine { id, owner: "u1".to_string() } }
    );
}

#[test]
fn delete_refuses_a_malformed_identifier() {
    assert!(matches!(
        delete_medicine("u1", "", None),
        Step::Finish { result: Err(CommandError::InvalidArgument { .. }) }
    ));
    assert!(matches!(
        delete_medicine("u1", "ababababababababababababab", None),
        Step::Finish { result: Err(CommandError::InvalidArgument { .. }) }
    ));
}

#[test]
fn delete_tells_found_from_not_found() {
    let id = "abababababababababababab";
    assert_eq!(
        delete_medicine("u1", id, Some(StoreReply::Changed { count: 1 })),
        Step::Finish { result: Ok("Medicine deleted successfully.".to_string()) }
    );
    assert_eq!(
        delete_medicine("u1", id, Some(StoreReply::Changed { count: 0 })),
        Step::Finish { result: Err(CommandError::NotFound) }
    );
    assert_eq!(
        delete_medicine("u1", id, Some(StoreReply::Failed { message: "down".to_string() })),
        Step::Finish { result: Err(CommandError::DatabaseError { message: "down".to_string() }) }
    );
    assert_eq!(
        delete_medicine("u1", id, Some(StoreReply::User { found: None })),
        unexpected()
    );
}

#[test]
fn initialize_refuses_an_empty_owner() {
    let expected: Step<String> = Step::Finish {
        result: Err(CommandError::InvalidArgument {
            message: "User ID cannot be empty".to_string(),
        }),
    };
    assert_eq!(initialize_db("", None), expected);
    assert_eq!(initialize_db("", Some(StoreReply::Written)), expected);
}

#[test]
fn initialize_writes_a_marker_into_the_owners_collection() {
    assert_eq!(
        initialize_db("u1", None),
        Step::Ask {
            request: StoreRequest::InsertMarker { collection: "medicines_u1".to_string() }
        }
    );
}

#[test]
fn initialize_confirms_or_reports_with_the_owner() {
    assert_eq!(
        initialize_db("u1", Some(StoreReply::Written)),
        Step::Finish { result: Ok("Medicines collection for user u1 is ready.".to_string()) }
    );
    assert_eq!(
        initialize_db("u1", Some(StoreReply::Failed { message: "refused".to_string() })),
        Step::Finish {
            result: Err(CommandError::DatabaseError {
                message: "Failed to initialize database for user u1: refused".to_string()
            })
        }
    );
    assert_eq!(initialize_db("u1", Some(StoreReply::Rows { rows: vec![] })), unexpected());
}
