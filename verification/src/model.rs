//! The records that the store keeps, and their mathematical views.

use vstd::prelude::*;
use crate::ident::RecordId;

verus! {

/// A price as the sixty-four bits of its IEEE 754 double. The commands carry
/// prices through unchanged and never compute with them.
#[derive(Clone, Copy, Debug, PartialEq, Eq)]
pub struct Price {
    pub bits: u64,
}

/// An account. `id` is `None` until the store has persisted the record.
#[derive(Debug, PartialEq, Eq)]
pub struct User {
    pub id: Option<RecordId>,
    pub username: String,
    pub password_hash: String,
    pub email: String,
}

/// What a `User` holds, as plain values.
pub struct UserView {
    pub id: Option<Seq<u8>>,
    pub username: Seq<char>,
    pub password_hash: Seq<char>,
    pub email: Seq<char>,
}

impl View for User {
    type V = UserView;

    open spec fn view(&self) -> UserView {
        UserView {
            id: self.id.deep_view(),
            username: self.username@,
            password_hash: self.password_hash@,
            email: self.email@,
        }
    }
}

impl DeepView for User {
    type V = UserView;

    open spec fn deep_view(&self) -> UserView {
        self@
    }
}

impl Clone for User {
    fn clone(&self) -> (r: Self)
        ensures
            r@ == self@,
    {
        User {
            id: self.id,
            username: self.username.clone(),
            password_hash: self.password_hash.clone(),
            email: self.email.clone(),
        }
    }
}

/// One inventory record. `user_id` names the owner; `id` is `None` until the
/// store has persisted the record.
#[derive(Debug, PartialEq, Eq)]
pub struct Medicine {
    pub id: Option<RecordId>,
    pub name: String,
    pub batch_number: String,
    pub expiry_date: String,
    pub quantity: u32,
    pub purchase_price: Price,
    pub selling_price: Price,
    pub wholesaler_name: String,
    pub purchase_date: String,
    pub user_id: String,
}

/// What a `Medicine` holds, as plain values.
pub struct MedicineView {
    pub id: Option<Seq<u8>>,
    pub name: Seq<char>,
    pub batch_number: Seq<char>,
    pub expiry_date: Seq<char>,
    pub quantity: u32,
    pub purchase_price: Price,
    pub selling_price: Price,
    pub wholesaler_name: Seq<char>,
    pub purchase_date: Seq<char>,
    pub user_id: Seq<char>,
}

impl View for Medicine {
    type V = MedicineView;

    open spec fn view(&self) -> MedicineView {
        MedicineView {
            id: self.id.deep_view(),
            name: self.name@,
            batch_number: self.batch_number@,
            expiry_date: self.expiry_date@,
            quantity: self.quantity,
            purchase_price: self.purchase_price,
            selling_price: self.selling_price,
            wholesaler_name: self.wholesaler_name@,
            purchase_date: self.purchase_date@,
            user_id: self.user_id@,
        }
    }
}

impl DeepView for Medicine {
    type V = MedicineView;

    open spec fn deep_view(&self) -> MedicineView {
        self@
    }
}

impl Clone for Medicine {
    fn clone(&self) -> (r: Self)
        ensures
            r@ == self@,
    {
        Medicine {
            id: self.id,
            name: self.name.clone(),
            batch_number: self.batch_number.clone(),
            expiry_date: self.expiry_date.clone(),
            quantity: self.quantity,
            purchase_price: self.purchase_price,
            selling_price: self.selling_price,
            wholesaler_name: self.wholesaler_name.clone(),
            purchase_date: self.purchase_date.clone(),
            user_id: self.user_id.clone(),
        }
    }
}

/// The part of a record that a search shows. `selling_price` is `None` where
/// the stored document has none.
#[derive(Debug, PartialEq, Eq)]
pub struct MedicineInfo {
    pub name: String,
    pub selling_price: Option<Price>,
}

/// What a `MedicineInfo` holds, as plain values.
pub struct MedicineInfoView {
    pub name: Seq<char>,
    pub selling_price: Option<Price>,
}

impl View for MedicineInfo {
    type V = MedicineInfoView;

    open spec fn view(&self) -> MedicineInfoView {
        MedicineInfoView { name: self.name@, selling_price: self.selling_price }
    }
}

impl DeepView for MedicineInfo {
    type V = MedicineInfoView;

    open spec fn deep_view(&self) -> MedicineInfoView {
        self@
    }
}

impl Clone for MedicineInfo {
    fn clone(&self) -> (r: Self)
        ensures
            r@ == self@,
    {
        MedicineInfo { name: self.name.clone(), selling_price: self.selling_price }
    }
}

/// The projection of a record that a search shows of it.
pub open spec fn info_of(m: MedicineView) -> MedicineInfoView {
    MedicineInfoView { name: m.name, selling_price: Some(m.selling_price) }
}

} // verus!
