//! Plain data carriers for the product resource.

use vstd::prelude::*;

verus! {

pub struct ProductDTO {
    pub id: u64,
    pub name: String,
    pub quantity: u64,
    pub min_quantity: u64,
    pub category_id: u64,
}

impl ProductDTO {
    pub fn get_id(&self) -> (r: &u64)
        ensures
            *r == self.id,
    {
        &self.id
    }

    pub fn get_name(&self) -> (r: &String)
        ensures
            r@ == self.name@,
    {
        &self.name
    }

    pub fn get_quantity(&self) -> (r: &u64)
        ensures
            *r == self.quantity,
    {
        &self.quantity
    }

    pub fn get_min_quantity(&self) -> (r: &u64)
        ensures
            *r == self.min_quantity,
    {
        &self.min_quantity
    }

    pub fn get_category_id(&self) -> (r: &u64)
        ensures
            *r == self.category_id,
    {
        &self.category_id
    }
}

pub struct ProductCreateDTO {
    pub name: String,
    pub min_quantity: u64,
    pub category_id: u64,
}

impl ProductCreateDTO {
    pub fn get_name(&self) -> (r: &String)
        ensures
            r@ == self.name@,
    {
        &self.name
    }

    pub fn get_min_quantity(&self) -> (r: &u64)
        ensures
            *r == self.min_quantity,
    {
        &self.min_quantity
    }

    pub fn get_category_id(&self) -> (r: &u64)
        ensures
            *r == self.category_id,
    {
        &self.category_id
    }
}

/// A product as listed for viewers, with its category denormalized to a
/// name.
pub struct ProductViewDTO {
    pub id: u64,
    pub name: String,
    pub quantity: u64,
    pub min_quantity: u64,
    pub category: String,
}

impl ProductViewDTO {
    pub fn new(id: u64, name: String, quantity: u64, min_quantity: u64, category: String) -> (r:
        Self)
        ensures
            r.id == id,
            r.name@ == name@,
            r.quantity == quantity,
            r.min_quantity == min_quantity,
            r.category@ == category@,
    {
        Self { id, name, quantity, min_quantity, category }
    }
}

/// A requested stock movement: `change_type` is true for an increase and
/// false for a decrease.
pub struct ProductChangeQuantityDTO {
    pub id: u64,
    pub change_type: bool,
    pub quantity: u64,
    pub reason_id: u64,
}

impl ProductChangeQuantityDTO {
    pub fn get_id(&self) -> (r: &u64)
        ensures
            *r == self.id,
    {
        &self.id
    }

    pub fn get_change_type(&self) -> (r: &bool)
        ensures
            *r == self.change_type,
    {
        &self.change_type
    }

    pub fn get_quantity(&self) -> (r: &u64)
        ensures
            *r == self.quantity,
    {
        &self.quantity
    }

    pub fn get_reason_id(&self) -> (r: &u64)
        ensures
            *r == self.reason_id,
    {
        &self.reason_id
    }
}

/// Aggregate stock figures as the store reports them; each is absent when
/// no product row exists.
pub struct ProductInformationsGetDTO {
    pub quantity: Option<u64>,
    pub total: Option<u64>,
    pub warnings: Option<u64>,
}

/// Aggregate stock figures as shown, with absent figures as zero.
pub struct ProductInformationsViewDTO {
    pub quantity: u64,
    pub total: u64,
    pub warnings: u64,
}

} // verus!
