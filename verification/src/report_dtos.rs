//! Plain data carriers for the quantity-change report resource.

use vstd::prelude::*;

verus! {

/// A stock-change report as listed: movement, product and reason names,
/// and the date rendered as text.
pub struct ReportViewDTO {
    pub id: u64,
    pub change_type: bool,
    pub quantity: u64,
    pub product: String,
    pub reason: String,
    pub date: String,
}

impl ReportViewDTO {
    pub fn new(
        id: u64,
        change_type: bool,
        quantity: u64,
        product: String,
        reason: String,
        date: String,
    ) -> (r: Self)
        ensures
            r.id == id,
            r.change_type == change_type,
            r.quantity == quantity,
            r.product@ == product@,
            r.reason@ == reason@,
            r.date@ == date@,
    {
        Self { id, change_type, quantity, product, reason, date }
    }
}

} // verus!
