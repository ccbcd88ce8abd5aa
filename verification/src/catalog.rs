//! The catalog of supported Euler orders and the library version,
//! as handed to the boundary for display or serialization.

use vstd::prelude::*;

use crate::orders::order_list;
use crate::orders::EulerOrder;

verus! {

/// One catalog entry: an order's code, its family, and its conventional
/// name where one is in common use (empty otherwise).
#[derive(Clone, Debug)]
pub struct OrderInfo {
    pub code: String,
    pub family: String,
    pub common_name: String,
}

/// The catalog of the twelve supported orders, in the canonical listing,
/// each entry carrying that order's code, family and conventional name.
pub fn get_euler_orders() -> (r: Vec<OrderInfo>)
    ensures
        r@.len() == order_list().len(),
        forall|i: int|
            0 <= i < r@.len() ==> {
                &&& (#[trigger] r@[i]).code@ == order_list()[i].code()
                &&& r@[i].family@ == order_list()[i].family()
                &&& r@[i].common_name@ == order_list()[i].common()
            },
{
    let orders = crate::orders::all_orders();
    let mut r: Vec<OrderInfo> = Vec::new();
    for idx in 0..orders.len()
        invariant
            orders@ == order_list(),
            r@.len() == idx,
            forall|j: int|
                0 <= j < idx ==> {
                    &&& (#[trigger] r@[j]).code@ == order_list()[j].code()
                    &&& r@[j].family@ == order_list()[j].family()
                    &&& r@[j].common_name@ == order_list()[j].common()
                },
    {
        let o = orders[idx];
        r.push(
            OrderInfo {
                code: String::from_str(o.as_str()),
                family: String::from_str(o.family_name()),
                common_name: String::from_str(o.common_name()),
            },
        );
    }
    r
}

/// The library's version string.
pub fn version() -> (r: String)
    ensures
        r@ == "0.1.0"@,
{
    String::from_str("0.1.0")
}

} // verus!
