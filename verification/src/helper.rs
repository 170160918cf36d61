//! Where each peer and each stakeholder listens.
use vstd::prelude::*;
use vstd::string::StringExecFns;
use crate::text::{decimal, decimal_string};

verus! {

/// The number of stakeholders: bank, airline and hotel.
pub const STAKEHOLDERS: usize = 3;

/// The control address of peer `id`: the prefix and the peer's number.
pub open spec fn ctrl_addr(id: usize) -> Seq<char> {
    "127.0.0.1:1234"@ + decimal(id as nat)
}

/// The data address of peer `id`: the prefix and the peer's number.
pub open spec fn data_addr(id: usize) -> Seq<char> {
    "127.0.0.1:1235"@ + decimal(id as nat)
}

/// The address at which peer `id` talks to the stakeholders: the prefix and
/// the peer's number.
pub open spec fn coord_addr(id: usize) -> Seq<char> {
    "127.0.0.1:123"@ + decimal(id as nat)
}

/// The address of stakeholder `id`: bank, airline, hotel.
pub open spec fn microservice_addr(id: usize) -> Seq<char>
    recommends
        id < STAKEHOLDERS,
{
    if id == 0 {
        "127.0.0.1:1111"@
    } else if id == 1 {
        "127.0.0.1:2222"@
    } else {
        "127.0.0.1:3333"@
    }
}

/// The address on which peer `id` exchanges election messages.
pub fn id_to_ctrladdr(id: usize) -> (addr: String)
    ensures
        addr@ == ctrl_addr(id),
{
    let number: String = decimal_string(id as u64);
    String::from_str("127.0.0.1:1234").concat(number.as_str())
}

/// The address on which peer `id` sends and receives the leader's progress.
pub fn id_to_dataaddr(id: usize) -> (addr: String)
    ensures
        addr@ == data_addr(id),
{
    let number: String = decimal_string(id as u64);
    String::from_str("127.0.0.1:1235").concat(number.as_str())
}

/// The address from which peer `id` coordinates transactions.
pub fn id_to_coordaddr(id: usize) -> (addr: String)
    ensures
        addr@ == coord_addr(id),
{
    let number: String = decimal_string(id as u64);
    String::from_str("127.0.0.1:123").concat(number.as_str())
}

/// The address of stakeholder `id`, which is 0 for the bank, 1 for the airline
/// and 2 for the hotel.
pub fn id_to_microservice(id: usize) -> (addr: String)
    requires
        id < STAKEHOLDERS,
    ensures
        addr@ == microservice_addr(id),
{
    let result: &'static str = if id == 0 {
        "127.0.0.1:1111"
    } else if id == 1 {
        "127.0.0.1:2222"
    } else {
        "127.0.0.1:3333"
    };
    String::from_str(result)
}

} // verus!
