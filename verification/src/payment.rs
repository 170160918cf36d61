//! The records that the dispatcher reads and pays.
use vstd::prelude::*;
use crate::helper::STAKEHOLDERS;

verus! {

/// One payment: the index of its record, which grows from record to record,
/// and what each stakeholder is owed.
#[derive(Copy, Clone, Debug, PartialEq, Eq, Structural)]
pub struct Payment {
    pub line: u64,
    pub bank: i32,
    pub airline: i32,
    pub hotel: i32,
}

/// The three amounts of a payment, as a source without record indices gives
/// them.
#[derive(Copy, Clone, Debug, PartialEq, Eq, Structural)]
pub struct Record {
    pub hotel: i32,
    pub airline: i32,
    pub bank: i32,
}

impl Payment {
    /// What stakeholder `stakeholder` is owed: 0 is the bank, 1 the airline,
    /// 2 the hotel.
    pub open spec fn amount_of(self, stakeholder: int) -> i32
        recommends
            0 <= stakeholder < STAKEHOLDERS,
    {
        if stakeholder == 0 {
            self.bank
        } else if stakeholder == 1 {
            self.airline
        } else {
            self.hotel
        }
    }

    /// What stakeholder `stakeholder` is owed.
    pub fn amount(&self, stakeholder: usize) -> (amount: i32)
        requires
            stakeholder < STAKEHOLDERS,
        ensures
            amount == self.amount_of(stakeholder as int),
    {
        if stakeholder == 0 {
            self.bank
        } else if stakeholder == 1 {
            self.airline
        } else {
            self.hotel
        }
    }

    /// The payment that `record` asks for, as record number `line`.
    pub fn from_record(line: u64, record: Record) -> (payment: Payment)
        ensures
            payment == (Payment {
                line,
                bank: record.bank,
                airline: record.airline,
                hotel: record.hotel,
            }),
    {
        Payment { line, bank: record.bank, airline: record.airline, hotel: record.hotel }
    }
}

} // verus!
