//! Values shared by all the engines: account addresses, token transfers and
//! the two-phase outcome of an operation.

use vstd::prelude::*;

verus! {

/// A 32-byte account address, held as two 128-bit halves.
#[derive(Clone, Copy, Debug, PartialEq, Eq, Structural)]
pub struct Address {
    pub hi: u128,
    pub lo: u128,
}

/// A token account as the logic reads it: its address and its balance.
#[derive(Clone, Copy, Debug, PartialEq, Eq, Structural)]
pub struct TokenAccount {
    pub key: Address,
    pub amount: u64,
}

/// A movement of `amount` units from the account at `from` to the account at `to`.
#[derive(Clone, Copy, Debug, PartialEq, Eq, Structural)]
pub struct Transfer {
    pub from: Address,
    pub to: Address,
    pub amount: u64,
}

/// The failure reported by the host's transfer primitive, by its error code.
#[derive(Clone, Copy, Debug, PartialEq, Eq, Structural)]
pub struct TransferError {
    pub code: u64,
}

/// What a successful operation asks of the host: perform `transfers` in order,
/// and only once all of them have succeeded, store `next` in place of the record.
#[derive(Debug)]
pub struct Outcome<T> {
    pub next: T,
    pub transfers: Vec<Transfer>,
}

impl<T> Outcome<T> {
    pub open spec fn view_pair(self) -> (T, Seq<Transfer>) {
        (self.next, self.transfers@)
    }
}

/// The mathematical content of an operation's result: the next record and the
/// transfers, or the error.
pub open spec fn outcome_view<T, E>(r: Result<Outcome<T>, E>) -> Result<(T, Seq<Transfer>), E> {
    match r {
        Ok(o) => Ok(o.view_pair()),
        Err(e) => Err(e),
    }
}

/// Total amount that `ts` moves out of the account at `a`.
pub open spec fn outflow(ts: Seq<Transfer>, a: Address) -> int
    decreases ts.len(),
{
    if ts.len() == 0 {
        0
    } else {
        outflow(ts.drop_last(), a) + if ts.last().from == a {
            ts.last().amount as int
        } else {
            0
        }
    }
}

/// Total amount that `ts` moves into the account at `a`.
pub open spec fn inflow(ts: Seq<Transfer>, a: Address) -> int
    decreases ts.len(),
{
    if ts.len() == 0 {
        0
    } else {
        inflow(ts.drop_last(), a) + if ts.last().to == a {
            ts.last().amount as int
        } else {
            0
        }
    }
}

/// Completes an operation once the host has attempted its transfers: the
/// record takes its next value exactly when every transfer succeeded, and a
/// transfer failure is handed back with the record untouched.
pub fn settle<T>(record: &mut T, outcome: Outcome<T>, transfers: Result<(), TransferError>) -> (r:
    Result<(), TransferError>)
    ensures
        r == transfers,
        transfers is Ok ==> *final(record) == outcome.next,
        transfers is Err ==> *final(record) == *old(record),
{
    if transfers.is_ok() {
        *record = outcome.next;
    }
    transfers
}

} // verus!
