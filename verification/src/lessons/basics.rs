//! Arithmetic and range checks from the introductory lessons: adding two
//! bytes, refusing values out of a range, an adder that stores its sum, a
//! second program that asks the first to add, and splitting an amount of
//! lamports between recipients.

use vstd::prelude::*;
use crate::address::Address;

verus! {

/// The sum of two bytes. The instruction unwraps a checked addition, so a
/// sum above 255 does not return; it is left out here.
pub fn add(a: u8, b: u8) -> (r: u8)
    requires
        a + b <= 255,
    ensures
        r == a + b,
{
    a + b
}

/// Why `limit_range` refuses a value.
#[derive(Debug, Clone, Copy, PartialEq, Eq, Structural)]
pub enum MyError {
    AisTooSmall,
    AisBig,
}

/// Accepts a value between 10 and 100, both included.
pub fn limit_range(a: u64) -> (r: Result<(), MyError>)
    ensures
        a < 10 ==> r == Err::<(), MyError>(MyError::AisTooSmall),
        a > 100 ==> r == Err::<(), MyError>(MyError::AisBig),
        10 <= a <= 100 ==> r is Ok,
{
    if a < 10 {
        Err(MyError::AisTooSmall)
    } else if a > 100 {
        Err(MyError::AisBig)
    } else {
        Ok(())
    }
}

/// The account the adder stores its last sum in.
#[derive(Debug, Clone, Copy, PartialEq, Eq, Structural)]
pub struct BobData {
    pub result: u64,
}

/// Why the adder refuses.
#[derive(Debug, Clone, Copy, PartialEq, Eq, Structural)]
pub enum BobError {
    Overflow,
}

/// Stores `a + b`, or refuses with `Overflow` (and leaves the account as it
/// was) when the sum does not fit in a `u64`.
pub fn add_and_store(data: &mut BobData, a: u64, b: u64) -> (r: Result<(), BobError>)
    ensures
        a + b <= u64::MAX ==> r is Ok && final(data).result == a + b,
        a + b > u64::MAX ==> r == Err::<(), BobError>(BobError::Overflow) && *final(data) == *old(data),
{
    match a.checked_add(b) {
        Some(v) => {
            data.result = v;
            Ok(())
        },
        None => Err(BobError::Overflow),
    }
}

/// Why the caller of the adder refuses.
#[derive(Debug, Clone, Copy, PartialEq, Eq, Structural)]
pub enum AliceError {
    CpiToBobFailed,
}

/// Asks the adder to store `a + b`; any refusal of the adder becomes
/// `CpiToBobFailed`.
pub fn ask_bob_to_add(data: &mut BobData, a: u64, b: u64) -> (r: Result<(), AliceError>)
    ensures
        a + b <= u64::MAX ==> r is Ok && final(data).result == a + b,
        a + b > u64::MAX ==> r == Err::<(), AliceError>(AliceError::CpiToBobFailed)
            && *final(data) == *old(data),
{
    match add_and_store(data, a, b) {
        Ok(()) => Ok(()),
        Err(_) => Err(AliceError::CpiToBobFailed),
    }
}

/// The share each of `n` recipients gets of `amount`: the integer quotient
/// (what is left over stays with the payer). With no recipient the split
/// divides by zero, so `n` is positive here.
pub fn split_amount(amount: u64, n: u64) -> (r: u64)
    requires
        n > 0,
    ensures
        r == amount / n,
        r * n <= amount,
        amount - r * n < n,
{
    let r = amount / n;
    assert(r * n <= amount && amount - r * n < n) by (nonlinear_arith)
        requires
            r == amount / n,
            n > 0,
    ;
    r
}

/// The transfers that split `amount` between the recipients: one per
/// recipient, in their order, each of `amount / recipients.len()` lamports.
pub fn split_sol(amount: u64, recipients: &Vec<Address>) -> (r: Vec<(Address, u64)>)
    requires
        recipients.len() > 0,
    ensures
        r.len() == recipients.len(),
        forall|i: int| 0 <= i < r.len() ==> (#[trigger] r[i]).0 == recipients[i]
            && r[i].1 == amount / (recipients.len() as u64),
        r.len() * (amount / (recipients.len() as u64)) <= amount,
{
    let n = recipients.len() as u64;
    let each = split_amount(amount, n);
    let mut out: Vec<(Address, u64)> = Vec::new();
    let mut i: usize = 0;
    while i < recipients.len()
        invariant
            i <= recipients.len(),
            n == recipients.len(),
            each == amount / n,
            out.len() == i,
            forall|j: int| 0 <= j < i ==> (#[trigger] out[j]).0 == recipients[j] && out[j].1 == each,
        decreases recipients.len() - i,
    {
        out.push((recipients[i], each));
        i = i + 1;
    }
    out
}

} // verus!
