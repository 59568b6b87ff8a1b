//! The derived metric: average monthly pay per employee.

use vstd::prelude::*;
use vstd::arithmetic::div_mod::lemma_div_is_ordered;
use vstd::arithmetic::div_mod::lemma_div_is_ordered_by_denominator;

verus! {

/// Average monthly pay, in tenths of a currency unit: the yearly net pay
/// costs divided by the employee count and by twelve months, truncated to
/// one decimal place. Zero employees give zero, for any pay costs.
pub open spec fn average_pay_tenths_spec(net: int, emp: int) -> int {
    if emp <= 0 {
        0
    } else {
        (net * 10) / (emp * 12)
    }
}

/// Derive the average-pay metric from the extracted fields.
pub fn average_pay_tenths(net: u64, emp: u64) -> (r: u64)
    ensures
        r == average_pay_tenths_spec(net as int, emp as int),
{
    if emp == 0 {
        0
    } else {
        let num = (net as u128) * 10;
        let den = (emp as u128) * 12;
        let t = num / den;
        proof {
            let n = net as int;
            let e = emp as int;
            lemma_div_is_ordered_by_denominator(n * 10, 12, e * 12);
            lemma_div_is_ordered(n * 10, u64::MAX * 10, 12);
            assert((n * 10) / (e * 12) <= u64::MAX) by {
                assert((u64::MAX * 10) / 12 <= u64::MAX);
            }
        }
        t as u64
    }
}

} // verus!
