//! Shares of a total in percent, and the widths of the bars that show them.

use crate::amount::{money_text, write_money};
use crate::calculator::{of_type, sum_of, Calculator};
use crate::text::text_of;
use crate::rounding::{magnitude, magnitude_of, ratio_is_negative, round_div, round_ratio};
use crate::transaction::Transaction;
use crate::transaction_type::{all_types, TransactionType, NUMBER_OF_TYPES};
use vstd::prelude::*;

verus! {

/// The width of a bar of one hundred percent, in columns.
pub const CHART_WIDTH: usize = 50;

/// The share of `part` in `total` as a multiple of `1 / scale`, rounded to
/// the nearest, halves away from zero; 0 where the total is 0.
pub open spec fn share_of(part: int, total: int, scale: int) -> int {
    if total == 0 {
        0
    } else {
        round_ratio(scale * part, total)
    }
}

/// The share as the library computes it: 0 of a total of 0, else the share
/// where the scaled part is within the machine's widest integer, and none
/// where it is not.
pub open spec fn computed_share(part: int, total: int, scale: int) -> Option<int> {
    if total == 0 || share_fits(part, scale) {
        Some(share_of(part, total, scale))
    } else {
        None
    }
}

/// Whether `r` holds the computed share.
pub open spec fn holds_share(r: Option<i128>, part: int, total: int, scale: int) -> bool {
    match computed_share(part, total, scale) {
        Some(v) => r matches Some(x) && x == v,
        None => r is None,
    }
}

/// Whether the scaled part is within what the machine's widest integer
/// holds.
pub open spec fn share_fits(part: int, scale: int) -> bool {
    scale * magnitude(part) <= i128::MAX
}

/// The width of the bar for a share in whole percent: no column for a share
/// below zero, else one column for every two percent, and never more than
/// a `usize` counts.
pub open spec fn width_of(percent: int) -> int {
    if percent <= 0 {
        0
    } else if percent / columns_per_percent() > usize::MAX {
        usize::MAX as int
    } else {
        percent / columns_per_percent()
    }
}

/// How many percent one column of a bar stands for.
pub open spec fn columns_per_percent() -> int {
    100int / (CHART_WIDTH as int)
}

/// The width of the bar for a share in hundredths of a percent while the
/// bar grows: the share times the tenths of its full width that are
/// reached, rounded up to whole percent, then as `width_of` has it.
pub open spec fn growing_width_of(hundredths: int, tenths: int) -> int {
    width_of((tenths * hundredths + 999) / 1000)
}

/// A share in hundredths of a percent as it is shown: with two digits
/// behind the point and a percent sign, and as `0%` where it is nothing.
pub open spec fn share_text(hundredths: int) -> Seq<char> {
    if hundredths == 0 {
        "0%"@
    } else {
        money_text(hundredths) + seq!['%']
    }
}

/// Scaling a number scales its magnitude and keeps its sign.
proof fn scaling_keeps_sign(part: int, total: int, scale: int)
    requires
        scale > 0,
    ensures
        magnitude(scale * part) == scale * magnitude(part),
        ratio_is_negative(scale * part, total) == ratio_is_negative(part, total),
{
    assert(magnitude(scale * part) == scale * magnitude(part)) by (nonlinear_arith)
        requires
            scale > 0,
    ;
    assert((scale * part < 0) == (part < 0) && (scale * part > 0) == (part > 0))
        by (nonlinear_arith)
        requires
            scale > 0,
    ;
}

/// The share of `part` in `total` as a multiple of `1 / scale`.
fn scaled_share(part: i128, total: i128, scale: u128) -> (r: Option<i128>)
    requires
        0 < scale <= 10000,
    ensures
        holds_share(r, part as int, total as int, scale as int),
{
    if total == 0 {
        return Some(0);
    }
    let size: u128 = magnitude_of(part);
    let most: u128 = 0x7fff_ffff_ffff_ffff_ffff_ffff_ffff_ffff / scale;
    proof {
        let s = scale as int;
        let m = size as int;
        let top: int = 0x7fff_ffff_ffff_ffff_ffff_ffff_ffff_ffff;
        assert(m <= top / s <==> s * m <= top) by (nonlinear_arith)
            requires
                s > 0,
                m >= 0,
        ;
    }
    if size > most {
        return None;
    }
    let scaled: u128 = scale * size;
    let divisor: u128 = magnitude_of(total);
    let rounded: u128 = round_div(scaled, divisor);
    proof {
        scaling_keeps_sign(part as int, total as int, scale as int);
    }
    let negative: bool = (part < 0 && total > 0) || (part > 0 && total < 0);
    if negative {
        Some(-(rounded as i128))
    } else {
        Some(rounded as i128)
    }
}

/// The share of `part` in `total` in whole percent: 0 of a total of 0, and
/// none where a hundred times the part is beyond the machine's widest
/// integer.
pub fn percent(part: i128, total: i128) -> (r: Option<i128>)
    ensures
        holds_share(r, part as int, total as int, 100),
{
    scaled_share(part, total, 100)
}

/// The share of `part` in `total` in hundredths of a percent: 0 of a total
/// of 0, and none where ten thousand times the part is beyond the machine's
/// widest integer.
pub fn percent_hundredths(part: i128, total: i128) -> (r: Option<i128>)
    ensures
        holds_share(r, part as int, total as int, 10000),
{
    scaled_share(part, total, 10000)
}

/// The width of the bar for a share in whole percent.
pub fn bar_width(percent: i128) -> (r: usize)
    ensures
        r == width_of(percent as int),
{
    if percent <= 0 {
        return 0;
    }
    let step: i128 = 100 / (CHART_WIDTH as i128);
    let columns: i128 = percent / step;
    if columns > usize::MAX as i128 {
        usize::MAX
    } else {
        columns as usize
    }
}

/// The width of the bar for a share in hundredths of a percent while the
/// bar grows.
pub fn growing_bar_width(hundredths: i128, tenths: u8) -> (r: usize)
    ensures
        r == growing_width_of(hundredths as int, tenths as int),
{
    if hundredths <= 0 || tenths == 0 {
        proof {
            assert(tenths * hundredths <= 0) by (nonlinear_arith)
                requires
                    hundredths <= 0 || tenths == 0,
                    tenths >= 0,
            ;
        }
        return 0;
    }
    if hundredths > 0x7fff_ffff_ffff_ffff_ffff_ffff_ffff_ffff / 256 {
        proof {
            assert(tenths * hundredths >= hundredths) by (nonlinear_arith)
                requires
                    tenths >= 1,
                    hundredths > 0,
            ;
            assert(columns_per_percent() == 2);
        }
        return usize::MAX;
    }
    proof {
        assert(0 < tenths * hundredths <= 255 * hundredths) by (nonlinear_arith)
            requires
                1 <= tenths <= 255,
                hundredths > 0,
        ;
    }
    let scaled: i128 = tenths as i128 * hundredths;
    let percent: i128 = (scaled + 999) / 1000;
    bar_width(percent)
}

/// A share in hundredths of a percent as it is shown.
pub fn write_share(hundredths: i128) -> (r: String)
    ensures
        r@ == share_text(hundredths as int),
{
    if hundredths == 0 {
        return "0%".to_owned();
    }
    let mut out = write_money(hundredths);
    out.push('%');
    text_of(&out)
}

/// The shares of the categories in the sum of the transactions, in whole
/// percent and in the order of `all_types`.
pub open spec fn is_shares_of(shares: Seq<Option<i128>>, ts: Seq<Transaction>) -> bool {
    &&& shares.len() == all_types().len()
    &&& forall|k: int|
        0 <= k < shares.len() ==> holds_share(
            #[trigger] shares[k],
            sum_of(ts.filter(of_type(all_types()[k]))),
            sum_of(ts),
            100,
        )
}

impl Calculator {
    /// The share of every category in the sum of the transactions, in whole
    /// percent and in the order of `all_types`. Every share is 0 where the
    /// sum is 0.
    pub fn shares(transactions: &[Transaction]) -> (r: Vec<Option<i128>>)
        ensures
            is_shares_of(r@, transactions@),
    {
        let total: i128 = Calculator::sum(transactions);
        let all = TransactionType::all();
        let mut shares: Vec<Option<i128>> = Vec::new();
        let mut k: usize = 0;
        while k < NUMBER_OF_TYPES
            invariant
                k <= NUMBER_OF_TYPES,
                all@ == all_types(),
                total == sum_of(transactions@),
                shares.len() == k,
                forall|j: int|
                    0 <= j < k ==> holds_share(
                        #[trigger] shares@[j],
                        sum_of(transactions@.filter(of_type(all_types()[j]))),
                        sum_of(transactions@),
                        100,
                    ),
            decreases NUMBER_OF_TYPES - k,
        {
            let part: i128 = Calculator::sum_for_type(transactions, all[k]);
            shares.push(percent(part, total));
            k += 1;
        }
        shares
    }
}

/// A share of a total of zero is zero, whatever the part: no share divides
/// by zero.
pub proof fn share_of_nothing_is_zero(part: int, scale: int)
    ensures
        share_of(part, 0, scale) == 0,
        computed_share(part, 0, scale) == Some(0int),
{
}

} // verus!
