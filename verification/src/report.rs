//! The line that reports a conversion.

use crate::symbols::displayed_symbol;
use crate::symbols::symbol_or_code;
use crate::text_map::TextMap;
use vstd::prelude::*;

verus! {

/// Which way an amount is converted.
#[derive(Clone, Copy, Debug, PartialEq, Eq)]
pub enum Direction {
    /// From the source currency to the target currency, by multiplying with the rate.
    Forward,
    /// From the target currency back to the source currency, by dividing by the rate.
    Reverse,
}

/// `<amount> <sign><code> is <converted> <sign><code> (Rate as of <timestamp>)`.
pub open spec fn line_text(
    amount: Seq<char>,
    given_sign: Seq<char>,
    given_code: Seq<char>,
    converted: Seq<char>,
    result_sign: Seq<char>,
    result_code: Seq<char>,
    timestamp: Seq<char>,
) -> Seq<char> {
    amount + " "@ + given_sign + given_code + " is "@ + converted + " "@ + result_sign
        + result_code + " (Rate as of "@ + timestamp + ")"@
}

/// The report of a conversion between `from` and `to`. A forward conversion is given in
/// `from` and results in `to`; a reverse conversion is given in `to` and results in `from`.
pub open spec fn report_text(
    direction: Direction,
    symbols: Map<Seq<char>, String>,
    amount: Seq<char>,
    converted: Seq<char>,
    from: Seq<char>,
    to: Seq<char>,
    timestamp: Seq<char>,
) -> Seq<char> {
    match direction {
        Direction::Forward => line_text(
            amount,
            displayed_symbol(symbols, from),
            from,
            converted,
            displayed_symbol(symbols, to),
            to,
            timestamp,
        ),
        Direction::Reverse => line_text(
            amount,
            displayed_symbol(symbols, to),
            to,
            converted,
            displayed_symbol(symbols, from),
            from,
            timestamp,
        ),
    }
}

/// Puts the parts of a report line together.
pub fn conversion_line(
    amount: &str,
    given_sign: &str,
    given_code: &str,
    converted: &str,
    result_sign: &str,
    result_code: &str,
    timestamp: &str,
) -> (line: String)
    ensures
        line@ == line_text(
            amount@,
            given_sign@,
            given_code@,
            converted@,
            result_sign@,
            result_code@,
            timestamp@,
        ),
{
    let mut line = amount.to_owned();
    line.append(" ");
    line.append(given_sign);
    line.append(given_code);
    line.append(" is ");
    line.append(converted);
    line.append(" ");
    line.append(result_sign);
    line.append(result_code);
    line.append(" (Rate as of ");
    line.append(timestamp);
    line.append(")");
    line
}

/// The report of a conversion. `amount` and `converted` are the two amounts as they are to be
/// printed; the signs come from `symbols`, with the code itself where it lists none.
pub fn conversion_report(
    direction: Direction,
    symbols: &TextMap<String>,
    amount: &str,
    converted: &str,
    from: &str,
    to: &str,
    timestamp: &str,
) -> (line: String)
    requires
        symbols.wf(),
    ensures
        line@ == report_text(direction, symbols@, amount@, converted@, from@, to@, timestamp@),
{
    let from_sign = symbol_or_code(symbols, from);
    let to_sign = symbol_or_code(symbols, to);
    match direction {
        Direction::Forward => conversion_line(
            amount,
            from_sign.as_str(),
            from,
            converted,
            to_sign.as_str(),
            to,
            timestamp,
        ),
        Direction::Reverse => conversion_line(
            amount,
            to_sign.as_str(),
            to,
            converted,
            from_sign.as_str(),
            from,
            timestamp,
        ),
    }
}

} // verus!
