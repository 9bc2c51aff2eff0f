//! The signs that currency codes are printed with.

use crate::text_map::TextMap;
use vstd::prelude::*;

verus! {

/// The sign of each currency code that has one.
pub open spec fn symbol_table() -> Map<Seq<char>, Seq<char>> {
    map!["CNY"@ => "¥"@, "USD"@ => "$"@, "GBP"@ => "£"@, "EUR"@ => "€"@]
}

/// What is printed as the sign of `code`: its entry in `symbols`, or else the code itself.
pub open spec fn displayed_symbol(symbols: Map<Seq<char>, String>, code: Seq<char>) -> Seq<char> {
    if symbols.contains_key(code) {
        symbols[code]@
    } else {
        code
    }
}

/// The four currency codes are pairwise different.
proof fn codes_differ()
    ensures
        "CNY"@ != "USD"@,
        "CNY"@ != "GBP"@,
        "CNY"@ != "EUR"@,
        "USD"@ != "GBP"@,
        "USD"@ != "EUR"@,
        "GBP"@ != "EUR"@,
{
    reveal_strlit("CNY");
    reveal_strlit("USD");
    reveal_strlit("GBP");
    reveal_strlit("EUR");
    assert("CNY"@[0] == 'C');
    assert("USD"@[0] == 'U');
    assert("GBP"@[0] == 'G');
    assert("EUR"@[0] == 'E');
}

/// The table of currency signs.
pub fn get_currency_symbols() -> (symbols: TextMap<String>)
    ensures
        symbols.wf(),
        symbols@.dom() == symbol_table().dom(),
        forall|code: Seq<char>| #[trigger]
            symbols@.contains_key(code) ==> symbols@[code]@ == symbol_table()[code],
{
    let mut symbols = TextMap::new();
    symbols.insert("CNY".to_owned(), "¥".to_owned());
    symbols.insert("USD".to_owned(), "$".to_owned());
    symbols.insert("GBP".to_owned(), "£".to_owned());
    symbols.insert("EUR".to_owned(), "€".to_owned());
    proof {
        codes_differ();
        assert(symbols@.dom() =~= symbol_table().dom());
    }
    symbols
}

/// The sign to print for `code`: the one that `symbols` holds for it, or the code itself.
pub fn symbol_or_code(symbols: &TextMap<String>, code: &str) -> (sign: String)
    requires
        symbols.wf(),
    ensures
        sign@ == displayed_symbol(symbols@, code@),
{
    match symbols.get(code) {
        Some(sign) => sign.clone(),
        None => code.to_owned(),
    }
}

/// With the table of currency signs, a listed code is printed with its sign and any other
/// code as its own sign.
pub proof fn displayed_symbol_law(symbols: TextMap<String>, code: Seq<char>)
    requires
        symbols@.dom() == symbol_table().dom(),
        forall|c: Seq<char>| #[trigger]
            symbols@.contains_key(c) ==> symbols@[c]@ == symbol_table()[c],
    ensures
        displayed_symbol(symbols@, code) == (if symbol_table().contains_key(code) {
            symbol_table()[code]
        } else {
            code
        }),
{
    assert(symbols@.contains_key(code) == symbol_table().contains_key(code));
}

} // verus!
