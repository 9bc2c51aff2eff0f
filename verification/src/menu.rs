//! The choices of the interactive menu.

use crate::entry::decimal_value;
use crate::entry::parse_number;
use crate::entry::trim_text;
use crate::entry::trimmed;
use crate::text_map::same_text;
use vstd::prelude::*;

verus! {

/// What the user asks for at the menu.
#[derive(Clone, Copy, Debug, PartialEq, Eq)]
pub enum MenuChoice {
    /// Convert an amount of the source currency.
    Convert,
    /// Convert an amount of the target currency back.
    ReverseConvert,
    /// List the currencies on offer.
    ListCurrencies,
    /// Leave the program.
    Quit,
    /// Anything else.
    Invalid,
}

/// The choice that an entry stands for, once the blanks around it are removed.
pub open spec fn choice_of(entry: Seq<char>) -> MenuChoice {
    if entry == "1"@ {
        MenuChoice::Convert
    } else if entry == "2"@ {
        MenuChoice::ReverseConvert
    } else if entry == "3"@ {
        MenuChoice::ListCurrencies
    } else if entry == "q"@ || entry == "Q"@ {
        MenuChoice::Quit
    } else {
        MenuChoice::Invalid
    }
}

/// The choice that a menu entry stands for. The entry is taken as it is, blanks included.
pub fn entry_choice(entry: &str) -> (choice: MenuChoice)
    ensures
        choice == choice_of(entry@),
{
    if same_text(entry, "1") {
        MenuChoice::Convert
    } else if same_text(entry, "2") {
        MenuChoice::ReverseConvert
    } else if same_text(entry, "3") {
        MenuChoice::ListCurrencies
    } else if same_text(entry, "q") || same_text(entry, "Q") {
        MenuChoice::Quit
    } else {
        MenuChoice::Invalid
    }
}

/// The codes of the currencies on offer, in the order in which they are listed.
pub open spec fn currency_codes() -> Seq<Seq<char>> {
    seq!["CNY"@, "USD"@, "GBP"@, "EUR"@]
}

/// The currencies on offer.
pub fn available_currencies() -> (codes: Vec<String>)
    ensures
        codes@.len() == currency_codes().len(),
        forall|i: int| 0 <= i < codes@.len() ==> (#[trigger] codes@[i])@ == currency_codes()[i],
{
    let mut codes: Vec<String> = Vec::new();
    codes.push("CNY".to_owned());
    codes.push("USD".to_owned());
    codes.push("GBP".to_owned());
    codes.push("EUR".to_owned());
    codes
}

/// The currency that `number` selects from a list numbered from 1, if it selects one.
pub open spec fn selected(number: Option<nat>, currencies: Seq<String>) -> Option<String> {
    match number {
        Some(n) => if 0 < n <= currencies.len() {
            Some(currencies[n - 1])
        } else {
            None
        },
        None => None,
    }
}

/// The currency that the number `choice` selects from a list numbered from 1.
pub fn currency_at(choice: usize, currencies: &Vec<String>) -> (code: Option<String>)
    ensures
        code == selected(Some(choice as nat), currencies@),
{
    if choice > 0 && choice <= currencies.len() {
        Some(currencies[choice - 1].clone())
    } else {
        None
    }
}

/// Reads a line typed at the menu: the choice that it stands for once the white space around
/// it is removed.
pub fn menu_choice(line: &str) -> (choice: MenuChoice)
    ensures
        choice == choice_of(trimmed(line@)),
{
    entry_choice(trim_text(line))
}

/// Reads a line typed to select a currency: the currency whose number in the list, counted
/// from 1, the line holds once the white space around it is removed. `None` where the line
/// holds no number or no currency has that number.
pub fn select_currency(line: &str, currencies: &Vec<String>) -> (code: Option<String>)
    ensures
        code == selected(decimal_value(trimmed(line@)), currencies@),
{
    match parse_number(trim_text(line)) {
        Some(choice) => currency_at(choice, currencies),
        None => {
            assert(currencies@.len() == currencies.len());
            None
        },
    }
}

} // verus!
