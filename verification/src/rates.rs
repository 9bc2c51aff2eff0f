//! Exchange rates: where they are asked for, and what an answer yields.
//!
//! A rate is carried as the 64 bits of its IEEE 754 double: the rules here find a rate and
//! hand it on, they never compute with it.

use crate::text_map::TextMap;
use vstd::prelude::*;

verus! {

/// The rates of one answer, all quoted against the base currency that was asked for.
#[derive(Debug)]
pub struct RateTable {
    /// The rate of each currency code, as the bits of a double.
    pub rates: TextMap<u64>,
    /// When the rates were last updated, as the provider wrote it.
    pub last_updated: String,
}

impl RateTable {
    /// No currency code is held twice.
    pub open spec fn wf(&self) -> bool {
        self.rates.wf()
    }

    /// A table without rates.
    pub fn new(last_updated: String) -> (table: Self)
        ensures
            table.wf(),
            table.rates@ == Map::<Seq<char>, u64>::empty(),
            table.last_updated == last_updated,
    {
        RateTable { rates: TextMap::new(), last_updated }
    }

    /// Sets the rate of `code`.
    pub fn set_rate(&mut self, code: String, rate_bits: u64)
        requires
            old(self).wf(),
        ensures
            final(self).wf(),
            final(self).rates@ == old(self).rates@.insert(code@, rate_bits),
            final(self).last_updated == old(self).last_updated,
    {
        self.rates.insert(code, rate_bits);
    }

    /// The rate of `code`, where the table holds one.
    pub fn rate_of(&self, code: &str) -> (rate: Option<u64>)
        requires
            self.wf(),
        ensures
            rate == (if self.rates@.contains_key(code@) {
                Some(self.rates@[code@])
            } else {
                None
            }),
    {
        match self.rates.get(code) {
            Some(bits) => Some(*bits),
            None => None,
        }
    }
}

/// A rate together with the time it was last updated.
#[derive(Debug, PartialEq, Eq)]
pub struct Quote {
    /// The rate, as the bits of a double.
    pub rate_bits: u64,
    /// When the rate was last updated, as the provider wrote it.
    pub last_updated: String,
}

/// Why no rate was obtained.
#[derive(Debug, PartialEq, Eq)]
pub enum FetchError {
    /// The request failed or its answer could not be read; the text says how.
    Transport(String),
    /// The answer was not a rate table; the text says why.
    Parse(String),
    /// The answer holds no rate for the target currency.
    RateNotFound,
}

/// What came of sending a request.
#[derive(Debug)]
pub enum FetchOutcome {
    /// The request failed or its answer could not be read.
    TransportFailed(String),
    /// An answer came that is not a rate table.
    Malformed(String),
    /// An answer came and held this table.
    Parsed(RateTable),
}

impl FetchOutcome {
    /// The table inside, if any, is well formed.
    pub open spec fn wf(&self) -> bool {
        match self {
            FetchOutcome::Parsed(table) => table.wf(),
            _ => true,
        }
    }
}

/// The text of an error.
pub open spec fn message_text(error: FetchError) -> Seq<char> {
    match error {
        FetchError::Transport(text) => text@,
        FetchError::Parse(text) => text@,
        FetchError::RateNotFound => "Rate not found"@,
    }
}

impl FetchError {
    /// The text of this error.
    pub fn message(&self) -> (text: String)
        ensures
            text@ == message_text(*self),
    {
        match self {
            FetchError::Transport(text) => text.clone(),
            FetchError::Parse(text) => text.clone(),
            FetchError::RateNotFound => "Rate not found".to_owned(),
        }
    }
}

/// The line that reports a failed fetch.
pub fn error_report(error: &FetchError) -> (line: String)
    ensures
        line@ == "Error fetching exchange rate: "@ + message_text(*error),
{
    let mut line = "Error fetching exchange rate: ".to_owned();
    let text = error.message();
    line.append(text.as_str());
    line
}

/// The address at which the rates against `from` are asked for with `api_key`.
pub open spec fn url_text(api_key: Seq<char>, from: Seq<char>) -> Seq<char> {
    "https://v6.exchangerate-api.com/v6/"@ + api_key + "/latest/"@ + from
}

/// Builds the address at which the rates against `from` are asked for.
pub fn request_url(api_key: &str, from: &str) -> (url: String)
    ensures
        url@ == url_text(api_key@, from@),
{
    let mut url = "https://v6.exchangerate-api.com/v6/".to_owned();
    url.append(api_key);
    url.append("/latest/");
    url.append(from);
    url
}

/// What a fetch yields for the target currency `to`, given what came of the request.
pub open spec fn resolved(outcome: FetchOutcome, to: Seq<char>) -> Result<Quote, FetchError> {
    match outcome {
        FetchOutcome::TransportFailed(text) => Err(FetchError::Transport(text)),
        FetchOutcome::Malformed(text) => Err(FetchError::Parse(text)),
        FetchOutcome::Parsed(table) => if table.rates@.contains_key(to) {
            Ok(Quote { rate_bits: table.rates@[to], last_updated: table.last_updated })
        } else {
            Err(FetchError::RateNotFound)
        },
    }
}

/// Decides what a fetch yields: the target's rate with the table's time where the answer
/// holds one, and otherwise the error that says what went wrong.
pub fn resolve_rate(outcome: FetchOutcome, to: &str) -> (r: Result<Quote, FetchError>)
    requires
        outcome.wf(),
    ensures
        r == resolved(outcome, to@),
        r is Ok <==> outcome is Parsed && outcome->Parsed_0.rates@.contains_key(to@),
        outcome is TransportFailed ==> r is Err && r->Err_0 is Transport,
        outcome is Malformed ==> r is Err && r->Err_0 is Parse,
        outcome is Parsed && !outcome->Parsed_0.rates@.contains_key(to@) ==> r is Err && r->Err_0
            is RateNotFound,
{
    match outcome {
        FetchOutcome::TransportFailed(text) => Err(FetchError::Transport(text)),
        FetchOutcome::Malformed(text) => Err(FetchError::Parse(text)),
        FetchOutcome::Parsed(table) => {
            match table.rate_of(to) {
                Some(rate_bits) => Ok(Quote { rate_bits, last_updated: table.last_updated }),
                None => Err(FetchError::RateNotFound),
            }
        },
    }
}

} // verus!
