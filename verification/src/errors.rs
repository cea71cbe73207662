//! The closed error taxonomy of the scraper.

use vstd::prelude::*;

verus! {

/// Every way a run can fail, each variant carrying the context a diagnostic
/// needs: a file error, a configuration parse error, an HTTP error, a selector
/// that does not compile, a selector that matches nothing, or a home directory
/// that cannot be determined.
#[derive(Debug)]
pub enum CurrencyError {
    Io(String),
    SerdeYaml(String),
    Reqwest(String),
    ScraperSelector(String),
    Scraper(String),
    HomeDirNotFound,
}

impl CurrencyError {
    /// The diagnostic line for this error: a fixed prefix naming the step,
    /// followed by the carried context.
    pub open spec fn message_spec(self) -> Seq<char> {
        match self {
            CurrencyError::Io(m) => "File error "@ + m@,
            CurrencyError::SerdeYaml(m) => "YAML deserialization error "@ + m@,
            CurrencyError::Reqwest(m) => "HTTP request error "@ + m@,
            CurrencyError::ScraperSelector(m) => "Scrapper selector error "@ + m@,
            CurrencyError::Scraper(m) => "Scrapper error "@ + m@,
            CurrencyError::HomeDirNotFound => "Home directory not found"@,
        }
    }

    /// Renders the human-readable diagnostic for this error.
    pub fn message(&self) -> (r: String)
        ensures
            r@ == self.message_spec(),
    {
        match self {
            CurrencyError::Io(m) => String::from_str("File error ").concat(m.as_str()),
            CurrencyError::SerdeYaml(m) => String::from_str("YAML deserialization error ").concat(
                m.as_str(),
            ),
            CurrencyError::Reqwest(m) => String::from_str("HTTP request error ").concat(m.as_str()),
            CurrencyError::ScraperSelector(m) => String::from_str(
                "Scrapper selector error ",
            ).concat(m.as_str()),
            CurrencyError::Scraper(m) => String::from_str("Scrapper error ").concat(m.as_str()),
            CurrencyError::HomeDirNotFound => String::from_str("Home directory not found"),
        }
    }
}

} // verus!
