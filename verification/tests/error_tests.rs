use ledger_quotes::errors::CurrencyError;

#[test]
fn each_variant_renders_its_step() {
    assert_eq!(
        CurrencyError::Io(String::from("boom")).message(),
        "File error boom"
    );
    assert_eq!(
        CurrencyError::SerdeYaml(String::from("bad")).message(),
        "YAML deserialization error bad"
    );
    assert_eq!(
        CurrencyError::Reqwest(String::from("down")).message(),
        "HTTP request error down"
    );
    assert_eq!(
        CurrencyError::ScraperSelector(String::from("sel")).message(),
        "Scrapper selector error sel"
    );
    assert_eq!(
        CurrencyError::Scraper(String::from("none")).message(),
        "Scrapper error none"
    );
    assert_eq!(
        CurrencyError::HomeDirNotFound.message(),
        "Home directory not found"
    );
}
