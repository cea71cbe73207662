//! Extracting a quoted value from a fetched HTML page and composing the
//! ledger price line.
//!
//! The CSS work — compiling the selector, parsing the page leniently, taking
//! the first match in document order and serializing its inner HTML — is one
//! trusted call into `scraper`; its outcome is named so that everything
//! around it carries an exact contract. The clock is read through `chrono`
//! and everything after that read is verified.

use vstd::prelude::*;
use vstd::string::*;

use crate::config::QuoteParams;
use crate::errors::CurrencyError;
use crate::timefmt::Timestamp;
use crate::timefmt::is_digit;
use crate::timefmt::lemma_timestamp_shape;
use crate::timefmt::timestamp_spec;

verus! {

/// Whether `sel` is a syntactically valid CSS selector group, as
/// `scraper::Selector::parse` decides it; a function of the text alone.
pub uninterp spec fn selector_parses(sel: Seq<char>) -> bool;

/// The inner HTML of the first node, in document order, that `sel` matches in
/// the leniently parsed document `doc`; `None` when nothing matches. A
/// function of the two texts alone.
pub uninterp spec fn first_match_inner_html(doc: Seq<char>, sel: Seq<char>) -> Option<Seq<char>>;

/// Relies on `scraper`: `Selector::parse` accepts or rejects the selector on
/// its text alone; `Html::parse_document` repairs malformed HTML rather than
/// fail; `Html::select` yields matches in document order, so `next` is the
/// first one; `ElementRef::inner_html` serializes its children. The whole
/// outcome is a function of the two texts.
#[verifier::external_body]
fn scrape_first(body: &str, select: &str) -> (r: Result<Option<String>, String>)
    ensures
        r is Ok <==> selector_parses(select@),
        (r matches Ok(found) ==> match found {
            Some(v) => first_match_inner_html(body@, select@) == Some(v@),
            None => first_match_inner_html(body@, select@) is None,
        }),
{
    match scraper::Selector::parse(select) {
        Ok(sel) => {
            let page = scraper::Html::parse_document(body);
            let first = page.select(&sel).next();
            Ok(first.map(|v| v.inner_html()))
        },
        Err(e) => Err(format!("Selector parse error: {}", e)),
    }
}

/// Relies on `chrono::Utc::now` and its `Datelike`/`Timelike` accessors: the
/// fields of the current UTC wall-clock time, with month in 1..=12, day in
/// 1..=31, hour below 24, minute and second below 60, as their documentation
/// states. The year is whatever the clock says.
#[verifier::external_body]
fn now_utc_fields() -> (r: (i64, u32, u32, u32, u32, u32))
    ensures
        1 <= r.1 <= 12,
        1 <= r.2 <= 31,
        r.3 < 24,
        r.4 < 60,
        r.5 < 60,
{
    let now = chrono::Utc::now();
    (
        chrono::Datelike::year(&now) as i64,
        chrono::Datelike::month(&now),
        chrono::Datelike::day(&now),
        chrono::Timelike::hour(&now),
        chrono::Timelike::minute(&now),
        chrono::Timelike::second(&now),
    )
}

/// The full price line for a quote: `P <timestamp> <from> <value> <to>`.
pub open spec fn quote_line_spec(
    ts: Timestamp,
    from: Seq<char>,
    value: Seq<char>,
    to: Seq<char>,
) -> Seq<char> {
    seq!['P', ' '] + timestamp_spec(ts) + seq![' '] + from + seq![' '] + value + seq![' '] + to
}

/// The diagnostic carried by an extraction failure on selector `sel`.
pub open spec fn extraction_failure_spec(sel: Seq<char>) -> Seq<char> {
    "Failed to extract currency data "@ + sel
}

/// Composes the price line `P <timestamp> <from> <value> <to>` for a value
/// extracted at a given instant.
pub fn compose_quote_line(ts: &Timestamp, from: &str, value: &str, to: &str) -> (r: String)
    requires
        ts.wf(),
    ensures
        r@ == quote_line_spec(*ts, from@, value@, to@),
{
    proof {
        reveal_strlit("P ");
        reveal_strlit(" ");
    }
    let mut r = String::from_str("P ");
    r.append(crate::timefmt::format_timestamp(ts).as_str());
    r.append(" ");
    r.append(from);
    r.append(" ");
    r.append(value);
    r.append(" ");
    r.append(to);
    proof {
        assert(r@ =~= quote_line_spec(*ts, from@, value@, to@));
    }
    r
}

/// Every price line has the documented shape: the marker `P `, a
/// `dddd/dd/dd dd:dd:dd` timestamp with digits where digits belong, and then
/// the source currency, the extracted value and the target currency verbatim,
/// single-space-separated.
pub proof fn lemma_quote_line_shape(ts: Timestamp, from: Seq<char>, value: Seq<char>, to: Seq<char>)
    ensures
        ({
            let l = quote_line_spec(ts, from, value, to);
            &&& l.len() == 24 + from.len() + value.len() + to.len()
            &&& l[0] == 'P'
            &&& l[1] == ' '
            &&& forall|i: int|
                #![trigger l[i]]
                (2 <= i < 6 || 7 <= i < 9 || 10 <= i < 12 || 13 <= i < 15 || 16 <= i < 18 || 19
                    <= i < 21) ==> is_digit(l[i])
            &&& l[6] == '/'
            &&& l[9] == '/'
            &&& l[12] == ' '
            &&& l[15] == ':'
            &&& l[18] == ':'
            &&& l[21] == ' '
            &&& l.subrange(22, 22 + from.len() as int) == from
            &&& l[22 + from.len() as int] == ' '
            &&& l.subrange(
                23 + from.len() as int,
                23 + from.len() as int + value.len() as int,
            ) == value
            &&& l[23 + from.len() as int + value.len() as int] == ' '
            &&& l.subrange(24 + from.len() as int + value.len() as int, l.len() as int) == to
        }),
{
    lemma_timestamp_shape(ts);
    let l = quote_line_spec(ts, from, value, to);
    assert(l.subrange(22, 22 + from.len() as int) =~= from);
    assert(l.subrange(23 + from.len() as int, 23 + from.len() as int + value.len() as int)
        =~= value);
    assert(l.subrange(24 + from.len() as int + value.len() as int, l.len() as int) =~= to);
    assert forall|i: int|
        (2 <= i < 6 || 7 <= i < 9 || 10 <= i < 12 || 13 <= i < 15 || 16 <= i < 18 || 19 <= i
            < 21) implies is_digit(#[trigger] l[i]) by {
        assert(l[i] == timestamp_spec(ts)[i - 2]);
    }
}

/// Extracts the quoted value for one scrape target out of the fetched page
/// body and formats its price line, stamped with the current UTC time.
///
/// Succeeds exactly when the target's selector is valid and matches at least
/// one node; an invalid selector yields a `ScraperSelector` error whatever
/// the body holds, and a valid selector that matches nothing yields a
/// `Scraper` error naming the selector.
pub fn get_currency(param: &QuoteParams, body: &str) -> (r: Result<String, CurrencyError>)
    ensures
        r is Ok <==> (selector_parses(param.select@) && first_match_inner_html(
            body@,
            param.select@,
        ) is Some),
        (r matches Ok(line) ==> exists|ts: Timestamp|
            ts.wf() && line@ == quote_line_spec(
                ts,
                param.from@,
                first_match_inner_html(body@, param.select@)->0,
                param.to@,
            )),
        (r matches Err(e) ==> (e is ScraperSelector <==> !selector_parses(param.select@))),
        (r matches Err(e) ==> (e is Scraper <==> selector_parses(param.select@))),
        (r matches Err(e) ==> (e is Scraper ==> e->Scraper_0@ == extraction_failure_spec(
            param.select@,
        ))),
{
    match scrape_first(body, param.select.as_str()) {
        Err(m) => Err(CurrencyError::ScraperSelector(m)),
        Ok(None) => {
            proof {
                reveal_strlit("Failed to extract currency data ");
            }
            let msg = String::from_str("Failed to extract currency data ").concat(
                param.select.as_str(),
            );
            Err(CurrencyError::Scraper(msg))
        },
        Ok(Some(value)) => {
            let now = now_utc_fields();
            let ts = Timestamp::from_fields(now.0, now.1, now.2, now.3, now.4, now.5);
            let line = compose_quote_line(&ts, param.from.as_str(), value.as_str(), param.to.as_str());
            proof {
                assert(ts.wf() && line@ == quote_line_spec(
                    ts,
                    param.from@,
                    first_match_inner_html(body@, param.select@)->0,
                    param.to@,
                ));
            }
            Ok(line)
        },
    }
}

} // verus!
