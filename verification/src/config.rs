//! The scrape-target configuration: a YAML sequence of records, each with the
//! four string fields `url`, `select`, `from` and `to`.
//!
//! The YAML text is turned into plain string-to-string records by a trusted
//! call into `serde_yaml`; everything after that — the presence check on the
//! required fields and the assembly of the targets — is verified.

use vstd::prelude::*;
use vstd::string::*;

use crate::errors::CurrencyError;

verus! {

/// One scrape target: fetch `url`, select with `select`, and report the match
/// as the price of one unit of `from` in `to`.
#[derive(Debug, Clone)]
pub struct QuoteParams {
    pub url: String,
    pub select: String,
    pub from: String,
    pub to: String,
}

/// The mathematical image of a scrape target: its four fields as character
/// sequences.
pub ghost struct QuoteView {
    pub url: Seq<char>,
    pub select: Seq<char>,
    pub from: Seq<char>,
    pub to: Seq<char>,
}

impl View for QuoteParams {
    type V = QuoteView;

    open spec fn view(&self) -> QuoteView {
        QuoteView { url: self.url@, select: self.select@, from: self.from@, to: self.to@ }
    }
}

/// What `serde_yaml` yields for a configuration text: `None` when the text is
/// not a YAML sequence of string-to-string mappings, otherwise each mapping as
/// its key/value pairs.
pub uninterp spec fn yaml_string_maps(content: Seq<char>) -> Option<
    Seq<Seq<(Seq<char>, Seq<char>)>>,
>;

/// The key/value pairs of one parsed record, as character sequences.
pub open spec fn pairs_view(rec: Vec<(String, String)>) -> Seq<(Seq<char>, Seq<char>)> {
    rec@.map_values(|p: (String, String)| (p.0@, p.1@))
}

/// All parsed records, as character sequences.
pub open spec fn recs_view(v: Vec<Vec<(String, String)>>) -> Seq<Seq<(Seq<char>, Seq<char>)>> {
    v@.map_values(|r: Vec<(String, String)>| pairs_view(r))
}

/// Relies on `serde_yaml::from_str`: deserializing into a vector of
/// string-keyed, string-valued maps succeeds exactly on YAML sequences of
/// string-to-string mappings, and the outcome depends on the text alone.
#[verifier::external_body]
fn yaml_parse_string_maps(content: &str) -> (r: Result<Vec<Vec<(String, String)>>, String>)
    ensures
        r is Ok <==> yaml_string_maps(content@) is Some,
        (r matches Ok(v) ==> yaml_string_maps(content@) == Some(recs_view(v))),
{
    match serde_yaml::from_str::<Vec<std::collections::BTreeMap<String, String>>>(content) {
        Ok(v) => Ok(v.into_iter().map(|m| m.into_iter().collect()).collect()),
        Err(e) => Err(format!("{}", e)),
    }
}

/// The value under the first occurrence of `key` in a record, if any.
pub open spec fn field_of(rec: Seq<(Seq<char>, Seq<char>)>, key: Seq<char>) -> Option<Seq<char>>
    decreases rec.len(),
{
    if rec.len() == 0 {
        None
    } else if rec[0].0 == key {
        Some(rec[0].1)
    } else {
        field_of(rec.drop_first(), key)
    }
}

/// The scrape target described by one parsed record: `Some` exactly when all
/// four required fields are present.
pub open spec fn record_quote(rec: Seq<(Seq<char>, Seq<char>)>) -> Option<QuoteView> {
    if field_of(rec, "url"@) is Some && field_of(rec, "select"@) is Some && field_of(
        rec,
        "from"@,
    ) is Some && field_of(rec, "to"@) is Some {
        Some(
            QuoteView {
                url: field_of(rec, "url"@)->0,
                select: field_of(rec, "select"@)->0,
                from: field_of(rec, "from"@)->0,
                to: field_of(rec, "to"@)->0,
            },
        )
    } else {
        None
    }
}

proof fn lemma_field_of_skip(rec: Seq<(Seq<char>, Seq<char>)>, key: Seq<char>, i: int)
    requires
        0 <= i <= rec.len(),
        forall|j: int| 0 <= j < i ==> rec[j].0 != key,
    ensures
        field_of(rec, key) == field_of(rec.skip(i), key),
    decreases i,
{
    if i > 0 {
        lemma_field_of_skip(rec, key, i - 1);
        assert(rec.skip(i - 1).len() > 0);
        assert(rec.skip(i - 1)[0] == rec[i - 1]);
        assert(rec.skip(i - 1).drop_first() =~= rec.skip(i));
        assert(field_of(rec.skip(i - 1), key) == field_of(rec.skip(i), key));
    } else {
        assert(rec.skip(0) =~= rec);
    }
}

/// Looks a required field up in one parsed record.
fn find_field(rec: &Vec<(String, String)>, key: &String) -> (r: Option<String>)
    ensures
        (r matches Some(v) ==> field_of(pairs_view(*rec), key@) == Some(v@)),
        (r is None ==> field_of(pairs_view(*rec), key@) is None),
{
    let ghost prec = pairs_view(*rec);
    let n = rec.len();
    for i in 0..n
        invariant
            n == rec.len(),
            prec == pairs_view(*rec),
            forall|j: int| 0 <= j < i ==> prec[j].0 != key@,
    {
        assert(prec[i as int] == (rec@[i as int].0@, rec@[i as int].1@));
        if rec[i].0 == *key {
            proof {
                lemma_field_of_skip(prec, key@, i as int);
                assert(prec.skip(i as int)[0] == prec[i as int]);
            }
            return Some(rec[i].1.clone());
        }
    }
    proof {
        lemma_field_of_skip(prec, key@, n as int);
        assert(prec.skip(n as int) =~= Seq::<(Seq<char>, Seq<char>)>::empty());
    }
    None
}

/// Parses a configuration text into the sequence of scrape targets it
/// describes, in order.
///
/// Succeeds exactly when the text is a YAML sequence of string-to-string
/// records and every record carries all of `url`, `select`, `from` and `to`;
/// every failure is a `SerdeYaml` error.
pub fn read_quote_params(content: &str) -> (r: Result<Vec<QuoteParams>, CurrencyError>)
    ensures
        r is Ok <==> (yaml_string_maps(content@) matches Some(maps) && forall|i: int|
            0 <= i < maps.len() ==> record_quote(maps[i]) is Some),
        (r matches Ok(params) ==> {
            &&& yaml_string_maps(content@) matches Some(maps)
            &&& params@.len() == maps.len()
            &&& forall|i: int| 0 <= i < maps.len() ==> record_quote(maps[i]) == Some(params@[i]@)
        }),
        (r matches Err(e) ==> e is SerdeYaml),
{
    proof {
        reveal_strlit("url");
        reveal_strlit("select");
        reveal_strlit("from");
        reveal_strlit("to");
    }
    let url_key = String::from_str("url");
    let select_key = String::from_str("select");
    let from_key = String::from_str("from");
    let to_key = String::from_str("to");
    let maps = match yaml_parse_string_maps(content) {
        Ok(maps) => maps,
        Err(m) => {
            return Err(CurrencyError::SerdeYaml(m));
        },
    };
    let ghost gmaps = recs_view(maps);
    let mut params: Vec<QuoteParams> = Vec::new();
    let n = maps.len();
    for i in 0..n
        invariant
            n == maps.len(),
            gmaps == recs_view(maps),
            yaml_string_maps(content@) == Some(gmaps),
            url_key@ == "url"@,
            select_key@ == "select"@,
            from_key@ == "from"@,
            to_key@ == "to"@,
            params@.len() == i,
            forall|j: int| 0 <= j < i ==> record_quote(gmaps[j]) == Some(params@[j]@),
    {
        let rec = &maps[i];
        assert(gmaps[i as int] == pairs_view(maps@[i as int]));
        let url = match find_field(rec, &url_key) {
            Some(v) => v,
            None => {
                proof {
                    assert(record_quote(gmaps[i as int]) is None);
                }
                return Err(missing_field_error("url"));
            },
        };
        let select = match find_field(rec, &select_key) {
            Some(v) => v,
            None => {
                proof {
                    assert(record_quote(gmaps[i as int]) is None);
                }
                return Err(missing_field_error("select"));
            },
        };
        let from = match find_field(rec, &from_key) {
            Some(v) => v,
            None => {
                proof {
                    assert(record_quote(gmaps[i as int]) is None);
                }
                return Err(missing_field_error("from"));
            },
        };
        let to = match find_field(rec, &to_key) {
            Some(v) => v,
            None => {
                proof {
                    assert(record_quote(gmaps[i as int]) is None);
                }
                return Err(missing_field_error("to"));
            },
        };
        params.push(QuoteParams { url, select, from, to });
    }
    Ok(params)
}

fn missing_field_error(name: &str) -> (r: CurrencyError)
    ensures
        r is SerdeYaml,
{
    CurrencyError::SerdeYaml(String::from_str("missing field ").concat(name))
}

} // verus!
