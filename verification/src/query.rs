//! The query string of a request: its `name=value` pairs and the parameters
//! that the ticket server reads from them.

use vstd::prelude::*;

verus! {

/// The `(name, value)` pairs that `form_urlencoded::parse` decodes from the
/// bytes of an `application/x-www-form-urlencoded` string, in order.
pub uninterp spec fn form_pairs(input: Seq<u8>) -> Seq<(Seq<char>, Seq<char>)>;

/// `form_urlencoded::parse(input).into_owned()`, collected in order. Its
/// contract claims only that the pairs are `form_pairs(input)`: what the
/// percent-decoding, `+` replacement and splitting on `&` and `=` produce is
/// left to that name.
#[verifier::external_body]
fn decode_form(input: &[u8]) -> (pairs: Vec<(String, String)>)
    ensures
        pairs.deep_view() == form_pairs(input@),
{
    form_urlencoded::parse(input).into_owned().collect()
}

/// Whether `c` is an ASCII decimal digit.
pub open spec fn is_digit(c: char) -> bool {
    48 <= (c as u32) <= 57
}

/// The number that a string of decimal digits denotes.
pub open spec fn digits_value(s: Seq<char>) -> nat
    decreases s.len(),
{
    if s.len() == 0 {
        0
    } else {
        digits_value(s.drop_last()) * 10 + ((s.last() as u32) - 48) as nat
    }
}

/// What `str::parse::<u64>` gives: an optional leading `+`, then one or more
/// ASCII digits whose value fits in a `u64`; anything else is an error.
pub open spec fn parse_u64_model(s: Seq<char>) -> Option<u64> {
    let digits = if s.len() > 0 && s[0] == '+' {
        s.drop_first()
    } else {
        s
    };
    if digits.len() > 0 && (forall|i: int| 0 <= i < digits.len() ==> is_digit(#[trigger] digits[i]))
        && digits_value(digits) <= u64::MAX {
        Some(digits_value(digits) as u64)
    } else {
        None
    }
}

/// `str::parse::<u64>`, with the error dropped. Its contract claims what
/// `u64::from_str` is documented to do: accept an optional `+` followed by
/// decimal digits whose value fits, and refuse everything else.
#[verifier::external_body]
fn parse_u64(s: &str) -> (r: Option<u64>)
    ensures
        r == parse_u64_model(s@),
{
    s.parse::<u64>().ok()
}

/// The value of the last pair named `key`, if any: when a name repeats, the
/// later value replaces the earlier one.
pub open spec fn last_value(pairs: Seq<(Seq<char>, Seq<char>)>, key: Seq<char>) -> Option<
    Seq<char>,
>
    decreases pairs.len(),
{
    if pairs.len() == 0 {
        None
    } else if pairs.last().0 == key {
        Some(pairs.last().1)
    } else {
        last_value(pairs.drop_last(), key)
    }
}

/// What the parameters of a request are, mathematically.
pub struct ParamsModel {
    pub id: Option<u64>,
    pub title: Option<Seq<char>>,
    pub description: Seq<char>,
}

/// The parameters read from decoded pairs: `id` parsed as a `u64` (absent
/// when it does not parse), `title` as given, `description` as given or empty.
pub open spec fn params_of(pairs: Seq<(Seq<char>, Seq<char>)>) -> ParamsModel {
    ParamsModel {
        id: match last_value(pairs, "id"@) {
            Some(v) => parse_u64_model(v),
            None => None,
        },
        title: last_value(pairs, "title"@),
        description: match last_value(pairs, "description"@) {
            Some(v) => v,
            None => Seq::empty(),
        },
    }
}

/// The parameters of a query string.
pub open spec fn query_params(query: Seq<char>) -> ParamsModel {
    params_of(form_pairs(vstd::utf8::encode_utf8(query)))
}

/// The parameters of a request that carries none.
pub open spec fn no_params() -> ParamsModel {
    ParamsModel { id: None, title: None, description: Seq::empty() }
}

/// The view of an optional text.
pub open spec fn opt_text(o: Option<String>) -> Option<Seq<char>> {
    match o {
        Some(s) => Some(s@),
        None => None,
    }
}

/// The parameters that the ticket server reads from a request.
#[derive(Debug)]
pub struct QueryParams {
    pub id: Option<u64>,
    pub title: Option<String>,
    pub description: String,
}

impl View for QueryParams {
    type V = ParamsModel;

    open spec fn view(&self) -> ParamsModel {
        ParamsModel { id: self.id, title: opt_text(self.title), description: self.description@ }
    }
}

impl QueryParams {
    /// No parameters: no identifier, no title, an empty description.
    pub fn none() -> (p: QueryParams)
        ensures
            p@ == no_params(),
    {
        QueryParams { id: None, title: None, description: String::new() }
    }

    /// Reads the parameters from decoded pairs.
    pub fn from_pairs(pairs: &Vec<(String, String)>) -> (p: QueryParams)
        ensures
            p@ == params_of(pairs.deep_view()),
    {
        let ghost dv = pairs.deep_view();
        let key_id = String::from_str("id");
        let key_title = String::from_str("title");
        let key_description = String::from_str("description");
        let mut id_text: Option<String> = None;
        let mut title: Option<String> = None;
        let mut description: Option<String> = None;
        let mut i: usize = 0;
        while i < pairs.len()
            invariant
                i <= pairs.len(),
                dv == pairs.deep_view(),
                key_id@ == "id"@,
                key_title@ == "title"@,
                key_description@ == "description"@,
                opt_text(id_text) == last_value(dv.take(i as int), "id"@),
                opt_text(title) == last_value(dv.take(i as int), "title"@),
                opt_text(description) == last_value(dv.take(i as int), "description"@),
            decreases pairs.len() - i,
        {
            let pair = &pairs[i];
            assert(dv[i as int] == (pair.0@, pair.1@));
            assert(dv.take(i as int + 1).drop_last() =~= dv.take(i as int));
            assert(dv.take(i as int + 1).last() == dv[i as int]);
            if pair.0 == key_id {
                id_text = Some(pair.1.clone());
            }
            if pair.0 == key_title {
                title = Some(pair.1.clone());
            }
            if pair.0 == key_description {
                description = Some(pair.1.clone());
            }
            i = i + 1;
        }
        assert(dv.take(pairs.len() as int) =~= dv);
        let id = match &id_text {
            Some(s) => parse_u64(s.as_str()),
            None => None,
        };
        let description = match description {
            Some(s) => s,
            None => String::new(),
        };
        QueryParams { id, title, description }
    }

    /// Decodes a query string and reads the parameters from it.
    pub fn parse(query: &str) -> (p: QueryParams)
        ensures
            p@ == query_params(query@),
    {
        let pairs = decode_form(query.as_bytes());
        QueryParams::from_pairs(&pairs)
    }
}

} // verus!
