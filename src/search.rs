use crate::record::QueryResult;
use crate::text::{string_views, trim, trim_of};
use rand::seq::SliceRandom;
use vstd::prelude::*;

verus! {

/// Bytes that stand for themselves in a URL: ASCII letters and digits and
/// `-`, `.`, `_`, `~`.
pub open spec fn is_unreserved(b: u8) -> bool {
    (48 <= b <= 57) || (65 <= b <= 90) || (97 <= b <= 122) || b == 45 || b == 46 || b == 95
        || b == 126
}

/// An uppercase hexadecimal digit.
pub open spec fn hex_digit(d: u8) -> char {
    if d < 10 {
        digit_char(d as nat)
    } else if d == 10 {
        'A'
    } else if d == 11 {
        'B'
    } else if d == 12 {
        'C'
    } else if d == 13 {
        'D'
    } else if d == 14 {
        'E'
    } else {
        'F'
    }
}

/// Percent-encoding of a byte sequence: unreserved bytes stay, every other
/// byte becomes `%` and two uppercase hex digits.
pub open spec fn percent_of(bytes: Seq<u8>) -> Seq<char>
    decreases bytes.len(),
{
    if bytes.len() == 0 {
        Seq::empty()
    } else {
        let b = bytes.last();
        percent_of(bytes.drop_last()) + if is_unreserved(b) {
            seq![b as char]
        } else {
            seq!['%', hex_digit(b / 16), hex_digit(b % 16)]
        }
    }
}

/// The percent-encoded form of a string: its UTF-8 bytes, percent-encoded.
pub open spec fn percent_encoded(s: Seq<char>) -> Seq<char> {
    percent_of(vstd::utf8::encode_utf8(s))
}

/// Relies on `urlencoding::encode`: unreserved bytes of the UTF-8 form are
/// kept, every other byte is written `%XX` in uppercase hex.
#[verifier::external_body]
fn url_encode(s: &str) -> (r: String)
    ensures
        r@ == percent_encoded(s@),
{
    urlencoding::encode(s).into_owned()
}

/// Relies on `SliceRandom::choose` with the thread-local generator: some
/// element of a non-empty list, nothing for an empty one.
#[verifier::external_body]
fn choose_one(items: &Vec<String>) -> (r: Option<String>)
    ensures
        match r {
            Some(s) => exists|i: int| 0 <= i < items@.len() && s@ == (#[trigger] items@[i])@,
            None => items@.len() == 0,
        },
{
    items.choose(&mut rand::thread_rng()).cloned()
}

pub open spec fn search_prefix() -> Seq<char> {
    "https://www.google.com/search?q="@
}

/// The address that asks the search engine for `query`.
pub fn search_url(query: &str) -> (r: String)
    ensures
        r@ == search_prefix() + percent_encoded(query@),
{
    let mut url = String::from_str("https://www.google.com/search?q=");
    let enc = url_encode(query);
    url.append(enc.as_str());
    url
}

/// The browser identities a request may present.
pub open spec fn agent_names() -> Seq<Seq<char>> {
    seq![
        "Mozilla/5.0 (Windows NT 10.0; Win64; x64) AppleWebKit/537.36 (KHTML, like Gecko) Chrome/91.0.4472.124 Safari/537.36"@,
        "Mozilla/5.0 (Macintosh; Intel Mac OS X 10_15_4) AppleWebKit/537.36 (KHTML, like Gecko) Chrome/81.0.4044.138 Safari/537.36"@,
        "Mozilla/5.0 (Windows NT 11.0; Win64; x64) AppleWebKit/537.36 (KHTML, like Gecko) Chrome/91.0.4472.124 Safari/537.36"@,
    ]
}

/// The browser identities a request may present, as strings.
pub fn user_agents() -> (r: Vec<String>)
    ensures
        string_views(r@) == agent_names(),
{
    let mut v: Vec<String> = Vec::new();
    v.push(
        String::from_str(
            "Mozilla/5.0 (Windows NT 10.0; Win64; x64) AppleWebKit/537.36 (KHTML, like Gecko) Chrome/91.0.4472.124 Safari/537.36",
        ),
    );
    v.push(
        String::from_str(
            "Mozilla/5.0 (Macintosh; Intel Mac OS X 10_15_4) AppleWebKit/537.36 (KHTML, like Gecko) Chrome/81.0.4044.138 Safari/537.36",
        ),
    );
    v.push(
        String::from_str(
            "Mozilla/5.0 (Windows NT 11.0; Win64; x64) AppleWebKit/537.36 (KHTML, like Gecko) Chrome/91.0.4472.124 Safari/537.36",
        ),
    );
    assert(string_views(v@) =~= agent_names());
    v
}

/// One of the known browser identities, picked at random.
pub fn pick_user_agent() -> (r: String)
    ensures
        agent_names().contains(r@),
{
    let agents = user_agents();
    assert(agents@.len() == string_views(agents@).len());
    match choose_one(&agents) {
        Some(a) => {
            proof {
                let i = choose|i: int| 0 <= i < agents@.len() && a@ == (#[trigger] agents@[i])@;
                assert(agent_names()[i] == a@);
            }
            a
        },
        None => {
            proof {
                assert(false);
            }
            String::new()
        },
    }
}

/// The decimal digits of `n`.
pub open spec fn decimal(n: nat) -> Seq<char>
    decreases n,
{
    if n < 10 {
        seq![digit_char(n)]
    } else {
        decimal(n / 10) + seq![digit_char(n % 10)]
    }
}

pub open spec fn digit_char(d: nat) -> char {
    if d == 0 { '0' } else if d == 1 { '1' } else if d == 2 { '2' } else if d == 3 { '3' }
    else if d == 4 { '4' } else if d == 5 { '5' } else if d == 6 { '6' } else if d == 7 { '7' }
    else if d == 8 { '8' } else { '9' }
}

fn digit_string(d: u16) -> (r: String)
    requires
        d < 10,
    ensures
        r@ == seq![digit_char(d as nat)],
{
    let s = if d == 0 { "0" } else if d == 1 { "1" } else if d == 2 { "2" } else if d == 3 { "3" }
    else if d == 4 { "4" } else if d == 5 { "5" } else if d == 6 { "6" } else if d == 7 { "7" }
    else if d == 8 { "8" } else { "9" };
    proof {
        reveal_strlit("0");
        reveal_strlit("1");
        reveal_strlit("2");
        reveal_strlit("3");
        reveal_strlit("4");
        reveal_strlit("5");
        reveal_strlit("6");
        reveal_strlit("7");
        reveal_strlit("8");
        reveal_strlit("9");
    }
    let r = String::from_str(s);
    assert(r@ =~= seq![digit_char(d as nat)]);
    r
}

/// Writes `n` in decimal.
pub fn decimal_string(n: u16) -> (r: String)
    ensures
        r@ == decimal(n as nat),
    decreases n,
{
    if n < 10 {
        digit_string(n)
    } else {
        let mut s = decimal_string(n / 10);
        let d = digit_string(n % 10);
        s.append(d.as_str());
        s
    }
}

/// The description of a search that the server answered with a failure status.
pub fn http_error_description(status: u16, body: &str) -> (r: String)
    ensures
        r@ == "HTTP Error: "@ + decimal(status as nat) + " - "@ + body@,
{
    let mut s = String::from_str("HTTP Error: ");
    let code = decimal_string(status);
    s.append(code.as_str());
    s.append(" - ");
    s.append(body);
    s
}

/// What the page gave for one result block: its link target and its text, if
/// found.
pub type RawHit = (Option<String>, Option<String>);

/// The records that a run of result blocks yields: each block with both a link
/// and a text gives one crawlable record with the text trimmed; the others
/// give none.
pub open spec fn collected(hits: Seq<RawHit>) -> Seq<(Seq<char>, Seq<char>, bool)>
    decreases hits.len(),
{
    if hits.len() == 0 {
        Seq::empty()
    } else {
        let before = collected(hits.drop_last());
        match hits.last() {
            (Some(url), Some(text)) => before.push((url@, trim_of(text@), true)),
            _ => before,
        }
    }
}

pub open spec fn record_views(v: Seq<QueryResult>) -> Seq<(Seq<char>, Seq<char>, bool)> {
    v.map_values(|q: QueryResult| (q.url@, q.description@, q.url_supported_flag))
}

/// Turns the blocks found on a result page into records, in page order.
pub fn collect_results(hits: Vec<RawHit>) -> (r: Vec<QueryResult>)
    ensures
        record_views(r@) == collected(hits@),
{
    let mut out: Vec<QueryResult> = Vec::new();
    let n = hits.len();
    let mut i: usize = 0;
    while i < n
        invariant
            n == hits@.len(),
            i <= n,
            record_views(out@) == collected(hits@.subrange(0, i as int)),
        decreases n - i,
    {
        let ghost before = out@;
        proof {
            assert(hits@.subrange(0, i as int + 1).drop_last() =~= hits@.subrange(0, i as int));
            assert(hits@.subrange(0, i as int + 1).last() == hits@[i as int]);
        }
        match (&hits[i].0, &hits[i].1) {
            (Some(url), Some(text)) => {
                out.push(
                    QueryResult {
                        url: url.clone(),
                        description: trim(text.as_str()),
                        url_supported_flag: true,
                    },
                );
                assert(record_views(out@) =~= record_views(before).push(
                    (url@, trim_of(text@), true),
                ));
            },
            _ => {},
        }
        i = i + 1;
    }
    assert(hits@.subrange(0, n as int) =~= hits@);
    out
}

} // verus!
