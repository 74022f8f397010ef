//! Extraction of search hits from result-page markup: a deliberately crude but
//! exactly specified line scan for anchor lines that carry the redirect-wrapper
//! parameter, capped at five hits.

use crate::model::{models, ResultModel, SearchResult};
use crate::percent::{
    ascii_escapes_only, lemma_decode_leaves_no_escape, lemma_well_formed_is_ascii, pct_decoded,
    percent_decode, percent_encode, spec_encode_bytes, well_formed_escapes,
};
use crate::strutil::{
    find_char_in, find_in, lemma_find_char_props, lemma_find_match, seq_contains, spec_find,
    spec_find_char, spec_lines, split_lines,
};
use vstd::prelude::*;
use vstd::string::{StrSliceExecFns, StringExecFns, StringSliceAdditionalSpecFns};

verus! {

/// The most hits one extraction yields.
pub const RESULT_CAP: usize = 5;

/// Marker substring identifying a result anchor line.
pub open spec fn anchor_marker() -> Seq<char> {
    "result__a"@
}

/// Marker substring identifying the redirect-wrapper parameter.
pub open spec fn uddg_marker() -> Seq<char> {
    "uddg="@
}

/// A line qualifies when it holds both marker substrings.
pub open spec fn qualifying_line(line: Seq<char>) -> bool {
    seq_contains(line, anchor_marker()) && seq_contains(line, uddg_marker())
}

/// Index just past the first redirect-wrapper marker of the line.
pub open spec fn payload_start(line: Seq<char>) -> int {
    spec_find(line, uddg_marker(), 0)->0 + uddg_marker().len()
}

/// The raw percent-encoded redirect payload of a qualifying line: the text
/// between the marker and the next double quote, if any.
pub open spec fn redirect_payload(line: Seq<char>) -> Option<Seq<char>> {
    if !qualifying_line(line) {
        None
    } else {
        let tail = line.skip(payload_start(line));
        match spec_find_char(tail, '"', 0) {
            None => None,
            Some(e) => Some(tail.take(e)),
        }
    }
}

/// The region searched for a title span: the rest of the line past the
/// payload's closing quote.
pub open spec fn title_region(line: Seq<char>) -> Seq<char> {
    let tail = line.skip(payload_start(line));
    let e = spec_find_char(tail, '"', 0)->0;
    tail.skip(e + 1)
}

/// The display title: the first `>`...`<` span of `rest`, or the URL when no
/// such span is recoverable.
pub open spec fn title_of(rest: Seq<char>, url: Seq<char>) -> Seq<char> {
    match spec_find_char(rest, '>', 0) {
        None => url,
        Some(g) => match spec_find_char(rest.skip(g + 1), '<', 0) {
            None => url,
            Some(h) => rest.skip(g + 1).take(h),
        },
    }
}

/// The region `rest` holds no recoverable `>`...`<` title span.
pub open spec fn no_title_span(rest: Seq<char>) -> bool {
    match spec_find_char(rest, '>', 0) {
        None => true,
        Some(g) => spec_find_char(rest.skip(g + 1), '<', 0) is None,
    }
}

/// The search hit of one markup line: `None` when the line does not qualify,
/// holds no closing quote, or its payload does not decode — never an error.
pub open spec fn line_result(line: Seq<char>) -> Option<ResultModel> {
    match redirect_payload(line) {
        None => None,
        Some(enc) => match pct_decoded(enc) {
            None => None,
            Some(url) => Some(
                ResultModel { title: title_of(title_region(line), url), url, content: None },
            ),
        },
    }
}

/// The hits of the given lines, in scan order, stopping once `room` is filled.
pub open spec fn spec_extract_capped(lines: Seq<Seq<char>>, room: nat) -> Seq<ResultModel>
    decreases lines.len(),
{
    if lines.len() == 0 || room == 0 {
        Seq::empty()
    } else {
        match line_result(lines[0]) {
            Some(r) => seq![r] + spec_extract_capped(lines.skip(1), (room - 1) as nat),
            None => spec_extract_capped(lines.skip(1), room),
        }
    }
}

/// The hits extracted from a whole markup text: its lines scanned in order,
/// capped at five.
pub open spec fn spec_extract(markup: Seq<char>) -> Seq<ResultModel> {
    spec_extract_capped(spec_lines(markup), RESULT_CAP as nat)
}

/// Law: extraction never yields more hits than its cap allows.
pub proof fn lemma_extract_cap(lines: Seq<Seq<char>>, room: nat)
    ensures
        spec_extract_capped(lines, room).len() <= room,
    decreases lines.len(),
{
    if lines.len() == 0 || room == 0 {
    } else {
        match line_result(lines[0]) {
            Some(_) => lemma_extract_cap(lines.skip(1), (room - 1) as nat),
            None => lemma_extract_cap(lines.skip(1), room),
        }
    }
}

/// Law: for every markup input, extraction yields at most five hits.
pub proof fn lemma_spec_extract_cap(markup: Seq<char>)
    ensures
        spec_extract(markup).len() <= 5,
{
    lemma_extract_cap(spec_lines(markup), RESULT_CAP as nat);
}

/// Law: when a hit's anchor line has no recoverable title span, its title
/// equals its URL.
pub proof fn lemma_title_falls_back_to_url(line: Seq<char>)
    requires
        line_result(line) is Some,
        no_title_span(title_region(line)),
    ensures
        line_result(line)->0.title == line_result(line)->0.url,
{
}

/// Scan one markup line for a search hit.
pub fn extract_line(line: &str) -> (r: Option<SearchResult>)
    ensures
        r matches Some(res) ==> line_result(line@) == Some(res@),
        r is None ==> line_result(line@) is None,
        r matches Some(res) ==> (well_formed_escapes(redirect_payload(line@)->0) ==> forall|i: int|
            0 <= i < res@.url.len() ==> res@.url[i] != '%'),
{
    let n = line.unicode_len();
    if find_in(line, "result__a", 0).is_none() {
        return None;
    }
    let p = match find_in(line, "uddg=", 0) {
        None => {
            return None;
        },
        Some(p) => p,
    };
    proof {
        reveal_strlit("uddg=");
        assert(uddg_marker().len() == 5);
        lemma_find_match(line@, "uddg="@, 0);
    }
    let tail = line.substring_char(p + 5, n);
    proof {
        assert(tail@ =~= line@.skip(payload_start(line@)));
    }
    let e = match find_char_in(tail, '"', 0) {
        None => {
            return None;
        },
        Some(e) => e,
    };
    proof {
        lemma_find_char_props(tail@, '"', 0);
    }
    let enc = tail.substring_char(0, e);
    proof {
        assert(enc@ =~= tail@.take(e as int));
        assert(redirect_payload(line@) == Some(enc@));
    }
    let url = match percent_decode(enc) {
        None => {
            return None;
        },
        Some(u) => u,
    };
    proof {
        if well_formed_escapes(enc@) {
            lemma_well_formed_is_ascii(enc@);
            lemma_decode_leaves_no_escape(enc@);
        }
    }
    let tail_len = tail.unicode_len();
    let rest = tail.substring_char(e + 1, tail_len);
    proof {
        assert(rest@ =~= title_region(line@));
    }
    let title = match find_char_in(rest, '>', 0) {
        None => url.clone(),
        Some(g) => {
            proof {
                lemma_find_char_props(rest@, '>', 0);
            }
            let rest_len = rest.unicode_len();
            let after = rest.substring_char(g + 1, rest_len);
            proof {
                assert(after@ =~= rest@.skip(g + 1));
            }
            match find_char_in(after, '<', 0) {
                None => url.clone(),
                Some(h) => {
                    proof {
                        lemma_find_char_props(after@, '<', 0);
                    }
                    let span = after.substring_char(0, h);
                    proof {
                        assert(span@ =~= after@.take(h as int));
                    }
                    span.to_owned()
                },
            }
        },
    };
    Some(SearchResult::new(title, url))
}

/// Scan a whole markup text for search hits: qualifying lines in order, each
/// decoded to a hit, stopping once five have been collected. A markup with no
/// qualifying line yields an empty list, not an error.
pub fn extract_results(markup: &str) -> (results: Vec<SearchResult>)
    ensures
        models(results@) == spec_extract(markup@),
        results@.len() <= 5,
        forall|k: int| 0 <= k < results@.len() ==> (#[trigger] results@[k])@.content is None,
{
    let lines = split_lines(markup);
    let mut results: Vec<SearchResult> = Vec::new();
    let mut i: usize = 0;
    proof {
        assert(lines.deep_view().skip(0) =~= lines.deep_view());
        assert(models(results@) =~= Seq::<ResultModel>::empty());
        assert(Seq::<ResultModel>::empty() + spec_extract_capped(lines.deep_view(), 5nat)
            =~= spec_extract_capped(lines.deep_view(), 5nat));
    }
    while i < lines.len() && results.len() < RESULT_CAP
        invariant
            lines.deep_view() == spec_lines(markup@),
            i <= lines@.len(),
            results@.len() <= 5,
            forall|k: int| 0 <= k < results@.len() ==> (#[trigger] results@[k])@.content is None,
            models(results@) + spec_extract_capped(
                lines.deep_view().skip(i as int),
                (5 - results@.len()) as nat,
            ) == spec_extract(markup@),
        decreases lines@.len() - i,
    {
        let ghost prevms = models(results@);
        let ghost tail = lines.deep_view().skip(i as int);
        let ghost room = (5 - results@.len()) as nat;
        proof {
            assert(tail[0] == lines.deep_view()[i as int]);
            assert(lines.deep_view()[i as int] == lines@[i as int]@);
            assert(tail.skip(1) =~= lines.deep_view().skip(i + 1));
        }
        match extract_line(lines[i].as_str()) {
            Some(res) => {
                proof {
                    assert(line_result(tail[0]) == Some(res@));
                }
                results.push(res);
                proof {
                    assert(models(results@) =~= prevms.push(res@));
                    assert(spec_extract_capped(tail, room) == seq![res@] + spec_extract_capped(
                        tail.skip(1),
                        (room - 1) as nat,
                    ));
                    assert(prevms.push(res@) + spec_extract_capped(tail.skip(1), (room - 1) as nat)
                        =~= prevms + spec_extract_capped(tail, room));
                }
            },
            None => {
                proof {
                    assert(spec_extract_capped(tail, room) == spec_extract_capped(
                        tail.skip(1),
                        room,
                    ));
                }
            },
        }
        i += 1;
    }
    proof {
        if results@.len() == 5 {
            assert(spec_extract_capped(lines.deep_view().skip(i as int), 0nat)
                =~= Seq::<ResultModel>::empty());
        } else {
            assert(lines.deep_view().skip(i as int) =~= Seq::<Seq<char>>::empty());
        }
        assert(models(results@) + Seq::<ResultModel>::empty() =~= models(results@));
    }
    results
}

/// The fixed search page URL template: everything before the encoded query.
pub open spec fn search_url_prefix() -> Seq<char> {
    "https://duckduckgo.com/html/?q="@
}

/// The search page URL for a query: the fixed prefix followed by the
/// percent-encoded query text.
pub fn build_search_url(query: &str) -> (r: String)
    ensures
        r@ == search_url_prefix() + spec_encode_bytes(query.spec_bytes()),
{
    let mut url = String::from_str("https://duckduckgo.com/html/?q=");
    let enc = percent_encode(query);
    url.append(enc.as_str());
    url
}

} // verus!
