//! The archive document: a deterministic rendering of the query, the result
//! list, and each result's fetched content, ready to be persisted as one file.

use crate::model::{models, ResultModel, SearchResult};
use vstd::prelude::*;
use vstd::string::StringExecFns;

verus! {

/// Heading and list header that open the document.
pub open spec fn results_header(query: Seq<char>) -> Seq<char> {
    "# Query: "@ + query + "\n\n## Results\n"@
}

/// Separator and header that open the content section.
pub open spec fn content_header() -> Seq<char> {
    "\n---\n\n## Page Content\n"@
}

/// One link-style line of the results list.
pub open spec fn link_line(r: ResultModel) -> Seq<char> {
    "- ["@ + r.title + "]("@ + r.url + ")\n"@
}

/// The whole results list, one line per hit, in discovery order.
pub open spec fn link_lines(rs: Seq<ResultModel>) -> Seq<char>
    decreases rs.len(),
{
    if rs.len() == 0 {
        Seq::empty()
    } else {
        link_line(rs[0]) + link_lines(rs.skip(1))
    }
}

/// The text standing for a hit's content: the fetched markup, or a fixed
/// marker when no content was recorded.
pub open spec fn content_text(c: Option<Seq<char>>) -> Seq<char> {
    match c {
        Some(t) => t,
        None => "No content fetched."@,
    }
}

/// One content subsection: the hit's title as a heading, then its content.
pub open spec fn content_block(r: ResultModel) -> Seq<char> {
    "\n### "@ + r.title + "\n"@ + content_text(r.content) + "\n"@
}

/// The whole content section, one subsection per hit, in discovery order.
pub open spec fn content_blocks(rs: Seq<ResultModel>) -> Seq<char>
    decreases rs.len(),
{
    if rs.len() == 0 {
        Seq::empty()
    } else {
        content_block(rs[0]) + content_blocks(rs.skip(1))
    }
}

/// The whole archive document for one run.
pub open spec fn spec_document(query: Seq<char>, rs: Seq<ResultModel>) -> Seq<char> {
    results_header(query) + link_lines(rs) + content_header() + content_blocks(rs)
}

proof fn lemma_link_lines_snoc(rs: Seq<ResultModel>, x: ResultModel)
    ensures
        link_lines(rs.push(x)) == link_lines(rs) + link_line(x),
    decreases rs.len(),
{
    assert(link_lines(rs.push(x)) == link_line(rs.push(x)[0]) + link_lines(rs.push(x).skip(1)));
    if rs.len() == 0 {
        assert(rs.push(x)[0] == x);
        assert(rs.push(x).skip(1) =~= Seq::<ResultModel>::empty());
        assert(link_lines(Seq::<ResultModel>::empty()) == Seq::<char>::empty());
        assert(link_line(x) + Seq::<char>::empty() =~= link_line(x));
        assert(Seq::<char>::empty() + link_line(x) =~= link_line(x));
    } else {
        assert(rs.push(x)[0] == rs[0]);
        assert(rs.push(x).skip(1) =~= rs.skip(1).push(x));
        lemma_link_lines_snoc(rs.skip(1), x);
        assert((link_line(rs[0]) + link_lines(rs.skip(1))) + link_line(x) =~= link_line(rs[0]) + (
        link_lines(rs.skip(1)) + link_line(x)));
    }
}

proof fn lemma_content_blocks_snoc(rs: Seq<ResultModel>, x: ResultModel)
    ensures
        content_blocks(rs.push(x)) == content_blocks(rs) + content_block(x),
    decreases rs.len(),
{
    assert(content_blocks(rs.push(x)) == content_block(rs.push(x)[0]) + content_blocks(
        rs.push(x).skip(1),
    ));
    if rs.len() == 0 {
        assert(rs.push(x)[0] == x);
        assert(rs.push(x).skip(1) =~= Seq::<ResultModel>::empty());
        assert(content_blocks(Seq::<ResultModel>::empty()) == Seq::<char>::empty());
        assert(content_block(x) + Seq::<char>::empty() =~= content_block(x));
        assert(Seq::<char>::empty() + content_block(x) =~= content_block(x));
    } else {
        assert(rs.push(x)[0] == rs[0]);
        assert(rs.push(x).skip(1) =~= rs.skip(1).push(x));
        lemma_content_blocks_snoc(rs.skip(1), x);
        assert((content_block(rs[0]) + content_blocks(rs.skip(1))) + content_block(x)
            =~= content_block(rs[0]) + (content_blocks(rs.skip(1)) + content_block(x)));
    }
}

/// Law: the archive document is a function of the query and the results alone,
/// so rendering twice from identical inputs yields identical text.
pub proof fn lemma_render_deterministic(
    q1: Seq<char>,
    rs1: Seq<ResultModel>,
    q2: Seq<char>,
    rs2: Seq<ResultModel>,
)
    requires
        q1 == q2,
        rs1 == rs2,
    ensures
        spec_document(q1, rs1) == spec_document(q2, rs2),
{
}

/// Render the archive document for a query and its results.
pub fn render_markdown(query: &str, results: &Vec<SearchResult>) -> (md: String)
    ensures
        md@ == spec_document(query@, models(results@)),
{
    let ghost ms = models(results@);
    let mut md = String::from_str("# Query: ");
    md.append(query);
    md.append("\n\n## Results\n");
    proof {
        assert(md@ =~= results_header(query@));
        assert(ms.take(0) =~= Seq::<ResultModel>::empty());
        assert(md@ + Seq::<char>::empty() =~= md@);
    }
    let mut i: usize = 0;
    while i < results.len()
        invariant
            ms == models(results@),
            i <= results@.len(),
            md@ == results_header(query@) + link_lines(ms.take(i as int)),
        decreases results@.len() - i,
    {
        let ghost before = md@;
        md.append("- [");
        md.append(results[i].title.as_str());
        md.append("](");
        md.append(results[i].url.as_str());
        md.append(")\n");
        proof {
            assert(ms[i as int] == results@[i as int]@);
            assert(md@ =~= before + link_line(ms[i as int]));
            lemma_link_lines_snoc(ms.take(i as int), ms[i as int]);
            assert(ms.take(i as int).push(ms[i as int]) =~= ms.take(i + 1));
            assert(before + link_line(ms[i as int]) =~= results_header(query@) + (link_lines(
                ms.take(i as int),
            ) + link_line(ms[i as int])));
        }
        i += 1;
    }
    proof {
        assert(ms.take(results@.len() as int) =~= ms);
    }
    md.append("\n---\n\n## Page Content\n");
    proof {
        assert(md@ =~= results_header(query@) + link_lines(ms) + content_header());
        assert(md@ + Seq::<char>::empty() =~= md@);
        assert(ms.take(0) =~= Seq::<ResultModel>::empty());
    }
    let ghost middle = md@;
    let mut j: usize = 0;
    while j < results.len()
        invariant
            ms == models(results@),
            j <= results@.len(),
            middle == results_header(query@) + link_lines(ms) + content_header(),
            md@ == middle + content_blocks(ms.take(j as int)),
        decreases results@.len() - j,
    {
        let ghost before = md@;
        md.append("\n### ");
        md.append(results[j].title.as_str());
        md.append("\n");
        match &results[j].content {
            Some(c) => md.append(c.as_str()),
            None => md.append("No content fetched."),
        }
        md.append("\n");
        proof {
            assert(ms[j as int] == results@[j as int]@);
            assert(md@ =~= before + content_block(ms[j as int]));
            lemma_content_blocks_snoc(ms.take(j as int), ms[j as int]);
            assert(ms.take(j as int).push(ms[j as int]) =~= ms.take(j + 1));
            assert(before + content_block(ms[j as int]) =~= middle + (content_blocks(
                ms.take(j as int),
            ) + content_block(ms[j as int])));
        }
        j += 1;
    }
    proof {
        assert(ms.take(results@.len() as int) =~= ms);
        assert(md@ =~= spec_document(query@, ms));
    }
    md
}

} // verus!
