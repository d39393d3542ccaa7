use vstd::prelude::*;

use select::document::Document;
use select::predicate::{Attr, Name, Predicate};
use vstd::string::StringExecFns;

verus! {

/// The `href` values of the page's stylesheet link elements (`<link
/// rel="stylesheet">`), in document order, as parsed from the page text.
pub uninterp spec fn stylesheet_hrefs_of(html: Seq<char>) -> Seq<Seq<char>>;

/// Relies on `select::document::Document::from_read` and
/// `select::node::Node::attr`: parses the page and collects the `href` of
/// every stylesheet link element, in document order, skipping elements
/// without the attribute. Parsing depends on the page text alone, and
/// cannot fail on a `&str`, which is always valid UTF-8.
#[verifier::external_body]
pub(crate) fn find_stylesheet_hrefs(html: &str) -> (r: Vec<String>)
    ensures
        r.deep_view() == stylesheet_hrefs_of(html@),
{
    let document = match Document::from_read(html.as_bytes()) {
        Ok(d) => d,
        Err(_) => return Vec::new(),
    };
    document
        .find(Name("link").and(Attr("rel", "stylesheet")))
        .filter_map(|node| node.attr("href").map(str::to_string))
        .collect()
}

/// The text content of the page's inline `<style>` elements, one entry per
/// element, in document order, as parsed from the page text.
pub uninterp spec fn style_blocks_of(html: Seq<char>) -> Seq<Seq<char>>;

/// Relies on `select::document::Document::from_read` and
/// `select::node::Node::text`: parses the page and collects the combined
/// text content of every `<style>` element, in document order. Parsing
/// depends on the page text alone, and cannot fail on a `&str`, which is
/// always valid UTF-8.
#[verifier::external_body]
pub(crate) fn find_style_blocks(html: &str) -> (r: Vec<String>)
    ensures
        r.deep_view() == style_blocks_of(html@),
{
    let document = match Document::from_read(html.as_bytes()) {
        Ok(d) => d,
        Err(_) => return Vec::new(),
    };
    document.find(Name("style")).map(|node| node.text()).collect()
}

/// The `src` values of the page's `<img>` elements, in document order, as
/// parsed from the page text.
pub uninterp spec fn image_srcs_of(html: Seq<char>) -> Seq<Seq<char>>;

/// Relies on `select::document::Document::from_read` and
/// `select::node::Node::attr`: parses the page and collects the `src` of
/// every `<img>` element, in document order, skipping elements without the
/// attribute. Parsing depends on the page text alone, and cannot fail on a
/// `&str`, which is always valid UTF-8.
#[verifier::external_body]
pub(crate) fn find_image_srcs(html: &str) -> (r: Vec<String>)
    ensures
        r.deep_view() == image_srcs_of(html@),
{
    let document = match Document::from_read(html.as_bytes()) {
        Ok(d) => d,
        Err(_) => return Vec::new(),
    };
    document
        .find(Name("img"))
        .filter_map(|node| node.attr("src").map(str::to_string))
        .collect()
}

/// The `src` values of the page's `<script>` elements, in document order,
/// as parsed from the page text.
pub uninterp spec fn script_srcs_of(html: Seq<char>) -> Seq<Seq<char>>;

/// Relies on `select::document::Document::from_read` and
/// `select::node::Node::attr`: parses the page and collects the `src` of
/// every `<script>` element, in document order, skipping elements without
/// the attribute. Parsing depends on the page text alone, and cannot fail
/// on a `&str`, which is always valid UTF-8.
#[verifier::external_body]
pub(crate) fn find_script_srcs(html: &str) -> (r: Vec<String>)
    ensures
        r.deep_view() == script_srcs_of(html@),
{
    let document = match Document::from_read(html.as_bytes()) {
        Ok(d) => d,
        Err(_) => return Vec::new(),
    };
    document
        .find(Name("script"))
        .filter_map(|node| node.attr("src").map(str::to_string))
        .collect()
}

/// The newline-joined concatenation of a sequence of texts, in order; empty
/// when the sequence is empty.
pub open spec fn joined_with_newlines(blocks: Seq<Seq<char>>) -> Seq<char>
    decreases blocks.len(),
{
    if blocks.len() == 0 {
        Seq::empty()
    } else if blocks.len() == 1 {
        blocks[0]
    } else {
        blocks[0] + seq!['\n'] + joined_with_newlines(blocks.drop_first())
    }
}

/// Appending one more text to a joined sequence extends the join with a
/// newline and that text (or is that text alone, for an empty sequence).
proof fn lemma_joined_push(blocks: Seq<Seq<char>>, block: Seq<char>)
    ensures
        joined_with_newlines(blocks.push(block)) == if blocks.len() == 0 {
            block
        } else {
            joined_with_newlines(blocks) + seq!['\n'] + block
        },
    decreases blocks.len(),
{
    let pushed = blocks.push(block);
    if blocks.len() == 0 {
        assert(pushed.len() == 1);
        assert(pushed[0] == block);
    } else if blocks.len() == 1 {
        assert(pushed.len() == 2);
        assert(pushed[0] == blocks[0]);
        assert(pushed.drop_first() =~= seq![block]);
        assert(joined_with_newlines(seq![block]) == block);
        assert(joined_with_newlines(pushed) =~= joined_with_newlines(blocks) + seq!['\n'] + block);
    } else {
        assert(pushed.drop_first() =~= blocks.drop_first().push(block));
        lemma_joined_push(blocks.drop_first(), block);
        assert(pushed[0] == blocks[0]);
        assert(joined_with_newlines(pushed) == blocks[0] + seq!['\n'] + joined_with_newlines(
            blocks.drop_first().push(block),
        ));
        assert(joined_with_newlines(blocks) + seq!['\n'] + block == (blocks[0] + seq!['\n']
            + joined_with_newlines(blocks.drop_first())) + seq!['\n'] + block);
        assert(joined_with_newlines(pushed) =~= joined_with_newlines(blocks) + seq!['\n'] + block);
    }
}

/// Joins texts with single newlines between them, in order.
fn join_blocks(blocks: &Vec<String>) -> (r: String)
    ensures
        r@ == joined_with_newlines(blocks.deep_view()),
{
    let ghost all = blocks.deep_view();
    let mut r = String::new();
    let mut i: usize = 0;
    proof {
        reveal_strlit("\n");
        assert(all.take(0) =~= Seq::<Seq<char>>::empty());
    }
    while i < blocks.len()
        invariant
            i <= blocks.len(),
            all == blocks.deep_view(),
            all.len() == blocks.len(),
            r@ == joined_with_newlines(all.take(i as int)),
            "\n"@ == seq!['\n'],
        decreases blocks.len() - i,
    {
        proof {
            assert(all.take(i as int).push(all[i as int]) =~= all.take(i + 1));
            lemma_joined_push(all.take(i as int), all[i as int]);
            assert(all[i as int] == blocks@[i as int]@);
        }
        if i > 0 {
            proof {
                assert(all.take(i as int).len() == i);
            }
            r.append("\n");
        } else {
            proof {
                assert(joined_with_newlines(all.take(0)) =~= Seq::<char>::empty());
            }
        }
        r.append(blocks[i].as_str());
        i += 1;
    }
    proof {
        assert(all.take(blocks.len() as int) =~= all);
    }
    r
}

/// The concatenation of the text of the page's inline `<style>` blocks,
/// joined with newlines, in document order; empty when the page has none.
pub fn find_embedded_styles(html: &str) -> (r: String)
    ensures
        r@ == joined_with_newlines(style_blocks_of(html@)),
{
    let blocks = find_style_blocks(html);
    join_blocks(&blocks)
}

} // verus!
