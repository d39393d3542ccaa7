use vstd::prelude::*;

use crate::css::{minified_css_of, minify};
use crate::errors::MirrorError;
use crate::scan::{
    find_embedded_styles, find_image_srcs, find_script_srcs, find_stylesheet_hrefs,
    image_srcs_of, joined_with_newlines, script_srcs_of, style_blocks_of, stylesheet_hrefs_of,
};
use crate::urls::{derive_filename, filename_spec, resolve, resolve_spec};
use vstd::string::StringExecFns;
use vstd::utf8::{decode_utf8, valid_utf8};

verus! {

/// The class of a discovered asset reference.
#[derive(Clone, Copy, PartialEq, Eq, Structural, Debug)]
pub enum AssetKind {
    /// A linked stylesheet (`<link rel="stylesheet" href=...>`).
    Stylesheet,
    /// The text of inline `<style>` blocks; never fetched, only transformed.
    EmbeddedStyle,
    /// An image (`<img src=...>`).
    Image,
    /// A script (`<script src=...>`).
    Script,
}

/// The outcome of one blocking retrieval, as the transport hands it back:
/// the body bytes of a 2xx response, the status code of any other response,
/// or a connection-level failure with the transport's message.
pub enum FetchOutcome {
    Success(Vec<u8>),
    HttpError(u16),
    TransportError(String),
}

/// The content of one output file.
pub enum FileContent {
    Text(String),
    Binary(Vec<u8>),
}

/// One planned retrieval: the asset's class, the absolute (or pass-through)
/// URL to fetch, and the output file name derived for it.
pub struct FetchTask {
    pub kind: AssetKind,
    pub url: String,
    pub file_name: String,
}

/// One step of a mirroring run, in the order the run performs them.
pub enum MirrorStep {
    /// Fetch the URL of a task and process the response.
    Fetch(FetchTask),
    /// Minify the joined embedded style text and write its file.
    WriteEmbedded(String),
    /// Write the raw page text to its file.
    WritePage(String),
}

/// What one fetched asset comes to: an output file, or a skip carrying the
/// error that was absorbed — the run continues with the next asset either
/// way.
pub enum StepResult {
    Write { file_name: String, content: FileContent },
    Skip { error: MirrorError },
}

/// The name of the file an embedded style block is written to.
pub open spec fn embedded_css_file_name() -> Seq<char> {
    "embedded_css.css"@
}

/// The name of the file the raw page text is written to.
pub open spec fn page_file_name() -> Seq<char> {
    "output.html"@
}

/// The name of the file the raw page text is written to.
pub fn page_output_file_name() -> (r: String)
    ensures
        r@ == page_file_name(),
{
    String::from_str("output.html")
}

/// The output file name for an asset: the kind's tag followed by the
/// file-name suffix derived from the asset's URL. Embedded styles have a
/// fixed name, whatever the URL argument.
pub open spec fn file_name_spec(kind: AssetKind, url: Seq<char>) -> Seq<char> {
    match kind {
        AssetKind::Stylesheet => "style"@ + filename_spec(url),
        AssetKind::EmbeddedStyle => embedded_css_file_name(),
        AssetKind::Image => "image"@ + filename_spec(url),
        AssetKind::Script => "script"@ + filename_spec(url),
    }
}

/// Derives the output file name for an asset of a given kind and URL.
pub fn output_file_name(kind: AssetKind, url: &str) -> (r: String)
    ensures
        r@ == file_name_spec(kind, url@),
{
    match kind {
        AssetKind::Stylesheet => String::from_str("style").concat(derive_filename(url).as_str()),
        AssetKind::EmbeddedStyle => String::from_str("embedded_css.css"),
        AssetKind::Image => String::from_str("image").concat(derive_filename(url).as_str()),
        AssetKind::Script => String::from_str("script").concat(derive_filename(url).as_str()),
    }
}

/// Law: two asset URLs of the same kind whose derived file-name suffixes
/// coincide (for instance, two URLs with the same final path segment) are
/// written to the same output file name, so the later write lands on the
/// earlier asset's file.
pub proof fn lemma_colliding_segments_share_file_name(
    kind: AssetKind,
    u1: Seq<char>,
    u2: Seq<char>,
)
    requires
        filename_spec(u1) == filename_spec(u2),
    ensures
        file_name_spec(kind, u1) == file_name_spec(kind, u2),
{
}

/// Relies on `String::from_utf8`: `Some` of the decoded text exactly when
/// the bytes are valid UTF-8.
#[verifier::external_body]
fn decode_text(bytes: Vec<u8>) -> (r: Option<String>)
    ensures
        r is Some <==> valid_utf8(bytes@),
        r matches Some(s) ==> s@ == decode_utf8(bytes@),
{
    match String::from_utf8(bytes) {
        Ok(s) => Some(s),
        Err(_) => None,
    }
}

/// Spec for HTTP success: a status in the 2xx class.
pub open spec fn is_success_status(status: u16) -> bool {
    200 <= status < 300
}

/// Classifies one HTTP response: the body bytes of a response in the 2xx
/// class, or the status code of any other response.
pub fn classify_response(status: u16, body: Vec<u8>) -> (r: FetchOutcome)
    ensures
        is_success_status(status) ==> (r matches FetchOutcome::Success(b) && b@ == body@),
        !is_success_status(status) ==> (r matches FetchOutcome::HttpError(c) && c == status),
{
    if 200 <= status && status < 300 {
        FetchOutcome::Success(body)
    } else {
        FetchOutcome::HttpError(status)
    }
}

/// Gate on the initial page fetch. Any failure here is fatal to the whole
/// run: no step is planned and no file is written. A 2xx response whose
/// body is valid UTF-8 yields the page text.
pub fn accept_page(outcome: FetchOutcome) -> (r: Result<String, MirrorError>)
    ensures
        match outcome {
            FetchOutcome::Success(bytes) => {
                &&& r is Ok <==> valid_utf8(bytes@)
                &&& (r matches Ok(h) ==> h@ == decode_utf8(bytes@))
                &&& (r matches Err(e) ==> e is Decode)
            },
            FetchOutcome::HttpError(c) => r matches Err(e) && e matches MirrorError::Http(cc)
                && cc == c,
            FetchOutcome::TransportError(m) => r matches Err(e) && e matches MirrorError::Transport(
                mm,
            ) && mm@ == m@,
        },
{
    match outcome {
        FetchOutcome::Success(bytes) => match decode_text(bytes) {
            Some(html) => Ok(html),
            None => Err(MirrorError::Decode),
        },
        FetchOutcome::HttpError(c) => Err(MirrorError::Http(c)),
        FetchOutcome::TransportError(m) => Err(MirrorError::Transport(m)),
    }
}

/// True when the step wrote a text file with the given name and text.
pub open spec fn writes_text(r: StepResult, name: Seq<char>, text: Seq<char>) -> bool {
    match r {
        StepResult::Write { file_name, content } => file_name@ == name && match content {
            FileContent::Text(t) => t@ == text,
            _ => false,
        },
        _ => false,
    }
}

/// True when the step wrote a binary file with the given name and bytes.
pub open spec fn writes_binary(r: StepResult, name: Seq<char>, bytes: Seq<u8>) -> bool {
    match r {
        StepResult::Write { file_name, content } => file_name@ == name && match content {
            FileContent::Binary(b) => b@ == bytes,
            _ => false,
        },
        _ => false,
    }
}

/// The error the step absorbed, when it skipped its asset.
pub open spec fn skip_error_of(r: StepResult) -> Option<MirrorError> {
    match r {
        StepResult::Skip { error } => Some(error),
        _ => None,
    }
}

/// True when the step skipped its asset over a non-2xx status `c`.
pub open spec fn skips_http(r: StepResult, c: u16) -> bool {
    match skip_error_of(r) {
        Some(MirrorError::Http(cc)) => cc == c,
        _ => false,
    }
}

/// True when the step skipped its asset over a transport failure carrying
/// the message `m`.
pub open spec fn skips_transport(r: StepResult, m: Seq<char>) -> bool {
    match skip_error_of(r) {
        Some(MirrorError::Transport(mm)) => mm@ == m,
        _ => false,
    }
}

/// True when the step skipped its asset over a body that is not UTF-8.
pub open spec fn skips_decode(r: StepResult) -> bool {
    match skip_error_of(r) {
        Some(e) => e is Decode,
        _ => false,
    }
}

/// True when the step dropped its asset over a minifier rejection.
pub open spec fn skips_minify(r: StepResult) -> bool {
    match skip_error_of(r) {
        Some(e) => e is Minify,
        _ => false,
    }
}

/// Processes one fetched asset: a non-2xx status or a transport failure is
/// absorbed as a skip; a 2xx body is written as raw bytes for an image,
/// decoded for a script, and decoded then minified for a stylesheet (a
/// style text is minified whichever style class it came from). A body that
/// should be text but is not valid UTF-8 is skipped as a decode failure; a
/// style text the minifier rejects is dropped with the minifier's report.
pub fn process_fetched(kind: AssetKind, file_name: &str, outcome: FetchOutcome) -> (r: StepResult)
    ensures
        match outcome {
            FetchOutcome::HttpError(c) => skips_http(r, c),
            FetchOutcome::TransportError(m) => skips_transport(r, m@),
            FetchOutcome::Success(bytes) => match kind {
                AssetKind::Image => writes_binary(r, file_name@, bytes@),
                AssetKind::Script => if valid_utf8(bytes@) {
                    writes_text(r, file_name@, decode_utf8(bytes@))
                } else {
                    skips_decode(r)
                },
                AssetKind::Stylesheet | AssetKind::EmbeddedStyle => if !valid_utf8(bytes@) {
                    skips_decode(r)
                } else {
                    match minified_css_of(decode_utf8(bytes@)) {
                        Some(t) => writes_text(r, file_name@, t),
                        None => skips_minify(r),
                    }
                },
            },
        },
{
    match outcome {
        FetchOutcome::HttpError(c) => StepResult::Skip { error: MirrorError::Http(c) },
        FetchOutcome::TransportError(m) => StepResult::Skip { error: MirrorError::Transport(m) },
        FetchOutcome::Success(bytes) => match kind {
            AssetKind::Image => StepResult::Write {
                file_name: file_name.to_owned(),
                content: FileContent::Binary(bytes),
            },
            AssetKind::Script => match decode_text(bytes) {
                Some(text) => StepResult::Write {
                    file_name: file_name.to_owned(),
                    content: FileContent::Text(text),
                },
                None => StepResult::Skip { error: MirrorError::Decode },
            },
            AssetKind::Stylesheet | AssetKind::EmbeddedStyle => match decode_text(bytes) {
                Some(css_text) => match minify(css_text.as_str()) {
                    Ok(minified) => StepResult::Write {
                        file_name: file_name.to_owned(),
                        content: FileContent::Text(minified),
                    },
                    Err(e) => StepResult::Skip { error: e },
                },
                None => StepResult::Skip { error: MirrorError::Decode },
            },
        },
    }
}

/// Processes the joined embedded style text: minifies it and names its
/// fixed output file, or drops it with the minifier's report.
pub fn process_embedded(css: &str) -> (r: StepResult)
    ensures
        match minified_css_of(css@) {
            Some(t) => writes_text(r, embedded_css_file_name(), t),
            None => skips_minify(r),
        },
{
    match minify(css) {
        Ok(minified) => StepResult::Write {
            file_name: String::from_str("embedded_css.css"),
            content: FileContent::Text(minified),
        },
        Err(e) => StepResult::Skip { error: e },
    }
}

/// The step that fetches one linked stylesheet: the raw `href` is fetched
/// as it stands, and the output file name is derived from it.
pub open spec fn is_stylesheet_step(step: MirrorStep, href: Seq<char>) -> bool {
    match step {
        MirrorStep::Fetch(t) => t.kind == AssetKind::Stylesheet && t.url@ == href && t.file_name@
            == file_name_spec(AssetKind::Stylesheet, href),
        _ => false,
    }
}

/// The step that fetches one image: the `src` is resolved against the page
/// URL, and the output file name is derived from the absolute URL.
pub open spec fn is_image_step(step: MirrorStep, page_url: Seq<char>, src: Seq<char>) -> bool {
    match (step, resolve_spec(page_url, src)) {
        (MirrorStep::Fetch(t), Some(absolute)) => t.kind == AssetKind::Image && t.url@ == absolute
            && t.file_name@ == file_name_spec(AssetKind::Image, absolute),
        _ => false,
    }
}

/// The step that fetches one script: the raw `src` is fetched as it stands,
/// and the output file name is derived from it.
pub open spec fn is_script_step(step: MirrorStep, src: Seq<char>) -> bool {
    match step {
        MirrorStep::Fetch(t) => t.kind == AssetKind::Script && t.url@ == src && t.file_name@
            == file_name_spec(AssetKind::Script, src),
        _ => false,
    }
}

/// The shape of a planned run over a page's text: the stylesheet fetches in
/// document order, then the embedded style write (exactly when some inline
/// style text exists), then the image fetches in document order, then the
/// script fetches in document order, and last the write of the raw page.
pub open spec fn plan_shape(steps: Seq<MirrorStep>, page_url: Seq<char>, html: Seq<char>) -> bool {
    let css = stylesheet_hrefs_of(html);
    let emb = joined_with_newlines(style_blocks_of(html));
    let has_emb: int = if emb.len() == 0 {
        0
    } else {
        1
    };
    let imgs = image_srcs_of(html);
    let js = script_srcs_of(html);
    &&& steps.len() == css.len() + has_emb + imgs.len() + js.len() + 1
    &&& (forall|i: int| 0 <= i < css.len() ==> is_stylesheet_step(#[trigger] steps[i], css[i]))
    &&& (has_emb == 1 ==> match steps[css.len() as int] {
        MirrorStep::WriteEmbedded(s) => s@ == emb,
        _ => false,
    })
    &&& (forall|i: int|
        0 <= i < imgs.len() ==> is_image_step(
            steps[css.len() + has_emb + i],
            page_url,
            #[trigger] imgs[i],
        ))
    &&& (forall|i: int|
        0 <= i < js.len() ==> is_script_step(
            steps[css.len() + has_emb + imgs.len() + i],
            #[trigger] js[i],
        ))
    &&& (match steps.last() {
        MirrorStep::WritePage(h) => h@ == html,
        _ => false,
    })
}

/// Plans one mirroring run from the page URL and the fetched page text: the
/// ordered steps of the four phases — linked stylesheets, the embedded
/// style file, images (each `src` resolved against the page URL), scripts —
/// followed by the write of the raw page itself. Fails with `InvalidUrl`
/// exactly when some image reference cannot be resolved against the page
/// URL; that failure aborts the run before anything is fetched.
pub fn plan(page_url: &str, html: &str) -> (r: Result<Vec<MirrorStep>, MirrorError>)
    ensures
        r is Ok <==> (forall|i: int|
            0 <= i < image_srcs_of(html@).len() ==> resolve_spec(
                page_url@,
                #[trigger] image_srcs_of(html@)[i],
            ) is Some),
        (r matches Ok(steps) ==> plan_shape(steps@, page_url@, html@)),
        (r matches Err(e) ==> e is InvalidUrl),
{
    let ghost css = stylesheet_hrefs_of(html@);
    let ghost emb = joined_with_newlines(style_blocks_of(html@));
    let ghost has_emb: int = if emb.len() == 0 {
        0
    } else {
        1
    };
    let ghost imgs = image_srcs_of(html@);
    let ghost js = script_srcs_of(html@);

    let mut steps: Vec<MirrorStep> = Vec::new();

    let hrefs = find_stylesheet_hrefs(html);
    let mut i: usize = 0;
    while i < hrefs.len()
        invariant
            i <= hrefs.len(),
            hrefs.deep_view() == css,
            css.len() == hrefs@.len(),
            steps@.len() == i,
            forall|k: int| 0 <= k < i ==> is_stylesheet_step(#[trigger] steps@[k], css[k]),
        decreases hrefs.len() - i,
    {
        proof {
            assert(css[i as int] == hrefs@[i as int]@);
        }
        let href = &hrefs[i];
        let file_name = output_file_name(AssetKind::Stylesheet, href.as_str());
        steps.push(
            MirrorStep::Fetch(
                FetchTask { kind: AssetKind::Stylesheet, url: href.clone(), file_name },
            ),
        );
        i += 1;
    }

    let embedded = find_embedded_styles(html);
    if !embedded.as_str().is_empty() {
        steps.push(MirrorStep::WriteEmbedded(embedded));
    }
    assert(steps@.len() == css.len() + has_emb);

    let srcs = find_image_srcs(html);
    let mut j: usize = 0;
    while j < srcs.len()
        invariant
            j <= srcs.len(),
            srcs.deep_view() == imgs,
            imgs == image_srcs_of(html@),
            imgs.len() == srcs@.len(),
            has_emb == (if emb.len() == 0 {
                0int
            } else {
                1int
            }),
            steps@.len() == css.len() + has_emb + j,
            forall|k: int| 0 <= k < css.len() ==> is_stylesheet_step(#[trigger] steps@[k], css[k]),
            has_emb == 1 ==> match steps@[css.len() as int] {
                MirrorStep::WriteEmbedded(s) => s@ == emb,
                _ => false,
            },
            forall|k: int|
                0 <= k < j ==> is_image_step(
                    steps@[css.len() + has_emb + k],
                    page_url@,
                    #[trigger] imgs[k],
                ),
            forall|k: int| 0 <= k < j ==> resolve_spec(page_url@, #[trigger] imgs[k]) is Some,
        decreases srcs.len() - j,
    {
        proof {
            assert(imgs[j as int] == srcs@[j as int]@);
        }
        let src = &srcs[j];
        match resolve(page_url, src.as_str()) {
            Ok(absolute) => {
                let file_name = output_file_name(AssetKind::Image, absolute.as_str());
                steps.push(
                    MirrorStep::Fetch(
                        FetchTask { kind: AssetKind::Image, url: absolute, file_name },
                    ),
                );
            },
            Err(e) => {
                proof {
                    assert(resolve_spec(page_url@, imgs[j as int]) is None);
                    assert(!(forall|i: int|
                        0 <= i < image_srcs_of(html@).len() ==> resolve_spec(
                            page_url@,
                            #[trigger] image_srcs_of(html@)[i],
                        ) is Some)) by {
                        assert(0 <= (j as int) && (j as int) < image_srcs_of(html@).len());
                        assert(!(resolve_spec(
                            page_url@,
                            image_srcs_of(html@)[j as int],
                        ) is Some));
                    };
                }
                return Err(e);
            },
        }
        j += 1;
    }

    let script_srcs = find_script_srcs(html);
    let mut k: usize = 0;
    while k < script_srcs.len()
        invariant
            k <= script_srcs.len(),
            script_srcs.deep_view() == js,
            js.len() == script_srcs@.len(),
            has_emb == (if emb.len() == 0 {
                0int
            } else {
                1int
            }),
            steps@.len() == css.len() + has_emb + imgs.len() + k,
            forall|m: int| 0 <= m < css.len() ==> is_stylesheet_step(#[trigger] steps@[m], css[m]),
            has_emb == 1 ==> match steps@[css.len() as int] {
                MirrorStep::WriteEmbedded(s) => s@ == emb,
                _ => false,
            },
            forall|m: int|
                0 <= m < imgs.len() ==> is_image_step(
                    steps@[css.len() + has_emb + m],
                    page_url@,
                    #[trigger] imgs[m],
                ),
            forall|m: int| 0 <= m < imgs.len() ==> resolve_spec(page_url@, #[trigger] imgs[m]) is Some,
            forall|m: int|
                0 <= m < k ==> is_script_step(
                    steps@[css.len() + has_emb + imgs.len() + m],
                    #[trigger] js[m],
                ),
        decreases script_srcs.len() - k,
    {
        proof {
            assert(js[k as int] == script_srcs@[k as int]@);
        }
        let src = &script_srcs[k];
        let file_name = output_file_name(AssetKind::Script, src.as_str());
        steps.push(
            MirrorStep::Fetch(FetchTask { kind: AssetKind::Script, url: src.clone(), file_name }),
        );
        k += 1;
    }

    steps.push(MirrorStep::WritePage(html.to_owned()));
    Ok(steps)
}

} // verus!
