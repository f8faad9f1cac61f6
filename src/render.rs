//! Rendering the list of lists into the published page.
use vstd::prelude::*;

use serde_json::Value;
use vstd::string::StringExecFns;
use vstd::utf8::encode_utf8;

use crate::codec::{document_of, list_of_lists_fields, read_list};
use crate::error::ListError;
use crate::ident::div_id_safe;
use crate::json::{json_map_insert, json_model, json_null, json_object, json_str, Json};
use crate::model::{all_lists_valid, item_views, list_is_valid, ListOfLists, ListOfListsView};

verus! {

/// The name under which templates call the identifier filter.
pub const DIV_ID_SAFE: &'static str = "div_id_safe";

/// The name the page template is rendered under; its `.html` ending makes
/// the renderer HTML-escape every value it writes into the page.
pub const SITE_INDEX: &'static str = "index.html";

/// minijinja's error, only passed through.
#[verifier::external_type_specification]
#[verifier::external_body]
pub struct ExRenderError(minijinja::Error);

/// The I/O error that html5minify reports, only passed through.
#[verifier::external_type_specification]
#[verifier::external_body]
pub struct ExIoError(std::io::Error);

/// The text that minijinja renders from a template source under a template
/// name (which picks the escaping) and a context, with the library's
/// identifier filter registered under the given filter name.
pub uninterp spec fn rendered(filter_name: Seq<char>, name: Seq<char>, template: Seq<char>, context: Json) -> Option<Seq<char>>;

/// The bytes that html5minify makes of a page.
pub uninterp spec fn minified(html: Seq<u8>) -> Option<Seq<u8>>;

/// Relies on minijinja's `Environment::render_named_str`, with the
/// identifier filter added by `Environment::add_filter`.
#[verifier::external_body]
fn render_template(filter_name: &str, name: &str, template: &str, context: &Value) -> (r: Result<String, minijinja::Error>)
    ensures
        r is Ok <==> rendered(filter_name@, name@, template@, json_model(*context)) is Some,
        r is Ok ==> rendered(filter_name@, name@, template@, json_model(*context)) == Some(r->Ok_0@),
{
    let mut env = minijinja::Environment::new();
    env.add_filter(filter_name, |value: String| div_id_safe(&value));
    env.render_named_str(name, template, context)
}

/// Relies on html5minify's `Minify::minify`.
#[verifier::external_body]
fn minify_html(html: &[u8]) -> (r: Result<Vec<u8>, std::io::Error>)
    ensures
        r is Ok <==> minified(html@) is Some,
        r is Ok ==> minified(html@) == Some(r->Ok_0@),
{
    html5minify::Minify::minify(&html)
}

/// Where the card image of a site is found.
pub open spec fn card_url_of(site_url: Seq<char>) -> Seq<char> {
    "https://"@ + site_url + "/images/card.png"@
}

/// The absolute address of a site's card image.
pub fn card_image_url(site_url: &str) -> (r: String)
    ensures
        r@ == card_url_of(site_url@),
{
    let mut r = "https://".to_owned();
    r.append(site_url);
    r.append("/images/card.png");
    r
}

/// What a template is rendered with: the document's fields, and the card
/// image's address or null.
pub open spec fn context_of(d: ListOfListsView, card_url: Option<Seq<char>>) -> Json {
    Json::Object(
        list_of_lists_fields(d).insert(
            "card_image_url"@,
            match card_url {
                Some(u) => Json::Str(u),
                None => Json::Null,
            },
        ),
    )
}

/// The view of an optional text.
pub open spec fn text_view(s: Option<String>) -> Option<Seq<char>> {
    match s {
        Some(t) => Some(t@),
        None => None,
    }
}

/// Builds the context that the page template is rendered with.
pub fn render_context(data: &ListOfLists, card_url: Option<String>) -> (r: Value)
    ensures
        json_model(r) == context_of(data@, text_view(card_url)),
{
    let mut fields = data.to_fields();
    let card = match card_url {
        Some(u) => json_str(u),
        None => json_null(),
    };
    json_map_insert(&mut fields, "card_image_url".to_owned(), card);
    json_object(fields)
}

/// The page made of a template and a valid document: rendered, then
/// minified when asked.
pub open spec fn page_of(template: Seq<char>, d: ListOfListsView, card_url: Option<Seq<char>>, minify: bool) -> Result<Seq<u8>, ListError> {
    match rendered(DIV_ID_SAFE@, SITE_INDEX@, template, context_of(d, card_url)) {
        None => Err(ListError::Render),
        Some(text) => if minify {
            match minified(encode_utf8(text)) {
                None => Err(ListError::Minify),
                Some(b) => Ok(b),
            }
        } else {
            Ok(encode_utf8(text))
        },
    }
}

/// The view of a result that carries bytes.
pub open spec fn bytes_result(r: Result<Vec<u8>, ListError>) -> Result<Seq<u8>, ListError> {
    match r {
        Ok(b) => Ok(b@),
        Err(e) => Err(e),
    }
}

/// Renders a valid document into the page's bytes.
pub fn render_page(template: &str, data: &ListOfLists, card_url: Option<String>, minify: bool) -> (r: Result<Vec<u8>, ListError>)
    ensures
        bytes_result(r) == page_of(template@, data@, text_view(card_url), minify),
{
    let context = render_context(data, card_url);
    let text = match render_template(DIV_ID_SAFE, SITE_INDEX, template, &context) {
        Ok(t) => t,
        Err(_) => {
            return Err(ListError::Render);
        },
    };
    let bytes = text.as_str().as_bytes();
    if minify {
        match minify_html(bytes) {
            Ok(b) => Ok(b),
            Err(_) => Err(ListError::Minify),
        }
    } else {
        Ok(vstd::slice::slice_to_vec(bytes))
    }
}

/// The address of the card image, when the site has one.
pub open spec fn card_for(site_url: Seq<char>, card_image_exists: bool) -> Option<Seq<char>> {
    if card_image_exists {
        Some(card_url_of(site_url))
    } else {
        None
    }
}

/// The bytes published for a site, if building its page succeeds.
pub open spec fn site_bytes(template: Seq<char>, data: Seq<char>, site_url: Seq<char>, card_image_exists: bool, minify: bool) -> Option<Seq<u8>> {
    match document_of(data) {
        Some(d) => if all_lists_valid(d.lists) {
            match page_of(template, d, card_for(site_url, card_image_exists), minify) {
                Ok(b) => Some(b),
                Err(_) => None,
            }
        } else {
            None
        },
        None => None,
    }
}

/// The site's page from a template, the data text, the site's address and
/// whether it has a card image: the data are read and validated, then the
/// page is rendered, and minified when asked.
pub fn build_site(template: &str, data: &str, site_url: &str, card_image_exists: bool, minify: bool) -> (r: Result<Vec<u8>, ListError>)
    ensures
        match r {
            Ok(b) => site_bytes(template@, data@, site_url@, card_image_exists, minify) == Some(b@),
            Err(_) => site_bytes(template@, data@, site_url@, card_image_exists, minify) is None,
        },
        match document_of(data@) {
            None => r == Err::<Vec<u8>, ListError>(ListError::Parse),
            Some(d) => if all_lists_valid(d.lists) {
                bytes_result(r) == page_of(template@, d, card_for(site_url@, card_image_exists), minify)
            } else {
                exists|k: int|
                    0 <= k < d.lists.len() && !list_is_valid(#[trigger] d.lists[k])
                        && all_lists_valid(d.lists.take(k))
                        && r is Err && r->Err_0 is Duplicates && r->Err_0->Duplicates_title@ == d.lists[k].title
                        && item_views(r->Err_0->Duplicates_items@) == d.lists[k].list
            },
        },
{
    let list_of_lists = match read_list(data) {
        Ok(l) => l,
        Err(e) => {
            return Err(e);
        },
    };
    let card_url = if card_image_exists {
        Some(card_image_url(site_url))
    } else {
        None
    };
    render_page(template, &list_of_lists, card_url, minify)
}

/// What is published is a function of the template, the document that the
/// data hold, the site's address, whether the card image exists and whether
/// to minify: the same inputs give the same bytes, and two data texts that
/// hold the same document give the same bytes.
pub proof fn lemma_site_is_deterministic(
    template: Seq<char>,
    data1: Seq<char>,
    data2: Seq<char>,
    site_url: Seq<char>,
    card_image_exists: bool,
    minify: bool,
)
    requires
        document_of(data1) == document_of(data2),
    ensures
        site_bytes(template, data1, site_url, card_image_exists, minify) == site_bytes(
            template,
            data2,
            site_url,
            card_image_exists,
            minify,
        ),
{
}

} // verus!
