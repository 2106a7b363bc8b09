//! Reading the site's pages: which links a page holds, and which of them leads to the
//! Windows build of a game.

use crate::error::{Error, FetchCause};
use crate::locator::{locator_outcome, resolved_url, Locator};
use crate::text::same_text;
use vstd::prelude::*;

verus! {

/// The body of a page that was fetched with a success status.
#[derive(Debug, Clone)]
pub struct Page {
    body: String,
}

impl View for Page {
    type V = Seq<char>;

    closed spec fn view(&self) -> Seq<char> {
        self.body@
    }
}

/// What the logic reads of one selected element: the value of its link attribute, where it
/// has one, and the text of its descendants.
#[derive(Debug, Clone)]
pub struct Anchor {
    pub href: Option<String>,
    pub text: String,
}

/// An `Anchor` in specifications.
pub struct AnchorView {
    pub href: Option<Seq<char>>,
    pub text: Seq<char>,
}

impl View for Anchor {
    type V = AnchorView;

    open spec fn view(&self) -> AnchorView {
        AnchorView {
            href: match self.href {
                Some(href) => Some(href@),
                None => None,
            },
            text: self.text@,
        }
    }
}

/// The views of a sequence of anchors.
pub open spec fn anchor_views(anchors: Seq<Anchor>) -> Seq<AnchorView> {
    anchors.map_values(|anchor: Anchor| anchor@)
}

/// The selector of the jam links on the jam index page.
pub open spec fn jam_selector() -> Seq<char> {
    "#jamModal .modal-body > .list-group > a"@
}

/// The selector of the game links on a jam page.
pub open spec fn game_selector() -> Seq<char> {
    "#games .single-game > a"@
}

/// The selector of the per-platform download links on a game page.
pub open spec fn download_selector() -> Seq<char> {
    "#download a.dropdown-item"@
}

/// The attribute that holds a link's target.
pub open spec fn link_attribute() -> Seq<char> {
    "href"@
}

/// The elements of `document` that `selector` matches, each as the value of its attribute
/// `attribute` and its text, in the order in which the HTML library yields them. `None`
/// where the selector parser refuses `selector`.
pub uninterp spec fn selected_anchors(
    document: Seq<char>,
    selector: Seq<char>,
    attribute: Seq<char>,
) -> Option<Seq<AnchorView>>;

/// `scraper::Html::select` on the document that `Html::parse_document` builds from
/// `document`, with the selector that `Selector::parse` builds from `selector`. Each element
/// is handed out as `ElementRef::attr(attribute)` and the concatenation of
/// `ElementRef::text()`. The contract only names the outcome: `None` exactly where the
/// selector does not parse.
#[verifier::external_body]
fn select_anchors(document: &str, selector: &str, attribute: &str) -> (found: Option<Vec<Anchor>>)
    ensures
        match found {
            Some(anchors) => selected_anchors(document@, selector@, attribute@) == Some(
                anchor_views(anchors@),
            ),
            None => selected_anchors(document@, selector@, attribute@) is None,
        },
{
    let selector = scraper::Selector::parse(selector).ok()?;
    let page = scraper::Html::parse_document(document);
    let anchors = page.select(&selector).map(|element| Anchor {
        href: element.attr(attribute).map(str::to_owned),
        text: element.text().collect(),
    });
    Some(anchors.collect())
}

/// Whether a character is white space: one with the Unicode property `White_Space`.
pub open spec fn is_white_space(c: char) -> bool {
    let code = c as u32;
    ||| 0x09 <= code <= 0x0d
    ||| code == 0x20
    ||| code == 0x85
    ||| code == 0xa0
    ||| code == 0x1680
    ||| 0x2000 <= code <= 0x200a
    ||| code == 0x2028
    ||| code == 0x2029
    ||| code == 0x202f
    ||| code == 0x205f
    ||| code == 0x3000
}

/// Whether a text holds white space only.
pub open spec fn is_blank(text: Seq<char>) -> bool {
    forall|i: int| 0 <= i < text.len() ==> is_white_space(#[trigger] text[i])
}

/// The number of white-space characters that `text` starts with.
pub open spec fn leading_space(text: Seq<char>) -> nat
    decreases text.len(),
{
    if text.len() > 0 && is_white_space(text[0]) {
        1 + leading_space(text.drop_first())
    } else {
        0
    }
}

/// The number of white-space characters that `text` ends with.
pub open spec fn trailing_space(text: Seq<char>) -> nat
    decreases text.len(),
{
    if text.len() > 0 && is_white_space(text.last()) {
        1 + trailing_space(text.drop_last())
    } else {
        0
    }
}

/// `text` without its leading and trailing white space: the part from its first to its last
/// character that is not white space, and nothing where it has none.
pub open spec fn trimmed(text: Seq<char>) -> Seq<char> {
    if leading_space(text) >= text.len() {
        Seq::empty()
    } else {
        text.subrange(leading_space(text) as int, text.len() - trailing_space(text))
    }
}

/// `str::trim`: the text without its leading and trailing white space, where white space
/// is what has the Unicode property `White_Space`.
#[verifier::external_body]
fn trim(text: &str) -> (inner: &str)
    ensures
        inner@ == trimmed(text@),
{
    text.trim()
}

/// White space before a text that starts with something else is all of its leading space.
pub proof fn lemma_leading_space(before: Seq<char>, rest: Seq<char>)
    requires
        is_blank(before),
        rest.len() > 0,
        !is_white_space(rest[0]),
    ensures
        leading_space(before + rest) == before.len(),
    decreases before.len(),
{
    if before.len() > 0 {
        assert(before[0] == (before + rest)[0]);
        assert((before + rest).drop_first() =~= before.drop_first() + rest);
        assert forall|i: int| 0 <= i < before.drop_first().len() implies is_white_space(
            #[trigger] before.drop_first()[i],
        ) by {
            assert(before.drop_first()[i] == before[i + 1]);
        }
        lemma_leading_space(before.drop_first(), rest);
    } else {
        assert(before + rest =~= rest);
    }
}

/// White space after a text that ends with something else is all of its trailing space.
pub proof fn lemma_trailing_space(rest: Seq<char>, after: Seq<char>)
    requires
        is_blank(after),
        rest.len() > 0,
        !is_white_space(rest.last()),
    ensures
        trailing_space(rest + after) == after.len(),
    decreases after.len(),
{
    if after.len() > 0 {
        assert(after.last() == (rest + after).last());
        assert((rest + after).drop_last() =~= rest + after.drop_last());
        assert forall|i: int| 0 <= i < after.drop_last().len() implies is_white_space(
            #[trigger] after.drop_last()[i],
        ) by {
            assert(after.drop_last()[i] == after[i]);
        }
        lemma_trailing_space(rest, after.drop_last());
    } else {
        assert(rest + after =~= rest);
    }
}

/// Trimming takes away the white space around a label, and nothing of a label that starts
/// and ends with something else.
pub proof fn lemma_trimmed_label(before: Seq<char>, label: Seq<char>, after: Seq<char>)
    requires
        is_blank(before),
        is_blank(after),
        label.len() > 0,
        !is_white_space(label[0]),
        !is_white_space(label.last()),
    ensures
        trimmed(before + label + after) == label,
{
    let text = before + label + after;
    assert(text =~= before + (label + after));
    lemma_leading_space(before, label + after);
    lemma_trailing_space(before + label, after);
    assert(text.subrange(before.len() as int, text.len() - after.len()) =~= label);
}

/// A text of white space only is trimmed to nothing.
pub proof fn lemma_trimmed_blank(text: Seq<char>)
    requires
        is_blank(text),
    ensures
        trimmed(text) == Seq::<char>::empty(),
    decreases text.len(),
{
    lemma_blank_leads(text);
}

/// A text of white space only is all leading space.
proof fn lemma_blank_leads(text: Seq<char>)
    requires
        is_blank(text),
    ensures
        leading_space(text) == text.len(),
    decreases text.len(),
{
    if text.len() > 0 {
        assert forall|i: int| 0 <= i < text.drop_first().len() implies is_white_space(
            #[trigger] text.drop_first()[i],
        ) by {
            assert(text.drop_first()[i] == text[i + 1]);
        }
        lemma_blank_leads(text.drop_first());
    }
}

/// Whether a status code is in the success range.
pub open spec fn is_success(status: u16) -> bool {
    200 <= status <= 299
}

/// Accepts a response by its status: `Ok` for a success status, else `FetchFailed` with the
/// status as its cause.
pub fn check_status(status: u16) -> (result: Result<(), Error>)
    ensures
        match result {
            Ok(()) => is_success(status),
            Err(Error::FetchFailed(FetchCause::HttpStatus { code })) => !is_success(status) && code
                == status,
            Err(_) => false,
        },
{
    if 200 <= status && status <= 299 {
        Ok(())
    } else {
        Err(Error::FetchFailed(FetchCause::HttpStatus { code: status }))
    }
}

/// The page of a response: its body where the status is a success, else `FetchFailed` with
/// the status as its cause.
pub fn get_html(status: u16, body: String) -> (result: Result<Page, Error>)
    ensures
        match result {
            Ok(page) => is_success(status) && page@ == body@,
            Err(Error::FetchFailed(FetchCause::HttpStatus { code })) => !is_success(status) && code
                == status,
            Err(_) => false,
        },
{
    match check_status(status) {
        Ok(()) => Ok(Page { body }),
        Err(error) => Err(error),
    }
}

impl Page {
    /// The text of the page.
    pub fn body(&self) -> (body: &str)
        ensures
            body@ == self@,
    {
        self.body.as_str()
    }
}

/// What `get_href` returns for an anchor.
pub open spec fn href_outcome(anchor: AnchorView, result: Result<Locator, Error>) -> bool {
    match anchor.href {
        None => result matches Err(Error::MissingLinkAttribute),
        Some(href) => locator_outcome(resolved_url(href), result),
    }
}

/// The target of a link element: the value of its link attribute where that is an absolute
/// address, else that value resolved against the site's base address. It fails with
/// `MissingLinkAttribute` where the element has no link attribute, and with `InvalidLocator`
/// where the attribute's value is neither.
pub fn get_href(anchor: &Anchor) -> (result: Result<Locator, Error>)
    ensures
        href_outcome(anchor@, result),
{
    match &anchor.href {
        None => Err(Error::MissingLinkAttribute),
        Some(href) => Locator::resolve(href.as_str()),
    }
}

/// Whether an anchor has a link attribute that holds an absolute or base-relative address.
pub open spec fn has_target(anchor: AnchorView) -> bool {
    anchor.href is Some && resolved_url(anchor.href->0) is Some
}

/// What `extract_links` returns for a sequence of anchors: the target of every anchor, in
/// order, or the failure of the first anchor that has none.
pub open spec fn links_outcome(
    anchors: Seq<AnchorView>,
    result: Result<Vec<Locator>, Error>,
) -> bool {
    match result {
        Ok(links) => {
            &&& links@.len() == anchors.len()
            &&& forall|i: int|
                0 <= i < anchors.len() ==> #[trigger] has_target(anchors[i]) && resolved_url(
                    anchors[i].href->0,
                ) == Some(links@[i]@)
        },
        Err(error) => exists|k: int|
            {
                &&& 0 <= k < anchors.len()
                &&& forall|i: int| 0 <= i < k ==> #[trigger] has_target(anchors[i])
                &&& !has_target(#[trigger] anchors[k])
                &&& match error {
                    Error::MissingLinkAttribute => anchors[k].href is None,
                    Error::InvalidLocator(_) => anchors[k].href is Some,
                    _ => false,
                }
            },
    }
}

/// The targets of the given link elements, in order. It fails as `get_href` does on the
/// first element that has no valid target.
pub fn extract_links(anchors: &Vec<Anchor>) -> (result: Result<Vec<Locator>, Error>)
    ensures
        links_outcome(anchor_views(anchors@), result),
{
    let ghost views = anchor_views(anchors@);
    let mut links: Vec<Locator> = Vec::new();
    let mut i: usize = 0;
    while i < anchors.len()
        invariant
            i <= anchors.len(),
            views == anchor_views(anchors@),
            links@.len() == i,
            forall|j: int|
                0 <= j < i ==> #[trigger] has_target(views[j]) && resolved_url(views[j].href->0)
                    == Some(links@[j]@),
        decreases anchors.len() - i,
    {
        assert(views[i as int] == anchors@[i as int]@);
        match get_href(&anchors[i]) {
            Ok(link) => {
                links.push(link);
            },
            Err(error) => {
                assert(!has_target(views[i as int]));
                return Err(error);
            },
        }
        i = i + 1;
    }
    Ok(links)
}

/// What a page's selection is as a list of links: `InvalidSelector` where the selector is
/// refused, else the links of the selected elements.
pub open spec fn selection_outcome(
    selection: Option<Seq<AnchorView>>,
    result: Result<Vec<Locator>, Error>,
) -> bool {
    match selection {
        None => result matches Err(Error::InvalidSelector),
        Some(anchors) => links_outcome(anchors, result),
    }
}

/// What `get_jams` returns for the jam index page with the given selection.
pub open spec fn jams_outcome(
    selection: Option<Seq<AnchorView>>,
    result: Result<Vec<Locator>, Error>,
) -> bool {
    match selection {
        Some(anchors) if anchors.len() == 0 => result matches Err(Error::NoJamsFound),
        _ => selection_outcome(selection, result),
    }
}

/// The jams that the jam index page lists: the targets of the links in the jam dialog's
/// list, in order. An empty list is the failure `NoJamsFound`; a link without a valid target
/// fails as in `extract_links`.
pub fn get_jams(page: &Page) -> (result: Result<Vec<Locator>, Error>)
    ensures
        jams_outcome(selected_anchors(page@, jam_selector(), link_attribute()), result),
{
    match select_anchors(page.body(), "#jamModal .modal-body > .list-group > a", "href") {
        None => Err(Error::InvalidSelector),
        Some(anchors) => {
            if anchors.len() == 0 {
                Err(Error::NoJamsFound)
            } else {
                extract_links(&anchors)
            }
        },
    }
}

/// The games that a jam page lists: the targets of the links in the games grid, in order.
/// An empty list is a valid result; a link without a valid target fails as in
/// `extract_links`.
pub fn get_games(page: &Page) -> (result: Result<Vec<Locator>, Error>)
    ensures
        selection_outcome(selected_anchors(page@, game_selector(), link_attribute()), result),
{
    match select_anchors(page.body(), "#games .single-game > a", "href") {
        None => Err(Error::InvalidSelector),
        Some(anchors) => extract_links(&anchors),
    }
}

/// The label of the download link that leads to the Windows build.
pub open spec fn windows_label() -> Seq<char> {
    "Windows"@
}

/// Whether an anchor is labelled as the Windows build: its text, trimmed, is `Windows`.
pub open spec fn is_windows(anchor: AnchorView) -> bool {
    trimmed(anchor.text) == windows_label()
}

/// An anchor whose text is `Windows` with white space around it is labelled as the Windows
/// build, whatever the white space is.
pub proof fn lemma_padded_label_is_windows(anchor: AnchorView, before: Seq<char>, after: Seq<char>)
    requires
        is_blank(before),
        is_blank(after),
        anchor.text == before + windows_label() + after,
    ensures
        is_windows(anchor),
{
    reveal_strlit("Windows");
    lemma_trimmed_label(before, windows_label(), after);
}

/// An anchor whose text, between its first and last character that is not white space,
/// is anything but `Windows` is not labelled as the Windows build.
pub proof fn lemma_other_label_is_not_windows(
    anchor: AnchorView,
    before: Seq<char>,
    label: Seq<char>,
    after: Seq<char>,
)
    requires
        is_blank(before),
        is_blank(after),
        label.len() > 0 ==> !is_white_space(label[0]) && !is_white_space(label.last()),
        anchor.text == before + label + after,
        label != windows_label(),
    ensures
        !is_windows(anchor),
{
    reveal_strlit("Windows");
    if label.len() > 0 {
        lemma_trimmed_label(before, label, after);
    } else {
        assert(before + label + after =~= before + after);
        assert forall|i: int| 0 <= i < (before + after).len() implies is_white_space(
            #[trigger] (before + after)[i],
        ) by {
            if i < before.len() {
                assert((before + after)[i] == before[i]);
            } else {
                assert((before + after)[i] == after[i - before.len()]);
            }
        }
        lemma_trimmed_blank(before + after);
        assert(windows_label().len() == 7);
    }
}

/// Whether an element is the download link of the Windows build.
pub fn is_windows_link(anchor: &Anchor) -> (windows: bool)
    ensures
        windows == is_windows(anchor@),
{
    same_text(trim(anchor.text.as_str()), "Windows")
}

/// What `windows_download` returns for the download links of a game page: nothing where no
/// link is labelled `Windows`, else the target of the first that is, or the failure of
/// reading that target.
pub open spec fn download_outcome(
    anchors: Seq<AnchorView>,
    result: Result<Option<Locator>, Error>,
) -> bool {
    if forall|i: int| 0 <= i < anchors.len() ==> !#[trigger] is_windows(anchors[i]) {
        result matches Ok(None)
    } else {
        exists|k: int|
            {
                &&& 0 <= k < anchors.len()
                &&& forall|i: int| 0 <= i < k ==> !#[trigger] is_windows(anchors[i])
                &&& #[trigger] is_windows(anchors[k])
                &&& match result {
                    Ok(Some(link)) => href_outcome(anchors[k], Ok(link)),
                    Ok(None) => false,
                    Err(error) => href_outcome(anchors[k], Err(error)),
                }
            }
    }
}

/// The target of the first of the given download links that is labelled `Windows`, if any.
pub fn windows_download(anchors: &Vec<Anchor>) -> (result: Result<Option<Locator>, Error>)
    ensures
        download_outcome(anchor_views(anchors@), result),
{
    let ghost views = anchor_views(anchors@);
    let mut i: usize = 0;
    while i < anchors.len()
        invariant
            i <= anchors.len(),
            views == anchor_views(anchors@),
            forall|j: int| 0 <= j < i ==> !#[trigger] is_windows(views[j]),
        decreases anchors.len() - i,
    {
        assert(views[i as int] == anchors@[i as int]@);
        if is_windows_link(&anchors[i]) {
            return match get_href(&anchors[i]) {
                Ok(link) => Ok(Some(link)),
                Err(error) => Err(error),
            };
        }
        i = i + 1;
    }
    Ok(None)
}

/// What `get_windows_download_url` returns for a game page with the given selection.
pub open spec fn windows_outcome(
    selection: Option<Seq<AnchorView>>,
    result: Result<Option<Locator>, Error>,
) -> bool {
    match selection {
        None => result matches Err(Error::InvalidSelector),
        Some(anchors) => download_outcome(anchors, result),
    }
}

/// The address of a game's Windows build: the target of the first download link whose text,
/// trimmed, is `Windows`. A page without such a link gives `Ok(None)`: a game need not have
/// a Windows build.
pub fn get_windows_download_url(page: &Page) -> (result: Result<Option<Locator>, Error>)
    ensures
        windows_outcome(selected_anchors(page@, download_selector(), link_attribute()), result),
{
    match select_anchors(page.body(), "#download a.dropdown-item", "href") {
        None => Err(Error::InvalidSelector),
        Some(anchors) => windows_download(&anchors),
    }
}

} // verus!
