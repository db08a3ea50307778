use scraper::{Html, Selector};
use vstd::prelude::*;
use vstd::string::StringExecFns;

verus! {

/// The markers by which a listing is found in a page, as CSS selectors.
#[derive(Debug, Clone, PartialEq, Eq)]
pub struct Markers {
    /// Selects the container of one listing.
    pub block: String,
    /// Selects, inside a container, the anchor of the heading.
    pub title: String,
    /// Selects, inside a container, the elements that hold a price.
    pub price: String,
    /// The attribute of the anchor that holds the listing's address.
    pub link_attribute: String,
}

/// What `Markers` hold, as sequences of characters.
pub ghost struct MarkersView {
    pub block: Seq<char>,
    pub title: Seq<char>,
    pub price: Seq<char>,
    pub link_attribute: Seq<char>,
}

impl View for Markers {
    type V = MarkersView;

    open spec fn view(&self) -> MarkersView {
        MarkersView {
            block: self.block@,
            title: self.title@,
            price: self.price@,
            link_attribute: self.link_attribute@,
        }
    }
}

impl Markers {
    /// What `search_results` holds.
    pub open spec fn search_results_view() -> MarkersView {
        MarkersView {
            block: "div[data-component-type='s-search-result']"@,
            title: "h2 > a"@,
            price: "span.a-price > span.a-offscreen"@,
            link_attribute: "href"@,
        }
    }

    /// The markers of a search-result page: a listing is a `div` whose
    /// component type says so, its heading anchor is an `a` directly below an
    /// `h2`, and its prices stand in the off-screen spans of the price spans.
    pub fn search_results() -> (markers: Markers)
        ensures
            markers@ == Markers::search_results_view(),
    {
        Markers {
            block: String::from_str("div[data-component-type='s-search-result']"),
            title: String::from_str("h2 > a"),
            price: String::from_str("span.a-price > span.a-offscreen"),
            link_attribute: String::from_str("href"),
        }
    }
}

/// A heading anchor as it stands in the page.
#[derive(Debug, Clone, PartialEq, Eq)]
pub struct RawTitle {
    /// The text nodes below the anchor, in document order.
    pub texts: Vec<String>,
    /// The value of the link attribute, where the anchor has one.
    pub href: Option<String>,
}

/// One listing container as it stands in the page.
#[derive(Debug, Clone, PartialEq, Eq)]
pub struct RawBlock {
    /// The heading anchors inside the container, in document order.
    pub titles: Vec<RawTitle>,
    /// For each price element inside the container, its text nodes.
    pub prices: Vec<Vec<String>>,
}

/// What a `RawTitle` holds, as sequences of characters.
pub ghost struct TitleView {
    pub texts: Seq<Seq<char>>,
    pub href: Option<Seq<char>>,
}

/// What a `RawBlock` holds, as sequences of characters.
pub ghost struct BlockView {
    pub titles: Seq<TitleView>,
    pub prices: Seq<Seq<Seq<char>>>,
}

/// The characters of each text of a list.
pub open spec fn texts_view(texts: Seq<String>) -> Seq<Seq<char>> {
    texts.map_values(|t: String| t@)
}

impl View for RawTitle {
    type V = TitleView;

    open spec fn view(&self) -> TitleView {
        TitleView {
            texts: texts_view(self.texts@),
            href: match self.href {
                Some(h) => Some(h@),
                None => None,
            },
        }
    }
}

impl View for RawBlock {
    type V = BlockView;

    open spec fn view(&self) -> BlockView {
        BlockView {
            titles: self.titles@.map_values(|t: RawTitle| t@),
            prices: self.prices@.map_values(|p: Vec<String>| texts_view(p@)),
        }
    }
}

/// The containers of a list, in order.
pub open spec fn blocks_view(blocks: Seq<RawBlock>) -> Seq<BlockView> {
    blocks.map_values(|b: RawBlock| b@)
}

/// The listing containers that the HTML parser and the selector engine find in
/// `markup` under `markers`, in document order; `None` where one of the three
/// selectors is not valid CSS.
pub uninterp spec fn scanned_blocks(markup: Seq<char>, markers: MarkersView) -> Option<Seq<BlockView>>;

/// Parses `markup` as an HTML fragment with `scraper::Html::parse_fragment` and
/// walks it with `scraper::Selector`: every element that matches the block
/// selector becomes one `RawBlock`, holding the anchors below it that match the
/// title selector (their text nodes and link attribute) and the text nodes of
/// the elements below it that match the price selector. Nothing is proved of
/// the parser or the selector engine; the contract only gives their answer a
/// name, since it is a function of the markup and the markers alone.
#[verifier::external_body]
pub(crate) fn scan_markup(markup: &str, markers: &Markers) -> (found: Option<Vec<RawBlock>>)
    ensures
        match found {
            Some(blocks) => scanned_blocks(markup@, markers@) == Some(blocks_view(blocks@)),
            None => scanned_blocks(markup@, markers@) is None,
        },
{
    let block = Selector::parse(&markers.block).ok()?;
    let title = Selector::parse(&markers.title).ok()?;
    let price = Selector::parse(&markers.price).ok()?;
    let page = Html::parse_fragment(markup);
    Some(page.select(&block).map(|b| RawBlock {
        titles: b.select(&title).map(|a| RawTitle {
            texts: a.text().map(str::to_string).collect(),
            href: a.attr(&markers.link_attribute).map(str::to_string),
        }).collect(),
        prices: b.select(&price).map(|p| p.text().map(str::to_string).collect()).collect(),
    }).collect())
}

} // verus!
