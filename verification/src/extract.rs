use crate::markup::{blocks_view, scan_markup, scanned_blocks, BlockView, Markers, RawBlock};
use crate::product::{batch_view, Product, ProductView};
use vstd::prelude::*;
use vstd::string::StringExecFns;

verus! {

/// Why a listing container gives no record.
#[derive(Debug, Clone, Copy, PartialEq, Eq, Structural)]
pub enum ExtractionFault {
    /// No heading anchor, or one without text.
    MissingName,
    /// No price element, or one without text.
    MissingPrice,
    /// The heading anchor has no link attribute, or the address would be empty.
    MissingLink,
}

/// What one page of markup gives.
#[derive(Debug, Clone, PartialEq, Eq)]
pub enum ExtractionResult {
    /// The page holds listing containers; these are the records of those that
    /// could be read, in document order.
    Entries(Vec<Product>),
    /// The page holds no listing container.
    Empty,
}

/// What an `ExtractionResult` holds, as sequences of characters.
pub ghost enum ExtractionView {
    Entries(Seq<ProductView>),
    Empty,
}

impl View for ExtractionResult {
    type V = ExtractionView;

    open spec fn view(&self) -> ExtractionView {
        match self {
            ExtractionResult::Entries(products) => ExtractionView::Entries(batch_view(products@)),
            ExtractionResult::Empty => ExtractionView::Empty,
        }
    }
}

/// The name of a listing: the first text node of its first heading anchor,
/// where there is one and it is not empty.
pub open spec fn name_of(block: BlockView) -> Option<Seq<char>> {
    if block.titles.len() > 0 && block.titles[0].texts.len() > 0
        && block.titles[0].texts[0].len() > 0 {
        Some(block.titles[0].texts[0])
    } else {
        None
    }
}

/// Whether the container has a price element and each of them has text.
pub open spec fn priced(block: BlockView) -> bool {
    block.prices.len() > 0 && forall|i: int|
        0 <= i < block.prices.len() ==> (#[trigger] block.prices[i]).len() > 0
}

/// The reference that the first heading anchor holds.
pub open spec fn href_of(block: BlockView) -> Option<Seq<char>> {
    if block.titles.len() > 0 {
        block.titles[0].href
    } else {
        None
    }
}

/// Whether the first heading anchor holds a reference that, behind the site's
/// base, makes an address.
pub open spec fn linked(block: BlockView, site: Seq<char>) -> bool {
    href_of(block) is Some && link_of(site, href_of(block)->0).len() > 0
}

/// A listing's address: the site's base followed by the scraped reference.
pub open spec fn link_of(site: Seq<char>, href: Seq<char>) -> Seq<char> {
    site + href
}

/// The record of one listing container, or the reason why it gives none.
/// The name is looked for first, then the prices, then the link.
pub open spec fn entry_of(block: BlockView, site: Seq<char>) -> Result<ProductView, ExtractionFault> {
    if name_of(block) is None {
        Err(ExtractionFault::MissingName)
    } else if !priced(block) {
        Err(ExtractionFault::MissingPrice)
    } else if !linked(block, site) {
        Err(ExtractionFault::MissingLink)
    } else {
        Ok(
            ProductView {
                name: name_of(block)->0,
                price: block.prices[0][0],
                old_price: if block.prices.len() > 1 {
                    Some(block.prices[1][0])
                } else {
                    None
                },
                link: link_of(site, href_of(block)->0),
            },
        )
    }
}

/// A well-formed container: its first heading anchor has a text that is not
/// empty and a reference that makes an address, and it holds at least one
/// price element, each of them with text.
pub open spec fn well_formed_block(block: BlockView, site: Seq<char>) -> bool {
    name_of(block) is Some && priced(block) && linked(block, site)
}

/// The records of the containers that give one, in the containers' order.
pub open spec fn products_of(blocks: Seq<BlockView>, site: Seq<char>) -> Seq<ProductView>
    decreases blocks.len(),
{
    if blocks.len() == 0 {
        Seq::empty()
    } else {
        let before = products_of(blocks.drop_last(), site);
        match entry_of(blocks.last(), site) {
            Ok(product) => before.push(product),
            Err(_) => before,
        }
    }
}

/// What a page with these containers gives.
pub open spec fn extraction_of(blocks: Seq<BlockView>, site: Seq<char>) -> ExtractionView {
    if blocks.len() == 0 {
        ExtractionView::Empty
    } else {
        ExtractionView::Entries(products_of(blocks, site))
    }
}

/// A container gives a record if and only if it is well formed, and
/// otherwise the fault of the first thing that is missing.
pub proof fn lemma_record_iff_well_formed(block: BlockView, site: Seq<char>)
    ensures
        entry_of(block, site) is Ok <==> well_formed_block(block, site),
        entry_of(block, site) == Err::<ProductView, ExtractionFault>(ExtractionFault::MissingName)
            <==> name_of(block) is None,
        entry_of(block, site) == Err::<ProductView, ExtractionFault>(ExtractionFault::MissingPrice)
            <==> name_of(block) is Some && !priced(block),
        entry_of(block, site) == Err::<ProductView, ExtractionFault>(ExtractionFault::MissingLink)
            <==> name_of(block) is Some && priced(block) && !linked(block, site),
{
}

/// A page without listing containers gives `Empty`, and no other page does.
pub proof fn lemma_empty_iff_no_block(blocks: Seq<BlockView>, site: Seq<char>)
    ensures
        extraction_of(blocks, site) is Empty <==> blocks.len() == 0,
{
}

/// Whatever the containers hold, a page gives at most one record for each,
/// and every record it gives names its listing and points at it.
pub proof fn lemma_records_are_well_formed(blocks: Seq<BlockView>, site: Seq<char>)
    ensures
        products_of(blocks, site).len() <= blocks.len(),
        forall|k: int|
            0 <= k < products_of(blocks, site).len() ==> (#[trigger] products_of(
                blocks,
                site,
            )[k]).well_formed(),
    decreases blocks.len(),
{
    if blocks.len() > 0 {
        lemma_records_are_well_formed(blocks.drop_last(), site);
    }
}

/// A page whose containers are all well formed gives exactly one record for
/// each, in order: the record of that container, which names its listing,
/// points at it, and has an old price if and only if the container holds a
/// second price element.
pub proof fn lemma_well_formed_blocks_all_kept(blocks: Seq<BlockView>, site: Seq<char>)
    requires
        forall|i: int| 0 <= i < blocks.len() ==> well_formed_block(#[trigger] blocks[i], site),
    ensures
        products_of(blocks, site).len() == blocks.len(),
        forall|i: int|
            0 <= i < blocks.len() ==> {
                let product = #[trigger] products_of(blocks, site)[i];
                &&& entry_of(blocks[i], site) == Ok::<ProductView, ExtractionFault>(product)
                &&& product.name.len() > 0
                &&& product.link.len() > 0
                &&& (product.old_price is Some <==> blocks[i].prices.len() >= 2)
            },
    decreases blocks.len(),
{
    if blocks.len() > 0 {
        let before = blocks.drop_last();
        assert forall|i: int| 0 <= i < before.len() implies well_formed_block(
            #[trigger] before[i],
            site,
        ) by {
            assert(before[i] == blocks[i]);
        }
        lemma_well_formed_blocks_all_kept(before, site);
        assert(well_formed_block(blocks[blocks.len() - 1], site));
        assert forall|i: int| 0 <= i < blocks.len() implies {
            let product = #[trigger] products_of(blocks, site)[i];
            &&& entry_of(blocks[i], site) == Ok::<ProductView, ExtractionFault>(product)
            &&& product.name.len() > 0
            &&& product.link.len() > 0
            &&& (product.old_price is Some <==> blocks[i].prices.len() >= 2)
        } by {
            if i < before.len() {
                assert(before[i] == blocks[i]);
                assert(products_of(blocks, site)[i] == products_of(before, site)[i]);
            }
        }
    }
}

/// Containers are read one by one: the records of two runs of containers, one
/// behind the other, are the records of the first followed by the records of
/// the second. A container that gives no record takes none away.
pub proof fn lemma_containers_are_read_apart(
    first: Seq<BlockView>,
    second: Seq<BlockView>,
    site: Seq<char>,
)
    ensures
        products_of(first + second, site) == products_of(first, site) + products_of(second, site),
    decreases second.len(),
{
    if second.len() == 0 {
        assert(first + second =~= first);
        assert(products_of(first, site) + products_of(second, site) =~= products_of(first, site));
    } else {
        let all = first + second;
        assert(all.drop_last() =~= first + second.drop_last());
        assert(all.last() == second.last());
        lemma_containers_are_read_apart(first, second.drop_last(), site);
        assert(products_of(all, site) =~= products_of(first, site) + products_of(second, site));
    }
}

/// Whether an executable per-container result is the one that `expected` names.
pub open spec fn entry_matches(
    got: Result<Product, ExtractionFault>,
    expected: Result<ProductView, ExtractionFault>,
) -> bool {
    match got {
        Ok(product) => expected == Ok::<ProductView, ExtractionFault>(product@),
        Err(fault) => expected == Err::<ProductView, ExtractionFault>(fault),
    }
}

/// Prefixes the site's base to a scraped reference.
pub fn join_link(site: &str, href: &str) -> (link: String)
    ensures
        link@ == link_of(site@, href@),
{
    let mut link = String::from_str(site);
    link.append(href);
    link
}

/// Whether every price element of the list has text.
fn all_have_text(prices: &Vec<Vec<String>>) -> (ok: bool)
    ensures
        ok == forall|i: int| 0 <= i < prices@.len() ==> (#[trigger] prices@[i])@.len() > 0,
{
    let mut i: usize = 0;
    while i < prices.len()
        invariant
            i <= prices@.len(),
            forall|j: int| 0 <= j < i ==> (#[trigger] prices@[j])@.len() > 0,
        decreases prices@.len() - i,
    {
        if prices[i].len() == 0 {
            return false;
        }
        i += 1;
    }
    true
}

/// Reads one listing container.
pub fn parse_entry(block: &RawBlock, site: &str) -> (entry: Result<Product, ExtractionFault>)
    ensures
        entry_matches(entry, entry_of(block@, site@)),
{
    if block.titles.len() == 0 || block.titles[0].texts.len() == 0
        || block.titles[0].texts[0].as_str().is_empty() {
        return Err(ExtractionFault::MissingName);
    }
    let title = &block.titles[0];
    assert(name_of(block@) == Some(title.texts@[0]@));
    let texts_ok = all_have_text(&block.prices);
    assert(texts_ok && block.prices@.len() > 0 <==> priced(block@)) by {
        assert forall|i: int| 0 <= i < block.prices@.len() implies (block@.prices[i].len() > 0
            <==> block.prices@[i]@.len() > 0) by {}
        if priced(block@) {
            assert forall|i: int| 0 <= i < block.prices@.len() implies (
            #[trigger] block.prices@[i])@.len() > 0 by {
                assert(block@.prices[i].len() > 0);
            }
        }
    }
    if block.prices.len() == 0 || !texts_ok {
        return Err(ExtractionFault::MissingPrice);
    }
    let href = match &title.href {
        Some(h) => h,
        None => {
            return Err(ExtractionFault::MissingLink);
        },
    };
    if site.is_empty() && href.as_str().is_empty() {
        return Err(ExtractionFault::MissingLink);
    }
    assert(block@.prices[0].len() > 0);
    let old_price = if block.prices.len() > 1 {
        assert(block@.prices[1].len() > 0);
        Some(block.prices[1][0].clone())
    } else {
        None
    };
    Ok(
        Product {
            name: title.texts[0].clone(),
            price: block.prices[0][0].clone(),
            old_price,
            link: join_link(site, href.as_str()),
        },
    )
}

/// Reads every listing container on its own: one result for each, in order.
pub fn extract_each(blocks: &Vec<RawBlock>, site: &str) -> (entries: Vec<Result<Product, ExtractionFault>>)
    ensures
        entries@.len() == blocks@.len(),
        forall|i: int|
            0 <= i < blocks@.len() ==> entry_matches(
                #[trigger] entries@[i],
                entry_of(blocks@[i]@, site@),
            ),
{
    let mut entries: Vec<Result<Product, ExtractionFault>> = Vec::new();
    let mut i: usize = 0;
    while i < blocks.len()
        invariant
            i <= blocks@.len(),
            entries@.len() == i,
            forall|j: int|
                0 <= j < i ==> entry_matches(#[trigger] entries@[j], entry_of(blocks@[j]@, site@)),
        decreases blocks@.len() - i,
    {
        entries.push(parse_entry(&blocks[i], site));
        i += 1;
    }
    entries
}

/// Reads the listing containers of one page and keeps the records of those
/// that could be read.
pub fn extract_from_blocks(blocks: &Vec<RawBlock>, site: &str) -> (result: ExtractionResult)
    ensures
        result@ == extraction_of(blocks_view(blocks@), site@),
{
    if blocks.len() == 0 {
        return ExtractionResult::Empty;
    }
    let ghost all = blocks_view(blocks@);
    let mut products: Vec<Product> = Vec::new();
    let mut i: usize = 0;
    assert(all.take(0) =~= Seq::<BlockView>::empty());
    assert(batch_view(products@) =~= Seq::<ProductView>::empty());
    while i < blocks.len()
        invariant
            i <= blocks@.len(),
            all == blocks_view(blocks@),
            batch_view(products@) == products_of(all.take(i as int), site@),
        decreases blocks@.len() - i,
    {
        let ghost before = batch_view(products@);
        let entry = parse_entry(&blocks[i], site);
        proof {
            let upto = all.take(i + 1);
            assert(upto.drop_last() =~= all.take(i as int));
            assert(upto.last() == blocks@[i as int]@);
        }
        match entry {
            Ok(product) => {
                products.push(product);
                assert(batch_view(products@) =~= before.push(product@));
            },
            Err(_) => {},
        }
        i += 1;
    }
    assert(all.take(i as int) =~= all);
    ExtractionResult::Entries(products)
}

/// Finds the listing containers in one page of markup and reads them; `None`
/// where a marker is not a valid selector.
pub fn extract(markup: &str, markers: &Markers, site: &str) -> (result: Option<ExtractionResult>)
    ensures
        match scanned_blocks(markup@, markers@) {
            Some(blocks) => result is Some && result->0@ == extraction_of(blocks, site@),
            None => result is None,
        },
{
    match scan_markup(markup, markers) {
        Some(blocks) => Some(extract_from_blocks(&blocks, site)),
        None => None,
    }
}

} // verus!
