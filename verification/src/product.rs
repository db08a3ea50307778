use vstd::prelude::*;

verus! {

/// One listing entry of a search-result page.
#[derive(Debug, Clone, PartialEq, Eq)]
pub struct Product {
    /// Title text of the listing.
    pub name: String,
    /// Displayed price, kept as the page formats it.
    pub price: String,
    /// Previously displayed price, where the listing shows one.
    pub old_price: Option<String>,
    /// Absolute address of the listing.
    pub link: String,
}

/// What a `Product` holds, as sequences of characters.
pub ghost struct ProductView {
    pub name: Seq<char>,
    pub price: Seq<char>,
    pub old_price: Option<Seq<char>>,
    pub link: Seq<char>,
}

/// The characters of an optional text.
pub open spec fn text_view(text: Option<String>) -> Option<Seq<char>> {
    match text {
        Some(t) => Some(t@),
        None => None,
    }
}

impl View for Product {
    type V = ProductView;

    open spec fn view(&self) -> ProductView {
        ProductView {
            name: self.name@,
            price: self.price@,
            old_price: text_view(self.old_price),
            link: self.link@,
        }
    }
}

impl ProductView {
    /// A record names its listing and points at it.
    pub open spec fn well_formed(self) -> bool {
        self.name.len() > 0 && self.link.len() > 0
    }
}

/// The records of a batch, in order.
pub open spec fn batch_view(batch: Seq<Product>) -> Seq<ProductView> {
    batch.map_values(|p: Product| p@)
}

impl Product {
    /// Builds a record from its four texts.
    pub fn new(name: String, price: String, old_price: Option<String>, link: String) -> (product: Product)
        ensures
            product@ == (ProductView {
                name: name@,
                price: price@,
                old_price: text_view(old_price),
                link: link@,
            }),
    {
        Product { name, price, old_price, link }
    }

    /// Whether the record names its listing and points at it.
    pub fn is_well_formed(&self) -> (ok: bool)
        ensures
            ok == self@.well_formed(),
    {
        !self.name.as_str().is_empty() && !self.link.as_str().is_empty()
    }
}

} // verus!
