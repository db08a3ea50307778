use listing_crawler::extract::{
    extract, extract_each, extract_from_blocks, join_link, parse_entry, ExtractionFault,
    ExtractionResult,
};
use listing_crawler::markup::{Markers, RawBlock, RawTitle};
use listing_crawler::product::Product;

const SITE: &str = "https://example.com";

fn title(text: &str, href: Option<&str>) -> RawTitle {
    RawTitle { texts: vec![text.to_string()], href: href.map(|h| h.to_string()) }
}

fn block(name: &str, href: &str, prices: &[&str]) -> RawBlock {
    RawBlock {
        titles: vec![title(name, Some(href))],
        prices: prices.iter().map(|p| vec![p.to_string()]).collect(),
    }
}

fn listing(name: &str, href: &str, prices: &[&str]) -> String {
    let mut html = String::from("<div data-component-type=\"s-search-result\">");
    html.push_str(&format!("<h2><a href=\"{}\">{}</a></h2>", href, name));
    for price in prices {
        html.push_str(&format!(
            "<span class=\"a-price\"><span class=\"a-offscreen\">{}</span></span>",
            price
        ));
    }
    html.push_str("</div>");
    html
}

#[test]
fn link_is_base_followed_by_href() {
    assert_eq!(join_link("https://example.com", "/dp/ABC123"), "https://example.com/dp/ABC123");
}

#[test]
fn link_keeps_an_empty_part() {
    assert_eq!(join_link("", "/dp/ABC123"), "/dp/ABC123");
    assert_eq!(join_link("https://example.com", ""), "https://example.com");
}

#[test]
fn markup_without_a_listing_is_empty() {
    let markers = Markers::search_results();
    let pages = [
        "",
        "<p>No results for your search.</p>",
        "<div class=\"s-search-result\"><h2><a href=\"/x\">x</a></h2></div>",
        "<h2><a href=\"/dp/1\">Loose heading</a></h2><span class=\"a-price\"><span class=\"a-offscreen\">$1</span></span>",
    ];
    for page in pages {
        assert_eq!(extract(page, &markers, SITE), Some(ExtractionResult::Empty));
    }
}

#[test]
fn two_prices_give_an_old_price() {
    let page = listing("Raspberry Pi 4", "/dp/ABC123", &["$35.00", "$45.00"]);
    let result = extract(&page, &Markers::search_results(), SITE);
    assert_eq!(
        result,
        Some(ExtractionResult::Entries(vec![Product {
            name: "Raspberry Pi 4".to_string(),
            price: "$35.00".to_string(),
            old_price: Some("$45.00".to_string()),
            link: "https://example.com/dp/ABC123".to_string(),
        }]))
    );
}

#[test]
fn one_price_gives_no_old_price() {
    let page = listing("Pi Zero", "/dp/ZERO", &["$5.00"]);
    let result = extract(&page, &Markers::search_results(), SITE);
    assert_eq!(
        result,
        Some(ExtractionResult::Entries(vec![Product {
            name: "Pi Zero".to_string(),
            price: "$5.00".to_string(),
            old_price: None,
            link: "https://example.com/dp/ZERO".to_string(),
        }]))
    );
}

#[test]
fn a_third_price_is_not_used() {
    let page = listing("Pi 5", "/dp/FIVE", &["$80.00", "$90.00", "$99.00"]);
    match extract(&page, &Markers::search_results(), SITE) {
        Some(ExtractionResult::Entries(products)) => {
            assert_eq!(products.len(), 1);
            assert_eq!(products[0].price, "$80.00");
            assert_eq!(products[0].old_price, Some("$90.00".to_string()));
        }
        other => panic!("unexpected result: {:?}", other),
    }
}

#[test]
fn every_well_formed_listing_gives_one_record_in_order() {
    let names = ["Pi 1", "Pi 2", "Pi 3", "Pi 4", "Pi 5"];
    let mut page = String::from("<div id=\"results\">");
    for (i, name) in names.iter().enumerate() {
        let href = format!("/dp/{}", i);
        if i % 2 == 0 {
            page.push_str(&listing(name, &href, &["$10.00"]));
        } else {
            page.push_str(&listing(name, &href, &["$10.00", "$12.00"]));
        }
    }
    page.push_str("</div>");
    match extract(&page, &Markers::search_results(), SITE) {
        Some(ExtractionResult::Entries(products)) => {
            assert_eq!(products.len(), names.len());
            for (i, product) in products.iter().enumerate() {
                assert_eq!(product.name, names[i]);
                assert!(!product.name.is_empty());
                assert_eq!(product.link, format!("https://example.com/dp/{}", i));
                assert!(product.is_well_formed());
                assert_eq!(product.old_price.is_some(), i % 2 == 1);
            }
        }
        other => panic!("unexpected result: {:?}", other),
    }
}

#[test]
fn a_malformed_listing_is_left_out_and_the_others_stay() {
    let mut page = listing("First", "/dp/1", &["$1.00"]);
    page.push_str("<div data-component-type=\"s-search-result\"><h2><a href=\"/dp/2\">No price</a></h2></div>");
    page.push_str("<div data-component-type=\"s-search-result\"><span class=\"a-price\"><span class=\"a-offscreen\">$3.00</span></span></div>");
    page.push_str("<div data-component-type=\"s-search-result\"><h2><a>No link</a></h2><span class=\"a-price\"><span class=\"a-offscreen\">$4.00</span></span></div>");
    page.push_str(&listing("Last", "/dp/5", &["$5.00", "$6.00"]));
    match extract(&page, &Markers::search_results(), SITE) {
        Some(ExtractionResult::Entries(products)) => {
            assert_eq!(products.len(), 2);
            assert_eq!(products[0].name, "First");
            assert_eq!(products[1].name, "Last");
            assert_eq!(products[1].old_price, Some("$6.00".to_string()));
        }
        other => panic!("unexpected result: {:?}", other),
    }
}

#[test]
fn a_page_of_malformed_listings_is_not_empty() {
    let page = "<div data-component-type=\"s-search-result\"><p>sponsored</p></div>";
    assert_eq!(
        extract(page, &Markers::search_results(), SITE),
        Some(ExtractionResult::Entries(vec![]))
    );
}

#[test]
fn the_name_is_the_first_text_of_the_first_heading_anchor() {
    let page = "<div data-component-type='s-search-result'>\
        <h2><a href=\"/dp/A\"><span>Compute Module</span> 4</a></h2>\
        <h2><a href=\"/dp/B\">Other</a></h2>\
        <span class=\"a-price\"><span class=\"a-offscreen\">$25.00</span></span></div>";
    match extract(page, &Markers::search_results(), SITE) {
        Some(ExtractionResult::Entries(products)) => {
            assert_eq!(products.len(), 1);
            assert_eq!(products[0].name, "Compute Module");
            assert_eq!(products[0].link, "https://example.com/dp/A");
        }
        other => panic!("unexpected result: {:?}", other),
    }
}

#[test]
fn markers_that_are_no_selectors_give_nothing() {
    let page = listing("Pi", "/dp/1", &["$1.00"]);
    let mut markers = Markers::search_results();
    markers.block = "div[".to_string();
    assert_eq!(extract(&page, &markers, SITE), None);
    let mut markers = Markers::search_results();
    markers.title = ">>".to_string();
    assert_eq!(extract(&page, &markers, SITE), None);
    let mut markers = Markers::search_results();
    markers.price = "".to_string();
    assert_eq!(extract(&page, &markers, SITE), None);
}

#[test]
fn other_markers_find_other_listings() {
    let page = "<li class=\"item\"><b><a data-target=\"/p/1\">Board</a></b><i class=\"cost\">9 EUR</i></li>";
    let markers = Markers {
        block: "li.item".to_string(),
        title: "b > a".to_string(),
        price: "i.cost".to_string(),
        link_attribute: "data-target".to_string(),
    };
    assert_eq!(
        extract(page, &markers, "https://shop.test"),
        Some(ExtractionResult::Entries(vec![Product::new(
            "Board".to_string(),
            "9 EUR".to_string(),
            None,
            "https://shop.test/p/1".to_string(),
        )]))
    );
}

#[test]
fn standard_markers_are_the_listing_selectors() {
    let markers = Markers::search_results();
    assert_eq!(markers.block, "div[data-component-type='s-search-result']");
    assert_eq!(markers.title, "h2 > a");
    assert_eq!(markers.price, "span.a-price > span.a-offscreen");
    assert_eq!(markers.link_attribute, "href");
}

#[test]
fn no_blocks_give_empty() {
    assert_eq!(extract_from_blocks(&vec![], SITE), ExtractionResult::Empty);
    assert_eq!(extract_each(&vec![], SITE), vec![]);
}

#[test]
fn missing_name_is_reported() {
    let no_anchor = RawBlock { titles: vec![], prices: vec![vec!["$1".to_string()]] };
    assert_eq!(parse_entry(&no_anchor, SITE), Err(ExtractionFault::MissingName));
    let no_text = RawBlock {
        titles: vec![RawTitle { texts: vec![], href: Some("/dp/1".to_string()) }],
        prices: vec![vec!["$1".to_string()]],
    };
    assert_eq!(parse_entry(&no_text, SITE), Err(ExtractionFault::MissingName));
    let empty_text = block("", "/dp/1", &["$1"]);
    assert_eq!(parse_entry(&empty_text, SITE), Err(ExtractionFault::MissingName));
}

#[test]
fn missing_price_is_reported() {
    let none = block("Pi", "/dp/1", &[]);
    assert_eq!(parse_entry(&none, SITE), Err(ExtractionFault::MissingPrice));
    let textless = RawBlock {
        titles: vec![title("Pi", Some("/dp/1"))],
        prices: vec![vec!["$1".to_string()], vec![]],
    };
    assert_eq!(parse_entry(&textless, SITE), Err(ExtractionFault::MissingPrice));
    let textless_third = RawBlock {
        titles: vec![title("Pi", Some("/dp/1"))],
        prices: vec![vec!["$1".to_string()], vec!["$2".to_string()], vec![]],
    };
    assert_eq!(parse_entry(&textless_third, SITE), Err(ExtractionFault::MissingPrice));
}

#[test]
fn missing_link_is_reported() {
    let no_href = RawBlock {
        titles: vec![title("Pi", None)],
        prices: vec![vec!["$1".to_string()]],
    };
    assert_eq!(parse_entry(&no_href, SITE), Err(ExtractionFault::MissingLink));
    let empty = block("Pi", "", &["$1"]);
    assert_eq!(parse_entry(&empty, ""), Err(ExtractionFault::MissingLink));
    assert_eq!(
        parse_entry(&empty, SITE),
        Ok(Product::new("Pi".to_string(), "$1".to_string(), None, SITE.to_string()))
    );
}

#[test]
fn faults_are_looked_for_in_order() {
    let nothing = RawBlock { titles: vec![], prices: vec![] };
    assert_eq!(parse_entry(&nothing, SITE), Err(ExtractionFault::MissingName));
    let no_price_no_link = RawBlock { titles: vec![title("Pi", None)], prices: vec![] };
    assert_eq!(parse_entry(&no_price_no_link, SITE), Err(ExtractionFault::MissingPrice));
}

#[test]
fn each_block_has_its_own_result() {
    let blocks = vec![
        block("A", "/dp/a", &["$1", "$2"]),
        RawBlock { titles: vec![], prices: vec![] },
        block("C", "/dp/c", &["$3"]),
    ];
    let entries = extract_each(&blocks, SITE);
    assert_eq!(
        entries,
        vec![
            Ok(Product::new(
                "A".to_string(),
                "$1".to_string(),
                Some("$2".to_string()),
                "https://example.com/dp/a".to_string()
            )),
            Err(ExtractionFault::MissingName),
            Ok(Product::new(
                "C".to_string(),
                "$3".to_string(),
                None,
                "https://example.com/dp/c".to_string()
            )),
        ]
    );
    match extract_from_blocks(&blocks, SITE) {
        ExtractionResult::Entries(products) => {
            assert_eq!(products.len(), 2);
            assert_eq!(products[0].name, "A");
            assert_eq!(products[1].name, "C");
        }
        ExtractionResult::Empty => panic!("blocks were given"),
    }
}

#[test]
fn later_text_nodes_are_not_part_of_the_name() {
    let two_texts = RawBlock {
        titles: vec![RawTitle {
            texts: vec!["Pico".to_string(), " W".to_string()],
            href: Some("/dp/pico".to_string()),
        }],
        prices: vec![vec!["$4".to_string(), ".00".to_string()]],
    };
    assert_eq!(
        parse_entry(&two_texts, SITE),
        Ok(Product::new(
            "Pico".to_string(),
            "$4".to_string(),
            None,
            "https://example.com/dp/pico".to_string()
        ))
    );
}

#[test]
fn well_formedness_asks_for_name_and_link() {
    let full = Product::new("a".to_string(), "".to_string(), None, "b".to_string());
    assert!(full.is_well_formed());
    let nameless = Product::new("".to_string(), "$1".to_string(), None, "b".to_string());
    assert!(!nameless.is_well_formed());
    let linkless = Product::new("a".to_string(), "$1".to_string(), None, "".to_string());
    assert!(!linkless.is_well_formed());
}
