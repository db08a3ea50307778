use vstd::prelude::*;
use vstd::string::StringExecFns;

verus! {

/// The status by which the site refuses load.
pub const SERVICE_UNAVAILABLE: u16 = 503;

/// What one request for a page came to, before it is classified.
#[derive(Debug, Clone, PartialEq, Eq)]
pub enum FetchEvent {
    /// The request could not be sent, or no response came.
    SendFailed,
    /// A response came, with its status and its body where the body could be
    /// decoded to text.
    Responded { status: u16, body: Option<String> },
}

/// What a `FetchEvent` holds, as sequences of characters.
pub ghost enum FetchEventView {
    SendFailed,
    Responded { status: u16, body: Option<Seq<char>> },
}

impl View for FetchEvent {
    type V = FetchEventView;

    open spec fn view(&self) -> FetchEventView {
        match self {
            FetchEvent::SendFailed => FetchEventView::SendFailed,
            FetchEvent::Responded { status, body } => FetchEventView::Responded {
                status: *status,
                body: match body {
                    Some(b) => Some(b@),
                    None => None,
                },
            },
        }
    }
}

/// The classified result of one request for a page.
#[derive(Debug, Clone, PartialEq, Eq)]
pub enum PageResult {
    /// The response came and this is its body: the page's markup.
    Markup(String),
    /// The site refuses load for now.
    RateLimited,
    /// The request could not be sent or the body could not be decoded.
    TransportError,
}

/// What a `PageResult` holds, as sequences of characters.
pub ghost enum PageResultView {
    Markup(Seq<char>),
    RateLimited,
    TransportError,
}

impl View for PageResult {
    type V = PageResultView;

    open spec fn view(&self) -> PageResultView {
        match self {
            PageResult::Markup(markup) => PageResultView::Markup(markup@),
            PageResult::RateLimited => PageResultView::RateLimited,
            PageResult::TransportError => PageResultView::TransportError,
        }
    }
}

/// How a request's outcome is classified. The status is looked at before the
/// body: a refusal of load is rate limiting whatever the body holds.
pub open spec fn classification(event: FetchEventView) -> PageResultView {
    match event {
        FetchEventView::SendFailed => PageResultView::TransportError,
        FetchEventView::Responded { status, body } => if status == SERVICE_UNAVAILABLE {
            PageResultView::RateLimited
        } else {
            match body {
                Some(markup) => PageResultView::Markup(markup),
                None => PageResultView::TransportError,
            }
        },
    }
}

/// Whether a response with this status is a refusal of load, so that its body
/// need not be read.
pub fn is_rate_limited(status: u16) -> (limited: bool)
    ensures
        limited == (status == SERVICE_UNAVAILABLE),
{
    status == SERVICE_UNAVAILABLE
}

/// Classifies the outcome of one request.
pub fn classify(event: FetchEvent) -> (result: PageResult)
    ensures
        result@ == classification(event@),
{
    match event {
        FetchEvent::SendFailed => PageResult::TransportError,
        FetchEvent::Responded { status, body } => {
            if is_rate_limited(status) {
                PageResult::RateLimited
            } else {
                match body {
                    Some(markup) => PageResult::Markup(markup),
                    None => PageResult::TransportError,
                }
            }
        },
    }
}

/// The character of one decimal digit.
pub open spec fn digit_char(d: nat) -> char {
    if d == 0 {
        '0'
    } else if d == 1 {
        '1'
    } else if d == 2 {
        '2'
    } else if d == 3 {
        '3'
    } else if d == 4 {
        '4'
    } else if d == 5 {
        '5'
    } else if d == 6 {
        '6'
    } else if d == 7 {
        '7'
    } else if d == 8 {
        '8'
    } else {
        '9'
    }
}

/// A number in decimal, without leading zeros.
pub open spec fn decimal(n: nat) -> Seq<char>
    decreases n,
{
    if n < 10 {
        seq![digit_char(n)]
    } else {
        decimal(n / 10).push(digit_char(n % 10))
    }
}

fn digit_text(d: u64) -> (text: &'static str)
    requires
        d < 10,
    ensures
        text@ == seq![digit_char(d as nat)],
{
    proof {
        reveal_strlit("0");
        reveal_strlit("1");
        reveal_strlit("2");
        reveal_strlit("3");
        reveal_strlit("4");
        reveal_strlit("5");
        reveal_strlit("6");
        reveal_strlit("7");
        reveal_strlit("8");
        reveal_strlit("9");
    }
    let text = if d == 0 {
        "0"
    } else if d == 1 {
        "1"
    } else if d == 2 {
        "2"
    } else if d == 3 {
        "3"
    } else if d == 4 {
        "4"
    } else if d == 5 {
        "5"
    } else if d == 6 {
        "6"
    } else if d == 7 {
        "7"
    } else if d == 8 {
        "8"
    } else {
        "9"
    };
    assert(text@ =~= seq![digit_char(d as nat)]);
    text
}

/// Writes a number in decimal.
pub fn decimal_string(n: u64) -> (text: String)
    ensures
        text@ == decimal(n as nat),
    decreases n,
{
    if n < 10 {
        String::from_str(digit_text(n))
    } else {
        let mut text = decimal_string(n / 10);
        text.append(digit_text(n % 10));
        assert(text@ =~= decimal(n as nat));
        text
    }
}

/// The address of one page of the search results.
pub open spec fn page_address(site: Seq<char>, term: Seq<char>, page: nat) -> Seq<char> {
    site + "/search?query="@ + term + "&page="@ + decimal(page)
}

/// Builds the address of one page of the search results. The term is put in
/// as it is given: it has to be encoded for a query already.
pub fn page_url(site: &str, term: &str, page: u64) -> (url: String)
    ensures
        url@ == page_address(site@, term@, page as nat),
{
    let mut url = String::from_str(site);
    url.append("/search?query=");
    url.append(term);
    url.append("&page=");
    let number = decimal_string(page);
    url.append(number.as_str());
    url
}

} // verus!
