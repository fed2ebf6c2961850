//! The client of the trading post's web API.
//!
//! The client sends nothing itself. It names the address to ask for an item,
//! and it judges the reply that the caller got from there.

use vstd::prelude::*;
use vstd::string::StringExecFns;

use super::model::{ItemListings, ItemPrice};

verus! {

/// Where the API lives unless a client is told otherwise.
pub const BASE_URL: &'static str = "https://api.guildwars2.com/v2";

/// Why a request brought no document.
#[derive(Debug, Clone, Copy, PartialEq, Eq, Structural)]
pub enum TransportError {
    /// The request could not be sent, or no response came back.
    Network,
    /// The server answered with this status, which is outside 200 to 299.
    Status(u16),
    /// The body was not a document of the expected shape.
    Decode,
}

/// What came back for one request.
#[derive(Debug, PartialEq)]
pub enum Reply<T> {
    /// The request could not be sent, or no response came back.
    Unreachable,
    /// A response with this status arrived. `body` is the document that its
    /// body decoded to, `None` where it did not decode.
    Answered { status: u16, body: Option<T> },
}

/// The statuses that stand for success.
pub open spec fn is_success(status: u16) -> bool {
    200 <= status <= 299
}

impl<T> Reply<T> {
    /// The document that the reply brought, or the reason why it brought none.
    /// The status is judged before the body: a decoded body under a failing
    /// status is not accepted.
    pub open spec fn outcome(self) -> Result<T, TransportError> {
        match self {
            Reply::Unreachable => Err(TransportError::Network),
            Reply::Answered { status, body } => if !is_success(status) {
                Err(TransportError::Status(status))
            } else {
                match body {
                    Some(document) => Ok(document),
                    None => Err(TransportError::Decode),
                }
            },
        }
    }

    /// The document that the reply brought, or the reason why it brought none.
    pub fn into_result(self) -> (result: Result<T, TransportError>)
        ensures
            result == self.outcome(),
    {
        match self {
            Reply::Unreachable => Err(TransportError::Network),
            Reply::Answered { status, body } => {
                if status < 200 || status > 299 {
                    Err(TransportError::Status(status))
                } else {
                    match body {
                        Some(document) => Ok(document),
                        None => Err(TransportError::Decode),
                    }
                }
            },
        }
    }
}

/// The decimal digit `d` as a character.
pub open spec fn digit_char(d: nat) -> char
    recommends
        d < 10,
{
    seq!['0', '1', '2', '3', '4', '5', '6', '7', '8', '9'][d as int]
}

/// The decimal numeral of `n`, without sign or leading zeros.
pub open spec fn decimal(n: nat) -> Seq<char>
    decreases n,
{
    if n < 10 {
        seq![digit_char(n)]
    } else {
        decimal(n / 10).push(digit_char(n % 10))
    }
}

/// The address of `resource` for one item under `base`.
pub open spec fn commerce_url(base: Seq<char>, resource: Seq<char>, item_id: u32) -> Seq<char> {
    base + "/commerce/"@ + resource + "/"@ + decimal(item_id as nat)
}

fn digit_str(d: u32) -> (digit: &'static str)
    requires
        d < 10,
    ensures
        digit@ == seq![digit_char(d as nat)],
{
    proof {
        reveal_strlit("0");
        reveal_strlit("1");
        reveal_strlit("2");
        reveal_strlit("3");
        reveal_strlit("4");
        reveal_strlit("5");
        reveal_strlit("6");
        reveal_strlit("7");
        reveal_strlit("8");
        reveal_strlit("9");
    }
    let digit = if d == 0 {
        "0"
    } else if d == 1 {
        "1"
    } else if d == 2 {
        "2"
    } else if d == 3 {
        "3"
    } else if d == 4 {
        "4"
    } else if d == 5 {
        "5"
    } else if d == 6 {
        "6"
    } else if d == 7 {
        "7"
    } else if d == 8 {
        "8"
    } else {
        "9"
    };
    assert(digit@ =~= seq![digit_char(d as nat)]);
    digit
}

fn append_decimal(text: &mut String, n: u32)
    ensures
        final(text)@ == old(text)@ + decimal(n as nat),
    decreases n,
{
    if n >= 10 {
        append_decimal(text, n / 10);
    }
    text.append(digit_str(n % 10));
    assert(text@ =~= old(text)@ + decimal(n as nat));
}

/// An API client for the trading post.
pub struct Client {
    base_url: String,
}

impl Client {
    /// The address under which this client expects the API.
    pub closed spec fn base_url(&self) -> Seq<char> {
        self.base_url@
    }

    /// Build a new [`Client`] with a different base URL.
    pub fn new(base_url: String) -> (client: Self)
        ensures
            client.base_url() == base_url@,
    {
        Client { base_url }
    }

    fn url_of(&self, resource: &str, item_id: u32) -> (url: String)
        ensures
            url@ == commerce_url(self.base_url(), resource@, item_id),
    {
        let mut url = self.base_url.clone();
        url.append("/commerce/");
        url.append(resource);
        url.append("/");
        append_decimal(&mut url, item_id);
        url
    }

    /// The address to ask for the current buy and sell listings of an item.
    pub fn listings_url(&self, item_id: u32) -> (url: String)
        ensures
            url@ == commerce_url(self.base_url(), "listings"@, item_id),
    {
        self.url_of("listings", item_id)
    }

    /// The address to ask for the current prices of an item.
    pub fn prices_url(&self, item_id: u32) -> (url: String)
        ensures
            url@ == commerce_url(self.base_url(), "prices"@, item_id),
    {
        self.url_of("prices", item_id)
    }

    /// Current buy and sell listings for an item, from the reply to a request
    /// to [`Client::listings_url`].
    pub fn item_listings(&self, reply: Reply<ItemListings>) -> (result: Result<
        ItemListings,
        TransportError,
    >)
        ensures
            result == reply.outcome(),
    {
        reply.into_result()
    }

    /// Current prices for an item, from the reply to a request to
    /// [`Client::prices_url`].
    ///
    /// For more detailed information about the distribution of list prices,
    /// use [`Client::item_listings`].
    pub fn item_prices(&self, reply: Reply<ItemPrice>) -> (result: Result<ItemPrice, TransportError>)
        ensures
            result == reply.outcome(),
    {
        reply.into_result()
    }
}

impl Default for Client {
    /// Build a ready to use [`Client`].
    fn default() -> (client: Self)
        ensures
            client.base_url() == BASE_URL@,
    {
        Client { base_url: BASE_URL.to_owned() }
    }
}

} // verus!
