//! One observation of the price: the request, what the HTTP exchange came
//! to, and the price that the payload holds.

use vstd::prelude::*;
use vstd::string::*;
use crate::error::{ExtractError, FetchError, PriceError};
use crate::json::{lemma_first_index_after, Json, JsonValue};
use crate::json_text::{json_document, parse_json};

verus! {

/// The name of the member that holds the price.
pub const PRICE_FIELD: &'static str = "price";

/// The quote endpoint with the amount to sell, up to the symbol of the token
/// to buy.
pub const QUOTE_URL_HEAD: &'static str =
    "https://api.0x.org/swap/v1/quote?sellAmount=100000000&buyToken=";

/// What stands between the symbol of the token to buy and that of the token
/// to sell.
pub const QUOTE_URL_LINK: &'static str = "&sellToken=";

/// The request for a quote on selling `sell_token` for `buy_token`: the
/// head, the symbol to buy as `buyToken`, the link, the symbol to sell as
/// `sellToken`. The symbols go in as they are.
pub open spec fn quote_request(sell_token: Seq<char>, buy_token: Seq<char>) -> Seq<char> {
    QUOTE_URL_HEAD@ + buy_token + QUOTE_URL_LINK@ + sell_token
}

/// How one GET ended, as the HTTP client saw it.
#[derive(Debug, PartialEq, Eq)]
pub enum Exchange {
    /// No response arrived: name resolution, connection or timeout failed.
    Unanswered,
    /// A response arrived with this status. `body` is its text, or none where
    /// the text was not read or could not be read whole.
    Answered { status: u16, body: Option<String> },
}

/// The mathematical value of an exchange.
pub enum ExchangeView {
    Unanswered,
    Answered { status: u16, body: Option<Seq<char>> },
}

impl View for Exchange {
    type V = ExchangeView;

    open spec fn view(&self) -> ExchangeView {
        match self {
            Exchange::Unanswered => ExchangeView::Unanswered,
            Exchange::Answered { status, body } => ExchangeView::Answered {
                status: *status,
                body: match body {
                    Some(text) => Some(text@),
                    None => None,
                },
            },
        }
    }
}

/// Whether `status` is an HTTP success status, one of 200 to 299.
pub open spec fn success_status(status: u16) -> bool {
    200 <= status <= 299
}

/// What an exchange comes to: the body of a response with a success status
/// whose text was read; `BadStatus` for any other status, whether or not a
/// body came with it; `Transport` where no response arrived or the body of a
/// successful one could not be read.
pub open spec fn fetched(exchange: ExchangeView) -> Result<Seq<char>, FetchError> {
    match exchange {
        ExchangeView::Unanswered => Err(FetchError::Transport),
        ExchangeView::Answered { status, body } => if !success_status(status) {
            Err(FetchError::BadStatus)
        } else {
            match body {
                Some(text) => Ok(text),
                None => Err(FetchError::Transport),
            }
        },
    }
}

/// The price that a document holds under `field`: the text of that member.
/// `MissingField` where the document is no object, has no such member, or
/// holds something other than a string there.
pub open spec fn price_in(doc: JsonValue, field: Seq<char>) -> Result<Seq<char>, ExtractError> {
    match doc.member(field) {
        Some(JsonValue::Text(price)) => Ok(price),
        _ => Err(ExtractError::MissingField),
    }
}

/// The price that a payload holds under `field`, given the document that the
/// payload parses to, if it parses: `InvalidPayload` where it does not.
pub open spec fn extracted(parsed: Option<JsonValue>, field: Seq<char>) -> Result<
    Seq<char>,
    ExtractError,
> {
    match parsed {
        Some(doc) => price_in(doc, field),
        None => Err(ExtractError::InvalidPayload),
    }
}

/// What one observation comes to: the failure of the exchange where it
/// failed, and else what the extractor finds under [`PRICE_FIELD`] in the
/// document that the body parses to.
pub open spec fn observed_price(exchange: ExchangeView) -> Result<Seq<char>, PriceError> {
    match fetched(exchange) {
        Err(e) => Err(PriceError::Fetch(e)),
        Ok(payload) => match extracted(json_document(payload), PRICE_FIELD@) {
            Ok(price) => Ok(price),
            Err(e) => Err(PriceError::Extract(e)),
        },
    }
}

/// The mathematical value of a result that holds text.
pub open spec fn text_view<E>(result: Result<String, E>) -> Result<Seq<char>, E> {
    match result {
        Ok(text) => Ok(text@),
        Err(e) => Err(e),
    }
}

/// Builds the request for a quote on the pair that the operator entered:
/// the symbol of the token to buy fills the `buyToken` parameter, and the
/// symbol of the token to sell fills `sellToken`.
pub fn quote_url(sell_token: &str, buy_token: &str) -> (url: String)
    ensures
        url@ == quote_request(sell_token@, buy_token@),
{
    let mut url = QUOTE_URL_HEAD.to_owned();
    url.append(buy_token);
    url.append(QUOTE_URL_LINK);
    url.append(sell_token);
    url
}

/// Whether `status` is an HTTP success status.
pub fn is_success(status: u16) -> (success: bool)
    ensures
        success == success_status(status),
{
    200 <= status && status <= 299
}

/// Classifies one exchange: the body of a successful response, or the reason
/// why there is none.
pub fn fetch_result(exchange: Exchange) -> (result: Result<String, FetchError>)
    ensures
        text_view(result) == fetched(exchange@),
{
    match exchange {
        Exchange::Unanswered => Err(FetchError::Transport),
        Exchange::Answered { status, body } => {
            if !is_success(status) {
                Err(FetchError::BadStatus)
            } else {
                match body {
                    Some(text) => Ok(text),
                    None => Err(FetchError::Transport),
                }
            }
        },
    }
}

/// Takes the price out of a parsed document: the text that it holds under
/// `field`, unchanged.
pub fn extract_field(doc: &Json, field: &str) -> (result: Result<String, ExtractError>)
    ensures
        text_view(result) == price_in(doc@, field@),
{
    match doc.get(field) {
        Some(value) => match value.as_str() {
            Some(price) => Ok(price.to_owned()),
            None => Err(ExtractError::MissingField),
        },
        None => Err(ExtractError::MissingField),
    }
}

/// Takes the price out of a payload: parses it as JSON and returns the text
/// that it holds under `field`, unchanged.
pub fn parse_field(response_data: &str, field: &str) -> (result: Result<String, ExtractError>)
    ensures
        text_view(result) == extracted(json_document(response_data@), field@),
{
    match parse_json(response_data) {
        Ok(doc) => extract_field(&doc, field),
        Err(e) => Err(e),
    }
}

/// Takes the price out of a payload: the text that it holds under
/// [`PRICE_FIELD`], unchanged.
pub fn parse_price(response_data: &str) -> (result: Result<String, ExtractError>)
    ensures
        text_view(result) == extracted(json_document(response_data@), PRICE_FIELD@),
{
    parse_field(response_data, PRICE_FIELD)
}

/// One observation of the price: classifies the exchange and, where it
/// brought a payload, takes the price out of it.
pub fn get_price(exchange: Exchange) -> (result: Result<String, PriceError>)
    ensures
        text_view(result) == observed_price(exchange@),
{
    match fetch_result(exchange) {
        Err(e) => Err(PriceError::Fetch(e)),
        Ok(payload) => match parse_price(payload.as_str()) {
            Ok(price) => Ok(price),
            Err(e) => Err(PriceError::Extract(e)),
        },
    }
}

/// The price of an object is the text of its first member of the wanted
/// name, exactly as that member holds it.
pub proof fn lemma_text_member_is_the_price(
    names: Seq<Seq<char>>,
    values: Seq<JsonValue>,
    field: Seq<char>,
    at: int,
    price: Seq<char>,
)
    requires
        0 <= at < names.len(),
        names[at] == field,
        forall|j: int| 0 <= j < at ==> #[trigger] names[j] != field,
        values[at] == JsonValue::Text(price),
    ensures
        price_in(JsonValue::Object { names, values }, field) == Ok::<Seq<char>, ExtractError>(price),
        extracted(Some(JsonValue::Object { names, values }), field) == Ok::<Seq<char>, ExtractError>(
            price,
        ),
{
    lemma_first_index_after(names, field, at);
}

/// A document without a member of the wanted name has no price: the field is
/// missing. So it is for every document that is no object.
pub proof fn lemma_absent_member_is_missing(doc: JsonValue, field: Seq<char>)
    requires
        doc matches JsonValue::Object { names, .. } ==> forall|j: int|
            0 <= j < names.len() ==> #[trigger] names[j] != field,
    ensures
        price_in(doc, field) == Err::<Seq<char>, ExtractError>(ExtractError::MissingField),
        extracted(Some(doc), field) == Err::<Seq<char>, ExtractError>(ExtractError::MissingField),
{
    if let JsonValue::Object { names, values } = doc {
        lemma_first_index_after(names, field, names.len() as int);
    }
}

/// An object whose first member of the wanted name holds anything but a
/// string has no price: the field is missing.
pub proof fn lemma_other_member_is_missing(
    names: Seq<Seq<char>>,
    values: Seq<JsonValue>,
    field: Seq<char>,
    at: int,
)
    requires
        0 <= at < names.len(),
        names[at] == field,
        forall|j: int| 0 <= j < at ==> #[trigger] names[j] != field,
        !(values[at] is Text),
    ensures
        price_in(JsonValue::Object { names, values }, field) == Err::<Seq<char>, ExtractError>(
            ExtractError::MissingField,
        ),
{
    lemma_first_index_after(names, field, at);
}

/// Text that is no JSON has no price: the payload is invalid, whatever the
/// field.
pub proof fn lemma_unparsed_payload_is_invalid(field: Seq<char>)
    ensures
        extracted(None, field) == Err::<Seq<char>, ExtractError>(ExtractError::InvalidPayload),
{
}

} // verus!
