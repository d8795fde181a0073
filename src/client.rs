//! The client of the four endpoints.
use crate::codemap::CodeMap;
use crate::date::{date_text, Date};
use crate::decode::{currencies_from_text, exchange_rate_from_text, usage_from_text};
use crate::error::{DecodeErrorView, Error, TransportError};
use crate::records::{Currencies, ExchangeRate, Usage};
use vstd::prelude::*;

verus! {

/// Where every endpoint of the API lives.
pub const API_BASE: &'static str = "https://openexchangerates.org/api/";

/// The URL of the endpoint at `path` for the application `app_id`.
pub open spec fn endpoint_url(path: Seq<char>, app_id: Seq<char>) -> Seq<char> {
    API_BASE@ + path + "?app_id="@ + app_id
}

/// The path of the latest-rates endpoint.
pub open spec fn latest_path() -> Seq<char> {
    "latest.json"@
}

/// The path of the currency-list endpoint.
pub open spec fn currencies_path() -> Seq<char> {
    "currencies.json"@
}

/// The path of the usage endpoint.
pub open spec fn usage_path() -> Seq<char> {
    "usage.json"@
}

/// The path of the historical-rates endpoint for year, month and day.
pub open spec fn historical_path(date: (int, int, int)) -> Seq<char> {
    "historical/"@ + date_text(date.0, date.1, date.2) + ".json"@
}

/// Whether `r` is what a request makes of the transport's `answer`, when a
/// body reads as `decoded(body)`: the record or decoding error of the body,
/// or the transport's error as it came.
pub open spec fn answer_outcome<T: View>(
    answer: Result<String, TransportError>,
    r: Result<T, Error>,
    decoded: spec_fn(Seq<char>) -> Result<T::V, DecodeErrorView>,
) -> bool {
    match answer {
        Ok(body) => match r {
            Ok(x) => decoded(body@) == Ok::<T::V, DecodeErrorView>(x@),
            Err(Error::Decode(e)) => decoded(body@) == Err::<T::V, DecodeErrorView>(e@),
            Err(_) => false,
        },
        Err(TransportError::Hyper(cause)) => r == Err::<T, Error>(Error::Hyper(cause)),
        Err(TransportError::Io(cause)) => r == Err::<T, Error>(Error::Io(cause)),
    }
}

/// [`answer_outcome`] for an exchange-rate record.
pub open spec fn exchange_rate_outcome(
    answer: Result<String, TransportError>,
    r: Result<ExchangeRate, Error>,
) -> bool {
    answer_outcome(answer, r, |text: Seq<char>| exchange_rate_from_text(text))
}

/// [`answer_outcome`] for a currency list.
pub open spec fn currencies_outcome(
    answer: Result<String, TransportError>,
    r: Result<Currencies, Error>,
) -> bool {
    answer_outcome(answer, r, |text: Seq<char>| currencies_from_text(text))
}

/// [`answer_outcome`] for a usage report.
pub open spec fn usage_outcome(answer: Result<String, TransportError>, r: Result<Usage, Error>) -> bool {
    answer_outcome(answer, r, |text: Seq<char>| usage_from_text(text))
}

impl ExchangeRate {
    /// The exchange-rate record that a transport's answer holds, or the
    /// error of the answer.
    pub fn from_answer(answer: Result<String, TransportError>) -> (r: Result<ExchangeRate, Error>)
        ensures
            exchange_rate_outcome(answer, r),
    {
        match answer {
            Ok(body) => match ExchangeRate::from_json_text(body.as_str()) {
                Ok(x) => Ok(x),
                Err(e) => Err(Error::Decode(e)),
            },
            Err(TransportError::Hyper(cause)) => Err(Error::Hyper(cause)),
            Err(TransportError::Io(cause)) => Err(Error::Io(cause)),
        }
    }
}

impl CodeMap<String> {
    /// The currency list that a transport's answer holds, or the error of
    /// the answer.
    pub fn from_answer(answer: Result<String, TransportError>) -> (r: Result<Currencies, Error>)
        ensures
            currencies_outcome(answer, r),
    {
        match answer {
            Ok(body) => match CodeMap::<String>::from_json_text(body.as_str()) {
                Ok(x) => Ok(x),
                Err(e) => Err(Error::Decode(e)),
            },
            Err(TransportError::Hyper(cause)) => Err(Error::Hyper(cause)),
            Err(TransportError::Io(cause)) => Err(Error::Io(cause)),
        }
    }
}

impl Usage {
    /// The usage report that a transport's answer holds, or the error of the
    /// answer.
    pub fn from_answer(answer: Result<String, TransportError>) -> (r: Result<Usage, Error>)
        ensures
            usage_outcome(answer, r),
    {
        match answer {
            Ok(body) => match Usage::from_json_text(body.as_str()) {
                Ok(x) => Ok(x),
                Err(e) => Err(Error::Decode(e)),
            },
            Err(TransportError::Hyper(cause)) => Err(Error::Hyper(cause)),
            Err(TransportError::Io(cause)) => Err(Error::Io(cause)),
        }
    }
}

/// Something that can perform an HTTP GET: it fetches `url` and hands back
/// the whole response body as text.
pub trait Transport {
    fn get(&mut self, url: &str) -> Result<String, TransportError>;
}

/// A client of the API for one application identifier. Each request method
/// consumes the client and performs exactly one GET through its transport.
pub struct Client<T> {
    app_id: String,
    transport: T,
}

impl<T: Transport> Client<T> {
    /// The application identifier sent with every request.
    pub closed spec fn app_id_view(&self) -> Seq<char> {
        self.app_id@
    }

    /// A client for `app_id` that sends its requests through `transport`.
    pub fn new(app_id: &str, transport: T) -> (r: Client<T>)
        ensures
            r.app_id_view() == app_id@,
    {
        Client { app_id: app_id.to_owned(), transport }
    }

    /// The application identifier sent with every request.
    pub fn app_id(&self) -> (r: &str)
        ensures
            r@ == self.app_id_view(),
    {
        self.app_id.as_str()
    }

    fn url(&self, path: &str) -> (r: String)
        ensures
            r@ == endpoint_url(path@, self.app_id_view()),
    {
        let mut url = String::from_str(API_BASE);
        url.append(path);
        url.append("?app_id=");
        url.append(self.app_id.as_str());
        proof {
            assert(url@ == API_BASE@ + path@ + "?app_id="@ + self.app_id@);
        }
        url
    }

    /// The URL of the latest rates.
    pub fn latest_url(&self) -> (r: String)
        ensures
            r@ == endpoint_url(latest_path(), self.app_id_view()),
    {
        self.url("latest.json")
    }

    /// The URL of the currency list.
    pub fn currencies_url(&self) -> (r: String)
        ensures
            r@ == endpoint_url(currencies_path(), self.app_id_view()),
    {
        self.url("currencies.json")
    }

    /// The URL of the usage report.
    pub fn usage_url(&self) -> (r: String)
        ensures
            r@ == endpoint_url(usage_path(), self.app_id_view()),
    {
        self.url("usage.json")
    }

    /// The URL of the rates of `date`.
    pub fn historical_url(&self, date: Date) -> (r: String)
        ensures
            r@ == endpoint_url(historical_path(date@), self.app_id_view()),
    {
        let mut path = String::from_str("historical/");
        let text = date.to_text();
        path.append(text.as_str());
        path.append(".json");
        self.url(path.as_str())
    }

    fn fetch(self, url: String) -> (r: Result<String, TransportError>) {
        let mut transport = self.transport;
        transport.get(url.as_str())
    }

    /// Fetches the latest rates.
    /// The outcome is what [`ExchangeRate::from_answer`] makes of the transport's answer.
    pub fn latest(self) -> (r: Result<ExchangeRate, Error>)
        ensures
            exists|answer: Result<String, TransportError>|
                exchange_rate_outcome(answer, r),
    {
        let url = self.latest_url();
        let answer = self.fetch(url);
        ExchangeRate::from_answer(answer)
    }

    /// Fetches the list of supported currencies.
    /// The outcome is what [`CodeMap::from_answer`] makes of the transport's answer.
    pub fn currencies(self) -> (r: Result<Currencies, Error>)
        ensures
            exists|answer: Result<String, TransportError>|
                currencies_outcome(answer, r),
    {
        let url = self.currencies_url();
        let answer = self.fetch(url);
        CodeMap::<String>::from_answer(answer)
    }

    /// Fetches the rates of `date`. Whether the API has rates for that day is
    /// left to the API to say.
    /// The outcome is what [`ExchangeRate::from_answer`] makes of the transport's answer.
    pub fn historical(self, date: Date) -> (r: Result<ExchangeRate, Error>)
        ensures
            exists|answer: Result<String, TransportError>|
                exchange_rate_outcome(answer, r),
    {
        let url = self.historical_url(date);
        let answer = self.fetch(url);
        ExchangeRate::from_answer(answer)
    }

    /// Fetches the usage report of the application identifier.
    /// The outcome is what [`Usage::from_answer`] makes of the transport's answer.
    pub fn usage(self) -> (r: Result<Usage, Error>)
        ensures
            exists|answer: Result<String, TransportError>|
                usage_outcome(answer, r),
    {
        let url = self.usage_url();
        let answer = self.fetch(url);
        Usage::from_answer(answer)
    }
}

} // verus!
