//! The records that the API answers with.
use crate::codemap::CodeMap;
use crate::json::{JsonNumber, NumberView};
use vstd::prelude::*;

verus! {

/// Exchange rates against one base currency at one moment.
#[derive(Debug, PartialEq)]
pub struct ExchangeRate {
    pub disclaimer: String,
    pub license: String,
    /// Unix time, in seconds.
    pub timestamp: i64,
    /// The currency that every rate is expressed against.
    pub base: String,
    /// The price of one unit of `base` in each currency, as the document
    /// wrote the number.
    pub rates: CodeMap<JsonNumber>,
}

/// The mathematical value of an [`ExchangeRate`].
pub struct ExchangeRateView {
    pub disclaimer: Seq<char>,
    pub license: Seq<char>,
    pub timestamp: i64,
    pub base: Seq<char>,
    pub rates: Seq<(Seq<char>, NumberView)>,
}

impl View for ExchangeRate {
    type V = ExchangeRateView;

    open spec fn view(&self) -> ExchangeRateView {
        ExchangeRateView {
            disclaimer: self.disclaimer@,
            license: self.license@,
            timestamp: self.timestamp,
            base: self.base@,
            rates: self.rates@,
        }
    }
}

/// The supported currencies: each code with the currency's name.
pub type Currencies = CodeMap<String>;

/// The usage report of an application identifier.
#[derive(Debug, PartialEq)]
pub struct Usage {
    pub status: u32,
    pub data: UsageData,
}

/// The mathematical value of a [`Usage`].
pub struct UsageView {
    pub status: u32,
    pub data: UsageDataView,
}

impl View for Usage {
    type V = UsageView;

    open spec fn view(&self) -> UsageView {
        UsageView { status: self.status, data: self.data@ }
    }
}

/// The body of a usage report.
#[derive(Debug, PartialEq)]
pub struct UsageData {
    pub app_id: String,
    pub status: String,
    pub plan: UsageDataPlan,
    pub usage: UsageDataUsage,
}

/// The mathematical value of a [`UsageData`].
pub struct UsageDataView {
    pub app_id: Seq<char>,
    pub status: Seq<char>,
    pub plan: UsageDataPlanView,
    pub usage: UsageDataUsage,
}

impl View for UsageData {
    type V = UsageDataView;

    open spec fn view(&self) -> UsageDataView {
        UsageDataView {
            app_id: self.app_id@,
            status: self.status@,
            plan: self.plan@,
            usage: self.usage,
        }
    }
}

/// The plan that an application identifier is on.
#[derive(Debug, PartialEq)]
pub struct UsageDataPlan {
    pub name: String,
    pub quota: String,
    pub update_frequency: String,
    pub features: Features,
}

/// The mathematical value of a [`UsageDataPlan`].
pub struct UsageDataPlanView {
    pub name: Seq<char>,
    pub quota: Seq<char>,
    pub update_frequency: Seq<char>,
    pub features: Features,
}

impl View for UsageDataPlan {
    type V = UsageDataPlanView;

    open spec fn view(&self) -> UsageDataPlanView {
        UsageDataPlanView {
            name: self.name@,
            quota: self.quota@,
            update_frequency: self.update_frequency@,
            features: self.features,
        }
    }
}

/// The features that a plan offers.
#[derive(Debug, Clone, Copy, PartialEq, Eq, Structural)]
pub struct Features {
    pub base: bool,
    pub symbols: bool,
    pub experimental: bool,
    /// Sent under the name `time-series`.
    pub time_series: bool,
    pub convert: bool,
}

impl View for Features {
    type V = Features;

    open spec fn view(&self) -> Features {
        *self
    }
}

/// The request counts of an application identifier.
#[derive(Debug, Clone, Copy, PartialEq, Eq, Structural)]
pub struct UsageDataUsage {
    pub requests: i64,
    pub requests_quota: i64,
    pub requests_remaining: i64,
    pub days_elapsed: i64,
    pub days_remaining: i64,
    pub daily_average: i64,
}

impl View for UsageDataUsage {
    type V = UsageDataUsage;

    open spec fn view(&self) -> UsageDataUsage {
        *self
    }
}

} // verus!
