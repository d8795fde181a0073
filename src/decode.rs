//! Reading the API's documents into records, and writing records back.
use crate::codemap::{entries_view, has_code, CodeMap};
use crate::error::{result_view, DecodeError, DecodeErrorView};
use crate::json::{
    integer_of, keys_distinct, lemma_lookup_found, lemma_lookup_from_none, lemma_member_names_distinct,
    lemma_members_view, lemma_push_distinct, lookup, names_distinct, lookup_from, member, members_view, parse_json,
    parsed_json, Json,
    JsonNumber, JsonView, NumberView,
};
use crate::records::{
    Currencies, ExchangeRate, ExchangeRateView, Features, Usage, UsageData, UsageDataPlan,
    UsageDataPlanView, UsageDataUsage, UsageDataView, UsageView,
};
use vstd::prelude::*;

verus! {

/// The text member `key` of `doc`.
pub open spec fn text_field(doc: JsonView, key: Seq<char>) -> Result<Seq<char>, DecodeErrorView> {
    match member(doc, key) {
        Some(JsonView::Str(s)) => Ok(s),
        Some(_) => Err(DecodeErrorView::InvalidField(key)),
        None => Err(DecodeErrorView::MissingField(key)),
    }
}

/// The boolean member `key` of `doc`.
pub open spec fn bool_field(doc: JsonView, key: Seq<char>) -> Result<bool, DecodeErrorView> {
    match member(doc, key) {
        Some(JsonView::Bool(b)) => Ok(b),
        Some(_) => Err(DecodeErrorView::InvalidField(key)),
        None => Err(DecodeErrorView::MissingField(key)),
    }
}

/// The integer member `key` of `doc`, which must lie in `low..=high`.
pub open spec fn integer_field(doc: JsonView, key: Seq<char>, low: int, high: int) -> Result<
    int,
    DecodeErrorView,
> {
    match member(doc, key) {
        Some(JsonView::Number(n)) => match integer_of(n) {
            Some(v) => if low <= v <= high {
                Ok(v)
            } else {
                Err(DecodeErrorView::InvalidField(key))
            },
            None => Err(DecodeErrorView::InvalidField(key)),
        },
        Some(_) => Err(DecodeErrorView::InvalidField(key)),
        None => Err(DecodeErrorView::MissingField(key)),
    }
}

/// The member `key` of `doc` as an `i64`.
pub open spec fn i64_field(doc: JsonView, key: Seq<char>) -> Result<i64, DecodeErrorView> {
    match integer_field(doc, key, i64::MIN as int, i64::MAX as int) {
        Ok(v) => Ok(v as i64),
        Err(e) => Err(e),
    }
}

/// The member `key` of `doc` as a `u32`.
pub open spec fn u32_field(doc: JsonView, key: Seq<char>) -> Result<u32, DecodeErrorView> {
    match integer_field(doc, key, 0, u32::MAX as int) {
        Ok(v) => Ok(v as u32),
        Err(e) => Err(e),
    }
}

/// The member `key` of `doc`, which must be an object.
pub open spec fn object_field(doc: JsonView, key: Seq<char>) -> Result<JsonView, DecodeErrorView> {
    match member(doc, key) {
        Some(v) => if v is Object {
            Ok(v)
        } else {
            Err(DecodeErrorView::InvalidField(key))
        },
        None => Err(DecodeErrorView::MissingField(key)),
    }
}

/// The members of an object whose values must all be numbers, under
/// distinct names; the first member that holds something else, or repeats a
/// name, is named in the error.
pub open spec fn number_entries(members: Seq<(Seq<char>, JsonView)>) -> Result<
    Seq<(Seq<char>, NumberView)>,
    DecodeErrorView,
>
    decreases members.len(),
{
    if members.len() == 0 {
        Ok(Seq::empty())
    } else {
        match number_entries(members.drop_last()) {
            Ok(prefix) => match members.last().1 {
                JsonView::Number(n) => if lookup(prefix, members.last().0) is Some {
                    Err(DecodeErrorView::DuplicateField(members.last().0))
                } else {
                    Ok(prefix.push((members.last().0, n)))
                },
                _ => Err(DecodeErrorView::InvalidField(members.last().0)),
            },
            Err(e) => Err(e),
        }
    }
}

/// The members of an object whose values must all be text, under distinct
/// names; the first member that holds something else, or repeats a name, is
/// named in the error.
pub open spec fn text_entries(members: Seq<(Seq<char>, JsonView)>) -> Result<
    Seq<(Seq<char>, Seq<char>)>,
    DecodeErrorView,
>
    decreases members.len(),
{
    if members.len() == 0 {
        Ok(Seq::empty())
    } else {
        match text_entries(members.drop_last()) {
            Ok(prefix) => match members.last().1 {
                JsonView::Str(s) => if lookup(prefix, members.last().0) is Some {
                    Err(DecodeErrorView::DuplicateField(members.last().0))
                } else {
                    Ok(prefix.push((members.last().0, s)))
                },
                _ => Err(DecodeErrorView::InvalidField(members.last().0)),
            },
            Err(e) => Err(e),
        }
    }
}

/// Once a prefix of the members fails, the whole list fails the same way.
proof fn lemma_number_entries_prefix_err(members: Seq<(Seq<char>, JsonView)>, k: int)
    requires
        0 <= k <= members.len(),
        number_entries(members.take(k)) is Err,
    ensures
        number_entries(members) == number_entries(members.take(k)),
    decreases members.len(),
{
    if k == members.len() {
        assert(members.take(k) == members);
    } else {
        assert(members.drop_last().take(k) == members.take(k));
        lemma_number_entries_prefix_err(members.drop_last(), k);
    }
}

/// Once a prefix of the members fails, the whole list fails the same way.
proof fn lemma_text_entries_prefix_err(members: Seq<(Seq<char>, JsonView)>, k: int)
    requires
        0 <= k <= members.len(),
        text_entries(members.take(k)) is Err,
    ensures
        text_entries(members) == text_entries(members.take(k)),
    decreases members.len(),
{
    if k == members.len() {
        assert(members.take(k) == members);
    } else {
        assert(members.drop_last().take(k) == members.take(k));
        lemma_text_entries_prefix_err(members.drop_last(), k);
    }
}

/// The member `key` of `doc` as a table of numbers.
pub open spec fn number_table_field(doc: JsonView, key: Seq<char>) -> Result<
    Seq<(Seq<char>, NumberView)>,
    DecodeErrorView,
> {
    match member(doc, key) {
        Some(JsonView::Object(members)) => number_entries(members),
        Some(_) => Err(DecodeErrorView::InvalidField(key)),
        None => Err(DecodeErrorView::MissingField(key)),
    }
}

/// The exchange-rate record that `doc` describes. The members are checked in
/// the order disclaimer, license, timestamp, base, rates; the first that is
/// missing or ill-typed is reported. Other members are ignored.
pub open spec fn exchange_rate_from_json(doc: JsonView) -> Result<ExchangeRateView, DecodeErrorView> {
    let disclaimer = text_field(doc, "disclaimer"@);
    let license = text_field(doc, "license"@);
    let timestamp = i64_field(doc, "timestamp"@);
    let base = text_field(doc, "base"@);
    let rates = number_table_field(doc, "rates"@);
    if !(doc is Object) {
        Err(DecodeErrorView::NotAnObject)
    } else if disclaimer is Err {
        Err(disclaimer->Err_0)
    } else if license is Err {
        Err(license->Err_0)
    } else if timestamp is Err {
        Err(timestamp->Err_0)
    } else if base is Err {
        Err(base->Err_0)
    } else if rates is Err {
        Err(rates->Err_0)
    } else {
        Ok(
            ExchangeRateView {
                disclaimer: disclaimer->Ok_0,
                license: license->Ok_0,
                timestamp: timestamp->Ok_0,
                base: base->Ok_0,
                rates: rates->Ok_0,
            },
        )
    }
}

/// The exchange-rate record that `text` holds as JSON.
pub open spec fn exchange_rate_from_text(text: Seq<char>) -> Result<ExchangeRateView, DecodeErrorView> {
    match parsed_json(text) {
        Some(doc) => exchange_rate_from_json(doc),
        None => Err(DecodeErrorView::Syntax),
    }
}

/// The currency list that `doc` describes: an object from each code to the
/// currency's name.
pub open spec fn currencies_from_json(doc: JsonView) -> Result<
    Seq<(Seq<char>, Seq<char>)>,
    DecodeErrorView,
> {
    match doc {
        JsonView::Object(members) => text_entries(members),
        _ => Err(DecodeErrorView::NotAnObject),
    }
}

/// The currency list that `text` holds as JSON.
pub open spec fn currencies_from_text(text: Seq<char>) -> Result<
    Seq<(Seq<char>, Seq<char>)>,
    DecodeErrorView,
> {
    match parsed_json(text) {
        Some(doc) => currencies_from_json(doc),
        None => Err(DecodeErrorView::Syntax),
    }
}

/// The features that `doc` describes; the time-series flag is read from the
/// member `time-series`.
pub open spec fn features_from_json(doc: JsonView) -> Result<Features, DecodeErrorView> {
    let base = bool_field(doc, "base"@);
    let symbols = bool_field(doc, "symbols"@);
    let experimental = bool_field(doc, "experimental"@);
    let time_series = bool_field(doc, "time-series"@);
    let convert = bool_field(doc, "convert"@);
    if !(doc is Object) {
        Err(DecodeErrorView::NotAnObject)
    } else if base is Err {
        Err(base->Err_0)
    } else if symbols is Err {
        Err(symbols->Err_0)
    } else if experimental is Err {
        Err(experimental->Err_0)
    } else if time_series is Err {
        Err(time_series->Err_0)
    } else if convert is Err {
        Err(convert->Err_0)
    } else {
        Ok(
            Features {
                base: base->Ok_0,
                symbols: symbols->Ok_0,
                experimental: experimental->Ok_0,
                time_series: time_series->Ok_0,
                convert: convert->Ok_0,
            },
        )
    }
}

/// The request counts that `doc` describes.
pub open spec fn usage_counts_from_json(doc: JsonView) -> Result<UsageDataUsage, DecodeErrorView> {
    let requests = i64_field(doc, "requests"@);
    let requests_quota = i64_field(doc, "requests_quota"@);
    let requests_remaining = i64_field(doc, "requests_remaining"@);
    let days_elapsed = i64_field(doc, "days_elapsed"@);
    let days_remaining = i64_field(doc, "days_remaining"@);
    let daily_average = i64_field(doc, "daily_average"@);
    if !(doc is Object) {
        Err(DecodeErrorView::NotAnObject)
    } else if requests is Err {
        Err(requests->Err_0)
    } else if requests_quota is Err {
        Err(requests_quota->Err_0)
    } else if requests_remaining is Err {
        Err(requests_remaining->Err_0)
    } else if days_elapsed is Err {
        Err(days_elapsed->Err_0)
    } else if days_remaining is Err {
        Err(days_remaining->Err_0)
    } else if daily_average is Err {
        Err(daily_average->Err_0)
    } else {
        Ok(
            UsageDataUsage {
                requests: requests->Ok_0,
                requests_quota: requests_quota->Ok_0,
                requests_remaining: requests_remaining->Ok_0,
                days_elapsed: days_elapsed->Ok_0,
                days_remaining: days_remaining->Ok_0,
                daily_average: daily_average->Ok_0,
            },
        )
    }
}

/// The plan that `doc` describes.
pub open spec fn plan_from_json(doc: JsonView) -> Result<UsageDataPlanView, DecodeErrorView> {
    let name = text_field(doc, "name"@);
    let quota = text_field(doc, "quota"@);
    let update_frequency = text_field(doc, "update_frequency"@);
    let features = object_field(doc, "features"@);
    if !(doc is Object) {
        Err(DecodeErrorView::NotAnObject)
    } else if name is Err {
        Err(name->Err_0)
    } else if quota is Err {
        Err(quota->Err_0)
    } else if update_frequency is Err {
        Err(update_frequency->Err_0)
    } else if features is Err {
        Err(features->Err_0)
    } else {
        match features_from_json(features->Ok_0) {
            Ok(f) => Ok(
                UsageDataPlanView {
                    name: name->Ok_0,
                    quota: quota->Ok_0,
                    update_frequency: update_frequency->Ok_0,
                    features: f,
                },
            ),
            Err(e) => Err(e),
        }
    }
}

/// The body of the usage report that `doc` describes.
pub open spec fn usage_data_from_json(doc: JsonView) -> Result<UsageDataView, DecodeErrorView> {
    let app_id = text_field(doc, "app_id"@);
    let status = text_field(doc, "status"@);
    let plan = object_field(doc, "plan"@);
    let usage = object_field(doc, "usage"@);
    if !(doc is Object) {
        Err(DecodeErrorView::NotAnObject)
    } else if app_id is Err {
        Err(app_id->Err_0)
    } else if status is Err {
        Err(status->Err_0)
    } else if plan is Err {
        Err(plan->Err_0)
    } else if plan_from_json(plan->Ok_0) is Err {
        Err(plan_from_json(plan->Ok_0)->Err_0)
    } else if usage is Err {
        Err(usage->Err_0)
    } else if usage_counts_from_json(usage->Ok_0) is Err {
        Err(usage_counts_from_json(usage->Ok_0)->Err_0)
    } else {
        Ok(
            UsageDataView {
                app_id: app_id->Ok_0,
                status: status->Ok_0,
                plan: plan_from_json(plan->Ok_0)->Ok_0,
                usage: usage_counts_from_json(usage->Ok_0)->Ok_0,
            },
        )
    }
}

/// The usage report that `doc` describes.
pub open spec fn usage_from_json(doc: JsonView) -> Result<UsageView, DecodeErrorView> {
    let status = u32_field(doc, "status"@);
    let data = object_field(doc, "data"@);
    if !(doc is Object) {
        Err(DecodeErrorView::NotAnObject)
    } else if status is Err {
        Err(status->Err_0)
    } else if data is Err {
        Err(data->Err_0)
    } else {
        match usage_data_from_json(data->Ok_0) {
            Ok(d) => Ok(UsageView { status: status->Ok_0, data: d }),
            Err(e) => Err(e),
        }
    }
}

/// The usage report that `text` holds as JSON.
pub open spec fn usage_from_text(text: Seq<char>) -> Result<UsageView, DecodeErrorView> {
    match parsed_json(text) {
        Some(doc) => usage_from_json(doc),
        None => Err(DecodeErrorView::Syntax),
    }
}

/// The number that the object `doc` holds under `code`, if it holds one.
pub open spec fn number_at(doc: JsonView, code: Seq<char>) -> Option<NumberView> {
    match member(doc, code) {
        Some(JsonView::Number(n)) => Some(n),
        _ => None,
    }
}

/// The text that the object `doc` holds under `code`, if it holds text.
pub open spec fn text_at(doc: JsonView, code: Seq<char>) -> Option<Seq<char>> {
    match member(doc, code) {
        Some(JsonView::Str(s)) => Some(s),
        _ => None,
    }
}

proof fn lemma_number_entries_in_place(members: Seq<(Seq<char>, JsonView)>)
    requires
        number_entries(members) is Ok,
    ensures
        number_entries(members)->Ok_0.len() == members.len(),
        forall|i: int|
            0 <= i < members.len() ==> (#[trigger] members[i]).1 is Number
                && number_entries(members)->Ok_0[i] == (members[i].0, members[i].1->Number_0),
    decreases members.len(),
{
    if members.len() > 0 {
        let init = members.drop_last();
        assert(number_entries(init) is Ok);
        lemma_number_entries_in_place(init);
        let prefix = number_entries(init)->Ok_0;
        assert(members.last().1 is Number);
        assert(number_entries(members)->Ok_0 == prefix.push(
            (members.last().0, members.last().1->Number_0),
        ));
        assert forall|i: int| 0 <= i < members.len() implies (#[trigger] members[i]).1 is Number
            && number_entries(members)->Ok_0[i] == (members[i].0, members[i].1->Number_0) by {
            if i < members.len() - 1 {
                assert(members[i] == init[i]);
            }
        }
    }
}

proof fn lemma_text_entries_in_place(members: Seq<(Seq<char>, JsonView)>)
    requires
        text_entries(members) is Ok,
    ensures
        text_entries(members)->Ok_0.len() == members.len(),
        forall|i: int|
            0 <= i < members.len() ==> (#[trigger] members[i]).1 is Str
                && text_entries(members)->Ok_0[i] == (members[i].0, members[i].1->Str_0),
    decreases members.len(),
{
    if members.len() > 0 {
        let init = members.drop_last();
        assert(text_entries(init) is Ok);
        lemma_text_entries_in_place(init);
        let prefix = text_entries(init)->Ok_0;
        assert(members.last().1 is Str);
        assert(text_entries(members)->Ok_0 == prefix.push(
            (members.last().0, members.last().1->Str_0),
        ));
        assert forall|i: int| 0 <= i < members.len() implies (#[trigger] members[i]).1 is Str
            && text_entries(members)->Ok_0[i] == (members[i].0, members[i].1->Str_0) by {
            if i < members.len() - 1 {
                assert(members[i] == init[i]);
            }
        }
    }
}

proof fn lemma_lookup_numbers(
    members: Seq<(Seq<char>, JsonView)>,
    entries: Seq<(Seq<char>, NumberView)>,
    code: Seq<char>,
    i: int,
)
    requires
        0 <= i <= members.len(),
        entries.len() == members.len(),
        forall|j: int|
            0 <= j < members.len() ==> (#[trigger] members[j]).1 is Number && entries[j] == (
                members[j].0,
                members[j].1->Number_0,
            ),
    ensures
        lookup_from(entries, code, i) == match lookup_from(members, code, i) {
            Some(JsonView::Number(n)) => Some(n),
            _ => None,
        },
    decreases members.len() - i,
{
    if i < members.len() {
        assert(members[i].1 is Number);
        lemma_lookup_numbers(members, entries, code, i + 1);
    }
}

proof fn lemma_lookup_texts(
    members: Seq<(Seq<char>, JsonView)>,
    entries: Seq<(Seq<char>, Seq<char>)>,
    code: Seq<char>,
    i: int,
)
    requires
        0 <= i <= members.len(),
        entries.len() == members.len(),
        forall|j: int|
            0 <= j < members.len() ==> (#[trigger] members[j]).1 is Str && entries[j] == (
                members[j].0,
                members[j].1->Str_0,
            ),
    ensures
        lookup_from(entries, code, i) == match lookup_from(members, code, i) {
            Some(JsonView::Str(s)) => Some(s),
            _ => None,
        },
    decreases members.len() - i,
{
    if i < members.len() {
        assert(members[i].1 is Str);
        lemma_lookup_texts(members, entries, code, i + 1);
    }
}

/// The rates of a decoded exchange-rate record mirror the `rates` object of
/// the document: one entry per member, and each code looks up the very
/// number that the document holds under it.
pub proof fn lemma_exchange_rate_rates(doc: JsonView, code: Seq<char>)
    requires
        exchange_rate_from_json(doc) is Ok,
    ensures
        member(doc, "rates"@) matches Some(table) && table is Object && {
            let rates = exchange_rate_from_json(doc)->Ok_0.rates;
            &&& rates.len() == table->Object_0.len()
            &&& lookup(rates, code) == number_at(table, code)
        },
{
    let table = member(doc, "rates"@)->Some_0;
    let members = table->Object_0;
    lemma_number_entries_in_place(members);
    lemma_lookup_numbers(members, number_entries(members)->Ok_0, code, 0);
}

/// A decoded currency list mirrors the document: one entry per member, and
/// each code looks up the very name that the document holds under it.
pub proof fn lemma_currencies_mirror_document(doc: JsonView, code: Seq<char>)
    requires
        currencies_from_json(doc) is Ok,
    ensures
        doc is Object,
        currencies_from_json(doc)->Ok_0.len() == doc->Object_0.len(),
        lookup(currencies_from_json(doc)->Ok_0, code) == text_at(doc, code),
{
    let members = doc->Object_0;
    lemma_text_entries_in_place(members);
    lemma_lookup_texts(members, text_entries(members)->Ok_0, code, 0);
}

proof fn lemma_number_entries_no_duplicate(members: Seq<(Seq<char>, JsonView)>)
    requires
        keys_distinct(members),
    ensures
        !(number_entries(members) matches Err(DecodeErrorView::DuplicateField(_))),
    decreases members.len(),
{
    if members.len() > 0 {
        let init = members.drop_last();
        assert forall|i: int, j: int| 0 <= i < j < init.len() implies #[trigger] init[i].0
            != #[trigger] init[j].0 by {
            assert(init[i] == members[i] && init[j] == members[j]);
        }
        lemma_number_entries_no_duplicate(init);
        if number_entries(init) is Ok {
            lemma_number_entries_in_place(init);
            let prefix = number_entries(init)->Ok_0;
            lemma_lookup_from_none(prefix, members.last().0, 0);
            assert forall|j: int| 0 <= j < prefix.len() implies #[trigger] prefix[j].0
                != members.last().0 by {
                assert(init[j] == members[j]);
                assert(members[j].0 != members[members.len() - 1].0);
            }
        }
    }
}

proof fn lemma_text_entries_no_duplicate(members: Seq<(Seq<char>, JsonView)>)
    requires
        keys_distinct(members),
    ensures
        !(text_entries(members) matches Err(DecodeErrorView::DuplicateField(_))),
    decreases members.len(),
{
    if members.len() > 0 {
        let init = members.drop_last();
        assert forall|i: int, j: int| 0 <= i < j < init.len() implies #[trigger] init[i].0
            != #[trigger] init[j].0 by {
            assert(init[i] == members[i] && init[j] == members[j]);
        }
        lemma_text_entries_no_duplicate(init);
        if text_entries(init) is Ok {
            lemma_text_entries_in_place(init);
            let prefix = text_entries(init)->Ok_0;
            lemma_lookup_from_none(prefix, members.last().0, 0);
            assert forall|j: int| 0 <= j < prefix.len() implies #[trigger] prefix[j].0
                != members.last().0 by {
                assert(init[j] == members[j]);
                assert(members[j].0 != members[members.len() - 1].0);
            }
        }
    }
}

/// A document whose objects each name a member once (as every document that
/// serde_json parses) is never rejected for a repeated code.
pub proof fn lemma_distinct_names_no_repeated_code(doc: JsonView)
    requires
        names_distinct(doc),
    ensures
        !(exchange_rate_from_json(doc) matches Err(DecodeErrorView::DuplicateField(_))),
        !(currencies_from_json(doc) matches Err(DecodeErrorView::DuplicateField(_))),
{
    if doc is Object {
        let members = doc->Object_0;
        lemma_text_entries_no_duplicate(members);
        if member(doc, "rates"@) is Some {
            lemma_lookup_found(members, "rates"@, 0);
            let j = choose|j: int|
                0 <= j < members.len() && #[trigger] members[j].1 == member(doc, "rates"@)->Some_0;
            lemma_member_names_distinct(members, j);
            let table = member(doc, "rates"@)->Some_0;
            if table is Object {
                lemma_number_entries_no_duplicate(table->Object_0);
            }
        }
    }
}

/// Text that is not one well-formed JSON document is rejected as malformed,
/// whichever record was asked for; no record is produced.
pub proof fn lemma_malformed_text_rejected(text: Seq<char>)
    requires
        parsed_json(text) is None,
    ensures
        exchange_rate_from_text(text) == Err::<ExchangeRateView, _>(DecodeErrorView::Syntax),
        currencies_from_text(text) == Err::<Seq<(Seq<char>, Seq<char>)>, _>(
            DecodeErrorView::Syntax,
        ),
        usage_from_text(text) == Err::<UsageView, _>(DecodeErrorView::Syntax),
{
}

/// A document that lacks a member an exchange-rate record requires is
/// rejected, with an error that tells the shape mismatch: a member that is
/// missing or ill-typed, or a document that is not an object.
pub proof fn lemma_exchange_rate_missing_member(doc: JsonView, key: Seq<char>)
    requires
        key == "disclaimer"@ || key == "license"@ || key == "timestamp"@ || key == "base"@ || key
            == "rates"@,
        member(doc, key) is None,
    ensures
        exchange_rate_from_json(doc) matches Err(e) && !(e is Syntax),
        doc is Object ==> (exchange_rate_from_json(doc) matches Err(e) && (e is MissingField
            || e is InvalidField)),
{
}

/// A document that lacks a member a usage report requires is rejected, with
/// an error that tells the shape mismatch.
pub proof fn lemma_usage_missing_member(doc: JsonView, key: Seq<char>)
    requires
        key == "status"@ || key == "data"@,
        member(doc, key) is None,
    ensures
        usage_from_json(doc) matches Err(e) && !(e is Syntax),
        doc is Object ==> (usage_from_json(doc) matches Err(e) && (e is MissingField
            || e is InvalidField)),
{
}

/// The time-series flag of a plan's features is the boolean sent under the
/// wire name `time-series`.
pub proof fn lemma_time_series_wire_name(doc: JsonView, flag: bool)
    requires
        member(doc, "time-series"@) == Some(JsonView::Bool(flag)),
        features_from_json(doc) is Ok,
    ensures
        features_from_json(doc)->Ok_0.time_series == flag,
{
}

/// An object that lacks a member the body of a usage report requires is rejected, with an
/// error that names a missing or ill-typed member.
pub proof fn lemma_usage_data_missing_member(doc: JsonView, key: Seq<char>)
    requires
        doc is Object,
        key == "app_id"@ || key == "status"@ || key == "plan"@ || key == "usage"@,
        member(doc, key) is None,
    ensures
        usage_data_from_json(doc) matches Err(e) && (e is MissingField || e is InvalidField),
{
}

/// An object that lacks a member a plan requires is rejected, with an
/// error that names a missing or ill-typed member.
pub proof fn lemma_plan_missing_member(doc: JsonView, key: Seq<char>)
    requires
        doc is Object,
        key == "name"@ || key == "quota"@ || key == "update_frequency"@ || key == "features"@,
        member(doc, key) is None,
    ensures
        plan_from_json(doc) matches Err(e) && (e is MissingField || e is InvalidField),
{
}

/// An object that lacks a member the features of a plan requires is rejected, with an
/// error that names a missing or ill-typed member.
pub proof fn lemma_features_missing_member(doc: JsonView, key: Seq<char>)
    requires
        doc is Object,
        key == "base"@ || key == "symbols"@ || key == "experimental"@ || key == "time-series"@ || key == "convert"@,
        member(doc, key) is None,
    ensures
        features_from_json(doc) matches Err(e) && (e is MissingField || e is InvalidField),
{
}

/// An object that lacks a member the request counts of a usage report requires is rejected, with an
/// error that names a missing or ill-typed member.
pub proof fn lemma_usage_counts_missing_member(doc: JsonView, key: Seq<char>)
    requires
        doc is Object,
        key == "requests"@ || key == "requests_quota"@ || key == "requests_remaining"@ || key == "days_elapsed"@ || key == "days_remaining"@ || key == "daily_average"@,
        member(doc, key) is None,
    ensures
        usage_counts_from_json(doc) matches Err(e) && (e is MissingField || e is InvalidField),
{
}

/// A usage report is rejected with the error of its body, when the body is
/// rejected.
pub proof fn lemma_usage_data_error_propagates(doc: JsonView)
    requires
        object_field(doc, "data"@) matches Ok(data) && usage_data_from_json(data) is Err,
    ensures
        usage_from_json(doc) is Err,
        doc is Object && u32_field(doc, "status"@) is Ok ==> usage_from_json(doc)->Err_0
            == usage_data_from_json(object_field(doc, "data"@)->Ok_0)->Err_0,
{
}

/// The body of a usage report is rejected with the error of its plan or of
/// its request counts, when that part is rejected.
pub proof fn lemma_usage_data_part_error_propagates(doc: JsonView)
    requires
        (object_field(doc, "plan"@) matches Ok(plan) && plan_from_json(plan) is Err) || (
        object_field(doc, "usage"@) matches Ok(counts) && usage_counts_from_json(counts) is Err),
    ensures
        usage_data_from_json(doc) is Err,
{
}

/// A plan is rejected with the error of its features, when they are rejected.
pub proof fn lemma_plan_features_error_propagates(doc: JsonView)
    requires
        object_field(doc, "features"@) matches Ok(features) && features_from_json(features) is Err,
    ensures
        plan_from_json(doc) is Err,
        doc is Object && text_field(doc, "name"@) is Ok && text_field(doc, "quota"@) is Ok
            && text_field(doc, "update_frequency"@) is Ok ==> plan_from_json(doc)->Err_0
            == features_from_json(object_field(doc, "features"@)->Ok_0)->Err_0,
{
}

fn text_member(doc: &Json, key: &str) -> (r: Result<String, DecodeError>)
    ensures
        result_view(r) == text_field(doc@, key@),
{
    match doc.get(key) {
        Some(Json::Str(s)) => Ok(s.clone()),
        Some(_) => Err(DecodeError::InvalidField(key.to_owned())),
        None => Err(DecodeError::MissingField(key.to_owned())),
    }
}

fn bool_member(doc: &Json, key: &str) -> (r: Result<bool, DecodeError>)
    ensures
        result_view(r) == bool_field(doc@, key@),
{
    match doc.get(key) {
        Some(Json::Bool(b)) => Ok(*b),
        Some(_) => Err(DecodeError::InvalidField(key.to_owned())),
        None => Err(DecodeError::MissingField(key.to_owned())),
    }
}

fn i64_member(doc: &Json, key: &str) -> (r: Result<i64, DecodeError>)
    ensures
        result_view(r) == i64_field(doc@, key@),
{
    match doc.get(key) {
        Some(Json::Number(JsonNumber::PosInt(n))) => if *n <= i64::MAX as u64 {
            Ok(*n as i64)
        } else {
            Err(DecodeError::InvalidField(key.to_owned()))
        },
        Some(Json::Number(JsonNumber::NegInt(n))) => Ok(*n),
        Some(_) => Err(DecodeError::InvalidField(key.to_owned())),
        None => Err(DecodeError::MissingField(key.to_owned())),
    }
}

fn u32_member(doc: &Json, key: &str) -> (r: Result<u32, DecodeError>)
    ensures
        result_view(r) == u32_field(doc@, key@),
{
    match doc.get(key) {
        Some(Json::Number(JsonNumber::PosInt(n))) => if *n <= u32::MAX as u64 {
            Ok(*n as u32)
        } else {
            Err(DecodeError::InvalidField(key.to_owned()))
        },
        Some(Json::Number(JsonNumber::NegInt(n))) => if 0 <= *n && *n <= u32::MAX as i64 {
            Ok(*n as u32)
        } else {
            Err(DecodeError::InvalidField(key.to_owned()))
        },
        Some(_) => Err(DecodeError::InvalidField(key.to_owned())),
        None => Err(DecodeError::MissingField(key.to_owned())),
    }
}

fn object_member<'a>(doc: &'a Json, key: &str) -> (r: Result<&'a Json, DecodeError>)
    ensures
        match object_field(doc@, key@) {
            Ok(v) => r is Ok && r->Ok_0@ == v,
            Err(e) => r is Err && r->Err_0@ == e,
        },
{
    match doc.get(key) {
        Some(v) => match v {
            Json::Object(_) => Ok(v),
            _ => Err(DecodeError::InvalidField(key.to_owned())),
        },
        None => Err(DecodeError::MissingField(key.to_owned())),
    }
}

fn number_table(members: &Vec<(String, Json)>) -> (r: Result<Vec<(String, JsonNumber)>, DecodeError>)
    ensures
        r matches Ok(es) ==> keys_distinct(entries_view(es@)),
        match number_entries(members_view(members@)) {
            Ok(es) => r is Ok && entries_view(r->Ok_0@) == es,
            Err(e) => r is Err && r->Err_0@ == e,
        },
{
    let ghost m = members_view(members@);
    proof {
        lemma_members_view(members@);
    }
    let mut out: Vec<(String, JsonNumber)> = Vec::new();
    let mut i: usize = 0;
    assert(m.take(0) == Seq::<(Seq<char>, JsonView)>::empty());
    assert(entries_view(out@) == Seq::<(Seq<char>, NumberView)>::empty());
    while i < members.len()
        invariant
            i <= members.len(),
            m == members_view(members@),
            m.len() == members.len(),
            forall|j: int|
                0 <= j < members.len() ==> #[trigger] m[j] == (members[j].0@, members[j].1@),
            number_entries(m.take(i as int)) == Ok::<_, DecodeErrorView>(entries_view(out@)),
            keys_distinct(entries_view(out@)),
        decreases members.len() - i,
    {
        assert(m.take(i + 1).drop_last() == m.take(i as int));
        match &members[i].1 {
            Json::Number(n) => {
                if has_code(&out, &members[i].0) {
                    proof {
                        lemma_number_entries_prefix_err(m, i + 1);
                    }
                    return Err(DecodeError::DuplicateField(members[i].0.clone()));
                }
                proof {
                    lemma_push_distinct(entries_view(out@), (m[i as int].0, m[i as int].1->Number_0));
                }
                let ghost before = out@;
                out.push((members[i].0.clone(), n.clone()));
                assert(entries_view(out@) == entries_view(before).push((m[i as int].0, m[i as int].1->Number_0)));
            },
            _ => {
                proof {
                    lemma_number_entries_prefix_err(m, i + 1);
                }
                return Err(DecodeError::InvalidField(members[i].0.clone()));
            },
        }
        i = i + 1;
    }
    assert(m.take(i as int) == m);
    Ok(out)
}

fn number_table_member(doc: &Json, key: &str) -> (r: Result<Vec<(String, JsonNumber)>, DecodeError>)
    ensures
        r matches Ok(es) ==> keys_distinct(entries_view(es@)),
        match number_table_field(doc@, key@) {
            Ok(es) => r is Ok && entries_view(r->Ok_0@) == es,
            Err(e) => r is Err && r->Err_0@ == e,
        },
{
    match doc.get(key) {
        Some(Json::Object(members)) => number_table(members),
        Some(_) => Err(DecodeError::InvalidField(key.to_owned())),
        None => Err(DecodeError::MissingField(key.to_owned())),
    }
}

impl ExchangeRate {
    /// Reads an exchange-rate record from a JSON document.
    pub fn from_json(doc: &Json) -> (r: Result<ExchangeRate, DecodeError>)
        ensures
            result_view(r) == exchange_rate_from_json(doc@),
    {
        if !matches!(doc, Json::Object(_)) {
            return Err(DecodeError::NotAnObject);
        }
        let disclaimer = match text_member(doc, "disclaimer") {
            Ok(v) => v,
            Err(e) => return Err(e),
        };
        let license = match text_member(doc, "license") {
            Ok(v) => v,
            Err(e) => return Err(e),
        };
        let timestamp = match i64_member(doc, "timestamp") {
            Ok(v) => v,
            Err(e) => return Err(e),
        };
        let base = match text_member(doc, "base") {
            Ok(v) => v,
            Err(e) => return Err(e),
        };
        let rates = match number_table_member(doc, "rates") {
            Ok(v) => v,
            Err(e) => return Err(e),
        };
        Ok(ExchangeRate { disclaimer, license, timestamp, base, rates: CodeMap::from_entries(rates) })
    }

    /// Reads an exchange-rate record from the text of a JSON document, as the
    /// latest-rates and historical-rates endpoints send it.
    pub fn from_json_text(text: &str) -> (r: Result<ExchangeRate, DecodeError>)
        ensures
            result_view(r) == exchange_rate_from_text(text@),
    {
        match parse_json(text) {
            Ok(doc) => ExchangeRate::from_json(&doc),
            Err(e) => Err(DecodeError::Syntax(e)),
        }
    }
}

fn text_table(members: &Vec<(String, Json)>) -> (r: Result<Vec<(String, String)>, DecodeError>)
    ensures
        r matches Ok(es) ==> keys_distinct(entries_view(es@)),
        match text_entries(members_view(members@)) {
            Ok(es) => r is Ok && entries_view(r->Ok_0@) == es,
            Err(e) => r is Err && r->Err_0@ == e,
        },
{
    let ghost m = members_view(members@);
    proof {
        lemma_members_view(members@);
    }
    let mut out: Vec<(String, String)> = Vec::new();
    let mut i: usize = 0;
    assert(m.take(0) == Seq::<(Seq<char>, JsonView)>::empty());
    assert(entries_view(out@) == Seq::<(Seq<char>, Seq<char>)>::empty());
    while i < members.len()
        invariant
            i <= members.len(),
            m == members_view(members@),
            m.len() == members.len(),
            forall|j: int|
                0 <= j < members.len() ==> #[trigger] m[j] == (members[j].0@, members[j].1@),
            text_entries(m.take(i as int)) == Ok::<_, DecodeErrorView>(entries_view(out@)),
            keys_distinct(entries_view(out@)),
        decreases members.len() - i,
    {
        assert(m.take(i + 1).drop_last() == m.take(i as int));
        match &members[i].1 {
            Json::Str(s) => {
                if has_code(&out, &members[i].0) {
                    proof {
                        lemma_text_entries_prefix_err(m, i + 1);
                    }
                    return Err(DecodeError::DuplicateField(members[i].0.clone()));
                }
                proof {
                    lemma_push_distinct(entries_view(out@), (m[i as int].0, m[i as int].1->Str_0));
                }
                let ghost before = out@;
                out.push((members[i].0.clone(), s.clone()));
                assert(entries_view(out@) == entries_view(before).push((m[i as int].0, m[i as int].1->Str_0)));
            },
            _ => {
                proof {
                    lemma_text_entries_prefix_err(m, i + 1);
                }
                return Err(DecodeError::InvalidField(members[i].0.clone()));
            },
        }
        i = i + 1;
    }
    assert(m.take(i as int) == m);
    Ok(out)
}

impl CodeMap<String> {
    /// Reads a currency list from a JSON document.
    pub fn from_json(doc: &Json) -> (r: Result<Currencies, DecodeError>)
        ensures
            result_view(r) == currencies_from_json(doc@),
    {
        match doc {
            Json::Object(members) => match text_table(members) {
                Ok(entries) => Ok(CodeMap::from_entries(entries)),
                Err(e) => Err(e),
            },
            _ => Err(DecodeError::NotAnObject),
        }
    }

    /// Reads a currency list from the text of a JSON document, as the
    /// currencies endpoint sends it.
    pub fn from_json_text(text: &str) -> (r: Result<Currencies, DecodeError>)
        ensures
            result_view(r) == currencies_from_text(text@),
    {
        match parse_json(text) {
            Ok(doc) => CodeMap::<String>::from_json(&doc),
            Err(e) => Err(DecodeError::Syntax(e)),
        }
    }
}

impl Features {
    /// Reads the features of a plan from a JSON object.
    pub fn from_json(doc: &Json) -> (r: Result<Features, DecodeError>)
        ensures
            result_view(r) == features_from_json(doc@),
    {
        if !matches!(doc, Json::Object(_)) {
            return Err(DecodeError::NotAnObject);
        }
        let base = match bool_member(doc, "base") {
            Ok(v) => v,
            Err(e) => return Err(e),
        };
        let symbols = match bool_member(doc, "symbols") {
            Ok(v) => v,
            Err(e) => return Err(e),
        };
        let experimental = match bool_member(doc, "experimental") {
            Ok(v) => v,
            Err(e) => return Err(e),
        };
        let time_series = match bool_member(doc, "time-series") {
            Ok(v) => v,
            Err(e) => return Err(e),
        };
        let convert = match bool_member(doc, "convert") {
            Ok(v) => v,
            Err(e) => return Err(e),
        };
        Ok(Features { base, symbols, experimental, time_series, convert })
    }
}

impl UsageDataUsage {
    /// Reads the request counts of a usage report from a JSON object.
    pub fn from_json(doc: &Json) -> (r: Result<UsageDataUsage, DecodeError>)
        ensures
            result_view(r) == usage_counts_from_json(doc@),
    {
        if !matches!(doc, Json::Object(_)) {
            return Err(DecodeError::NotAnObject);
        }
        let requests = match i64_member(doc, "requests") {
            Ok(v) => v,
            Err(e) => return Err(e),
        };
        let requests_quota = match i64_member(doc, "requests_quota") {
            Ok(v) => v,
            Err(e) => return Err(e),
        };
        let requests_remaining = match i64_member(doc, "requests_remaining") {
            Ok(v) => v,
            Err(e) => return Err(e),
        };
        let days_elapsed = match i64_member(doc, "days_elapsed") {
            Ok(v) => v,
            Err(e) => return Err(e),
        };
        let days_remaining = match i64_member(doc, "days_remaining") {
            Ok(v) => v,
            Err(e) => return Err(e),
        };
        let daily_average = match i64_member(doc, "daily_average") {
            Ok(v) => v,
            Err(e) => return Err(e),
        };
        Ok(
            UsageDataUsage {
                requests,
                requests_quota,
                requests_remaining,
                days_elapsed,
                days_remaining,
                daily_average,
            },
        )
    }
}

impl UsageDataPlan {
    /// Reads a plan from a JSON object.
    pub fn from_json(doc: &Json) -> (r: Result<UsageDataPlan, DecodeError>)
        ensures
            result_view(r) == plan_from_json(doc@),
    {
        if !matches!(doc, Json::Object(_)) {
            return Err(DecodeError::NotAnObject);
        }
        let name = match text_member(doc, "name") {
            Ok(v) => v,
            Err(e) => return Err(e),
        };
        let quota = match text_member(doc, "quota") {
            Ok(v) => v,
            Err(e) => return Err(e),
        };
        let update_frequency = match text_member(doc, "update_frequency") {
            Ok(v) => v,
            Err(e) => return Err(e),
        };
        let features = match object_member(doc, "features") {
            Ok(v) => v,
            Err(e) => return Err(e),
        };
        let features = match Features::from_json(features) {
            Ok(v) => v,
            Err(e) => return Err(e),
        };
        Ok(UsageDataPlan { name, quota, update_frequency, features })
    }
}

impl UsageData {
    /// Reads the body of a usage report from a JSON object.
    pub fn from_json(doc: &Json) -> (r: Result<UsageData, DecodeError>)
        ensures
            result_view(r) == usage_data_from_json(doc@),
    {
        if !matches!(doc, Json::Object(_)) {
            return Err(DecodeError::NotAnObject);
        }
        let app_id = match text_member(doc, "app_id") {
            Ok(v) => v,
            Err(e) => return Err(e),
        };
        let status = match text_member(doc, "status") {
            Ok(v) => v,
            Err(e) => return Err(e),
        };
        let plan = match object_member(doc, "plan") {
            Ok(v) => v,
            Err(e) => return Err(e),
        };
        let plan = match UsageDataPlan::from_json(plan) {
            Ok(v) => v,
            Err(e) => return Err(e),
        };
        let usage = match object_member(doc, "usage") {
            Ok(v) => v,
            Err(e) => return Err(e),
        };
        let usage = match UsageDataUsage::from_json(usage) {
            Ok(v) => v,
            Err(e) => return Err(e),
        };
        Ok(UsageData { app_id, status, plan, usage })
    }
}

impl Usage {
    /// Reads a usage report from a JSON document.
    pub fn from_json(doc: &Json) -> (r: Result<Usage, DecodeError>)
        ensures
            result_view(r) == usage_from_json(doc@),
    {
        if !matches!(doc, Json::Object(_)) {
            return Err(DecodeError::NotAnObject);
        }
        let status = match u32_member(doc, "status") {
            Ok(v) => v,
            Err(e) => return Err(e),
        };
        let data = match object_member(doc, "data") {
            Ok(v) => v,
            Err(e) => return Err(e),
        };
        let data = match UsageData::from_json(data) {
            Ok(v) => v,
            Err(e) => return Err(e),
        };
        Ok(Usage { status, data })
    }

    /// Reads a usage report from the text of a JSON document, as the usage
    /// endpoint sends it.
    pub fn from_json_text(text: &str) -> (r: Result<Usage, DecodeError>)
        ensures
            result_view(r) == usage_from_text(text@),
    {
        match parse_json(text) {
            Ok(doc) => Usage::from_json(&doc),
            Err(e) => Err(DecodeError::Syntax(e)),
        }
    }
}

} // verus!
