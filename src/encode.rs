//! Writing exchange-rate records back as JSON documents.
use crate::decode::{exchange_rate_from_json, number_entries};
use crate::error::DecodeErrorView;
use crate::json::{
    keys_distinct, lemma_lookup_at, lemma_lookup_from_none, lemma_members_view, members_view, Json, JsonNumber, JsonView, NumberView,
};
use crate::records::{ExchangeRate, ExchangeRateView};
use vstd::prelude::*;

verus! {

/// An integer as a JSON number.
pub open spec fn integer_number(v: i64) -> NumberView {
    if v >= 0 {
        NumberView::PosInt(v as u64)
    } else {
        NumberView::NegInt(v)
    }
}

/// A table of numbers as the members of a JSON object.
pub open spec fn number_members(rates: Seq<(Seq<char>, NumberView)>) -> Seq<(Seq<char>, JsonView)> {
    rates.map_values(|e: (Seq<char>, NumberView)| (e.0, JsonView::Number(e.1)))
}

/// The JSON document of an exchange-rate record, members in the order
/// disclaimer, license, timestamp, base, rates.
pub open spec fn exchange_rate_to_json(x: ExchangeRateView) -> JsonView {
    JsonView::Object(
        seq![
            ("disclaimer"@, JsonView::Str(x.disclaimer)),
            ("license"@, JsonView::Str(x.license)),
            ("timestamp"@, JsonView::Number(integer_number(x.timestamp))),
            ("base"@, JsonView::Str(x.base)),
            ("rates"@, JsonView::Object(number_members(x.rates))),
        ],
    )
}

/// A table of numbers written as object members reads back as itself.
proof fn lemma_number_members_read_back(rates: Seq<(Seq<char>, NumberView)>)
    requires
        keys_distinct(rates),
    ensures
        number_entries(number_members(rates)) == Ok::<_, DecodeErrorView>(rates),
    decreases rates.len(),
{
    let members = number_members(rates);
    if rates.len() > 0 {
        assert(members.drop_last() =~= number_members(rates.drop_last()));
        let init = rates.drop_last();
        assert(keys_distinct(init)) by {
            assert forall|i: int, j: int| 0 <= i < j < init.len() implies #[trigger] init[i].0
                != #[trigger] init[j].0 by {
                assert(init[i] == rates[i] && init[j] == rates[j]);
            }
        }
        lemma_number_members_read_back(init);
        lemma_lookup_from_none(init, rates.last().0, 0);
        assert forall|j: int| 0 <= j < init.len() implies #[trigger] init[j].0 != rates.last().0 by {
            assert(init[j] == rates[j]);
        }
        assert(members.last() == (rates.last().0, JsonView::Number(rates.last().1)));
        assert(rates.drop_last().push(rates.last()) =~= rates);
        assert(number_entries(members) == Ok::<_, DecodeErrorView>(
            rates.drop_last().push(rates.last()),
        ));
    } else {
        assert(rates =~= Seq::empty());
    }
}

/// Round trip: the document written for any exchange-rate record reads back
/// as that same record. So decoding a document, writing the record back and
/// decoding again gives the record of the first decoding. (The codes of a
/// record's rates always differ: see [`crate::codemap::CodeMap::len`].)
pub proof fn lemma_exchange_rate_round_trip(x: ExchangeRateView)
    requires
        keys_distinct(x.rates),
    ensures
        exchange_rate_from_json(exchange_rate_to_json(x)) == Ok::<_, DecodeErrorView>(x),
{
    reveal_strlit("disclaimer");
    reveal_strlit("license");
    reveal_strlit("timestamp");
    reveal_strlit("base");
    reveal_strlit("rates");
    assert("disclaimer"@.len() == 10);
    assert("license"@.len() == 7);
    assert("timestamp"@.len() == 9);
    assert("base"@.len() == 4);
    assert("rates"@.len() == 5);
    let m = exchange_rate_to_json(x)->Object_0;
    lemma_lookup_at(m, "license"@, 0, 1);
    lemma_lookup_at(m, "timestamp"@, 0, 2);
    lemma_lookup_at(m, "base"@, 0, 3);
    lemma_lookup_at(m, "rates"@, 0, 4);
    lemma_number_members_read_back(x.rates);
}

impl ExchangeRate {
    /// The JSON document of this record.
    pub fn to_json(&self) -> (r: Json)
        ensures
            r@ == exchange_rate_to_json(self@),
    {
        let mut rates: Vec<(String, Json)> = Vec::new();
        let mut i: usize = 0;
        let n = self.rates.len();
        while i < n
            invariant
                n == self@.rates.len(),
                i <= n,
                members_view(rates@) == number_members(self@.rates.take(i as int)),
            decreases n - i,
        {
            let (code, rate) = self.rates.entry(i);
            let ghost before = rates@;
            rates.push((code.clone(), Json::Number(rate.clone())));
            proof {
                assert(rates@.drop_last() == before);
                assert(members_view(rates@) == members_view(before).push(
                    (rates@.last().0@, rates@.last().1@),
                ));
                assert(self@.rates.take(i + 1) == self@.rates.take(i as int).push(
                    self@.rates[i as int],
                ));
                assert(number_members(self@.rates.take(i + 1)) =~= number_members(
                    self@.rates.take(i as int),
                ).push((self@.rates[i as int].0, JsonView::Number(self@.rates[i as int].1))));
            }
            i = i + 1;
        }
        let timestamp = if self.timestamp >= 0 {
            JsonNumber::PosInt(self.timestamp as u64)
        } else {
            JsonNumber::NegInt(self.timestamp)
        };
        let members = vec![
            (String::from_str("disclaimer"), Json::Str(self.disclaimer.clone())),
            (String::from_str("license"), Json::Str(self.license.clone())),
            (String::from_str("timestamp"), Json::Number(timestamp)),
            (String::from_str("base"), Json::Str(self.base.clone())),
            (String::from_str("rates"), Json::Object(rates)),
        ];
        proof {
            assert(self@.rates.take(n as int) == self@.rates);
            lemma_members_view(members@);
            assert(members_view(members@) == exchange_rate_to_json(self@)->Object_0);
        }
        Json::Object(members)
    }
}

} // verus!
