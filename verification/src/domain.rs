//! Currency pairs and exchange identities.

use vstd::prelude::*;
use vstd::string::*;

verus! {

/// A supported trading pair.
#[derive(Debug, Copy, Clone, PartialEq, Eq, PartialOrd, Ord, Hash, Structural)]
pub enum CurrencyPair {
    XRPBTC,
}

/// A source of market data.
#[derive(Debug, Copy, Clone, PartialEq, Eq, Hash, Structural)]
pub enum Exchange {
    BtcMarkets,
    Bitfinex,
}

/// A code that names no supported currency pair.
#[derive(Debug, Copy, Clone, PartialEq, Eq, Structural)]
pub struct UnknownPair;

/// Whether two strings hold the same characters.
pub fn same_text(a: &str, b: &str) -> (same: bool)
    ensures
        same == (a@ == b@),
{
    a.to_owned() == b.to_owned()
}

/// The place of the last comma in a text, or -1 where it has none.
pub open spec fn last_comma(text: Seq<char>) -> int
    decreases text.len(),
{
    if text.len() == 0 {
        -1
    } else if text.last() == ',' {
        text.len() - 1
    } else {
        last_comma(text.drop_last())
    }
}

/// The fields of a comma-separated text, in order: what stands between its
/// commas, before the first and after the last. A text without a comma is
/// one field, an empty text too.
pub open spec fn fields_of(text: Seq<char>) -> Seq<Seq<char>>
    decreases text.len(),
{
    let at = last_comma(text);
    if 0 <= at < text.len() {
        fields_of(text.subrange(0, at)).push(text.subrange(at + 1, text.len() as int))
    } else {
        seq![text]
    }
}

/// Whether the pairs stand in rising order, none of them twice.
pub open spec fn ascending(pairs: Seq<CurrencyPair>) -> bool {
    forall|i: int, j: int| 0 <= i < j < pairs.len() ==> pairs[i].rank() < pairs[j].rank()
}

/// Whether one of the fields names the pair.
pub open spec fn names(fields: Seq<Seq<char>>, pair: CurrencyPair) -> bool {
    exists|k: int| 0 <= k < fields.len() && CurrencyPair::spec_map(#[trigger] fields[k]) == Some(pair)
}

/// Whether one of the fields names no pair.
pub open spec fn has_unknown(fields: Seq<Seq<char>>) -> bool {
    exists|k: int| 0 <= k < fields.len() && CurrencyPair::spec_map(#[trigger] fields[k]) is None
}

/// The last comma of a text is a comma, and none follows it.
pub proof fn lemma_last_comma(text: Seq<char>)
    ensures
        -1 <= last_comma(text) < text.len(),
        last_comma(text) >= 0 ==> text[last_comma(text)] == ',',
        forall|k: int| last_comma(text) < k < text.len() ==> text[k] != ',',
    decreases text.len(),
{
    if text.len() > 0 && text.last() != ',' {
        let front = text.drop_last();
        lemma_last_comma(front);
        assert forall|k: int| last_comma(text) < k < text.len() implies text[k] != ',' by {
            if k < front.len() {
                assert(front[k] == text[k]);
            }
        }
    }
}

/// Pairs in rising order are told by their members: two such lists with the
/// same members are the same list.
pub proof fn lemma_ascending_is_unique(a: Seq<CurrencyPair>, b: Seq<CurrencyPair>)
    requires
        ascending(a),
        ascending(b),
        forall|p: CurrencyPair| a.contains(p) <==> b.contains(p),
    ensures
        a == b,
    decreases a.len(),
{
    if a.len() == 0 {
        if b.len() > 0 {
            assert(b.contains(b[0]));
        }
        assert(a =~= b);
    } else {
        assert(a.contains(a.last()));
        assert(b.contains(a.last()));
        assert(b.len() > 0);
        assert(b.contains(b.last()));
        assert(a.contains(b.last()));
        let i = choose|i: int| 0 <= i < b.len() && b[i] == a.last();
        let j = choose|j: int| 0 <= j < a.len() && a[j] == b.last();
        assert(a.last().rank() == b.last().rank()) by {
            if i < b.len() - 1 {
                assert(b[i].rank() < b.last().rank());
            }
            if j < a.len() - 1 {
                assert(a[j].rank() < a.last().rank());
            }
        }
        assert(a.last() == b.last());
        let front_a = a.drop_last();
        let front_b = b.drop_last();
        assert forall|p: CurrencyPair| front_a.contains(p) <==> front_b.contains(p) by {
            if front_a.contains(p) {
                let k = choose|k: int| 0 <= k < front_a.len() && front_a[k] == p;
                assert(a[k] == p && a[k].rank() < a.last().rank());
                assert(a.contains(p));
                let m = choose|m: int| 0 <= m < b.len() && b[m] == p;
                assert(m < b.len() - 1);
                assert(front_b[m] == p);
            }
            if front_b.contains(p) {
                let k = choose|k: int| 0 <= k < front_b.len() && front_b[k] == p;
                assert(b[k] == p && b[k].rank() < b.last().rank());
                assert(b.contains(p));
                let m = choose|m: int| 0 <= m < a.len() && a[m] == p;
                assert(m < a.len() - 1);
                assert(front_a[m] == p);
            }
        }
        assert(ascending(front_a)) by {
            assert forall|x: int, y: int| 0 <= x < y < front_a.len() implies front_a[x].rank()
                < front_a[y].rank() by {
                assert(front_a[x] == a[x] && front_a[y] == a[y]);
            }
        }
        assert(ascending(front_b)) by {
            assert forall|x: int, y: int| 0 <= x < y < front_b.len() implies front_b[x].rank()
                < front_b[y].rank() by {
                assert(front_b[x] == b[x] && front_b[y] == b[y]);
            }
        }
        lemma_ascending_is_unique(front_a, front_b);
        assert(a =~= front_a.push(a.last()));
        assert(b =~= front_b.push(b.last()));
    }
}

/// Puts a pair in its place among pairs in rising order, unless it is there.
fn insert_pair(pairs: &mut Vec<CurrencyPair>, pair: CurrencyPair)
    requires
        ascending(old(pairs)@),
    ensures
        ascending(final(pairs)@),
        forall|p: CurrencyPair| final(pairs)@.contains(p) <==> old(pairs)@.contains(p) || p == pair,
{
    let rank: u64 = pair.ordinal();
    let mut at: usize = 0;
    while at < pairs.len() && pairs[at].ordinal() < rank
        invariant
            *pairs == *old(pairs),
            at <= pairs.len(),
            forall|k: int| 0 <= k < at ==> pairs@[k].rank() < rank,
        decreases pairs.len() - at,
    {
        at += 1;
    }
    if at < pairs.len() && pairs[at].ordinal() == rank {
        assert(pairs@[at as int] == pair);
        return ;
    }
    pairs.insert(at, pair);
    proof {
        let before = old(pairs)@;
        let after = pairs@;
        assert(after[at as int] == pair);
        assert forall|i: int, j: int| 0 <= i < j < after.len() implies after[i].rank() < after[j].rank() by {
            if i < at && j > at {
                assert(after[i] == before[i]);
                assert(after[j] == before[j - 1]);
            } else if i < at && j < at {
                assert(after[i] == before[i]);
                assert(after[j] == before[j]);
            } else if i > at {
                assert(after[i] == before[i - 1]);
                assert(after[j] == before[j - 1]);
            } else if i == at {
                assert(after[j] == before[j - 1]);
            }
        }
        assert forall|p: CurrencyPair| after.contains(p) <==> before.contains(p) || p == pair by {
            if before.contains(p) {
                let k = choose|k: int| 0 <= k < before.len() && before[k] == p;
                if k < at {
                    assert(after[k] == p);
                } else {
                    assert(after[k + 1] == p);
                }
            }
            if after.contains(p) && p != pair {
                let k = choose|k: int| 0 <= k < after.len() && after[k] == p;
                if k < at {
                    assert(before[k] == p);
                } else {
                    assert(before[k - 1] == p);
                }
            }
        }
    }
}

impl CurrencyPair {
    /// The pair that a configuration code names, if any.
    pub open spec fn spec_map(value: Seq<char>) -> Option<CurrencyPair> {
        if value == "BTCXRP"@ {
            Some(CurrencyPair::XRPBTC)
        } else {
            None
        }
    }

    /// The place of a pair in the order of pairs.
    pub open spec fn rank(self) -> nat {
        match self {
            CurrencyPair::XRPBTC => 0,
        }
    }

    /// The place of this pair in the order of pairs.
    pub fn ordinal(&self) -> (n: u64)
        ensures
            n == self.rank(),
    {
        match self {
            CurrencyPair::XRPBTC => 0,
        }
    }

    /// Reads a comma-separated list of configuration codes. The pairs come
    /// in rising order, each once however often it was named. The list is
    /// refused where one of its fields names no pair.
    pub fn parse(values: &str) -> (pairs: Result<Vec<CurrencyPair>, UnknownPair>)
        ensures
            pairs is Err <==> has_unknown(fields_of(values@)),
            pairs matches Ok(list) ==> {
                &&& ascending(list@)
                &&& forall|p: CurrencyPair| list@.contains(p) <==> names(fields_of(values@), p)
            },
    {
        let n: usize = values.unicode_len();
        let mut list: Vec<CurrencyPair> = Vec::new();
        let mut unknown: bool = false;
        let mut start: usize = 0;
        let mut i: usize = 0;
        let ghost mut done: Seq<Seq<char>> = Seq::empty();
        while i < n
            invariant
                n == values@.len(),
                start <= i <= n,
                forall|k: int| start <= k < i ==> values@[k] != ',',
                start == 0 ==> done == Seq::<Seq<char>>::empty(),
                start > 0 ==> values@[start - 1] == ',' && done == fields_of(
                    values@.subrange(0, start - 1),
                ),
                unknown <==> has_unknown(done),
                ascending(list@),
                forall|p: CurrencyPair| list@.contains(p) <==> names(done, p),
            decreases n - i,
        {
            if values.get_char(i) == ',' {
                let field = values.substring_char(start, i);
                let ghost grown = done.push(field@);
                proof {
                    let head = values@.subrange(0, i as int);
                    lemma_last_comma(head);
                    if start == 0 {
                        assert(last_comma(head) < 0);
                        assert(head =~= field@);
                    } else {
                        assert(head[start - 1] == ',');
                        assert(last_comma(head) == start - 1);
                        assert(head.subrange(0, start - 1) =~= values@.subrange(0, start - 1));
                        assert(head.subrange(start as int, head.len() as int) =~= field@);
                    }
                    assert(grown == fields_of(head));
                    lemma_fields_grow(done, field@);
                }
                let ghost listed = list@;
                match Self::map(field) {
                    Some(pair) => {
                        insert_pair(&mut list, pair);
                    },
                    None => {
                        unknown = true;
                    },
                }
                proof {
                    assert forall|p: CurrencyPair| list@.contains(p) <==> names(grown, p) by {
                        assert(listed.contains(p) <==> names(done, p));
                    }
                    done = grown;
                }
                start = i + 1;
            }
            i += 1;
        }
        let field = values.substring_char(start, n);
        proof {
            lemma_last_comma(values@);
            if start == 0 {
                assert(last_comma(values@) < 0);
                assert(values@ =~= field@);
            } else {
                assert(last_comma(values@) == start - 1);
            }
            assert(done.push(field@) == fields_of(values@));
            lemma_fields_grow(done, field@);
        }
        let ghost listed = list@;
        match Self::map(field) {
            Some(pair) => {
                insert_pair(&mut list, pair);
            },
            None => {
                unknown = true;
            },
        }
        proof {
            assert forall|p: CurrencyPair| list@.contains(p) <==> names(fields_of(values@), p) by {
                assert(listed.contains(p) <==> names(done, p));
            }
        }
        if unknown {
            Err(UnknownPair)
        } else {
            Ok(list)
        }
    }

    /// Maps one configuration code to its pair.
    pub fn map(value: &str) -> (pair: Option<CurrencyPair>)
        ensures
            pair == Self::spec_map(value@),
    {
        if same_text(value, "BTCXRP") {
            Some(CurrencyPair::XRPBTC)
        } else {
            None
        }
    }
}

/// What one more field adds: the pair that it names, or an unknown field.
pub proof fn lemma_fields_grow(fields: Seq<Seq<char>>, field: Seq<char>)
    ensures
        has_unknown(fields.push(field)) <==> has_unknown(fields) || CurrencyPair::spec_map(field)
            is None,
        forall|p: CurrencyPair|
            names(fields.push(field), p) <==> names(fields, p) || CurrencyPair::spec_map(field)
                == Some(p),
{
    let grown = fields.push(field);
    assert(grown[fields.len() as int] == field);
    assert forall|k: int| 0 <= k < fields.len() implies grown[k] == fields[k] by {}
    if has_unknown(fields) {
        let k = choose|k: int|
            0 <= k < fields.len() && CurrencyPair::spec_map(#[trigger] fields[k]) is None;
        assert(CurrencyPair::spec_map(grown[k]) is None);
    }
    if has_unknown(grown) {
        let k = choose|k: int|
            0 <= k < grown.len() && CurrencyPair::spec_map(#[trigger] grown[k]) is None;
        if k < fields.len() {
            assert(CurrencyPair::spec_map(fields[k]) is None);
        }
    }
    assert forall|p: CurrencyPair|
        names(grown, p) <==> names(fields, p) || CurrencyPair::spec_map(field) == Some(p) by {
        if names(fields, p) {
            let k = choose|k: int|
                0 <= k < fields.len() && CurrencyPair::spec_map(#[trigger] fields[k]) == Some(p);
            assert(CurrencyPair::spec_map(grown[k]) == Some(p));
        }
        if names(grown, p) {
            let k = choose|k: int|
                0 <= k < grown.len() && CurrencyPair::spec_map(#[trigger] grown[k]) == Some(p);
            if k < fields.len() {
                assert(CurrencyPair::spec_map(fields[k]) == Some(p));
            }
        }
    }
}

impl Exchange {
    /// The name of an exchange as events carry it.
    pub open spec fn spec_wire_name(self) -> Seq<char> {
        match self {
            Exchange::BtcMarkets => "btcmarkets"@,
            Exchange::Bitfinex => "bitfinex"@,
        }
    }

    /// The name of an exchange as people read it.
    pub open spec fn spec_display_name(self) -> Seq<char> {
        match self {
            Exchange::BtcMarkets => "BTCMarkets"@,
            Exchange::Bitfinex => "Bitfinex"@,
        }
    }

    /// The lowercase name under which events of this exchange are published.
    pub fn wire_name(&self) -> (name: &'static str)
        ensures
            name@ == self.spec_wire_name(),
    {
        match self {
            Exchange::BtcMarkets => "btcmarkets",
            Exchange::Bitfinex => "bitfinex",
        }
    }

    /// The name of this exchange for messages to people.
    pub fn display_name(&self) -> (name: &'static str)
        ensures
            name@ == self.spec_display_name(),
    {
        match self {
            Exchange::BtcMarkets => "BTCMarkets",
            Exchange::Bitfinex => "Bitfinex",
        }
    }
}

} // verus!
