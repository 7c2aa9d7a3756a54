//! Open positions of an account, and the fingerprint by which two lists of
//! positions are told apart whatever their order.

use crate::decimal::{
    decimal, fixed2, fixed4, push_decimal, push_fixed2, push_fixed4, push_signed_fixed2,
    signed_fixed2,
};
use crate::text::chars_of;
use vstd::prelude::*;
use vstd::relations::{sorted_by, total_ordering};
use vstd::seq_lib::{group_to_multiset_ensures, lemma_sorted_unique};
use vstd::string::*;

verus! {

/// The direction of a position.
#[derive(Clone, Copy, Debug, PartialEq, Eq, Structural)]
pub enum PositionSide {
    Long,
    Short,
}

/// Position information. Prices and the position value count hundredths, the
/// size counts ten-thousandths, the profit counts hundredths of a percent.
#[derive(Clone, Debug)]
pub struct PositionInfo {
    /// Asset name
    pub asset: String,
    /// Leverage multiplier
    pub leverage: u64,
    /// Position type (long/short)
    pub position_type: PositionSide,
    /// Entry price
    pub entry_price: u64,
    /// Mark price
    pub mark_price: u64,
    /// Position size
    pub size: u64,
    /// Position value
    pub position_value: u64,
    /// Profit/Loss percentage
    pub pnl_percentage: i64,
}

/// What a `PositionInfo` holds.
pub struct PositionView {
    pub asset: Seq<char>,
    pub leverage: u64,
    pub position_type: PositionSide,
    pub entry_price: u64,
    pub mark_price: u64,
    pub size: u64,
    pub position_value: u64,
    pub pnl_percentage: i64,
}

impl View for PositionInfo {
    type V = PositionView;

    open spec fn view(&self) -> PositionView {
        PositionView {
            asset: self.asset@,
            leverage: self.leverage,
            position_type: self.position_type,
            entry_price: self.entry_price,
            mark_price: self.mark_price,
            size: self.size,
            position_value: self.position_value,
            pnl_percentage: self.pnl_percentage,
        }
    }
}

/// A position as the account feed gives it: every number still as text.
#[derive(Clone, Debug)]
pub struct RawPosition {
    /// Asset name
    pub coin: String,
    /// Signed size
    pub szi: String,
    /// Entry price
    pub entry_px: String,
    /// Mark price
    pub mark_px: String,
    /// Leverage multiplier
    pub leverage: String,
}

/// What a `RawPosition` holds.
pub struct RawPositionView {
    pub coin: Seq<char>,
    pub szi: Seq<char>,
    pub entry_px: Seq<char>,
    pub mark_px: Seq<char>,
    pub leverage: Seq<char>,
}

impl View for RawPosition {
    type V = RawPositionView;

    open spec fn view(&self) -> RawPositionView {
        RawPositionView {
            coin: self.coin@,
            szi: self.szi@,
            entry_px: self.entry_px@,
            mark_px: self.mark_px@,
            leverage: self.leverage@,
        }
    }
}

/// What a list of raw positions holds.
pub open spec fn raw_view(ps: Seq<RawPosition>) -> Seq<RawPositionView> {
    Seq::new(ps.len(), |i: int| ps[i]@)
}

/// A position as numbers: what the text of a `RawPosition` stands for. The
/// size counts ten-thousandths and carries the direction as its sign, the
/// prices count hundredths.
#[derive(Clone, Debug)]
pub struct PositionNumbers {
    /// Asset name
    pub coin: String,
    /// Signed size
    pub szi: i64,
    /// Entry price
    pub entry_px: u64,
    /// Mark price
    pub mark_px: u64,
    /// Leverage multiplier
    pub leverage: u64,
}

/// What a `PositionNumbers` holds.
pub struct NumbersView {
    pub coin: Seq<char>,
    pub szi: i64,
    pub entry_px: u64,
    pub mark_px: u64,
    pub leverage: u64,
}

impl View for PositionNumbers {
    type V = NumbersView;

    open spec fn view(&self) -> NumbersView {
        NumbersView {
            coin: self.coin@,
            szi: self.szi,
            entry_px: self.entry_px,
            mark_px: self.mark_px,
            leverage: self.leverage,
        }
    }
}

/// What a list of position numbers holds.
pub open spec fn numbers_view(ns: Seq<PositionNumbers>) -> Seq<NumbersView> {
    Seq::new(ns.len(), |i: int| ns[i]@)
}

/// A signed size without its sign.
pub open spec fn magnitude(szi: i64) -> nat {
    if szi < 0 {
        (-szi) as nat
    } else {
        szi as nat
    }
}

/// What a size in ten-thousandths is worth at a price in hundredths, in
/// hundredths, halves rounded upwards.
pub open spec fn worth(size: nat, price: nat) -> nat {
    (size * price + 5000) / 10000
}

/// A number of hundredths as far as the field of a position holds it.
pub open spec fn capped(n: nat) -> u64 {
    if n > u64::MAX {
        u64::MAX
    } else {
        n as u64
    }
}

/// A gain as a share of what was paid, in hundredths of a percent, halves
/// rounded away from zero, as far as the field of a position holds it;
/// zero where nothing was paid.
pub open spec fn profit_share(gain: int, paid: nat) -> i64 {
    if paid == 0 {
        0
    } else {
        let share = (if gain < 0 {
            -gain
        } else {
            gain
        } * 10000 + paid / 2) / (paid as int);
        if share > i64::MAX {
            if gain < 0 {
                (-i64::MAX) as i64
            } else {
                i64::MAX
            }
        } else if gain < 0 {
            (-share) as i64
        } else {
            share as i64
        }
    }
}

/// The position that numbers describe; none where the size is zero. A
/// positive size is a long position and a negative one a short position; the
/// profit of a short position is what its value fell by.
pub open spec fn position_of(n: NumbersView) -> Option<PositionView> {
    if n.szi == 0 {
        None
    } else {
        let size = magnitude(n.szi);
        let value = worth(size, n.mark_px as nat);
        let paid = worth(size, n.entry_px as nat);
        Some(
            PositionView {
                asset: n.coin,
                leverage: n.leverage,
                position_type: if n.szi > 0 {
                    PositionSide::Long
                } else {
                    PositionSide::Short
                },
                entry_price: n.entry_px,
                mark_price: n.mark_px,
                size: size as u64,
                position_value: capped(value),
                pnl_percentage: if n.szi > 0 {
                    profit_share(value - paid, paid)
                } else {
                    profit_share(paid - value, paid)
                },
            },
        )
    }
}

/// The positions that a list of numbers describes, in its order.
pub open spec fn positions_of(ns: Seq<NumbersView>) -> Seq<PositionView>
    decreases ns.len(),
{
    if ns.len() == 0 {
        Seq::empty()
    } else {
        let rest = positions_of(ns.drop_last());
        match position_of(ns.last()) {
            Some(p) => rest.push(p),
            None => rest,
        }
    }
}

/// What a list of positions holds.
pub open spec fn positions_view(ps: Seq<PositionInfo>) -> Seq<PositionView> {
    Seq::new(ps.len(), |i: int| ps[i]@)
}

/// What of a position counts for the fingerprint: the asset, the size rounded
/// to hundredths, the entry price and the direction.
pub struct PositionKey {
    asset: String,
    size: u64,
    entry_price: u64,
    side: PositionSide,
}

/// What a `PositionKey` holds.
pub struct KeyView {
    pub asset: Seq<char>,
    pub size: u64,
    pub entry_price: u64,
    pub side: PositionSide,
}

impl View for PositionKey {
    type V = KeyView;

    closed spec fn view(&self) -> KeyView {
        KeyView {
            asset: self.asset@,
            size: self.size,
            entry_price: self.entry_price,
            side: self.side,
        }
    }
}

/// A size in ten-thousandths, rounded to hundredths, halves upwards.
pub open spec fn rounded_size(size: u64) -> u64 {
    (size / 100 + if size % 100 >= 50 {
        1int
    } else {
        0int
    }) as u64
}

/// The key of a position.
pub open spec fn key_of(p: PositionView) -> KeyView {
    KeyView {
        asset: p.asset,
        size: rounded_size(p.size),
        entry_price: p.entry_price,
        side: p.position_type,
    }
}

/// The keys of a list of positions, in the order of the list.
pub open spec fn keys_of(ps: Seq<PositionView>) -> Seq<KeyView> {
    Seq::new(ps.len(), |i: int| key_of(ps[i]))
}

/// Dictionary order on texts, by code point.
pub open spec fn text_le(a: Seq<char>, b: Seq<char>) -> bool
    decreases a.len(),
{
    if a.len() == 0 {
        true
    } else if b.len() == 0 {
        false
    } else if a.first() == b.first() {
        text_le(a.drop_first(), b.drop_first())
    } else {
        (a.first() as int) < (b.first() as int)
    }
}

/// Long before short.
pub open spec fn side_rank(s: PositionSide) -> int {
    match s {
        PositionSide::Long => 0,
        PositionSide::Short => 1,
    }
}

/// The order in which a fingerprint lists its keys: by asset, then size, then
/// entry price, then direction.
pub open spec fn key_le(a: KeyView, b: KeyView) -> bool {
    if a.asset != b.asset {
        text_le(a.asset, b.asset)
    } else if a.size != b.size {
        a.size < b.size
    } else if a.entry_price != b.entry_price {
        a.entry_price < b.entry_price
    } else {
        side_rank(a.side) <= side_rank(b.side)
    }
}

/// `key_le` as a relation.
pub open spec fn key_order() -> spec_fn(KeyView, KeyView) -> bool {
    |a: KeyView, b: KeyView| key_le(a, b)
}

/// The fingerprint of a list of positions: its keys, sorted.
pub open spec fn fingerprint(ps: Seq<PositionView>) -> Seq<KeyView> {
    keys_of(ps).sort_by(key_order())
}

proof fn lemma_text_le_reflexive(a: Seq<char>)
    ensures
        text_le(a, a),
    decreases a.len(),
{
    if a.len() > 0 {
        lemma_text_le_reflexive(a.drop_first());
    }
}

proof fn lemma_text_le_antisymmetric(a: Seq<char>, b: Seq<char>)
    requires
        text_le(a, b),
        text_le(b, a),
    ensures
        a == b,
    decreases a.len(),
{
    if a.len() == 0 {
        assert(b.len() == 0);
        assert(a =~= b);
    } else {
        lemma_text_le_antisymmetric(a.drop_first(), b.drop_first());
        assert(a =~= seq![a.first()] + a.drop_first());
        assert(b =~= seq![b.first()] + b.drop_first());
    }
}

proof fn lemma_text_le_transitive(a: Seq<char>, b: Seq<char>, c: Seq<char>)
    requires
        text_le(a, b),
        text_le(b, c),
    ensures
        text_le(a, c),
    decreases a.len(),
{
    if a.len() > 0 && a.first() == b.first() && b.first() == c.first() {
        lemma_text_le_transitive(a.drop_first(), b.drop_first(), c.drop_first());
    }
}

proof fn lemma_text_le_total(a: Seq<char>, b: Seq<char>)
    ensures
        text_le(a, b) || text_le(b, a),
    decreases a.len(),
{
    if a.len() > 0 && b.len() > 0 {
        if a.first() == b.first() {
            lemma_text_le_total(a.drop_first(), b.drop_first());
        }
    }
}

proof fn lemma_key_le_antisymmetric(a: KeyView, b: KeyView)
    requires
        key_le(a, b),
        key_le(b, a),
    ensures
        a == b,
{
    if a.asset != b.asset {
        lemma_text_le_antisymmetric(a.asset, b.asset);
    }
}

proof fn lemma_key_le_transitive(a: KeyView, b: KeyView, c: KeyView)
    requires
        key_le(a, b),
        key_le(b, c),
    ensures
        key_le(a, c),
{
    if a.asset != b.asset && b.asset != c.asset {
        lemma_text_le_transitive(a.asset, b.asset, c.asset);
        if a.asset == c.asset {
            lemma_text_le_antisymmetric(a.asset, b.asset);
        }
    }
}

/// The order of the keys is total: any two keys compare, and only equal keys
/// compare both ways.
pub proof fn lemma_key_order_total()
    ensures
        total_ordering(key_order()),
{
    let r = key_order();
    assert forall|x: KeyView| #[trigger] r(x, x) by {
        lemma_text_le_reflexive(x.asset);
    }
    assert forall|x: KeyView, y: KeyView| #[trigger] r(x, y) && #[trigger] r(y, x) implies x
        == y by {
        lemma_key_le_antisymmetric(x, y);
    }
    assert forall|x: KeyView, y: KeyView, z: KeyView| #[trigger] r(x, y) && #[trigger] r(
        y,
        z,
    ) implies r(x, z) by {
        lemma_key_le_transitive(x, y, z);
    }
    assert forall|x: KeyView, y: KeyView| #[trigger] r(x, y) || #[trigger] r(y, x) by {
        lemma_text_le_total(x.asset, y.asset);
    }
}

/// What a list of keys holds.
pub open spec fn keys_view(ks: Seq<PositionKey>) -> Seq<KeyView> {
    Seq::new(ks.len(), |i: int| ks[i]@)
}

/// The fingerprint of a list of positions.
pub struct Fingerprint {
    keys: Vec<PositionKey>,
}

impl View for Fingerprint {
    type V = Seq<KeyView>;

    closed spec fn view(&self) -> Seq<KeyView> {
        keys_view(self.keys@)
    }
}

fn char_before(x: char, y: char) -> (r: bool)
    ensures
        r == ((x as int) < (y as int)),
{
    (x as u32) < (y as u32)
}

fn text_precedes(a: &Vec<char>, b: &Vec<char>) -> (r: bool)
    ensures
        r == text_le(a@, b@),
{
    let n = a.len();
    let m = b.len();
    let mut i: usize = 0;
    assert(a@.subrange(0, n as int) =~= a@);
    assert(b@.subrange(0, m as int) =~= b@);
    while i < n && i < m
        invariant
            i <= n == a@.len(),
            i <= m == b@.len(),
            text_le(a@, b@) == text_le(a@.subrange(i as int, n as int), b@.subrange(i as int, m as int)),
        decreases n - i,
    {
        if a[i] != b[i] {
            return char_before(a[i], b[i]);
        }
        assert(a@.subrange(i as int, n as int).drop_first() =~= a@.subrange(i + 1, n as int));
        assert(b@.subrange(i as int, m as int).drop_first() =~= b@.subrange(i + 1, m as int));
        i += 1;
    }
    i == n
}

fn side_number(s: PositionSide) -> (r: u8)
    ensures
        r == side_rank(s),
{
    match s {
        PositionSide::Long => 0,
        PositionSide::Short => 1,
    }
}

fn key_precedes(a: &PositionKey, b: &PositionKey) -> (r: bool)
    ensures
        r == key_le(a@, b@),
{
    if a.asset != b.asset {
        let x = chars_of(a.asset.as_str());
        let y = chars_of(b.asset.as_str());
        text_precedes(&x, &y)
    } else if a.size != b.size {
        a.size < b.size
    } else if a.entry_price != b.entry_price {
        a.entry_price < b.entry_price
    } else {
        side_number(a.side) <= side_number(b.side)
    }
}

fn key_equals(a: &PositionKey, b: &PositionKey) -> (r: bool)
    ensures
        r == (a@ == b@),
{
    a.asset == b.asset && a.size == b.size && a.entry_price == b.entry_price && side_number(
        a.side,
    ) == side_number(b.side)
}

fn position_key(p: &PositionInfo) -> (k: PositionKey)
    ensures
        k@ == key_of(p@),
{
    let cents = p.size / 100;
    let size = if p.size % 100 >= 50 {
        cents + 1
    } else {
        cents
    };
    PositionKey {
        asset: p.asset.clone(),
        size,
        entry_price: p.entry_price,
        side: p.position_type,
    }
}

fn insert_sorted(keys: &mut Vec<PositionKey>, k: PositionKey)
    requires
        sorted_by(keys_view(old(keys)@), key_order()),
    ensures
        sorted_by(keys_view(final(keys)@), key_order()),
        keys_view(final(keys)@).to_multiset() == keys_view(old(keys)@).to_multiset().insert(k@),
{
    broadcast use group_to_multiset_ensures;

    proof {
        lemma_key_order_total();
    }
    let n = keys.len();
    let mut i: usize = 0;
    while i < n && key_precedes(&keys[i], &k)
        invariant
            i <= n == keys@.len(),
            forall|j: int| 0 <= j < i ==> key_le(#[trigger] keys@[j]@, k@),
        decreases n - i,
    {
        i += 1;
    }
    let ghost before = keys_view(keys@);
    let ghost kv = k@;
    keys.insert(i, k);
    assert(keys_view(keys@) =~= before.insert(i as int, kv));
    assert forall|a: int, b: int| 0 <= a < b < keys@.len() implies #[trigger] key_order()(
        keys_view(keys@)[a],
        keys_view(keys@)[b],
    ) by {
        if b < i {
            assert(key_order()(before[a], before[b]));
        } else if b == i {
            assert(key_le(before[a], kv));
        } else if a == i {
            assert(!key_le(before[i as int], kv));
            assert(key_order()(kv, before[i as int]) || key_order()(before[i as int], kv));
            if b - 1 > i {
                assert(key_order()(before[i as int], before[b - 1]));
                lemma_key_le_transitive(kv, before[i as int], before[b - 1]);
            }
        } else if a < i {
            assert(key_order()(before[a], before[b - 1]));
        } else {
            assert(key_order()(before[a - 1], before[b - 1]));
        }
    }
}

/// Calculate the fingerprint of a list of positions.
pub fn calculate_positions_hash(positions: &Vec<PositionInfo>) -> (r: Fingerprint)
    ensures
        r@ == fingerprint(positions_view(positions@)),
{
    broadcast use group_to_multiset_ensures;

    let n = positions.len();
    let mut keys: Vec<PositionKey> = Vec::new();
    let mut i: usize = 0;
    let ghost all = keys_of(positions_view(positions@));
    assert(keys_view(keys@) =~= all.take(0));
    while i < n
        invariant
            i <= n == positions@.len(),
            all == keys_of(positions_view(positions@)),
            sorted_by(keys_view(keys@), key_order()),
            keys_view(keys@).to_multiset() == all.take(i as int).to_multiset(),
        decreases n - i,
    {
        let k = position_key(&positions[i]);
        assert(all.take(i + 1) =~= all.take(i as int).push(k@));
        proof {
            vstd::seq_lib::to_multiset_build(all.take(i as int), k@);
        }
        insert_sorted(&mut keys, k);
        i += 1;
    }
    proof {
        assert(all.take(n as int) =~= all);
        lemma_key_order_total();
        all.lemma_sort_by_ensures(key_order());
        lemma_sorted_unique(keys_view(keys@), all.sort_by(key_order()), key_order());
    }
    Fingerprint { keys }
}

impl Fingerprint {
    /// Whether two fingerprints are the same.
    pub fn same(&self, other: &Fingerprint) -> (r: bool)
        ensures
            r == (self@ == other@),
    {
        let n = self.keys.len();
        if other.keys.len() != n {
            assert(keys_view(self.keys@).len() != keys_view(other.keys@).len());
            return false;
        }
        let mut i: usize = 0;
        while i < n
            invariant
                i <= n == self.keys@.len(),
                n == other.keys@.len(),
                forall|j: int| 0 <= j < i ==> self.keys@[j]@ == other.keys@[j]@,
            decreases n - i,
        {
            if !key_equals(&self.keys[i], &other.keys[i]) {
                assert(keys_view(self.keys@)[i as int] != keys_view(other.keys@)[i as int]);
                return false;
            }
            i += 1;
        }
        assert(keys_view(self.keys@) =~= keys_view(other.keys@));
        true
    }

    /// How many positions the fingerprint was taken of.
    pub fn len(&self) -> (r: usize)
        ensures
            r == self@.len(),
    {
        self.keys.len()
    }
}

proof fn lemma_keys_of_rearranged(a: Seq<PositionView>, b: Seq<PositionView>)
    requires
        a.to_multiset() == b.to_multiset(),
    ensures
        keys_of(a).to_multiset() == keys_of(b).to_multiset(),
    decreases a.len(),
{
    broadcast use group_to_multiset_ensures;

    assert(a.to_multiset().len() == a.len());
    assert(b.to_multiset().len() == b.len());
    if a.len() == 0 {
        assert(keys_of(a) =~= keys_of(b));
    } else {
        let x = a.last();
        let shorter = a.drop_last();
        assert(a =~= shorter.push(x));
        assert(a.to_multiset().contains(x));
        let j = choose|j: int| 0 <= j < b.len() && b[j] == x;
        let rest = b.remove(j);
        assert(shorter.to_multiset() =~= a.to_multiset().remove(x));
        lemma_keys_of_rearranged(shorter, rest);
        assert(keys_of(a) =~= keys_of(shorter).push(key_of(x)));
        assert(keys_of(b) =~= keys_of(rest).insert(j, key_of(x)));
    }
}

/// Two lists of positions have the same fingerprint exactly when they hold
/// the same keys, each as often in one as in the other.
pub proof fn law_fingerprint_identifies_keys(a: Seq<PositionView>, b: Seq<PositionView>)
    ensures
        fingerprint(a) == fingerprint(b) <==> keys_of(a).to_multiset() == keys_of(b).to_multiset(),
{
    lemma_key_order_total();
    keys_of(a).lemma_sort_by_ensures(key_order());
    keys_of(b).lemma_sort_by_ensures(key_order());
    if keys_of(a).to_multiset() == keys_of(b).to_multiset() {
        lemma_sorted_unique(fingerprint(a), fingerprint(b), key_order());
    }
}

/// Only a list without positions has the fingerprint of no positions.
pub proof fn law_fingerprint_of_no_positions(ps: Seq<PositionView>)
    ensures
        fingerprint(ps) == fingerprint(Seq::empty()) <==> ps.len() == 0,
{
    broadcast use group_to_multiset_ensures;

    let none = Seq::<PositionView>::empty();
    law_fingerprint_identifies_keys(ps, none);
    assert(keys_of(ps).to_multiset().len() == keys_of(ps).len());
    assert(keys_of(none).to_multiset().len() == keys_of(none).len());
    if ps.len() == 0 {
        assert(ps =~= none);
    }
}

/// The fingerprint does not depend on the order of the list: a list and any
/// rearrangement of it have the same fingerprint.
pub proof fn law_fingerprint_ignores_order(a: Seq<PositionView>, b: Seq<PositionView>)
    requires
        a.to_multiset() == b.to_multiset(),
    ensures
        fingerprint(a) == fingerprint(b),
{
    lemma_keys_of_rearranged(a, b);
    law_fingerprint_identifies_keys(a, b);
}

/// The fingerprint changes when one position is replaced by one of another
/// asset, rounded size, entry price or direction.
pub proof fn law_fingerprint_detects_difference(a: Seq<PositionView>, i: int, q: PositionView)
    requires
        0 <= i < a.len(),
        key_of(q) != key_of(a[i]),
    ensures
        fingerprint(a.update(i, q)) != fingerprint(a),
{
    broadcast use group_to_multiset_ensures;

    let b = a.update(i, q);
    assert(keys_of(b) =~= keys_of(a).update(i, key_of(q)));
    let before = keys_of(a).to_multiset();
    let after = keys_of(a).update(i, key_of(q)).to_multiset();
    assert(after =~= before.insert(key_of(q)).remove(keys_of(a)[i]));
    assert(after.count(key_of(q)) == before.count(key_of(q)) + 1);
    law_fingerprint_identifies_keys(b, a);
}

/// The direction of a position, in words.
pub open spec fn side_text(s: PositionSide) -> Seq<char> {
    match s {
        PositionSide::Long => "long"@,
        PositionSide::Short => "short"@,
    }
}

/// The lines that describe one position, closed by an empty line.
pub open spec fn position_block(p: PositionView) -> Seq<char> {
    "Asset: "@ + p.asset + "\nLeverage: "@ + decimal(p.leverage as nat) + "x\nType: "@ + side_text(
        p.position_type,
    ) + "\nEntry price: "@ + fixed2(p.entry_price as nat) + "\nMark price: "@ + fixed2(
        p.mark_price as nat,
    ) + "\nPosition size: "@ + fixed4(p.size as nat) + "\nPosition value: $"@ + fixed2(
        p.position_value as nat,
    ) + "\nPNL: "@ + signed_fixed2(p.pnl_percentage as int) + "%\n\n"@
}

/// The blocks of all positions of a list, in its order.
pub open spec fn position_blocks(ps: Seq<PositionView>) -> Seq<char>
    decreases ps.len(),
{
    if ps.len() == 0 {
        Seq::empty()
    } else {
        position_blocks(ps.drop_last()) + position_block(ps.last())
    }
}

/// One position in one line, as it stands in the summary of a change.
pub open spec fn position_title(p: PositionView) -> Seq<char> {
    "Asset:"@ + p.asset + " Lever:"@ + decimal(p.leverage as nat) + "x Type:"@ + side_text(
        p.position_type,
    ) + " Entry price:"@ + fixed2(p.entry_price as nat)
}

fn side_str(s: PositionSide) -> (r: &'static str)
    ensures
        r@ == side_text(s),
{
    match s {
        PositionSide::Long => "long",
        PositionSide::Short => "short",
    }
}

/// Appends the block of one position.
pub fn push_position_block(out: &mut String, p: &PositionInfo)
    ensures
        final(out)@ == old(out)@ + position_block(p@),
{
    out.append("Asset: ");
    out.append(p.asset.as_str());
    out.append("\nLeverage: ");
    push_decimal(out, p.leverage);
    out.append("x\nType: ");
    out.append(side_str(p.position_type));
    out.append("\nEntry price: ");
    push_fixed2(out, p.entry_price);
    out.append("\nMark price: ");
    push_fixed2(out, p.mark_price);
    out.append("\nPosition size: ");
    push_fixed4(out, p.size);
    out.append("\nPosition value: $");
    push_fixed2(out, p.position_value);
    out.append("\nPNL: ");
    push_signed_fixed2(out, p.pnl_percentage);
    out.append("%\n\n");
    assert(final(out)@ =~= old(out)@ + position_block(p@));
}

/// The blocks of all positions of a list, in its order.
pub fn render_positions(positions: &Vec<PositionInfo>) -> (out: String)
    ensures
        out@ == position_blocks(positions_view(positions@)),
{
    let n = positions.len();
    let mut out = String::new();
    let mut i: usize = 0;
    let ghost all = positions_view(positions@);
    while i < n
        invariant
            i <= n == positions@.len(),
            all == positions_view(positions@),
            out@ == position_blocks(all.take(i as int)),
        decreases n - i,
    {
        assert(all.take(i + 1).drop_last() =~= all.take(i as int));
        push_position_block(&mut out, &positions[i]);
        i += 1;
    }
    assert(all.take(n as int) =~= all);
    out
}

/// One position in one line.
pub fn render_title(p: &PositionInfo) -> (out: String)
    ensures
        out@ == position_title(p@),
{
    let mut out = String::from_str("Asset:");
    out.append(p.asset.as_str());
    out.append(" Lever:");
    push_decimal(&mut out, p.leverage);
    out.append("x Type:");
    out.append(side_str(p.position_type));
    out.append(" Entry price:");
    push_fixed2(&mut out, p.entry_price);
    out
}

fn worth_of(size: u64, price: u64) -> (r: u128)
    requires
        size <= 0x8000_0000_0000_0000,
    ensures
        r == worth(size as nat, price as nat),
        r <= 17014118346046923173168730371588411,
{
    assert(size * price <= 0x8000_0000_0000_0000 * 0xffff_ffff_ffff_ffff) by (nonlinear_arith)
        requires
            size <= 0x8000_0000_0000_0000,
            price <= 0xffff_ffff_ffff_ffff,
    ;
    ((size as u128) * (price as u128) + 5000) / 10000
}

fn share_of(gain: u128, losing: bool, paid: u128) -> (r: i64)
    requires
        gain <= 17014118346046923173168730371588411,
        paid <= 17014118346046923173168730371588411,
    ensures
        r == profit_share(
            if losing {
                -(gain as int)
            } else {
                gain as int
            },
            paid as nat,
        ),
{
    if paid == 0 {
        return 0;
    }
    assert(gain * 10000 <= 170141183460469231731687303715884110000) by (nonlinear_arith)
        requires
            gain <= 17014118346046923173168730371588411,
    ;
    let share: u128 = (gain * 10000 + paid / 2) / paid;
    if share > 9223372036854775807 {
        if losing && gain > 0 {
            -9223372036854775807
        } else {
            9223372036854775807
        }
    } else if losing && gain > 0 {
        -(share as i64)
    } else {
        share as i64
    }
}

/// The position that numbers describe; none where the size is zero.
pub fn position_from(n: &PositionNumbers) -> (r: Option<PositionInfo>)
    ensures
        match r {
            Some(p) => position_of(n@) == Some(p@),
            None => position_of(n@) is None,
        },
{
    if n.szi == 0 {
        return None;
    }
    let size: u64 = if n.szi == i64::MIN {
        0x8000_0000_0000_0000
    } else if n.szi < 0 {
        (-n.szi) as u64
    } else {
        n.szi as u64
    };
    let value = worth_of(size, n.mark_px);
    let paid = worth_of(size, n.entry_px);
    let long = n.szi > 0;
    let (gain, losing) = if value >= paid {
        (value - paid, !long)
    } else {
        (paid - value, long)
    };
    let pnl_percentage = share_of(gain, losing, paid);
    let position_value: u64 = if value > 0xffff_ffff_ffff_ffff {
        0xffff_ffff_ffff_ffff
    } else {
        value as u64
    };
    Some(
        PositionInfo {
            asset: n.coin.clone(),
            leverage: n.leverage,
            position_type: if long {
                PositionSide::Long
            } else {
                PositionSide::Short
            },
            entry_price: n.entry_px,
            mark_price: n.mark_px,
            size,
            position_value,
            pnl_percentage,
        },
    )
}

/// The positions that a list of numbers describes, in its order: numbers of
/// size zero describe none.
pub fn positions_from(numbers: &Vec<PositionNumbers>) -> (r: Vec<PositionInfo>)
    ensures
        positions_view(r@) == positions_of(numbers_view(numbers@)),
{
    let n = numbers.len();
    let mut out: Vec<PositionInfo> = Vec::new();
    let mut i: usize = 0;
    let ghost all = numbers_view(numbers@);
    assert(positions_view(out@) =~= positions_of(all.take(0)));
    while i < n
        invariant
            i <= n == numbers@.len(),
            all == numbers_view(numbers@),
            positions_view(out@) == positions_of(all.take(i as int)),
        decreases n - i,
    {
        assert(all.take(i + 1).drop_last() =~= all.take(i as int));
        assert(all.take(i + 1).last() == numbers@[i as int]@);
        let ghost before = positions_view(out@);
        match position_from(&numbers[i]) {
            Some(p) => {
                out.push(p);
                assert(positions_view(out@) =~= before.push(p@));
            },
            None => {},
        }
        i += 1;
    }
    assert(all.take(n as int) =~= all);
    out
}

} // verus!
