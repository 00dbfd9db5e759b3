//! Properties that hold across the library's functions.
use vstd::prelude::*;
use crate::catalog::{enabled, Demand};
use crate::creative::{
    format_of, injected, expanded, first_occurrence, html_injected, insert_at, last_occurrence, native_injected,
    tracking_fragment, vast_injected, CreativeFormat, AUCTION_PRICE_MACRO, BODY_CLOSE, HTML_PIXEL,
    INLINE_OPEN, NATIVE_TRACKING, VAST_IMPRESSION,
};
use crate::dsp_client::{lemma_sorted_by_price, plans_of, price_descending, sorted_by_price, DspOutcome};
use crate::engine::{
    answers, best_index, bid_survivors, is_valid, screening, Screening, lemma_best_index, rate_for, seat_survivors,
    settled, survivor_dsps, survivors, AuctionOutcome,
};
use crate::json::json_object_text;
use crate::placements::DspPlacement;
use crate::openrtb::{Bid, BidRequest, ImpDetail, SeatBid};
use crate::price::{decimal, digit_char, padded_digits, price_text, strip_trailing_zeros, MICROS_PER_UNIT};
use crate::text::{contains, is_first_occurrence, is_last_occurrence, occurs_at, replace_all};

verus! {

/// Every bid kept by screening answers an impression of the request.
pub proof fn lemma_bid_survivors_answer(bids: Seq<Bid>, imps: Seq<ImpDetail>)
    ensures
        forall|k: int|
            0 <= k < bid_survivors(bids, imps).len() ==> answers(
                imps,
                #[trigger] bid_survivors(bids, imps)[k],
            ),
    decreases bids.len(),
{
    if bids.len() > 0 {
        lemma_bid_survivors_answer(bids.drop_last(), imps);
        let a = bid_survivors(bids.drop_last(), imps);
        if screening(imps, bids.last()) == Screening::Kept {
            assert forall|k: int| 0 <= k < a.push(bids.last()).len() implies answers(
                imps,
                #[trigger] a.push(bids.last())[k],
            ) by {
                if k < a.len() {
                    assert(a.push(bids.last())[k] == a[k]);
                }
            }
        }
    }
}

proof fn lemma_seat_survivors_answer(seats: Seq<SeatBid>, imps: Seq<ImpDetail>)
    ensures
        forall|k: int|
            0 <= k < seat_survivors(seats, imps).len() ==> answers(
                imps,
                #[trigger] seat_survivors(seats, imps)[k],
            ),
    decreases seats.len(),
{
    if seats.len() > 0 {
        lemma_seat_survivors_answer(seats.drop_last(), imps);
        lemma_bid_survivors_answer(seats.last().bid@, imps);
        let a = seat_survivors(seats.drop_last(), imps);
        let b = bid_survivors(seats.last().bid@, imps);
        assert forall|k: int| 0 <= k < (a + b).len() implies answers(imps, #[trigger] (a + b)[k]) by {
            if k < a.len() {
                assert((a + b)[k] == a[k]);
            } else {
                assert((a + b)[k] == b[k - a.len()]);
            }
        }
    }
}

/// Every bid that survives screening answers an impression of the request.
pub proof fn lemma_survivors_answer(os: Seq<DspOutcome>, imps: Seq<ImpDetail>)
    ensures
        forall|k: int|
            0 <= k < survivors(os, imps).len() ==> answers(imps, #[trigger] survivors(os, imps)[k]),
    decreases os.len(),
{
    if os.len() > 0 {
        lemma_survivors_answer(os.drop_last(), imps);
        if is_valid(os.last()) {
            lemma_seat_survivors_answer(os.last().response.seatbid@, imps);
            let a = survivors(os.drop_last(), imps);
            let b = seat_survivors(os.last().response.seatbid@, imps);
            assert forall|k: int| 0 <= k < (a + b).len() implies answers(imps, #[trigger] (a + b)[k]) by {
                if k < a.len() {
                    assert((a + b)[k] == a[k]);
                } else {
                    assert((a + b)[k] == b[k - a.len()]);
                }
            }
        }
    }
}

/// A winning auction answers with the request's id and exactly one seat holding exactly one
/// bid, and that bid answers an impression of the request.
pub proof fn lemma_winner_answers_request(
    request: BidRequest,
    os: Seq<DspOutcome>,
    placements: Seq<DspPlacement>,
    elapsed_ms: u64,
    r: AuctionOutcome,
)
    requires
        settled(request, os, placements, elapsed_ms, r),
        r.response is Some,
    ensures
        r.response->0.id@ == request.id@,
        r.response->0.seatbid@.len() == 1,
        r.response->0.seatbid@[0].bid@.len() == 1,
        exists|m: int|
            0 <= m < request.imp@.len() && request.imp@[m].id@
                == r.response->0.seatbid@[0].bid@[0].impid@,
{
    let imps = request.imp@;
    let s = survivors(os, imps);
    lemma_best_index(s);
    lemma_survivors_answer(os, imps);
    let b = best_index(s);
    assert(answers(imps, s[b]));
    assert(r.response->0.seatbid@[0].bid@ == seq![r.response->0.seatbid@[0].bid@[0]]);
}

/// One DSP record per enabled demand: when the fan-out yields one outcome per planned call,
/// the auction reports as many calls as there are enabled demands.
pub proof fn lemma_one_detail_per_active_demand(
    demands: Seq<Demand>,
    request: BidRequest,
    outcomes: Seq<DspOutcome>,
    placements: Seq<DspPlacement>,
    elapsed_ms: u64,
    r: AuctionOutcome,
)
    requires
        outcomes.len() == plans_of(demands, request.tmax).len(),
        settled(request, sorted_by_price(outcomes), placements, elapsed_ms, r),
    ensures
        r.details@.len() == enabled(demands).len(),
{
    lemma_sorted_by_price(outcomes);
}

/// The DSP records of an auction come with their bid prices never increasing.
pub proof fn lemma_details_descending(
    request: BidRequest,
    outcomes: Seq<DspOutcome>,
    placements: Seq<DspPlacement>,
    elapsed_ms: u64,
    r: AuctionOutcome,
)
    requires
        settled(request, sorted_by_price(outcomes), placements, elapsed_ms, r),
    ensures
        forall|i: int, j: int|
            0 <= i < j < r.details@.len() ==> r.details@[i].bid_price >= r.details@[j].bid_price,
{
    lemma_sorted_by_price(outcomes);
    let s = sorted_by_price(outcomes);
    assert forall|i: int, j: int| 0 <= i < j < r.details@.len() implies r.details@[i].bid_price
        >= r.details@[j].bid_price by {
        assert(price_descending(s));
        assert(r.details@[i].bid_price == s[i].top_price);
        assert(r.details@[j].bid_price == s[j].top_price);
    }
}

/// The exchange's share is never more than the whole price.
pub proof fn lemma_rate_bounded(ps: Seq<DspPlacement>, dsp_id: u64)
    ensures
        rate_for(ps, dsp_id) <= MICROS_PER_UNIT,
    decreases ps.len(),
{
    if ps.len() > 0 {
        lemma_rate_bounded(ps.skip(1), dsp_id);
    }
}

/// The winner's final price is its original price times one minus the profit rate of the
/// winner's DSP, to within one micro-unit below.
pub proof fn lemma_final_price(
    request: BidRequest,
    os: Seq<DspOutcome>,
    placements: Seq<DspPlacement>,
    elapsed_ms: u64,
    r: AuctionOutcome,
)
    requires
        settled(request, os, placements, elapsed_ms, r),
        r.response is Some,
    ensures
        ({
            let rate = rate_for(placements, survivor_dsps(os, request.imp@)[best_index(survivors(os, request.imp@))]);
            let fp = r.response->0.seatbid@[0].bid@[0].price as int;
            let op = r.original_price->0 as int;
            fp * MICROS_PER_UNIT <= op * (MICROS_PER_UNIT - rate) < (fp + 1) * MICROS_PER_UNIT
        }),
{
    let rate = rate_for(placements, survivor_dsps(os, request.imp@)[best_index(survivors(os, request.imp@))]);
    lemma_rate_bounded(placements, survivor_dsps(os, request.imp@)[best_index(survivors(os, request.imp@))]);
    let fp = r.response->0.seatbid@[0].bid@[0].price as int;
    let op = r.original_price->0 as int;
    let keep = (MICROS_PER_UNIT - rate) as int;
    assert(fp == (op * keep) / 1_000_000);
    assert(fp * 1_000_000 <= op * keep < (fp + 1) * 1_000_000) by (nonlinear_arith)
        requires
            fp == (op * keep) / 1_000_000,
            op >= 0,
            keep >= 0,
    {}
}

/// A character of a price's text.
pub open spec fn is_price_char(c: char) -> bool {
    c == '.' || c == '0' || c == '1' || c == '2' || c == '3' || c == '4' || c == '5' || c == '6'
        || c == '7' || c == '8' || c == '9'
}

pub open spec fn all_price_chars(s: Seq<char>) -> bool {
    forall|i: int| 0 <= i < s.len() ==> is_price_char(#[trigger] s[i])
}

pub open spec fn no_price_chars(s: Seq<char>) -> bool {
    forall|i: int| 0 <= i < s.len() ==> !is_price_char(#[trigger] s[i])
}

proof fn lemma_decimal_chars(n: nat)
    ensures
        all_price_chars(decimal(n)),
        decimal(n).len() > 0,
    decreases n,
{
    if n >= 10 {
        lemma_decimal_chars(n / 10);
    }
}

proof fn lemma_padded_chars(n: nat, w: nat)
    ensures
        all_price_chars(padded_digits(n, w)),
    decreases w,
{
    if w > 0 {
        lemma_padded_chars(n / 10, (w - 1) as nat);
    }
}

proof fn lemma_strip_chars(s: Seq<char>)
    requires
        all_price_chars(s),
    ensures
        all_price_chars(strip_trailing_zeros(s)),
    decreases s.len(),
{
    if s.len() > 0 && s.last() == '0' {
        assert forall|i: int| 0 <= i < s.drop_last().len() implies is_price_char(
            #[trigger] s.drop_last()[i],
        ) by {
            assert(s.drop_last()[i] == s[i]);
        }
        lemma_strip_chars(s.drop_last());
    }
}

/// A price's text is made of digits and points, and is never empty.
pub proof fn lemma_price_text_chars(m: nat)
    ensures
        all_price_chars(price_text(m)),
        price_text(m).len() > 0,
{
    lemma_decimal_chars(m / 1_000_000);
    lemma_padded_chars(m % 1_000_000, 6);
    lemma_strip_chars(padded_digits(m % 1_000_000, 6));
}

/// If replacing produced text that starts with `q`, and `q` holds no character of the
/// replacement, the original text starts with `q` too.
proof fn lemma_prefix_survives(t: Seq<char>, p: Seq<char>, rep: Seq<char>, q: Seq<char>)
    requires
        p.len() > 0,
        rep.len() > 0,
        all_price_chars(rep),
        no_price_chars(q),
        q.len() <= replace_all(t, p, rep).len(),
        replace_all(t, p, rep).take(q.len() as int) == q,
    ensures
        q.len() <= t.len(),
        t.take(q.len() as int) == q,
    decreases q.len(),
{
    let out = replace_all(t, p, rep);
    if q.len() == 0 {
        assert(t.take(0) =~= q);
    } else if t.len() < p.len() {
    } else if t.take(p.len() as int) == p {
        assert(out[0] == rep[0]);
        assert(out.take(q.len() as int)[0] == q[0]);
        assert(false);
    } else {
        let rest = replace_all(t.skip(1), p, rep);
        assert(out == seq![t[0]] + rest);
        let q1 = q.skip(1);
        assert(rest.take(q1.len() as int) =~= out.take(q.len() as int).skip(1));
        assert forall|i: int| 0 <= i < q1.len() implies !is_price_char(#[trigger] q1[i]) by {
            assert(q1[i] == q[i + 1]);
        }
        lemma_prefix_survives(t.skip(1), p, rep, q1);
        assert(out.take(q.len() as int)[0] == q[0]);
        assert(t.take(q.len() as int) =~= seq![t[0]] + t.skip(1).take(q1.len() as int));
        assert(q =~= seq![q[0]] + q1);
    }
}

/// With a replacement made of price characters, replacing the macro leaves no macro behind.
proof fn lemma_no_macro_left(s: Seq<char>, rep: Seq<char>)
    requires
        rep.len() > 0,
        all_price_chars(rep),
    ensures
        !contains(replace_all(s, AUCTION_PRICE_MACRO@, rep), AUCTION_PRICE_MACRO@),
    decreases s.len(),
{
    reveal_strlit("{AUCTION_PRICE}");
    let p = AUCTION_PRICE_MACRO@;
    let out = replace_all(s, p, rep);
    if s.len() < p.len() {
        assert forall|i: int| !occurs_at(out, p, i) by {}
    } else if s.take(p.len() as int) == p {
        let rest = replace_all(s.skip(p.len() as int), p, rep);
        lemma_no_macro_left(s.skip(p.len() as int), rep);
        assert forall|i: int| !occurs_at(out, p, i) by {
            if occurs_at(out, p, i) {
                if i < rep.len() {
                    assert(out[i] == rep[i]);
                    assert(out.subrange(i, i + p.len())[0] == p[0]);
                } else {
                    assert(rest.subrange(i - rep.len(), i - rep.len() + p.len()) =~= out.subrange(
                        i,
                        i + p.len(),
                    ));
                    assert(occurs_at(rest, p, i - rep.len()));
                }
            }
        }
    } else {
        let rest = replace_all(s.skip(1), p, rep);
        lemma_no_macro_left(s.skip(1), rep);
        assert(out == seq![s[0]] + rest);
        assert forall|i: int| !occurs_at(out, p, i) by {
            if occurs_at(out, p, i) {
                if i == 0 {
                    let q = p.skip(1);
                    assert forall|k: int| 0 <= k < q.len() implies !is_price_char(#[trigger] q[k]) by {
                        assert(q[k] == p[k + 1]);
                    }
                    assert(rest.take(q.len() as int) =~= out.subrange(0, p.len() as int).skip(1));
                    lemma_prefix_survives(s.skip(1), p, rep, q);
                    assert(out[0] == s[0]);
                    assert(out.subrange(0, p.len() as int)[0] == p[0]);
                    assert(s.take(p.len() as int) =~= seq![s[0]] + s.skip(1).take(q.len() as int));
                    assert(p =~= seq![p[0]] + q);
                } else {
                    assert(rest.subrange(i - 1, i - 1 + p.len()) =~= out.subrange(i, i + p.len()));
                    assert(occurs_at(rest, p, i - 1));
                }
            }
        }
    }
}

/// The clearing-price macro is gone from the DSP's markup once expanded, and every tracking
/// fragment the exchange injects still carries it.
pub proof fn lemma_macro_only_in_tracking(adm: Seq<char>, price: nat)
    ensures
        !contains(expanded(adm, price), AUCTION_PRICE_MACRO@),
        contains(tracking_fragment(CreativeFormat::Html), AUCTION_PRICE_MACRO@),
        contains(tracking_fragment(CreativeFormat::Vast), AUCTION_PRICE_MACRO@),
        contains(tracking_fragment(CreativeFormat::Native), AUCTION_PRICE_MACRO@),
{
    lemma_price_text_chars(price);
    lemma_no_macro_left(adm, price_text(price));
    reveal_strlit("{AUCTION_PRICE}");
    reveal_strlit("<img src=\"http://tk.rust-adx.com/impression?price={AUCTION_PRICE}\" style=\"display:none;\" />");
    reveal_strlit("<Impression><![CDATA[http://tk.rust-adx.com/impression?price={AUCTION_PRICE}]]></Impression>");
    reveal_strlit("\"ssp_impression_tracking\":\"http://tk.rust-adx.com/impression?price={AUCTION_PRICE}\",\"ssp_click_tracking\":\"http://tk.rust-adx.com/click?price={AUCTION_PRICE}\"");
    assert(HTML_PIXEL@.subrange(50, 65) =~= AUCTION_PRICE_MACRO@);
    assert(occurs_at(HTML_PIXEL@, AUCTION_PRICE_MACRO@, 50));
    assert(VAST_IMPRESSION@.subrange(61, 76) =~= AUCTION_PRICE_MACRO@);
    assert(occurs_at(VAST_IMPRESSION@, AUCTION_PRICE_MACRO@, 61));
    assert(NATIVE_TRACKING@.subrange(67, 82) =~= AUCTION_PRICE_MACRO@);
    assert(occurs_at(NATIVE_TRACKING@, AUCTION_PRICE_MACRO@, 67));
}

/// An occurrence is followed by a last one.
pub proof fn lemma_last_exists(s: Seq<char>, p: Seq<char>, hi: int)
    requires
        0 <= hi <= s.len(),
        exists|i: int| 0 <= i <= hi && occurs_at(s, p, i),
        forall|j: int| hi < j <= s.len() ==> !occurs_at(s, p, j),
    ensures
        is_last_occurrence(s, p, last_occurrence(s, p)),
    decreases hi,
{
    if occurs_at(s, p, hi) {
        assert(is_last_occurrence(s, p, hi));
    } else {
        let i = choose|i: int| 0 <= i <= hi && occurs_at(s, p, i);
        assert(i < hi);
        lemma_last_exists(s, p, hi - 1);
    }
}

/// An occurrence is preceded by a first one.
pub proof fn lemma_first_exists(s: Seq<char>, p: Seq<char>, lo: int)
    requires
        0 <= lo,
        exists|i: int| lo <= i && occurs_at(s, p, i),
        forall|j: int| 0 <= j < lo ==> !occurs_at(s, p, j),
    ensures
        is_first_occurrence(s, p, first_occurrence(s, p)),
    decreases s.len() - lo,
{
    if occurs_at(s, p, lo) {
        assert(is_first_occurrence(s, p, lo));
    } else {
        let i = choose|i: int| lo <= i && occurs_at(s, p, i);
        assert(i > lo);
        lemma_first_exists(s, p, lo + 1);
    }
}

proof fn lemma_inserted_occurs(s: Seq<char>, k: int, frag: Seq<char>)
    requires
        0 <= k <= s.len(),
    ensures
        occurs_at(insert_at(s, k, frag), frag, k),
{
    assert(insert_at(s, k, frag).subrange(k, k + frag.len()) =~= frag);
}

/// Where the exchange's tracking lands: in HTML after every `</body>` (right after the last),
/// or at the end; in VAST right after the first `<InLine>`, or at the end; in a native JSON
/// object, its tracking members are there.
pub proof fn lemma_tracking_placement(s: Seq<char>, is_object: bool)
    ensures
        contains(s, BODY_CLOSE@) ==> {
            let k = last_occurrence(s, BODY_CLOSE@) + BODY_CLOSE@.len();
            &&& occurs_at(html_injected(s), HTML_PIXEL@, k)
            &&& forall|j: int| occurs_at(s, BODY_CLOSE@, j) ==> j + BODY_CLOSE@.len() <= k
        },
        !contains(s, BODY_CLOSE@) ==> occurs_at(html_injected(s), HTML_PIXEL@, s.len() as int),
        contains(s, INLINE_OPEN@) ==> {
            let k = first_occurrence(s, INLINE_OPEN@);
            &&& occurs_at(vast_injected(s), VAST_IMPRESSION@, k + INLINE_OPEN@.len())
            &&& forall|j: int| 0 <= j < k ==> !occurs_at(s, INLINE_OPEN@, j)
        },
        native_injected(s, is_object) != s ==> contains(native_injected(s, is_object), NATIVE_TRACKING@),
{
    if contains(s, BODY_CLOSE@) {
        lemma_last_exists(s, BODY_CLOSE@, s.len() as int);
        let k = last_occurrence(s, BODY_CLOSE@) + BODY_CLOSE@.len();
        lemma_inserted_occurs(s, k, HTML_PIXEL@);
    } else {
        assert((s + HTML_PIXEL@).subrange(s.len() as int, (s.len() + HTML_PIXEL@.len()) as int) =~= HTML_PIXEL@);
    }
    if contains(s, INLINE_OPEN@) {
        lemma_first_exists(s, INLINE_OPEN@, 0);
        let k = first_occurrence(s, INLINE_OPEN@);
        lemma_inserted_occurs(s, k + INLINE_OPEN@.len(), VAST_IMPRESSION@);
    }
    if native_injected(s, is_object) != s {
        let close = last_occurrence(s, seq!['}']);
        lemma_last_exists(s, seq!['}'], s.len() as int);
        if crate::creative::all_space(s.subrange(crate::creative::leading_spaces(s) as int + 1, close)) {
            lemma_inserted_occurs(s, close, NATIVE_TRACKING@);
        } else {
            let frag = seq![','] + NATIVE_TRACKING@;
            let out = insert_at(s, close, frag);
            assert(out.subrange(close + 1, close + 1 + NATIVE_TRACKING@.len()) =~= NATIVE_TRACKING@);
            assert(occurs_at(out, NATIVE_TRACKING@, close + 1));
        }
    }
}


/// The winner's creative as returned: its own markup with the macro expanded to the final
/// price and no macro left in it, and the exchange's tracking placed right after the last
/// `</body>` of HTML (or at the end), right after the first `<InLine>` of VAST (or at the end).
pub proof fn lemma_winner_creative(
    request: BidRequest,
    os: Seq<DspOutcome>,
    placements: Seq<DspPlacement>,
    elapsed_ms: u64,
    r: AuctionOutcome,
)
    requires
        settled(request, os, placements, elapsed_ms, r),
        r.response is Some,
        survivors(os, request.imp@)[best_index(survivors(os, request.imp@))].adm is Some,
    ensures
        ({
            let b = survivors(os, request.imp@)[best_index(survivors(os, request.imp@))];
            let a = b.adm->0@;
            let w = r.response->0.seatbid@[0].bid@[0];
            let s = expanded(a, w.price as nat);
            let out = w.adm->0@;
            &&& out == injected(s, format_of(a), json_object_text(s))
            &&& !contains(s, AUCTION_PRICE_MACRO@)
            &&& (format_of(a) == CreativeFormat::Html && contains(s, BODY_CLOSE@)) ==> occurs_at(
                out,
                HTML_PIXEL@,
                last_occurrence(s, BODY_CLOSE@) + BODY_CLOSE@.len(),
            )
            &&& (format_of(a) == CreativeFormat::Html && !contains(s, BODY_CLOSE@)) ==> occurs_at(
                out,
                HTML_PIXEL@,
                s.len() as int,
            )
            &&& (format_of(a) == CreativeFormat::Vast && contains(s, INLINE_OPEN@)) ==> occurs_at(
                out,
                VAST_IMPRESSION@,
                first_occurrence(s, INLINE_OPEN@) + INLINE_OPEN@.len(),
            )
        }),
{
    let b = survivors(os, request.imp@)[best_index(survivors(os, request.imp@))];
    let a = b.adm->0@;
    let w = r.response->0.seatbid@[0].bid@[0];
    let s = expanded(a, w.price as nat);
    lemma_macro_only_in_tracking(a, w.price as nat);
    lemma_tracking_placement(s, json_object_text(s));
}

} // verus!
