//! The auction: classifies the DSP outcomes, screens and ranks the bids, marks the winner's
//! price down and rewrites its creative.
use vstd::prelude::*;
use crate::context::Context;
use crate::creative::{rewrite_creative, rewritten};
use crate::dsp_client::{order_outcomes, sorted_by_price, CallStatus, DspOutcome};
use crate::openrtb::{Bid, BidRequest, BidResponse, ImpDetail, SeatBid};
use crate::placements::DspPlacement;
use crate::price::{apply_profit_rate, marked_down, DEFAULT_PROFIT_RATE_PPM, MICROS_PER_UNIT};
use crate::text::{chars_of, contains, contains_text};

verus! {

/// Why a DSP contributed no bid.
#[derive(PartialEq, Eq, Structural, Clone, Copy, Debug)]
pub enum FailureReason {
    /// The call itself failed.
    Status(CallStatus),
    /// The DSP answered with this no-bid reason.
    NoBid(i32),
    /// The DSP answered without any seat bid.
    NoSeatbid,
}

/// A DSP that contributed no bid, as logged.
pub struct DspFailure {
    pub dsp_id: u64,
    pub url: String,
    pub reason: FailureReason,
    pub result: CallStatus,
    pub inquiry_time_ms: u64,
}

/// One DSP call, as reported in the auction's record.
pub struct DspDetail {
    pub dsp_id: u64,
    pub url: String,
    pub bid_price: u64,
    pub result: CallStatus,
    pub inquiry_time_ms: u64,
    /// The status again when it is not a success.
    pub failure_reason: Option<CallStatus>,
}

/// Why an auction found no winner.
#[derive(PartialEq, Eq, Structural, Clone, Copy, Debug)]
pub enum NoFillReason {
    AllDspFailed,
    AllBidsFiltered,
}

/// What screening does with one bid.
#[derive(PartialEq, Eq, Structural, Clone, Copy, Debug)]
pub enum Screening {
    Kept,
    /// Its markup or creative id holds a sensitive word.
    Sensitive,
    /// It answers no impression of the request.
    Unmatched,
}

/// Everything an auction decided.
pub struct AuctionOutcome {
    /// One record per DSP call, in the order of the outcomes.
    pub details: Vec<DspDetail>,
    /// The DSPs that contributed no bid.
    pub failures: Vec<DspFailure>,
    /// The ids of the bids refused for their content.
    pub rejected_bids: Vec<String>,
    /// The ids of the bids refused for answering no impression of the request.
    pub unmatched_bids: Vec<String>,
    pub no_fill: Option<NoFillReason>,
    /// The winner's price before the markdown.
    pub original_price: Option<u64>,
    /// The response for the SSP when there is a winner.
    pub response: Option<BidResponse>,
    pub elapsed_ms: u64,
    /// The auction took longer than the request's `tmax`.
    pub tmax_exceeded: bool,
}

/// Words that bar a creative.
pub const SENSITIVE_WORDS: [&'static str; 3] = ["forbidden", "banned", "restricted"];

/// A DSP outcome that offers bids: a successful call, no no-bid reason, some seat bid.
pub open spec fn is_valid(o: DspOutcome) -> bool {
    o.status == CallStatus::Success && o.response.nbr is None && o.response.seatbid@.len() > 0
}

pub open spec fn has_valid(os: Seq<DspOutcome>) -> bool {
    exists|i: int| 0 <= i < os.len() && is_valid(os[i])
}

/// Why an outcome that is not valid offers nothing: its status, else its no-bid reason, else
/// the absence of seat bids.
pub open spec fn failure_reason(o: DspOutcome) -> FailureReason {
    if o.status != CallStatus::Success {
        FailureReason::Status(o.status)
    } else if o.response.nbr is Some {
        FailureReason::NoBid(o.response.nbr->0)
    } else {
        FailureReason::NoSeatbid
    }
}

pub open spec fn detail_of(o: DspOutcome) -> DspDetail {
    DspDetail {
        dsp_id: o.dsp_id,
        url: o.url,
        bid_price: o.top_price,
        result: o.status,
        inquiry_time_ms: o.elapsed_ms,
        failure_reason: if o.status == CallStatus::Success {
            None
        } else {
            Some(o.status)
        },
    }
}

pub open spec fn failure_of(o: DspOutcome) -> DspFailure {
    DspFailure {
        dsp_id: o.dsp_id,
        url: o.url,
        reason: failure_reason(o),
        result: o.status,
        inquiry_time_ms: o.elapsed_ms,
    }
}

/// The failure records of the outcomes that are not valid, in order.
pub open spec fn failures_of(os: Seq<DspOutcome>) -> Seq<DspFailure>
    decreases os.len(),
{
    if os.len() == 0 {
        Seq::empty()
    } else if is_valid(os.last()) {
        failures_of(os.drop_last())
    } else {
        failures_of(os.drop_last()).push(failure_of(os.last()))
    }
}

/// The text screened for sensitive words: the markup followed by the creative id.
pub open spec fn screened_text(b: Bid) -> Seq<char> {
    let adm = match b.adm {
        Some(a) => a@,
        None => Seq::empty(),
    };
    let crid = match b.crid {
        Some(c) => c@,
        None => Seq::empty(),
    };
    adm + crid
}

pub open spec fn is_sensitive(b: Bid) -> bool {
    contains(screened_text(b), "forbidden"@) || contains(screened_text(b), "banned"@) || contains(
        screened_text(b),
        "restricted"@,
    )
}

/// The bid answers one of the impressions `imps`.
pub open spec fn answers(imps: Seq<ImpDetail>, b: Bid) -> bool {
    exists|k: int| 0 <= k < imps.len() && imps[k].id@ == b.impid@
}

/// How screening treats a bid: refused for its content, refused for answering no impression of
/// the request, or kept.
pub open spec fn screening(imps: Seq<ImpDetail>, b: Bid) -> Screening {
    if is_sensitive(b) {
        Screening::Sensitive
    } else if !answers(imps, b) {
        Screening::Unmatched
    } else {
        Screening::Kept
    }
}

pub open spec fn bid_survivors(bids: Seq<Bid>, imps: Seq<ImpDetail>) -> Seq<Bid>
    decreases bids.len(),
{
    if bids.len() == 0 {
        Seq::empty()
    } else if screening(imps, bids.last()) == Screening::Kept {
        bid_survivors(bids.drop_last(), imps).push(bids.last())
    } else {
        bid_survivors(bids.drop_last(), imps)
    }
}

/// The ids of the bids that screening refuses for reason `why`.
pub open spec fn bid_refusals(bids: Seq<Bid>, imps: Seq<ImpDetail>, why: Screening) -> Seq<String>
    decreases bids.len(),
{
    if bids.len() == 0 {
        Seq::empty()
    } else if screening(imps, bids.last()) == why {
        bid_refusals(bids.drop_last(), imps, why).push(bids.last().id)
    } else {
        bid_refusals(bids.drop_last(), imps, why)
    }
}

pub open spec fn seat_survivors(seats: Seq<SeatBid>, imps: Seq<ImpDetail>) -> Seq<Bid>
    decreases seats.len(),
{
    if seats.len() == 0 {
        Seq::empty()
    } else {
        seat_survivors(seats.drop_last(), imps) + bid_survivors(seats.last().bid@, imps)
    }
}

pub open spec fn seat_refusals(seats: Seq<SeatBid>, imps: Seq<ImpDetail>, why: Screening) -> Seq<
    String,
>
    decreases seats.len(),
{
    if seats.len() == 0 {
        Seq::empty()
    } else {
        seat_refusals(seats.drop_last(), imps, why) + bid_refusals(seats.last().bid@, imps, why)
    }
}

/// The bids of the valid outcomes, in order, that are not sensitive and answer an impression
/// of the request.
pub open spec fn survivors(os: Seq<DspOutcome>, imps: Seq<ImpDetail>) -> Seq<Bid>
    decreases os.len(),
{
    if os.len() == 0 {
        Seq::empty()
    } else if is_valid(os.last()) {
        survivors(os.drop_last(), imps) + seat_survivors(os.last().response.seatbid@, imps)
    } else {
        survivors(os.drop_last(), imps)
    }
}

/// The ids of the bids of the valid outcomes, in order, that screening refuses for `why`.
pub open spec fn refusals(os: Seq<DspOutcome>, imps: Seq<ImpDetail>, why: Screening) -> Seq<String>
    decreases os.len(),
{
    if os.len() == 0 {
        Seq::empty()
    } else if is_valid(os.last()) {
        refusals(os.drop_last(), imps, why) + seat_refusals(
            os.last().response.seatbid@,
            imps,
            why,
        )
    } else {
        refusals(os.drop_last(), imps, why)
    }
}

/// `n` copies of `id`.
pub open spec fn repeat(id: u64, n: nat) -> Seq<u64> {
    Seq::new(n, |_i: int| id)
}

/// For each bid of `survivors(os, imps)`, the id of the DSP that offered it.
pub open spec fn survivor_dsps(os: Seq<DspOutcome>, imps: Seq<ImpDetail>) -> Seq<u64>
    decreases os.len(),
{
    if os.len() == 0 {
        Seq::empty()
    } else if is_valid(os.last()) {
        survivor_dsps(os.drop_last(), imps) + repeat(
            os.last().dsp_id,
            seat_survivors(os.last().response.seatbid@, imps).len(),
        )
    } else {
        survivor_dsps(os.drop_last(), imps)
    }
}

/// The exchange's share for DSP `dsp_id`: the rate of its first enabled placement (at most
/// the whole price), else the default of 20 %.
pub open spec fn rate_for(ps: Seq<DspPlacement>, dsp_id: u64) -> u64
    decreases ps.len(),
{
    if ps.len() == 0 {
        DEFAULT_PROFIT_RATE_PPM
    } else if ps[0].dsp_id == dsp_id && ps[0].status == 1 {
        if ps[0].profit_rate_ppm > MICROS_PER_UNIT {
            MICROS_PER_UNIT
        } else {
            ps[0].profit_rate_ppm
        }
    } else {
        rate_for(ps.skip(1), dsp_id)
    }
}

/// The index of the first of the highest-priced bids.
pub open spec fn best_index(s: Seq<Bid>) -> int
    decreases s.len(),
{
    if s.len() <= 1 {
        0
    } else {
        let b = best_index(s.drop_last());
        if s.last().price > s[b].price {
            s.len() - 1
        } else {
            b
        }
    }
}

/// `w` is `b` as returned to the SSP: its price marked down by `rate_ppm`, its creative
/// rewritten for that price, everything else unchanged.
pub open spec fn is_rewritten_winner(w: Bid, b: Bid, rate_ppm: u64) -> bool {
    let fp = marked_down(b.price as nat, rate_ppm as nat);
    &&& w.price == fp
    &&& w.adm is Some <==> b.adm is Some
    &&& b.adm matches Some(a) ==> w.adm->0@ == rewritten(a@, fp)
    &&& w.id == b.id
    &&& w.impid == b.impid
    &&& w.nurl == b.nurl
    &&& w.adid == b.adid
    &&& w.adomain == b.adomain
    &&& w.cid == b.cid
    &&& w.crid == b.crid
    &&& w.cat == b.cat
    &&& w.attr == b.attr
    &&& w.dealid == b.dealid
    &&& w.h == b.h
    &&& w.w == b.w
    &&& w.ext == b.ext
}

/// `resp` is the winning response for request `request_id`: one seat with the one bid `w`,
/// currency USD, no no-bid reason.
pub open spec fn is_winning_response(resp: BidResponse, request_id: Seq<char>, w: Bid) -> bool {
    &&& resp.id@ == request_id
    &&& resp.seatbid@.len() == 1
    &&& resp.seatbid@[0].bid@ == seq![w]
    &&& resp.seatbid@[0].seat matches Some(s) && s@.len() == 0
    &&& resp.seatbid@[0].group == Some(0i32)
    &&& resp.bidid is None
    &&& resp.cur matches Some(c) && c@ == "USD"@
    &&& resp.customdata is None
    &&& resp.nbr is None
}

/// What an auction for `request` over the outcomes `os` (in this order) decides, the exchange's share of
/// the winning price coming from the winner's DSP placement.
pub open spec fn settled(
    request: BidRequest,
    os: Seq<DspOutcome>,
    placements: Seq<DspPlacement>,
    elapsed_ms: u64,
    r: AuctionOutcome,
) -> bool {
    let imps = request.imp@;
    let s = survivors(os, imps);
    let rate_ppm = rate_for(placements, survivor_dsps(os, imps)[best_index(s)]);
    &&& r.details@ == os.map_values(|o: DspOutcome| detail_of(o))
    &&& r.failures@ == failures_of(os)
    &&& r.rejected_bids@ == refusals(os, imps, Screening::Sensitive)
    &&& r.unmatched_bids@ == refusals(os, imps, Screening::Unmatched)
    &&& r.no_fill == if !has_valid(os) {
        Some(NoFillReason::AllDspFailed)
    } else if s.len() == 0 {
        Some(NoFillReason::AllBidsFiltered)
    } else {
        None::<NoFillReason>
    }
    &&& r.response is Some <==> r.no_fill is None
    &&& r.original_price is Some <==> r.no_fill is None
    &&& r.no_fill is None ==> {
        let b = s[best_index(s)];
        &&& r.original_price == Some(b.price)
        &&& is_winning_response(r.response->0, request.id@, r.response->0.seatbid@[0].bid@[0])
        &&& is_rewritten_winner(r.response->0.seatbid@[0].bid@[0], b, rate_ppm)
    }
    &&& r.elapsed_ms == elapsed_ms
    &&& r.tmax_exceeded == (request.tmax matches Some(t) && elapsed_ms > t)
}

/// Whether the bid's markup or creative id holds a sensitive word.
pub fn contains_sensitive_content(bid: &Bid) -> (r: bool)
    ensures
        r == is_sensitive(*bid),
{
    let mut text: Vec<char> = Vec::new();
    match &bid.adm {
        Some(a) => {
            text = chars_of(a.as_str());
        },
        None => {},
    }
    match &bid.crid {
        Some(c) => {
            let mut cc = chars_of(c.as_str());
            text.append(&mut cc);
        },
        None => {},
    }
    assert(text@ =~= screened_text(*bid));
    let mut found = false;
    let mut i: usize = 0;
    while i < 3
        invariant
            i <= 3,
            found <==> exists|k: int| 0 <= k < i && contains(text@, SENSITIVE_WORDS[k]@),
        decreases 3 - i,
    {
        if contains_text(&text, &chars_of(SENSITIVE_WORDS[i])) {
            found = true;
        }
        i = i + 1;
    }
    assert(SENSITIVE_WORDS[0]@ == "forbidden"@);
    assert(SENSITIVE_WORDS[1]@ == "banned"@);
    assert(SENSITIVE_WORDS[2]@ == "restricted"@);
    found
}

/// Whether the bid answers one of the impressions `imps`.
pub fn answers_request(imps: &Vec<ImpDetail>, bid: &Bid) -> (r: bool)
    ensures
        r == answers(imps@, *bid),
{
    let mut k: usize = 0;
    while k < imps.len()
        invariant
            k <= imps@.len(),
            forall|j: int| 0 <= j < k ==> imps@[j].id@ != bid.impid@,
        decreases imps.len() - k,
    {
        if imps[k].id == bid.impid {
            return true;
        }
        k = k + 1;
    }
    false
}

/// How screening treats `bid`.
pub fn screen_bid(imps: &Vec<ImpDetail>, bid: &Bid) -> (r: Screening)
    ensures
        r == screening(imps@, *bid),
{
    if contains_sensitive_content(bid) {
        Screening::Sensitive
    } else if !answers_request(imps, bid) {
        Screening::Unmatched
    } else {
        Screening::Kept
    }
}

/// Where screening sends bids: kept bids with their DSP's id, and the ids of refused ones.
struct Screened {
    kept: Vec<Bid>,
    kept_dsps: Vec<u64>,
    rejected: Vec<String>,
    unmatched: Vec<String>,
}

/// Screens `bids` of DSP `dsp_id` into `acc`.
fn screen_bids(bids: Vec<Bid>, dsp_id: u64, imps: &Vec<ImpDetail>, acc: &mut Screened)
    ensures
        final(acc).kept@ == old(acc).kept@ + bid_survivors(bids@, imps@),
        final(acc).kept_dsps@ == old(acc).kept_dsps@ + repeat(
            dsp_id,
            bid_survivors(bids@, imps@).len(),
        ),
        final(acc).rejected@ == old(acc).rejected@ + bid_refusals(
            bids@,
            imps@,
            Screening::Sensitive,
        ),
        final(acc).unmatched@ == old(acc).unmatched@ + bid_refusals(
            bids@,
            imps@,
            Screening::Unmatched,
        ),
{
    let ghost input = bids@;
    let ghost a0 = *acc;
    let n = bids.len();
    let mut i: usize = 0;
    for b in it: bids.into_iter()
        invariant
            it.seq() == input,
            input.len() == n,
            i == it.index(),
            acc.kept@ == a0.kept@ + bid_survivors(input.take(i as int), imps@),
            acc.kept_dsps@ == a0.kept_dsps@ + repeat(
                dsp_id,
                bid_survivors(input.take(i as int), imps@).len(),
            ),
            acc.rejected@ == a0.rejected@ + bid_refusals(
                input.take(i as int),
                imps@,
                Screening::Sensitive,
            ),
            acc.unmatched@ == a0.unmatched@ + bid_refusals(
                input.take(i as int),
                imps@,
                Screening::Unmatched,
            ),
    {
        let ghost t = input.take(i + 1);
        assert(t.drop_last() =~= input.take(i as int));
        assert(t.last() == b);
        match screen_bid(imps, &b) {
            Screening::Sensitive => acc.rejected.push(b.id),
            Screening::Unmatched => acc.unmatched.push(b.id),
            Screening::Kept => {
                acc.kept.push(b);
                acc.kept_dsps.push(dsp_id);
            },
        }
        assert(acc.kept@ =~= a0.kept@ + bid_survivors(t, imps@));
        assert(acc.kept_dsps@ =~= a0.kept_dsps@ + repeat(dsp_id, bid_survivors(t, imps@).len()));
        assert(acc.rejected@ =~= a0.rejected@ + bid_refusals(t, imps@, Screening::Sensitive));
        assert(acc.unmatched@ =~= a0.unmatched@ + bid_refusals(t, imps@, Screening::Unmatched));
        assert(i < n);
        i = i + 1;
    }
    assert(input.take(i as int) =~= input);
}

/// `screen_bids` over every seat, in order.
fn screen_seats(seats: Vec<SeatBid>, dsp_id: u64, imps: &Vec<ImpDetail>, acc: &mut Screened)
    ensures
        final(acc).kept@ == old(acc).kept@ + seat_survivors(seats@, imps@),
        final(acc).kept_dsps@ == old(acc).kept_dsps@ + repeat(
            dsp_id,
            seat_survivors(seats@, imps@).len(),
        ),
        final(acc).rejected@ == old(acc).rejected@ + seat_refusals(
            seats@,
            imps@,
            Screening::Sensitive,
        ),
        final(acc).unmatched@ == old(acc).unmatched@ + seat_refusals(
            seats@,
            imps@,
            Screening::Unmatched,
        ),
{
    let ghost input = seats@;
    let ghost a0 = *acc;
    let n = seats.len();
    let mut i: usize = 0;
    for sb in it: seats.into_iter()
        invariant
            it.seq() == input,
            input.len() == n,
            i == it.index(),
            acc.kept@ == a0.kept@ + seat_survivors(input.take(i as int), imps@),
            acc.kept_dsps@ == a0.kept_dsps@ + repeat(
                dsp_id,
                seat_survivors(input.take(i as int), imps@).len(),
            ),
            acc.rejected@ == a0.rejected@ + seat_refusals(
                input.take(i as int),
                imps@,
                Screening::Sensitive,
            ),
            acc.unmatched@ == a0.unmatched@ + seat_refusals(
                input.take(i as int),
                imps@,
                Screening::Unmatched,
            ),
    {
        let ghost t = input.take(i + 1);
        assert(t.drop_last() =~= input.take(i as int));
        assert(t.last() == sb);
        screen_bids(sb.bid, dsp_id, imps, acc);
        assert(acc.kept@ =~= a0.kept@ + seat_survivors(t, imps@));
        assert(acc.kept_dsps@ =~= a0.kept_dsps@ + repeat(dsp_id, seat_survivors(t, imps@).len()));
        assert(acc.rejected@ =~= a0.rejected@ + seat_refusals(t, imps@, Screening::Sensitive));
        assert(acc.unmatched@ =~= a0.unmatched@ + seat_refusals(t, imps@, Screening::Unmatched));
        assert(i < n);
        i = i + 1;
    }
    assert(input.take(i as int) =~= input);
}

/// The index of the first of the highest-priced bids.
pub fn select_winner(bids: &Vec<Bid>) -> (r: usize)
    requires
        bids@.len() > 0,
    ensures
        r == best_index(bids@),
        r < bids@.len(),
{
    let mut best: usize = 0;
    let mut i: usize = 1;
    while i < bids.len()
        invariant
            1 <= i <= bids@.len(),
            best < i,
            best == best_index(bids@.take(i as int)),
        decreases bids.len() - i,
    {
        proof {
            let t = bids@.take(i + 1);
            assert(t.drop_last() =~= bids@.take(i as int));
            assert(t[best as int] == bids@[best as int]);
        }
        if bids[i].price > bids[best].price {
            best = i;
        }
        i = i + 1;
    }
    assert(bids@.take(i as int) =~= bids@);
    best
}

/// The best index is a highest-priced bid, and every bid before it is priced lower.
pub proof fn lemma_best_index(s: Seq<Bid>)
    requires
        s.len() > 0,
    ensures
        0 <= best_index(s) < s.len(),
        forall|j: int| 0 <= j < s.len() ==> #[trigger] s[j].price <= s[best_index(s)].price,
        forall|j: int| 0 <= j < best_index(s) ==> #[trigger] s[j].price < s[best_index(s)].price,
    decreases s.len(),
{
    if s.len() > 1 {
        let t = s.drop_last();
        lemma_best_index(t);
        let b = best_index(s);
        let bt = best_index(t);
        assert(t[bt] == s[bt]);
        assert forall|j: int| 0 <= j < s.len() implies #[trigger] s[j].price <= s[b].price by {
            if j < s.len() - 1 {
                assert(t[j] == s[j]);
            }
        }
        assert forall|j: int| 0 <= j < b implies #[trigger] s[j].price < s[b].price by {
            if j < s.len() - 1 {
                assert(t[j] == s[j]);
            }
        }
    }
}

/// The winner as returned: price marked down, creative rewritten for that price.
fn finalize_winner(b: Bid, rate_ppm: u64) -> (r: Bid)
    requires
        rate_ppm <= MICROS_PER_UNIT,
    ensures
        is_rewritten_winner(r, b, rate_ppm),
{
    let final_price = apply_profit_rate(b.price, rate_ppm);
    let adm = match &b.adm {
        Some(a) => Some(rewrite_creative(a.as_str(), final_price)),
        None => None,
    };
    Bid {
        id: b.id,
        impid: b.impid,
        price: final_price,
        nurl: b.nurl,
        adm,
        adid: b.adid,
        adomain: b.adomain,
        cid: b.cid,
        crid: b.crid,
        cat: b.cat,
        attr: b.attr,
        dealid: b.dealid,
        h: b.h,
        w: b.w,
        ext: b.ext,
    }
}

/// The response carrying the winner `w` for request `request_id`.
pub fn winning_response(request_id: &String, w: Bid) -> (r: BidResponse)
    ensures
        is_winning_response(r, request_id@, w),
{
    let mut bids: Vec<Bid> = Vec::new();
    bids.push(w);
    let mut seats: Vec<SeatBid> = Vec::new();
    seats.push(SeatBid { bid: bids, seat: Some(String::new()), group: Some(0) });
    proof {
        reveal_strlit("USD");
    }
    let r = BidResponse {
        id: request_id.clone(),
        seatbid: seats,
        bidid: None,
        cur: Some(String::from_str("USD")),
        customdata: None,
        nbr: None,
    };
    assert(r.seatbid@[0].bid@ =~= seq![w]);
    r
}

fn detail_record(o: &DspOutcome) -> (r: DspDetail)
    ensures
        r == detail_of(*o),
{
    DspDetail {
        dsp_id: o.dsp_id,
        url: o.url.clone(),
        bid_price: o.top_price,
        result: o.status,
        inquiry_time_ms: o.elapsed_ms,
        failure_reason: if o.status == CallStatus::Success {
            None
        } else {
            Some(o.status)
        },
    }
}

fn outcome_is_valid(o: &DspOutcome) -> (r: bool)
    ensures
        r == is_valid(*o),
{
    o.status == CallStatus::Success && o.response.nbr.is_none() && o.response.seatbid.len() > 0
}

fn failure_record(o: &DspOutcome) -> (r: DspFailure)
    ensures
        r == failure_of(*o),
{
    let reason = if o.status != CallStatus::Success {
        FailureReason::Status(o.status)
    } else {
        match o.response.nbr {
            Some(n) => FailureReason::NoBid(n),
            None => FailureReason::NoSeatbid,
        }
    };
    DspFailure {
        dsp_id: o.dsp_id,
        url: o.url.clone(),
        reason,
        result: o.status,
        inquiry_time_ms: o.elapsed_ms,
    }
}

/// The exchange's share of a price won by DSP `dsp_id`, in parts per million.
pub fn profit_rate_for(placements: &Vec<DspPlacement>, dsp_id: u64) -> (r: u64)
    ensures
        r == rate_for(placements@, dsp_id),
        r <= MICROS_PER_UNIT,
{
    let mut i: usize = 0;
    assert(placements@.skip(0) =~= placements@);
    while i < placements.len()
        invariant
            i <= placements@.len(),
            rate_for(placements@, dsp_id) == rate_for(placements@.skip(i as int), dsp_id),
        decreases placements.len() - i,
    {
        assert(placements@.skip(i as int)[0] == placements@[i as int]);
        assert(placements@.skip(i as int).skip(1) =~= placements@.skip(i + 1));
        let p = &placements[i];
        if p.dsp_id == dsp_id && p.status == 1 {
            if p.profit_rate_ppm > MICROS_PER_UNIT {
                return MICROS_PER_UNIT;
            }
            return p.profit_rate_ppm;
        }
        i = i + 1;
    }
    DEFAULT_PROFIT_RATE_PPM
}

/// The auction for `request` over outcomes already in their reporting order,
/// with the exchange's share of the winning price set by the winner's DSP placement.
pub fn settle_auction(
    request: &BidRequest,
    outcomes: Vec<DspOutcome>,
    placements: &Vec<DspPlacement>,
    elapsed_ms: u64,
) -> (r: AuctionOutcome)
    ensures
        settled(*request, outcomes@, placements@, elapsed_ms, r),
{
    let ghost input = outcomes@;
    let n = outcomes.len();
    let mut details: Vec<DspDetail> = Vec::new();
    let mut failures: Vec<DspFailure> = Vec::new();
    let mut any_valid = false;
    let mut i: usize = 0;
    while i < n
        invariant
            outcomes@ == input,
            n == input.len(),
            i <= n,
            details@ =~= input.take(i as int).map_values(|o: DspOutcome| detail_of(o)),
            failures@ == failures_of(input.take(i as int)),
            any_valid <==> has_valid(input.take(i as int)),
        decreases n - i,
    {
        let o = &outcomes[i];
        assert(input.take(i + 1).drop_last() =~= input.take(i as int));
        details.push(detail_record(o));
        if outcome_is_valid(o) {
            any_valid = true;
            assert(input.take(i + 1)[i as int] == input[i as int]);
        } else {
            failures.push(failure_record(o));
            assert forall|k: int| 0 <= k < i + 1 && is_valid(input.take(i + 1)[k]) implies 0 <= k
                < i && is_valid(input.take(i as int)[k]) by {
                if k == i {
                    assert(input.take(i + 1)[k] == input[i as int]);
                }
            }
        }
        i = i + 1;
        assert(details@ =~= input.take(i as int).map_values(|o: DspOutcome| detail_of(o)));
    }
    assert(input.take(n as int) =~= input);

    let imps = &request.imp;
    let mut acc = Screened {
        kept: Vec::new(),
        kept_dsps: Vec::new(),
        rejected: Vec::new(),
        unmatched: Vec::new(),
    };
    let mut j: usize = 0;
    for o in it: outcomes.into_iter()
        invariant
            it.seq() == input,
            input.len() == n,
            j == it.index(),
            imps@ == request.imp@,
            acc.kept@ == survivors(input.take(j as int), imps@),
            acc.kept_dsps@ == survivor_dsps(input.take(j as int), imps@),
            acc.kept_dsps@.len() == acc.kept@.len(),
            acc.rejected@ == refusals(input.take(j as int), imps@, Screening::Sensitive),
            acc.unmatched@ == refusals(input.take(j as int), imps@, Screening::Unmatched),
    {
        assert(input.take(j + 1).drop_last() =~= input.take(j as int));
        assert(input.take(j + 1).last() == o);
        if outcome_is_valid(&o) {
            screen_seats(o.response.seatbid, o.dsp_id, imps, &mut acc);
        }
        assert(j < n);
        j = j + 1;
    }
    assert(input.take(j as int) =~= input);

    let Screened { mut kept, kept_dsps, rejected, unmatched } = acc;
    let tmax_exceeded = match request.tmax {
        Some(t) => elapsed_ms > t,
        None => false,
    };
    if !any_valid || kept.len() == 0 {
        let reason = if !any_valid {
            NoFillReason::AllDspFailed
        } else {
            NoFillReason::AllBidsFiltered
        };
        return AuctionOutcome {
            details,
            failures,
            rejected_bids: rejected,
            unmatched_bids: unmatched,
            no_fill: Some(reason),
            original_price: None,
            response: None,
            elapsed_ms,
            tmax_exceeded,
        };
    }
    let w = select_winner(&kept);
    let rate_ppm = profit_rate_for(placements, kept_dsps[w]);
    let winner = kept.remove(w);
    let original_price = winner.price;
    let final_bid = finalize_winner(winner, rate_ppm);
    let response = winning_response(&request.id, final_bid);
    AuctionOutcome {
        details,
        failures,
        rejected_bids: rejected,
        unmatched_bids: unmatched,
        no_fill: None,
        original_price: Some(original_price),
        response: Some(response),
        elapsed_ms,
        tmax_exceeded,
    }
}

/// The auction for the request of `context` over the outcomes of its fan-out (in any order):
/// the outcomes are first ordered by top price, then settled with the DSP placements' rates
/// and the time elapsed since the request arrived.
pub fn process_bid_request(
    context: &Context,
    outcomes: Vec<DspOutcome>,
    placements: &Vec<DspPlacement>,
) -> (r: AuctionOutcome)
    ensures
        settled(context.bid_request, sorted_by_price(outcomes@), placements@, r.elapsed_ms, r),
{
    let ordered = order_outcomes(outcomes);
    let elapsed = context.elapsed_ms();
    settle_auction(&context.bid_request, ordered, placements, elapsed)
}

} // verus!
