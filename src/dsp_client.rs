//! One bid call per DSP: its deadline, the classification of what came back, and the order
//! in which the outcomes of a fan-out are reported.
use vstd::prelude::*;
use crate::catalog::{enabled, Demand};
use crate::openrtb::{Bid, BidResponse, SeatBid};

verus! {

/// The deadline of a call when neither the DSP nor the request sets one, in milliseconds.
pub const DEFAULT_DEADLINE_MS: u64 = 250;

/// How a bid call ended.
#[derive(PartialEq, Eq, Structural, Clone, Copy, Debug)]
pub enum CallStatus {
    Success,
    InvalidResponse,
    JsonParseError,
    Timeout,
}

impl CallStatus {
    /// The status as it is logged.
    pub fn as_str(&self) -> (r: &'static str)
        ensures
            r@ == status_name(*self),
    {
        match self {
            CallStatus::Success => "success",
            CallStatus::InvalidResponse => "invalid_response",
            CallStatus::JsonParseError => "json_parse_error",
            CallStatus::Timeout => "timeout",
        }
    }
}

pub open spec fn status_name(s: CallStatus) -> Seq<char> {
    match s {
        CallStatus::Success => "success"@,
        CallStatus::InvalidResponse => "invalid_response"@,
        CallStatus::JsonParseError => "json_parse_error"@,
        CallStatus::Timeout => "timeout"@,
    }
}

/// What the transport handed back for one call.
pub enum CallReply {
    /// A 2xx answer whose body parsed as a bid response.
    Answered(BidResponse),
    /// A 2xx answer whose body did not parse.
    Unparseable,
    /// The request failed or the answer was not 2xx.
    TransportFailed,
    /// Nothing arrived before the deadline.
    TimedOut,
}

/// One call to make: to which DSP, where, and within how many milliseconds.
pub struct CallPlan {
    pub dsp_id: u64,
    pub url: String,
    pub deadline_ms: u64,
}

/// What one call came to.
pub struct DspOutcome {
    pub dsp_id: u64,
    pub url: String,
    /// The highest bid price of the response, 0 when it has none.
    pub top_price: u64,
    pub response: BidResponse,
    pub status: CallStatus,
    pub elapsed_ms: u64,
}

/// The DSP's own deadline, else the request's `tmax`, else 250 ms.
pub open spec fn deadline_of(timeout: Option<u64>, tmax: Option<u64>) -> u64 {
    match timeout {
        Some(t) => t,
        None => match tmax {
            Some(t) => t,
            None => DEFAULT_DEADLINE_MS,
        },
    }
}

/// The deadline of a call to a DSP with deadline `timeout` for a request with budget `tmax`.
pub fn effective_deadline(timeout: Option<u64>, tmax: Option<u64>) -> (r: u64)
    ensures
        r == deadline_of(timeout, tmax),
{
    match timeout {
        Some(t) => t,
        None => match tmax {
            Some(t) => t,
            None => DEFAULT_DEADLINE_MS,
        },
    }
}

/// The call made to demand `d`.
pub open spec fn plan_of(d: Demand, tmax: Option<u64>) -> CallPlan {
    CallPlan { dsp_id: d.id, url: d.url, deadline_ms: deadline_of(d.timeout, tmax) }
}

/// One call per enabled demand, in the demands' order.
pub open spec fn plans_of(demands: Seq<Demand>, tmax: Option<u64>) -> Seq<CallPlan> {
    enabled(demands).map_values(|d: Demand| plan_of(d, tmax))
}

/// The calls of one fan-out: one per enabled demand, in order, each with its effective deadline.
pub fn plan_calls(demands: &Vec<Demand>, tmax: Option<u64>) -> (r: Vec<CallPlan>)
    ensures
        r@ == plans_of(demands@, tmax),
{
    let mut out: Vec<CallPlan> = Vec::new();
    let mut i: usize = 0;
    while i < demands.len()
        invariant
            i <= demands@.len(),
            out@ == plans_of(demands@.take(i as int), tmax),
        decreases demands.len() - i,
    {
        assert(demands@.take(i + 1).drop_last() =~= demands@.take(i as int));
        let d = &demands[i];
        if d.status {
            out.push(
                CallPlan {
                    dsp_id: d.id,
                    url: d.url.clone(),
                    deadline_ms: effective_deadline(d.timeout, tmax),
                },
            );
        }
        i = i + 1;
        assert(out@ =~= plans_of(demands@.take(i as int), tmax));
    }
    assert(demands@.take(i as int) =~= demands@);
    out
}

/// The highest price among `bids`, 0 when there is none.
pub open spec fn max_price(bids: Seq<Bid>) -> u64
    decreases bids.len(),
{
    if bids.len() == 0 {
        0
    } else {
        let m = max_price(bids.drop_last());
        if bids.last().price > m {
            bids.last().price
        } else {
            m
        }
    }
}

/// The highest price among the bids of all `seats`, 0 when there is none.
pub open spec fn max_seat_price(seats: Seq<SeatBid>) -> u64
    decreases seats.len(),
{
    if seats.len() == 0 {
        0
    } else {
        let m = max_seat_price(seats.drop_last());
        let p = max_price(seats.last().bid@);
        if p > m {
            p
        } else {
            m
        }
    }
}

/// The highest bid price of a response, 0 when it has no bid.
pub fn top_price(response: &BidResponse) -> (r: u64)
    ensures
        r == max_seat_price(response.seatbid@),
{
    let seats = &response.seatbid;
    let mut best: u64 = 0;
    let mut i: usize = 0;
    while i < seats.len()
        invariant
            i <= seats@.len(),
            best == max_seat_price(seats@.take(i as int)),
        decreases seats.len() - i,
    {
        assert(seats@.take(i + 1).drop_last() =~= seats@.take(i as int));
        let bids = &seats[i].bid;
        let mut m: u64 = 0;
        let mut j: usize = 0;
        while j < bids.len()
            invariant
                j <= bids@.len(),
                m == max_price(bids@.take(j as int)),
            decreases bids.len() - j,
        {
            assert(bids@.take(j + 1).drop_last() =~= bids@.take(j as int));
            if bids[j].price > m {
                m = bids[j].price;
            }
            j = j + 1;
        }
        assert(bids@.take(j as int) =~= bids@);
        if m > best {
            best = m;
        }
        i = i + 1;
    }
    assert(seats@.take(i as int) =~= seats@);
    best
}

/// The outcome of a call, given what the transport handed back.
pub open spec fn outcome_spec(plan: CallPlan, reply: CallReply, elapsed_ms: u64, empty: BidResponse) -> DspOutcome {
    match reply {
        CallReply::Answered(resp) => DspOutcome {
            dsp_id: plan.dsp_id,
            url: plan.url,
            top_price: max_seat_price(resp.seatbid@),
            response: resp,
            status: CallStatus::Success,
            elapsed_ms,
        },
        CallReply::Unparseable => DspOutcome {
            dsp_id: plan.dsp_id,
            url: plan.url,
            top_price: 0,
            response: empty,
            status: CallStatus::JsonParseError,
            elapsed_ms,
        },
        CallReply::TransportFailed => DspOutcome {
            dsp_id: plan.dsp_id,
            url: plan.url,
            top_price: 0,
            response: empty,
            status: CallStatus::InvalidResponse,
            elapsed_ms,
        },
        CallReply::TimedOut => DspOutcome {
            dsp_id: plan.dsp_id,
            url: plan.url,
            top_price: 0,
            response: empty,
            status: CallStatus::Timeout,
            elapsed_ms,
        },
    }
}

/// A response with nothing in it.
pub open spec fn is_empty_response(r: BidResponse) -> bool {
    r.id@.len() == 0 && r.seatbid@.len() == 0 && r.bidid is None && r.cur is None
        && r.customdata is None && r.nbr is None
}

/// Classifies one call: an answer is a success carrying its top price; an unparseable body,
/// a transport failure and a timeout each carry an empty response and a price of 0.
pub fn outcome_of(plan: CallPlan, reply: CallReply, elapsed_ms: u64) -> (r: DspOutcome)
    ensures
        reply is Answered ==> r == outcome_spec(plan, reply, elapsed_ms, r.response),
        !(reply is Answered) ==> r == outcome_spec(plan, reply, elapsed_ms, r.response)
            && is_empty_response(r.response),
{
    match reply {
        CallReply::Answered(resp) => {
            let top = top_price(&resp);
            DspOutcome {
                dsp_id: plan.dsp_id,
                url: plan.url,
                top_price: top,
                response: resp,
                status: CallStatus::Success,
                elapsed_ms,
            }
        },
        CallReply::Unparseable => DspOutcome {
            dsp_id: plan.dsp_id,
            url: plan.url,
            top_price: 0,
            response: BidResponse::empty(),
            status: CallStatus::JsonParseError,
            elapsed_ms,
        },
        CallReply::TransportFailed => DspOutcome {
            dsp_id: plan.dsp_id,
            url: plan.url,
            top_price: 0,
            response: BidResponse::empty(),
            status: CallStatus::InvalidResponse,
            elapsed_ms,
        },
        CallReply::TimedOut => DspOutcome {
            dsp_id: plan.dsp_id,
            url: plan.url,
            top_price: 0,
            response: BidResponse::empty(),
            status: CallStatus::Timeout,
            elapsed_ms,
        },
    }
}

/// `x` placed into `s` after every element whose top price is at least `x`'s.
pub open spec fn insert_by_price(s: Seq<DspOutcome>, x: DspOutcome) -> Seq<DspOutcome>
    decreases s.len(),
{
    if s.len() == 0 {
        seq![x]
    } else if s.last().top_price >= x.top_price {
        s.push(x)
    } else {
        insert_by_price(s.drop_last(), x).push(s.last())
    }
}

/// `s` ordered by top price, highest first; outcomes of equal price keep their order.
pub open spec fn sorted_by_price(s: Seq<DspOutcome>) -> Seq<DspOutcome>
    decreases s.len(),
{
    if s.len() == 0 {
        s
    } else {
        insert_by_price(sorted_by_price(s.drop_last()), s.last())
    }
}

/// Top prices never increase along `s`.
pub open spec fn price_descending(s: Seq<DspOutcome>) -> bool {
    forall|i: int, j: int| 0 <= i < j < s.len() ==> s[i].top_price >= s[j].top_price
}

proof fn lemma_insert_at(s: Seq<DspOutcome>, x: DspOutcome, p: int)
    requires
        0 <= p <= s.len(),
        forall|k: int| p <= k < s.len() ==> s[k].top_price < x.top_price,
        p > 0 ==> s[p - 1].top_price >= x.top_price,
    ensures
        insert_by_price(s, x) == s.take(p).push(x) + s.skip(p),
    decreases s.len(),
{
    if s.len() == 0 {
        assert(s.take(p).push(x) + s.skip(p) =~= seq![x]);
    } else if s.last().top_price >= x.top_price {
        assert(p == s.len());
        assert(s.take(p).push(x) + s.skip(p) =~= s.push(x));
    } else {
        lemma_insert_at(s.drop_last(), x, p);
        assert(s.drop_last().take(p).push(x) + s.drop_last().skip(p) + seq![s.last()] =~= s.take(
            p,
        ).push(x) + s.skip(p));
        assert((s.drop_last().take(p).push(x) + s.drop_last().skip(p)).push(s.last()) =~= s.take(
            p,
        ).push(x) + s.skip(p));
    }
}

/// Inserting into a price-descending sequence keeps it price-descending and adds one element.
pub proof fn lemma_insert_sorted(s: Seq<DspOutcome>, x: DspOutcome)
    requires
        price_descending(s),
    ensures
        price_descending(insert_by_price(s, x)),
        insert_by_price(s, x).len() == s.len() + 1,
        insert_by_price(s, x).to_multiset() == s.to_multiset().insert(x),
    decreases s.len(),
{
    broadcast use vstd::seq_lib::group_to_multiset_ensures;
    if s.len() == 0 {
        assert(seq![x] =~= Seq::<DspOutcome>::empty().push(x));
    } else if s.last().top_price >= x.top_price {
    } else {
        let t = s.drop_last();
        assert(price_descending(t));
        lemma_insert_sorted(t, x);
        let u = insert_by_price(t, x);
        // every element of `u` is an element of `t` or `x`, all priced at least `s.last()`
        assert forall|k: int| 0 <= k < u.len() implies u[k].top_price >= s.last().top_price by {
            assert(u.to_multiset().count(u[k]) > 0);
            assert(t.to_multiset().insert(x).count(u[k]) > 0);
            if u[k] != x {
                assert(t.to_multiset().count(u[k]) > 0);
                let m = choose|m: int| 0 <= m < t.len() && t[m] == u[k];
                assert(s[m] == t[m]);
            }
        }
        assert(s =~= t.push(s.last()));
    }
}

/// The outcome order is price-descending, a rearrangement of the input, of the same length.
pub proof fn lemma_sorted_by_price(s: Seq<DspOutcome>)
    ensures
        price_descending(sorted_by_price(s)),
        sorted_by_price(s).len() == s.len(),
        sorted_by_price(s).to_multiset() == s.to_multiset(),
    decreases s.len(),
{
    broadcast use vstd::seq_lib::group_to_multiset_ensures;
    if s.len() > 0 {
        lemma_sorted_by_price(s.drop_last());
        lemma_insert_sorted(sorted_by_price(s.drop_last()), s.last());
        assert(s =~= s.drop_last().push(s.last()));
    }
}

/// The outcomes of a fan-out ordered by top price, highest first; ties keep the input order.
pub fn order_outcomes(outcomes: Vec<DspOutcome>) -> (r: Vec<DspOutcome>)
    ensures
        r@ == sorted_by_price(outcomes@),
        price_descending(r@),
        r@.len() == outcomes@.len(),
{
    let ghost input = outcomes@;
    let n = outcomes.len();
    let mut out: Vec<DspOutcome> = Vec::new();
    let mut i: usize = 0;
    for x in it: outcomes.into_iter()
        invariant
            it.seq() == input,
            input.len() == n,
            i == it.index(),
            out@ == sorted_by_price(input.take(i as int)),
    {
        proof {
            lemma_sorted_by_price(input.take(i as int));
        }
        let mut p: usize = out.len();
        while p > 0 && out[p - 1].top_price < x.top_price
            invariant
                p <= out@.len(),
                forall|k: int| p <= k < out@.len() ==> out@[k].top_price < x.top_price,
            decreases p,
        {
            p = p - 1;
        }
        proof {
            lemma_insert_at(out@, x, p as int);
            assert(input.take(i + 1).drop_last() =~= input.take(i as int));
            assert(input.take(i + 1).last() == x);
        }
        out.insert(p, x);
        assert(out@ =~= sorted_by_price(input.take(i + 1)));
        assert(i < n);
        i = i + 1;
    }
    assert(input.take(i as int) =~= input);
    proof {
        lemma_sorted_by_price(input);
    }
    out
}

/// The outcomes of a fan-out: for each call, in order, what its reply and elapsed time come to.
pub fn collect_outcomes(plans: Vec<CallPlan>, replies: Vec<(CallReply, u64)>) -> (r: Vec<DspOutcome>)
    requires
        plans@.len() == replies@.len(),
    ensures
        r@.len() == plans@.len(),
        forall|i: int|
            0 <= i < r@.len() ==> {
                &&& #[trigger] r@[i] == outcome_spec(plans@[i], replies@[i].0, replies@[i].1, r@[i].response)
                &&& !(replies@[i].0 is Answered) ==> is_empty_response(r@[i].response)
            },
{
    let ghost ps = plans@;
    let ghost rs = replies@;
    let n = plans.len();
    let mut plans = plans;
    let mut replies = replies;
    let mut rev: Vec<DspOutcome> = Vec::new();
    // take the calls from the back, then restore their order
    while plans.len() > 0
        invariant
            plans@.len() == replies@.len(),
            plans@ == ps.take(plans@.len() as int),
            replies@ == rs.take(replies@.len() as int),
            ps.len() == n,
            rs.len() == n,
            rev@.len() + plans@.len() == n,
            forall|k: int|
                0 <= k < rev@.len() ==> {
                    let i = n - 1 - k;
                    &&& #[trigger] rev@[k] == outcome_spec(ps[i], rs[i].0, rs[i].1, rev@[k].response)
                    &&& !(rs[i].0 is Answered) ==> is_empty_response(rev@[k].response)
                },
        decreases plans@.len(),
    {
        let ghost m = plans@.len();
        let plan = plans.pop().unwrap();
        let (reply, elapsed) = replies.pop().unwrap();
        assert(plan == ps[m - 1]);
        assert(reply == rs[m - 1].0 && elapsed == rs[m - 1].1);
        rev.push(outcome_of(plan, reply, elapsed));
        assert(plans@ =~= ps.take(plans@.len() as int));
        assert(replies@ =~= rs.take(replies@.len() as int));
    }
    let mut out: Vec<DspOutcome> = Vec::new();
    while rev.len() > 0
        invariant
            ps.len() == n,
            rs.len() == n,
            rev@.len() + out@.len() == n,
            forall|k: int|
                0 <= k < rev@.len() ==> {
                    let i = n - 1 - k;
                    &&& #[trigger] rev@[k] == outcome_spec(ps[i], rs[i].0, rs[i].1, rev@[k].response)
                    &&& !(rs[i].0 is Answered) ==> is_empty_response(rev@[k].response)
                },
            forall|i: int|
                0 <= i < out@.len() ==> {
                    &&& #[trigger] out@[i] == outcome_spec(ps[i], rs[i].0, rs[i].1, out@[i].response)
                    &&& !(rs[i].0 is Answered) ==> is_empty_response(out@[i].response)
                },
        decreases rev@.len(),
    {
        let ghost m = rev@.len();
        let o = rev.pop().unwrap();
        out.push(o);
    }
    out
}

} // verus!
