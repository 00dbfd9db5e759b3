//! The log lines of one auction, as JSON texts: the DSPs that offered nothing, the refused
//! bids, the no-fill, a `tmax` overrun, and the aggregated record.
use vstd::prelude::*;
use crate::dsp_client::{status_name, CallStatus};
use crate::engine::{AuctionOutcome, DspDetail, DspFailure, FailureReason, NoFillReason};
use crate::json::{json_quoted, json_string};
use crate::logging::Level;
use crate::openrtb::Bid;
use crate::price::{decimal, price_text, push_decimal, render_price};

verus! {

/// One line to log.
pub struct LogLine {
    pub level: Level,
    pub text: String,
}

/// A signed integer in decimal.
pub open spec fn int_text(n: i32) -> Seq<char> {
    if n < 0 {
        seq!['-'] + decimal((-(n as int)) as nat)
    } else {
        decimal(n as nat)
    }
}

/// An optional string as JSON: the string literal, or `null`.
pub open spec fn opt_text(o: Option<String>) -> Seq<char> {
    match o {
        Some(s) => json_quoted(s@),
        None => "null"@,
    }
}

/// The items joined by commas.
pub open spec fn joined(items: Seq<Seq<char>>) -> Seq<char>
    decreases items.len(),
{
    if items.len() == 0 {
        Seq::empty()
    } else if items.len() == 1 {
        items[0]
    } else {
        joined(items.drop_last()) + seq![','] + items.last()
    }
}

pub open spec fn reason_member(r: FailureReason) -> Seq<char> {
    match r {
        FailureReason::NoBid(n) => ",\"nbr\":"@ + int_text(n),
        FailureReason::NoSeatbid => ",\"reason\":\"no_seatbid\""@,
        FailureReason::Status(s) => ",\"reason\":"@ + json_quoted(status_name(s)),
    }
}

/// A DSP that offered nothing, with its specific reason.
pub open spec fn failure_text(f: DspFailure) -> Seq<char> {
    "{\"dsp_id\":"@ + decimal(f.dsp_id as nat) + ",\"url\":"@ + json_quoted(f.url@)
        + ",\"result\":"@ + json_quoted(status_name(f.result)) + ",\"inquiry_time_ms\":"@
        + decimal(f.inquiry_time_ms as nat) + reason_member(f.reason) + "}"@
}

/// One DSP call in the aggregated record.
pub open spec fn detail_text(d: DspDetail) -> Seq<char> {
    "{\"dsp_id\":"@ + decimal(d.dsp_id as nat) + ",\"url\":"@ + json_quoted(d.url@)
        + ",\"bid_price\":"@ + price_text(d.bid_price as nat) + ",\"result\":"@ + json_quoted(
        status_name(d.result),
    ) + ",\"inquiry_time_ms\":"@ + decimal(d.inquiry_time_ms as nat) + ",\"failure_reason\":"@
        + match d.failure_reason {
        Some(s) => json_quoted(status_name(s)),
        None => "null"@,
    } + "}"@
}

/// The winning bid in the aggregated record, with its price before the markdown.
pub open spec fn winner_text(b: Bid, original_price: u64) -> Seq<char> {
    "{\"id\":"@ + json_quoted(b.id@) + ",\"impid\":"@ + json_quoted(b.impid@) + ",\"price\":"@
        + price_text(b.price as nat) + ",\"original_price\":"@ + price_text(original_price as nat)
        + ",\"adm\":"@ + opt_text(b.adm) + ",\"crid\":"@ + opt_text(b.crid) + "}"@
}

/// The request id member that opens every line.
pub open spec fn head_text(request_id: Seq<char>, kind: Seq<char>) -> Seq<char> {
    "{\"request_id\":"@ + json_quoted(request_id) + ",\"adx_log\":"@ + json_quoted(kind)
}

pub open spec fn failures_text(request_id: Seq<char>, fs: Seq<DspFailure>) -> Seq<char> {
    head_text(request_id, "dsp_inquiry_failed"@) + ",\"details\":["@ + joined(
        fs.map_values(|f: DspFailure| failure_text(f)),
    ) + "]}"@
}

pub open spec fn refused_text(request_id: Seq<char>, bid_id: Seq<char>, reason: Seq<char>) -> Seq<
    char,
> {
    head_text(request_id, "bid_rejected"@) + ",\"bid_id\":"@ + json_quoted(bid_id)
        + ",\"reason\":"@ + json_quoted(reason) + "}"@
}

pub open spec fn no_fill_name(n: NoFillReason) -> Seq<char> {
    match n {
        NoFillReason::AllDspFailed => "all_dsp_failed"@,
        NoFillReason::AllBidsFiltered => "all_bids_filtered"@,
    }
}

pub open spec fn no_fill_text(request_id: Seq<char>, n: NoFillReason) -> Seq<char> {
    head_text(request_id, "adx_inquiry_failed"@) + ",\"reason\":"@ + json_quoted(no_fill_name(n))
        + "}"@
}

pub open spec fn overrun_text(request_id: Seq<char>, elapsed_ms: u64, tmax: u64) -> Seq<char> {
    head_text(request_id, "tmax_exceeded"@) + ",\"elapsed_time_ms\":"@ + decimal(
        elapsed_ms as nat,
    ) + ",\"tmax\":"@ + decimal(tmax as nat) + "}"@
}

/// The auction's winning bid, when its response holds one.
pub open spec fn has_winner(r: AuctionOutcome) -> bool {
    r.response matches Some(resp) && resp.seatbid@.len() > 0 && resp.seatbid@[0].bid@.len() > 0
}

/// The aggregated record: request id, outcome, winner, every DSP call, elapsed time.
pub open spec fn summary_text(request_id: Seq<char>, r: AuctionOutcome) -> Seq<char> {
    "{\"request_id\":"@ + json_quoted(request_id) + ",\"adx_inquiry_result\":"@ + (if r.no_fill
        is None {
        "\"success\""@
    } else {
        "\"failed\""@
    }) + ",\"winning_bid\":"@ + (if has_winner(r) {
        winner_text(
            r.response->0.seatbid@[0].bid@[0],
            match r.original_price {
                Some(p) => p,
                None => 0,
            },
        )
    } else {
        "null"@
    }) + ",\"dsp_call_details\":["@ + joined(r.details@.map_values(|d: DspDetail| detail_text(d)))
        + "]"@ + ",\"elapsed_time_ms\":"@ + decimal(r.elapsed_ms as nat) + "}"@
}

/// The lines of an auction, in order: the failed DSPs (one error line, when there are any),
/// each bid refused for its content, then each refused for its impression (warnings), the
/// no-fill (error), a `tmax` overrun (warning), and the aggregated record (info).
pub open spec fn auction_lines(request_id: Seq<char>, tmax: Option<u64>, r: AuctionOutcome) -> Seq<
    (Level, Seq<char>),
> {
    (if r.failures@.len() > 0 {
        seq![(Level::Error, failures_text(request_id, r.failures@))]
    } else {
        Seq::empty()
    }) + r.rejected_bids@.map_values(
        |id: String| (Level::Warn, refused_text(request_id, id@, "contains_sensitive_content"@)),
    ) + r.unmatched_bids@.map_values(
        |id: String| (Level::Warn, refused_text(request_id, id@, "unknown_impression"@)),
    ) + (match r.no_fill {
        Some(n) => seq![(Level::Error, no_fill_text(request_id, n))],
        None => Seq::empty(),
    }) + (if r.tmax_exceeded && tmax is Some {
        seq![(Level::Warn, overrun_text(request_id, r.elapsed_ms, tmax->0))]
    } else {
        Seq::empty()
    }) + seq![(Level::Info, summary_text(request_id, r))]
}

fn push_int(out: &mut String, n: i32)
    ensures
        final(out)@ == old(out)@ + int_text(n),
{
    if n < 0 {
        out.append("-");
        proof {
            reveal_strlit("-");
        }
        let m: u64 = (0i64 - n as i64) as u64;
        push_decimal(out, m);
    } else {
        push_decimal(out, n as u64);
    }
}

fn push_quoted(out: &mut String, s: &str)
    ensures
        final(out)@ == old(out)@ + json_quoted(s@),
{
    let q = json_string(s);
    out.append(q.as_str());
}

fn push_opt(out: &mut String, o: &Option<String>)
    ensures
        final(out)@ == old(out)@ + opt_text(*o),
{
    match o {
        Some(s) => push_quoted(out, s.as_str()),
        None => out.append("null"),
    }
}

fn push_failure(out: &mut String, f: &DspFailure)
    ensures
        final(out)@ == old(out)@ + failure_text(*f),
{
    out.append("{\"dsp_id\":");
    push_decimal(out, f.dsp_id);
    out.append(",\"url\":");
    push_quoted(out, f.url.as_str());
    out.append(",\"result\":");
    push_quoted(out, f.result.as_str());
    out.append(",\"inquiry_time_ms\":");
    push_decimal(out, f.inquiry_time_ms);
    match f.reason {
        FailureReason::NoBid(n) => {
            out.append(",\"nbr\":");
            push_int(out, n);
        },
        FailureReason::NoSeatbid => out.append(",\"reason\":\"no_seatbid\""),
        FailureReason::Status(s) => {
            out.append(",\"reason\":");
            push_quoted(out, s.as_str());
        },
    }
    out.append("}");
    assert(final(out)@ =~= old(out)@ + failure_text(*f));
}

fn push_detail(out: &mut String, d: &DspDetail)
    ensures
        final(out)@ == old(out)@ + detail_text(*d),
{
    out.append("{\"dsp_id\":");
    push_decimal(out, d.dsp_id);
    out.append(",\"url\":");
    push_quoted(out, d.url.as_str());
    out.append(",\"bid_price\":");
    out.append(render_price(d.bid_price).as_str());
    out.append(",\"result\":");
    push_quoted(out, d.result.as_str());
    out.append(",\"inquiry_time_ms\":");
    push_decimal(out, d.inquiry_time_ms);
    out.append(",\"failure_reason\":");
    match d.failure_reason {
        Some(s) => push_quoted(out, s.as_str()),
        None => out.append("null"),
    }
    out.append("}");
    assert(final(out)@ =~= old(out)@ + detail_text(*d));
}

fn push_winner(out: &mut String, b: &Bid, original_price: u64)
    ensures
        final(out)@ == old(out)@ + winner_text(*b, original_price),
{
    out.append("{\"id\":");
    push_quoted(out, b.id.as_str());
    out.append(",\"impid\":");
    push_quoted(out, b.impid.as_str());
    out.append(",\"price\":");
    out.append(render_price(b.price).as_str());
    out.append(",\"original_price\":");
    out.append(render_price(original_price).as_str());
    out.append(",\"adm\":");
    push_opt(out, &b.adm);
    out.append(",\"crid\":");
    push_opt(out, &b.crid);
    out.append("}");
    assert(final(out)@ =~= old(out)@ + winner_text(*b, original_price));
}

fn head(request_id: &str, kind: &str) -> (r: String)
    ensures
        r@ == head_text(request_id@, kind@),
{
    let mut out = String::from_str("{\"request_id\":");
    push_quoted(&mut out, request_id);
    out.append(",\"adx_log\":");
    push_quoted(&mut out, kind);
    out
}

/// The error line listing the DSPs that offered nothing.
pub fn failures_line(request_id: &str, fs: &Vec<DspFailure>) -> (r: String)
    ensures
        r@ == failures_text(request_id@, fs@),
{
    let mut out = head(request_id, "dsp_inquiry_failed");
    out.append(",\"details\":[");
    let ghost start = out@;
    let mut i: usize = 0;
    while i < fs.len()
        invariant
            i <= fs@.len(),
            out@ == start + joined(fs@.take(i as int).map_values(|f: DspFailure| failure_text(f))),
        decreases fs.len() - i,
    {
        let ghost items = fs@.take(i + 1).map_values(|f: DspFailure| failure_text(f));
        assert(items.drop_last() =~= fs@.take(i as int).map_values(|f: DspFailure| failure_text(f)));
        if i > 0 {
            out.append(",");
            proof {
                reveal_strlit(",");
            }
        }
        push_failure(&mut out, &fs[i]);
        proof {
            if i == 0 {
                assert(items.len() == 1);
                assert(joined(fs@.take(0).map_values(|f: DspFailure| failure_text(f))) =~= Seq::<char>::empty());
            }
        }
        assert(out@ =~= start + joined(items));
        i = i + 1;
    }
    assert(fs@.take(i as int) =~= fs@);
    out.append("]}");
    out
}

/// The warning line for a refused bid.
pub fn refused_line(request_id: &str, bid_id: &str, reason: &str) -> (r: String)
    ensures
        r@ == refused_text(request_id@, bid_id@, reason@),
{
    let mut out = head(request_id, "bid_rejected");
    out.append(",\"bid_id\":");
    push_quoted(&mut out, bid_id);
    out.append(",\"reason\":");
    push_quoted(&mut out, reason);
    out.append("}");
    out
}

/// The aggregated record of an auction.
pub fn summary_line(request_id: &str, r: &AuctionOutcome) -> (t: String)
    ensures
        t@ == summary_text(request_id@, *r),
{
    let mut out = String::from_str("{\"request_id\":");
    push_quoted(&mut out, request_id);
    out.append(",\"adx_inquiry_result\":");
    if r.no_fill.is_none() {
        out.append("\"success\"");
    } else {
        out.append("\"failed\"");
    }
    out.append(",\"winning_bid\":");
    let mut wrote = false;
    match &r.response {
        Some(resp) => {
            if resp.seatbid.len() > 0 && resp.seatbid[0].bid.len() > 0 {
                let op = match r.original_price {
                    Some(p) => p,
                    None => 0,
                };
                push_winner(&mut out, &resp.seatbid[0].bid[0], op);
                wrote = true;
            }
        },
        None => {},
    }
    if !wrote {
        out.append("null");
    }
    out.append(",\"dsp_call_details\":[");
    let ghost start = out@;
    let ds = &r.details;
    let mut i: usize = 0;
    while i < ds.len()
        invariant
            i <= ds@.len(),
            out@ == start + joined(ds@.take(i as int).map_values(|d: DspDetail| detail_text(d))),
        decreases ds.len() - i,
    {
        let ghost items = ds@.take(i + 1).map_values(|d: DspDetail| detail_text(d));
        assert(items.drop_last() =~= ds@.take(i as int).map_values(|d: DspDetail| detail_text(d)));
        if i > 0 {
            out.append(",");
            proof {
                reveal_strlit(",");
            }
        }
        push_detail(&mut out, &ds[i]);
        proof {
            if i == 0 {
                assert(items.len() == 1);
                assert(joined(ds@.take(0).map_values(|d: DspDetail| detail_text(d))) =~= Seq::<char>::empty());
            }
        }
        assert(out@ =~= start + joined(items));
        i = i + 1;
    }
    assert(ds@.take(i as int) =~= ds@);
    out.append("]");
    out.append(",\"elapsed_time_ms\":");
    push_decimal(&mut out, r.elapsed_ms);
    out.append("}");
    out
}

/// `lines` holds exactly the levels and texts of `spec`.
pub open spec fn lines_match(lines: Seq<LogLine>, spec: Seq<(Level, Seq<char>)>) -> bool {
    &&& lines.len() == spec.len()
    &&& forall|i: int|
        0 <= i < lines.len() ==> (#[trigger] lines[i]).level == spec[i].0 && lines[i].text@
            == spec[i].1
}

fn push_line(out: &mut Vec<LogLine>, level: Level, text: String, ghost_spec: Ghost<Seq<(Level, Seq<char>)>>)
    requires
        lines_match(old(out)@, ghost_spec@),
    ensures
        lines_match(final(out)@, ghost_spec@.push((level, text@))),
{
    let ghost t = text@;
    out.push(LogLine { level, text });
    assert forall|i: int| 0 <= i < out@.len() implies (#[trigger] out@[i]).level == ghost_spec@.push(
        (level, t),
    )[i].0 && out@[i].text@ == ghost_spec@.push((level, t))[i].1 by {}
}

/// The lines to log for an auction of request `request_id` with budget `tmax`.
pub fn auction_log_lines(request_id: &str, tmax: Option<u64>, r: &AuctionOutcome) -> (lines: Vec<
    LogLine,
>)
    ensures
        lines_match(lines@, auction_lines(request_id@, tmax, *r)),
{
    let mut out: Vec<LogLine> = Vec::new();
    let ghost mut sp: Seq<(Level, Seq<char>)> = Seq::empty();
    if r.failures.len() > 0 {
        push_line(&mut out, Level::Error, failures_line(request_id, &r.failures), Ghost(sp));
        proof {
            sp = sp.push((Level::Error, failures_text(request_id@, r.failures@)));
        }
    }
    assert(sp =~= (if r.failures@.len() > 0 {
        seq![(Level::Error, failures_text(request_id@, r.failures@))]
    } else {
        Seq::<(Level, Seq<char>)>::empty()
    }));
    let ghost base = sp;
    let mut i: usize = 0;
    while i < r.rejected_bids.len()
        invariant
            i <= r.rejected_bids@.len(),
            sp == base + r.rejected_bids@.take(i as int).map_values(
                |id: String| (Level::Warn, refused_text(request_id@, id@, "contains_sensitive_content"@)),
            ),
            lines_match(out@, sp),
        decreases r.rejected_bids.len() - i,
    {
        let line = refused_line(request_id, r.rejected_bids[i].as_str(), "contains_sensitive_content");
        push_line(&mut out, Level::Warn, line, Ghost(sp));
        proof {
            sp = sp.push((Level::Warn, refused_text(request_id@, r.rejected_bids@[i as int]@, "contains_sensitive_content"@)));
        }
        assert(sp =~= base + r.rejected_bids@.take(i + 1).map_values(
            |id: String| (Level::Warn, refused_text(request_id@, id@, "contains_sensitive_content"@)),
        ));
        i = i + 1;
    }
    assert(r.rejected_bids@.take(i as int) =~= r.rejected_bids@);
    let ghost base2 = sp;
    let mut k: usize = 0;
    while k < r.unmatched_bids.len()
        invariant
            k <= r.unmatched_bids@.len(),
            sp == base2 + r.unmatched_bids@.take(k as int).map_values(
                |id: String| (Level::Warn, refused_text(request_id@, id@, "unknown_impression"@)),
            ),
            lines_match(out@, sp),
        decreases r.unmatched_bids.len() - k,
    {
        let line = refused_line(request_id, r.unmatched_bids[k].as_str(), "unknown_impression");
        push_line(&mut out, Level::Warn, line, Ghost(sp));
        proof {
            sp = sp.push((Level::Warn, refused_text(request_id@, r.unmatched_bids@[k as int]@, "unknown_impression"@)));
        }
        assert(sp =~= base2 + r.unmatched_bids@.take(k + 1).map_values(
            |id: String| (Level::Warn, refused_text(request_id@, id@, "unknown_impression"@)),
        ));
        k = k + 1;
    }
    assert(r.unmatched_bids@.take(k as int) =~= r.unmatched_bids@);
    let ghost base3 = sp;
    match r.no_fill {
        Some(n) => {
            let mut t = head(request_id, "adx_inquiry_failed");
            t.append(",\"reason\":");
            match n {
                NoFillReason::AllDspFailed => push_quoted(&mut t, "all_dsp_failed"),
                NoFillReason::AllBidsFiltered => push_quoted(&mut t, "all_bids_filtered"),
            }
            t.append("}");
            assert(t@ =~= no_fill_text(request_id@, n));
            push_line(&mut out, Level::Error, t, Ghost(sp));
            proof {
                sp = sp.push((Level::Error, no_fill_text(request_id@, n)));
            }
        },
        None => {},
    }
    let ghost base4 = sp;
    if r.tmax_exceeded && tmax.is_some() {
        let tm = match tmax {
            Some(x) => x,
            None => 0,
        };
        let mut t = head(request_id, "tmax_exceeded");
        t.append(",\"elapsed_time_ms\":");
        push_decimal(&mut t, r.elapsed_ms);
        t.append(",\"tmax\":");
        push_decimal(&mut t, tm);
        t.append("}");
        assert(t@ =~= overrun_text(request_id@, r.elapsed_ms, tm));
        push_line(&mut out, Level::Warn, t, Ghost(sp));
        proof {
            sp = sp.push((Level::Warn, overrun_text(request_id@, r.elapsed_ms, tm)));
        }
    }
    let ghost base5 = sp;
    push_line(&mut out, Level::Info, summary_line(request_id, r), Ghost(sp));
    proof {
        sp = sp.push((Level::Info, summary_text(request_id@, *r)));
    }
    assert(sp =~= auction_lines(request_id@, tmax, *r));
    out
}

} // verus!
