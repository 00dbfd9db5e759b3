use rust_adx::auction_log::auction_log_lines;
use rust_adx::catalog::{generate_demand_manager, ConfigManager, Demand, DemandManager};
use rust_adx::context::Context;
use rust_adx::dsp_client::{
    collect_outcomes, effective_deadline, order_outcomes, plan_calls, top_price, CallPlan, CallReply, CallStatus,
    DspOutcome,
};
use rust_adx::engine::{
    contains_sensitive_content, process_bid_request, profit_rate_for, select_winner, settle_auction, FailureReason,
    NoFillReason,
};
use rust_adx::front::{build_context, reply_for, FrontError, STATUS_NO_CONTENT, STATUS_OK};
use rust_adx::openrtb::{BannerDetail, Bid, BidRequest, BidResponse, ImpDetail, SeatBid, VideoDetail};
use rust_adx::logging::Level;
use rust_adx::placements::{AdType, DspPlacement, Ssp, SspPlacement};

const HTML_AD: &str = "<html><body>Ad {AUCTION_PRICE}</body></html>";
const PIXEL: &str = "<img src=\"http://tk.rust-adx.com/impression?price={AUCTION_PRICE}\" style=\"display:none;\" />";

fn imp(id: &str, floor: Option<u64>, banner: Option<(i32, i32)>, video: bool) -> ImpDetail {
    ImpDetail {
        id: id.to_string(),
        bidfloor: floor,
        banner: banner.map(|(w, h)| BannerDetail { w, h }),
        video: if video {
            Some(VideoDetail {
                mimes: vec!["video/mp4".to_string()],
                minduration: None,
                maxduration: None,
                protocols: None,
                w: None,
                h: None,
            })
        } else {
            None
        },
        audio: None,
        native: None,
        pmp: None,
    }
}

fn request(id: &str, tmax: Option<u64>, imps: Vec<ImpDetail>) -> BidRequest {
    BidRequest {
        id: id.to_string(),
        imp: imps,
        site: None,
        app: None,
        device: None,
        user: None,
        source: None,
        regs: None,
        test: None,
        at: None,
        tmax,
        wseat: None,
        bseat: None,
        allimps: None,
        cur: None,
        wlang: None,
        bcat: None,
        badv: None,
    }
}

fn bid(id: &str, impid: &str, price: u64, adm: Option<&str>, crid: Option<&str>) -> Bid {
    Bid {
        id: id.to_string(),
        impid: impid.to_string(),
        price,
        nurl: None,
        adm: adm.map(|s| s.to_string()),
        adid: None,
        adomain: None,
        cid: None,
        crid: crid.map(|s| s.to_string()),
        cat: None,
        attr: None,
        dealid: None,
        h: None,
        w: None,
        ext: None,
    }
}

fn answer(bids: Vec<Bid>) -> BidResponse {
    BidResponse {
        id: "R".to_string(),
        seatbid: vec![SeatBid { bid: bids, seat: Some("s".to_string()), group: None }],
        bidid: None,
        cur: Some("USD".to_string()),
        customdata: None,
        nbr: None,
    }
}

fn no_bid(nbr: i32) -> BidResponse {
    BidResponse { id: "R".to_string(), seatbid: vec![], bidid: None, cur: None, customdata: None, nbr: Some(nbr) }
}

fn placement(dsp_id: u64, rate_ppm: u64, status: u8) -> DspPlacement {
    DspPlacement {
        dsp_id,
        dsp_uuid: format!("dsp-{}", dsp_id),
        tag_id: "t".to_string(),
        custom_ad_type: "banner".to_string(),
        profit_rate_ppm: rate_ppm,
        auth: "{}".to_string(),
        update_time: 0,
        status,
    }
}

fn context(req: BidRequest) -> Context {
    let ssp = Ssp { id: 1, uuid: "ssp-1".to_string(), name: "ssp".to_string(), qps: 100 };
    let placement = SspPlacement {
        ssp_id: 1,
        ssp_uuid: "ssp-1".to_string(),
        placement_id: "p1".to_string(),
        ad_type: AdType::Banner,
        update_time: 0,
        status: 1,
    };
    Context::new(req, ssp, placement)
}

fn demands(timeouts: &[Option<u64>]) -> Vec<Demand> {
    timeouts
        .iter()
        .enumerate()
        .map(|(i, t)| Demand::new(i as u64 + 1, &format!("d{}_dsp", i + 1), &format!("http://dsp{}/bid", i + 1), true, *t))
        .collect()
}

fn outcome(dsp_id: u64, top: u64, status: CallStatus, response: BidResponse) -> DspOutcome {
    DspOutcome { dsp_id, url: format!("http://dsp{}/bid", dsp_id), top_price: top, response, status, elapsed_ms: 10 }
}

#[test]
fn happy_path_banner() {
    let req = request("R1", Some(250), vec![imp("i1", Some(1_000_000), Some((300, 250)), false)]);
    let ds = demands(&[None, None, None]);
    let plans = plan_calls(&ds, req.tmax);
    assert_eq!(plans.len(), 3);
    assert!(plans.iter().all(|p| p.deadline_ms == 250));
    let replies = vec![
        (CallReply::Answered(answer(vec![bid("b1", "i1", 2_000_000, Some(HTML_AD), None)])), 20),
        (CallReply::Answered(answer(vec![bid("b2", "i1", 2_500_000, Some(HTML_AD), None)])), 30),
        (CallReply::Answered(answer(vec![bid("b3", "i1", 1_800_000, Some(HTML_AD), None)])), 40),
    ];
    let outcomes = collect_outcomes(plans, replies);
    let ctx = context(req);
    let result = process_bid_request(&ctx, outcomes, &vec![]);
    assert!(result.no_fill.is_none());
    assert_eq!(result.original_price, Some(2_500_000));
    let prices: Vec<u64> = result.details.iter().map(|d| d.bid_price).collect();
    assert_eq!(prices, vec![2_500_000, 2_000_000, 1_800_000]);
    let reply = reply_for(&ctx.bid_request.id, result.response);
    assert_eq!(reply.status, STATUS_OK);
    assert_eq!(reply.body.id, "R1");
    assert_eq!(reply.body.seatbid.len(), 1);
    assert_eq!(reply.body.seatbid[0].bid.len(), 1);
    let w = &reply.body.seatbid[0].bid[0];
    assert_eq!(w.id, "b2");
    assert_eq!(w.impid, "i1");
    assert_eq!(w.price, 2_000_000);
    let expected = format!("<html><body>Ad 2</body>{}</html>", PIXEL);
    assert_eq!(w.adm.as_deref(), Some(expected.as_str()));
    assert_eq!(reply.body.cur.as_deref(), Some("USD"));
    assert!(reply.body.nbr.is_none());
}

#[test]
fn all_dsps_time_out() {
    let req = request("R2", None, vec![imp("i1", Some(1_000_000), Some((300, 250)), false)]);
    let ds = demands(&[Some(100), Some(100)]);
    let plans = plan_calls(&ds, req.tmax);
    assert!(plans.iter().all(|p| p.deadline_ms == 100));
    let outcomes = collect_outcomes(plans, vec![(CallReply::TimedOut, 100), (CallReply::TimedOut, 101)]);
    let ctx = context(req);
    let result = process_bid_request(&ctx, outcomes, &vec![]);
    assert_eq!(result.no_fill, Some(NoFillReason::AllDspFailed));
    assert_eq!(result.details.len(), 2);
    assert!(result.details.iter().all(|d| d.result == CallStatus::Timeout));
    assert!(result.details.iter().all(|d| d.failure_reason == Some(CallStatus::Timeout)));
    assert_eq!(result.failures.len(), 2);
    assert!(result.failures.iter().all(|f| f.reason == FailureReason::Status(CallStatus::Timeout)));
    let reply = reply_for(&ctx.bid_request.id, result.response);
    assert_eq!(reply.status, STATUS_NO_CONTENT);
    assert!(reply.body.seatbid.is_empty());
    assert_eq!(reply.body.nbr, Some(3));
    assert_eq!(reply.body.cur.as_deref(), Some("USD"));
    assert_eq!(reply.body.id, "R2");
}

#[test]
fn sensitive_bid_is_filtered() {
    let outcomes = vec![outcome(
        1,
        2_000_000,
        CallStatus::Success,
        answer(vec![bid("b7", "i1", 2_000_000, Some("<html><body>x</body></html>"), Some("banned-creative-7"))]),
    )];
    let result = settle_auction(&request("R3", None, vec![imp("i1", None, None, false)]), outcomes, &vec![], 5);
    assert_eq!(result.no_fill, Some(NoFillReason::AllBidsFiltered));
    assert_eq!(result.rejected_bids, vec!["b7".to_string()]);
    assert!(result.response.is_none());
    assert!(result.failures.is_empty());
    let reply = reply_for(&"R3".to_string(), result.response);
    assert_eq!(reply.status, STATUS_NO_CONTENT);
    assert_eq!(reply.body.nbr, Some(3));
}

#[test]
fn mixed_success_and_failure() {
    let vast = "<VAST version=\"3.0\"><Ad><InLine><AdSystem>A</AdSystem>{AUCTION_PRICE}</InLine><InLine></InLine></Ad></VAST>";
    let req = request("R4", None, vec![imp("i1", Some(1_000_000), None, true)]);
    let ds = demands(&[None, None, None]);
    let plans = plan_calls(&ds, req.tmax);
    let replies = vec![
        (CallReply::Answered(answer(vec![bid("bv", "i1", 3_000_000, Some(vast), None)])), 50),
        (CallReply::Answered(no_bid(2)), 20),
        (CallReply::TimedOut, 250),
    ];
    let outcomes = collect_outcomes(plans, replies);
    let ctx = context(req);
    let result = process_bid_request(&ctx, outcomes, &vec![]);
    let prices: Vec<u64> = result.details.iter().map(|d| d.bid_price).collect();
    assert_eq!(prices, vec![3_000_000, 0, 0]);
    assert_eq!(result.failures.len(), 2);
    assert_eq!(result.failures[0].reason, FailureReason::NoBid(2));
    assert_eq!(result.failures[1].reason, FailureReason::Status(CallStatus::Timeout));
    let reply = reply_for(&ctx.bid_request.id, result.response);
    assert_eq!(reply.status, STATUS_OK);
    let w = &reply.body.seatbid[0].bid[0];
    assert_eq!(w.price, 2_400_000);
    let imp_frag = "<Impression><![CDATA[http://tk.rust-adx.com/impression?price={AUCTION_PRICE}]]></Impression>";
    let expected = format!(
        "<VAST version=\"3.0\"><Ad><InLine>{}<AdSystem>A</AdSystem>2.4</InLine><InLine></InLine></Ad></VAST>",
        imp_frag
    );
    assert_eq!(w.adm.as_deref(), Some(expected.as_str()));
}

#[test]
fn tmax_overrun_still_wins() {
    let ds = demands(&[Some(500)]);
    let plans = plan_calls(&ds, Some(50));
    assert_eq!(plans[0].deadline_ms, 500);
    let outcomes = collect_outcomes(
        plans,
        vec![(CallReply::Answered(answer(vec![bid("b", "i1", 1_000_000, Some("<html>x</html>"), None)])), 200)],
    );
    let result = settle_auction(&request("R5", Some(50), vec![imp("i1", None, None, false)]), order_outcomes(outcomes), &vec![], 200);
    assert!(result.tmax_exceeded);
    assert_eq!(result.elapsed_ms, 200);
    assert!(result.response.is_some());
    let reply = reply_for(&"R5".to_string(), result.response);
    assert_eq!(reply.status, STATUS_OK);
}

#[test]
fn within_tmax_is_not_flagged() {
    let outcomes = vec![outcome(1, 1, CallStatus::Success, answer(vec![bid("b", "i1", 1, None, None)]))];
    let result = settle_auction(&request("R", Some(50), vec![imp("i1", None, None, false)]), outcomes, &vec![placement(1, 0, 1)], 50);
    assert!(!result.tmax_exceeded);
    let w = &result.response.unwrap().seatbid[0].bid[0];
    assert_eq!(w.price, 1);
    assert!(w.adm.is_none());
}

#[test]
fn native_json_gets_tracking_members() {
    let outcomes = vec![outcome(
        1,
        1_000_000,
        CallStatus::Success,
        answer(vec![bid("bn", "i1", 1_000_000, Some("{\"native\":{\"assets\":[]}}"), None)]),
    )];
    let result = settle_auction(&request("R6", None, vec![imp("i1", None, None, false)]), outcomes, &vec![], 1);
    let resp = result.response.unwrap();
    let adm = resp.seatbid[0].bid[0].adm.clone().unwrap();
    let v: serde_json::Value = serde_json::from_str(&adm).unwrap();
    let obj = v.as_object().unwrap();
    assert!(obj.contains_key("ssp_impression_tracking"));
    assert!(obj.contains_key("ssp_click_tracking"));
    assert!(obj.contains_key("native"));
}

#[test]
fn winner_ties_keep_first() {
    let outcomes = vec![
        outcome(1, 2, CallStatus::Success, answer(vec![bid("a", "i1", 2, None, None)])),
        outcome(2, 2, CallStatus::Success, answer(vec![bid("b", "i1", 2, None, None)])),
    ];
    let result = settle_auction(&request("R", None, vec![imp("i1", None, None, false)]), outcomes, &vec![], 0);
    assert_eq!(result.response.unwrap().seatbid[0].bid[0].id, "a");
    let bids = vec![bid("x", "i", 1, None, None), bid("y", "i", 5, None, None), bid("z", "i", 5, None, None)];
    assert_eq!(select_winner(&bids), 1);
}

#[test]
fn empty_seat_and_no_seatbid_failures() {
    let outcomes = vec![
        outcome(1, 0, CallStatus::Success, BidResponse { id: "R".into(), seatbid: vec![], bidid: None, cur: None, customdata: None, nbr: None }),
        outcome(2, 0, CallStatus::Success, answer(vec![])),
    ];
    let result = settle_auction(&request("R", None, vec![imp("i1", None, None, false)]), outcomes, &vec![], 0);
    assert_eq!(result.failures.len(), 1);
    assert_eq!(result.failures[0].reason, FailureReason::NoSeatbid);
    assert_eq!(result.no_fill, Some(NoFillReason::AllBidsFiltered));
}

#[test]
fn sensitive_words_in_markup_or_crid() {
    assert!(contains_sensitive_content(&bid("a", "i", 1, Some("this is forbidden"), None)));
    assert!(contains_sensitive_content(&bid("a", "i", 1, None, Some("restricted-1"))));
    assert!(contains_sensitive_content(&bid("a", "i", 1, Some("ban"), Some("ned"))));
    assert!(!contains_sensitive_content(&bid("a", "i", 1, Some("ban ned"), Some("x"))));
    assert!(!contains_sensitive_content(&bid("a", "i", 1, Some("Banned"), None)));
}

#[test]
fn outcomes_sorted_stably_by_price() {
    let outcomes = vec![
        outcome(1, 1, CallStatus::Success, answer(vec![])),
        outcome(2, 3, CallStatus::Success, answer(vec![])),
        outcome(3, 1, CallStatus::Success, answer(vec![])),
        outcome(4, 3, CallStatus::Success, answer(vec![])),
    ];
    let ids: Vec<u64> = order_outcomes(outcomes).iter().map(|o| o.dsp_id).collect();
    assert_eq!(ids, vec![2, 4, 1, 3]);
}

#[test]
fn call_classification() {
    let plan = |id: u64| CallPlan { dsp_id: id, url: "u".to_string(), deadline_ms: 100 };
    let outs = collect_outcomes(
        vec![plan(1), plan(2), plan(3), plan(4)],
        vec![
            (CallReply::Answered(answer(vec![bid("a", "i", 7, None, None), bid("b", "i", 9, None, None)])), 1),
            (CallReply::Unparseable, 2),
            (CallReply::TransportFailed, 3),
            (CallReply::TimedOut, 4),
        ],
    );
    assert_eq!(outs[0].status, CallStatus::Success);
    assert_eq!(outs[0].top_price, 9);
    assert_eq!(outs[1].status, CallStatus::JsonParseError);
    assert_eq!(outs[2].status, CallStatus::InvalidResponse);
    assert_eq!(outs[3].status, CallStatus::Timeout);
    assert_eq!(outs[3].elapsed_ms, 4);
    assert!(outs[1..].iter().all(|o| o.top_price == 0 && o.response.seatbid.is_empty()));
    assert_eq!(CallStatus::JsonParseError.as_str(), "json_parse_error");
    assert_eq!(top_price(&answer(vec![])), 0);
}

#[test]
fn deadlines_fall_back() {
    assert_eq!(effective_deadline(Some(120), Some(300)), 120);
    assert_eq!(effective_deadline(None, Some(300)), 300);
    assert_eq!(effective_deadline(None, None), 250);
}

#[test]
fn disabled_demands_are_not_called() {
    let mut ds = demands(&[None, None, None]);
    ds[1].status = false;
    let plans = plan_calls(&ds, None);
    let ids: Vec<u64> = plans.iter().map(|p| p.dsp_id).collect();
    assert_eq!(ids, vec![1, 3]);
}

#[test]
fn demand_manager_operations() {
    let mut m = DemandManager::new();
    m.add_demand(Demand::new(1, "a_dsp", "http://a", true, None));
    m.add_demand(Demand::new(2, "b_dsp", "http://b", false, Some(100)));
    m.add_demand(Demand::new(3, "c_dsp", "http://c", true, Some(200)));
    m.add_demand(Demand::new(1, "a2_dsp", "http://a2", true, None));
    assert_eq!(m.demands.len(), 3);
    assert_eq!(m.get_demand(1).unwrap().name, "a2_dsp");
    assert!(m.get_demand(9).is_none());
    let active: Vec<u64> = m.active_demands().iter().map(|d| d.id).collect();
    assert_eq!(active, vec![1, 3]);
    m.remove_demand(1);
    assert!(m.get_demand(1).is_none());
    assert_eq!(m.demands.len(), 2);
    m.remove_demand(42);
    assert_eq!(m.demands.len(), 2);
    let cfg = ConfigManager::new(m);
    assert_eq!(cfg.active_dsp_urls(), vec!["http://c".to_string()]);
    assert_eq!(cfg.active_demands().len(), 1);
}

#[test]
fn generated_demands_are_numbered() {
    let drafts = vec![
        Demand::new(0, "x_dsp", "u", false, Some(150)),
        Demand::new(0, "y_dsp", "u", false, Some(999)),
    ];
    let m = generate_demand_manager(drafts);
    assert_eq!(m.demands[0].id, 1);
    assert_eq!(m.demands[1].id, 2);
    assert!(m.demands[0].status);
    assert!(!m.demands[1].status);
    let m2 = generate_demand_manager(vec![Demand::new(0, "x_dsp", "u", false, None), Demand::new(0, "y_dsp", "u", true, None)]);
    assert!(!m2.demands[0].status);
    assert!(m2.demands[1].status);
}

#[test]
fn context_needs_known_ssp_and_placement() {
    let ssps = vec![Ssp { id: 1, uuid: "u1".into(), name: "one".into(), qps: 10 }];
    let placements = vec![SspPlacement {
        ssp_id: 1,
        ssp_uuid: "u1".into(),
        placement_id: "p".into(),
        ad_type: AdType::Video,
        update_time: 0,
        status: 1,
    }];
    let r = build_context(request("R", None, vec![]), &ssps, &placements, &"nope".to_string());
    assert_eq!(r.err(), Some(FrontError::UnknownSsp));
    let r = build_context(request("R", None, vec![]), &ssps, &vec![], &"u1".to_string());
    assert_eq!(r.err(), Some(FrontError::NoSspPlacement));
    let c = build_context(request("R", None, vec![]), &ssps, &placements, &"u1".to_string()).ok().unwrap();
    assert_eq!(c.ssp.name, "one");
    assert_eq!(c.ssp_placement.ad_type, AdType::Video);
    assert!(c.dsp_requests.is_empty());
}

#[test]
fn empty_seatbid_response_is_no_fill() {
    let reply = reply_for(&"R".to_string(), Some(no_bid(1)));
    assert_eq!(reply.status, STATUS_NO_CONTENT);
    assert_eq!(reply.body.nbr, Some(3));
}

#[test]
fn placement_rate_overrides_default() {
    let outcomes = vec![
        outcome(1, 1_000_000, CallStatus::Success, answer(vec![bid("a", "i1", 1_000_000, None, None)])),
        outcome(2, 4_000_000, CallStatus::Success, answer(vec![bid("b", "i1", 4_000_000, None, None)])),
    ];
    let placements = vec![placement(2, 900_000, 2), placement(2, 500_000, 1), placement(1, 0, 1)];
    let result = settle_auction(&request("R", None, vec![imp("i1", None, None, false)]), outcomes, &placements, 0);
    assert_eq!(result.original_price, Some(4_000_000));
    assert_eq!(result.response.unwrap().seatbid[0].bid[0].price, 2_000_000);
    assert_eq!(profit_rate_for(&placements, 2), 500_000);
    assert_eq!(profit_rate_for(&placements, 7), 200_000);
    assert_eq!(profit_rate_for(&vec![placement(3, 5_000_000, 1)], 3), 1_000_000);
}

#[test]
fn bids_for_unknown_impressions_are_refused() {
    let outcomes = vec![outcome(
        1,
        5,
        CallStatus::Success,
        answer(vec![bid("x", "nope", 5, None, None), bid("y", "i1", 3, None, None)]),
    )];
    let result = settle_auction(&request("R", None, vec![imp("i1", None, None, false)]), outcomes, &vec![], 0);
    assert_eq!(result.unmatched_bids, vec!["x".to_string()]);
    assert_eq!(result.response.unwrap().seatbid[0].bid[0].id, "y");
    let only_unknown = vec![outcome(1, 5, CallStatus::Success, answer(vec![bid("x", "i1", 5, None, None)]))];
    let result = settle_auction(&request("R", None, vec![]), only_unknown, &vec![], 0);
    assert_eq!(result.no_fill, Some(NoFillReason::AllBidsFiltered));
    assert_eq!(result.unmatched_bids, vec!["x".to_string()]);
    let reply = reply_for(&"R".to_string(), result.response);
    assert_eq!(reply.status, STATUS_NO_CONTENT);
}

#[test]
fn auction_log_lines_cover_the_outcome() {
    let outcomes = vec![
        outcome(1, 2_000_000, CallStatus::Success, answer(vec![
            bid("b1", "i1", 2_000_000, Some("<html>{AUCTION_PRICE}</html>"), None),
            bid("b2", "i1", 1_000_000, None, Some("banned")),
            bid("b3", "zz", 1_000_000, None, None),
        ])),
        outcome(2, 0, CallStatus::Success, no_bid(-2)),
        outcome(3, 0, CallStatus::Timeout, BidResponse::empty()),
    ];
    let result = settle_auction(&request("R\"1", Some(5), vec![imp("i1", None, None, false)]), outcomes, &vec![], 9);
    let lines = auction_log_lines("R\"1", Some(5), &result);
    let levels: Vec<Level> = lines.iter().map(|l| l.level).collect();
    assert_eq!(levels, vec![Level::Error, Level::Warn, Level::Warn, Level::Warn, Level::Info]);
    let parsed: Vec<serde_json::Value> = lines.iter().map(|l| serde_json::from_str(&l.text).unwrap()).collect();
    assert!(parsed.iter().all(|v| v["request_id"] == "R\"1"));
    assert_eq!(parsed[0]["details"][0]["nbr"], -2);
    assert_eq!(parsed[0]["details"][1]["reason"], "timeout");
    assert_eq!(parsed[1]["reason"], "contains_sensitive_content");
    assert_eq!(parsed[2]["bid_id"], "b3");
    assert_eq!(parsed[2]["reason"], "unknown_impression");
    assert_eq!(parsed[3]["adx_log"], "tmax_exceeded");
    let summary = &parsed[4];
    assert_eq!(summary["adx_inquiry_result"], "success");
    assert_eq!(summary["winning_bid"]["price"], 1.6);
    assert_eq!(summary["winning_bid"]["original_price"], 2);
    assert_eq!(
        summary["winning_bid"]["adm"],
        "<html>1.6</html><img src=\"http://tk.rust-adx.com/impression?price={AUCTION_PRICE}\" style=\"display:none;\" />"
    );
    assert_eq!(summary["dsp_call_details"].as_array().unwrap().len(), 3);
    assert_eq!(summary["dsp_call_details"][2]["failure_reason"], "timeout");
    assert_eq!(summary["elapsed_time_ms"], 9);
    assert_eq!(lines[4].text.matches("\"request_id\"").count(), 1);
}

#[test]
fn no_fill_log_lines() {
    let result = settle_auction(&request("R", None, vec![]), vec![], &vec![], 0);
    let lines = auction_log_lines("R", None, &result);
    assert_eq!(lines.len(), 2);
    assert_eq!(lines[0].text, "{\"request_id\":\"R\",\"adx_log\":\"adx_inquiry_failed\",\"reason\":\"all_dsp_failed\"}");
    assert_eq!(
        lines[1].text,
        "{\"request_id\":\"R\",\"adx_inquiry_result\":\"failed\",\"winning_bid\":null,\"dsp_call_details\":[],\"elapsed_time_ms\":0}"
    );
}
