use rust_adx::creative::{
    creative_format, expand_price_macro, generate_ssp_tracking, inject_tracking, rewrite_creative,
    CreativeFormat,
};
use rust_adx::json::is_json_object;
use rust_adx::logging::{
    format_message_record, format_record, is_expired, join_batch, log_file_name, AdxLog, Level, LevelBuffers,
};
use rust_adx::mock_dsp::{
    generate_adid, generate_adomain, generate_attr, generate_cat, generate_cid, generate_crid,
    generate_dealid, generate_ext, generate_h, generate_nurl, generate_w, handle_dsp_bid, mock_bid,
};
use rust_adx::openrtb::{BannerDetail, BidRequest, ImpDetail, NativeDetail};
use rust_adx::placements::{ad_type_from_code, AdType};
use rust_adx::price::{apply_profit_rate, render_price};
use rust_adx::text::{chars_of, find_first, find_last, replace_text};

const PIXEL: &str = "<img src=\"http://tk.rust-adx.com/impression?price={AUCTION_PRICE}\" style=\"display:none;\" />";

#[test]
fn price_rendering() {
    assert_eq!(render_price(2_000_000), "2");
    assert_eq!(render_price(2_400_000), "2.4");
    assert_eq!(render_price(1), "0.000001");
    assert_eq!(render_price(0), "0");
    assert_eq!(render_price(1_234_500_000), "1234.5");
    assert_eq!(render_price(10_050_000), "10.05");
    assert_eq!(render_price(u64::MAX), "18446744073709.551615");
}

#[test]
fn profit_markdown() {
    assert_eq!(apply_profit_rate(2_500_000, 200_000), 2_000_000);
    assert_eq!(apply_profit_rate(3_000_000, 200_000), 2_400_000);
    assert_eq!(apply_profit_rate(7, 200_000), 5);
    assert_eq!(apply_profit_rate(100, 0), 100);
    assert_eq!(apply_profit_rate(100, 1_000_000), 0);
    assert_eq!(apply_profit_rate(u64::MAX, 200_000), 14_757_395_258_967_641_292);
}

#[test]
fn text_search_and_replace() {
    let s = chars_of("a</body>b</body>c");
    let p = chars_of("</body>");
    assert_eq!(find_first(&s, &p), Some(1));
    assert_eq!(find_last(&s, &p), Some(9));
    assert_eq!(find_first(&s, &chars_of("zz")), None);
    assert_eq!(replace_text("x{A}y{A}", "{A}", "1.5"), "x1.5y1.5");
    assert_eq!(replace_text("aaa", "aa", "b"), "ba");
    assert_eq!(replace_text("héllo {P}", "{P}", "é"), "héllo é");
}

#[test]
fn macro_expansion_leaves_no_macro() {
    let out = expand_price_macro("{{AUCTION_PRICE}}{AUCTION_PRICE", 1_500_000);
    assert_eq!(out, "{1.5}{AUCTION_PRICE");
    assert!(!out.contains("{AUCTION_PRICE}"));
}

#[test]
fn creative_formats() {
    assert_eq!(creative_format("<html><body></body></html>"), CreativeFormat::Html);
    assert_eq!(creative_format("<VAST version=\"3.0\"></VAST>"), CreativeFormat::Vast);
    assert_eq!(creative_format("  \n{\"a\":1}"), CreativeFormat::Native);
    assert_eq!(creative_format("plain text"), CreativeFormat::Plain);
    assert_eq!(creative_format("<HTML>"), CreativeFormat::Plain);
    assert_eq!(generate_ssp_tracking("<html>"), PIXEL);
    assert_eq!(generate_ssp_tracking("text"), "");
    assert!(generate_ssp_tracking("{}").contains("ssp_click_tracking"));
}

#[test]
fn html_pixel_after_last_body() {
    let out = rewrite_creative("<html><body>a</body><body>b</body></html>", 1_000_000);
    assert_eq!(out, format!("<html><body>a</body><body>b</body>{}</html>", PIXEL));
    let out = rewrite_creative("<html>no body {AUCTION_PRICE}", 1_000_000);
    assert_eq!(out, format!("<html>no body 1{}", PIXEL));
}

#[test]
fn vast_without_inline_appends() {
    let out = rewrite_creative("<VAST></VAST>", 1);
    assert!(out.starts_with("<VAST></VAST><Impression>"));
}

#[test]
fn native_rewrite_cases() {
    let empty = rewrite_creative(" {} ", 1_000_000);
    let v: serde_json::Value = serde_json::from_str(&empty).unwrap();
    assert!(v.get("ssp_impression_tracking").is_some());
    assert!(v.get("ssp_click_tracking").is_some());
    let invalid = rewrite_creative("{not json", 1_000_000);
    assert_eq!(invalid, "{not json");
    let arr = inject_tracking("{\"a\":[1]}", CreativeFormat::Native, false);
    assert_eq!(arr, "{\"a\":[1]}");
    let nested = rewrite_creative("{\"a\":{\"b\":\"{AUCTION_PRICE}\"}}", 2_000_000);
    let v: serde_json::Value = serde_json::from_str(&nested).unwrap();
    assert_eq!(v["a"]["b"], "2");
    assert_eq!(v["ssp_click_tracking"], "http://tk.rust-adx.com/click?price={AUCTION_PRICE}");
}

#[test]
fn rewriting_twice_adds_tracking_twice() {
    let once = rewrite_creative("<html><body>x</body></html>", 1_000_000);
    let twice = rewrite_creative(&once, 1_000_000);
    // the second pass treats the first pixel as DSP markup and expands its macro
    let expanded_pixel = PIXEL.replace("{AUCTION_PRICE}", "1");
    assert_eq!(
        twice,
        format!("<html><body>x</body>{}{}</html>", PIXEL, expanded_pixel)
    );
    assert_eq!(once, format!("<html><body>x</body>{}</html>", PIXEL));
}

#[test]
fn ad_type_codes() {
    assert_eq!(ad_type_from_code(1), Ok(AdType::Native));
    assert_eq!(ad_type_from_code(3), Ok(AdType::Video));
    assert_eq!(ad_type_from_code(7), Err("Invalid value for AdType: 7".to_string()));
    assert_eq!(AdType::try_from(2u8), Ok(AdType::Banner));
    assert_eq!(AdType::try_from(0u8), Err("Invalid value for AdType: 0".to_string()));
    assert_eq!(u8::from(AdType::Video), 3);
}

#[test]
fn level_names_and_files() {
    assert_eq!(Level::parse("WARN"), Some(Level::Warn));
    assert_eq!(Level::parse("warn"), None);
    assert_eq!(Level::Error.name(), "ERROR");
    assert_eq!(log_file_name("runtime", Level::Info), "runtime_info.json");
    assert_eq!(Level::from_index(4), Some(Level::Error));
    assert_eq!(Level::from_index(5), None);
}

#[test]
fn level_buffers_batch_and_drain() {
    let mut b = LevelBuffers::new(2);
    assert!(b.push(Level::Info, "a".to_string()).is_none());
    assert!(b.push(Level::Warn, "w".to_string()).is_none());
    assert_eq!(b.push(Level::Info, "b".to_string()), Some(vec!["a".to_string(), "b".to_string()]));
    assert!(b.push(Level::Info, "c".to_string()).is_none());
    let drained = b.drain();
    assert_eq!(drained.len(), 5);
    assert_eq!(drained[2], vec!["c".to_string()]);
    assert_eq!(drained[3], vec!["w".to_string()]);
    assert!(b.drain().iter().all(|v| v.is_empty()));
}

#[test]
fn batch_text_and_retention() {
    assert_eq!(join_batch(&vec!["x".to_string(), "y".to_string()]), "x\ny\n");
    assert_eq!(join_batch(&vec![]), "");
    assert!(!is_expired(72 * 3600, 72));
    assert!(is_expired(72 * 3600 + 1, 72));
}

#[test]
fn records_are_json() {
    let line = format_record("2024-01-01T00:00:00+08:00", Level::Info, "{\"k\":\"v\"}");
    assert_eq!(
        line,
        "{\"timestamp\":\"2024-01-01T00:00:00+08:00\",\"level\":\"INFO\",\"message\":\"{\\\"k\\\":\\\"v\\\"}\"}"
    );
    let v: serde_json::Value = serde_json::from_str(&line).unwrap();
    assert_eq!(v["message"], "{\"k\":\"v\"}");
}

#[test]
fn adx_log_records_bids() {
    let mut log = AdxLog::new("ssp-1", "R1");
    assert_eq!(log.status, "failure");
    assert!(log.timestamp.ends_with("+08:00"));
    log.add_dsp_bid_log("a_dsp", "http://a", 1_500_000, "success");
    assert_eq!(log.bid_attempts, 1);
    assert_eq!(log.dsp_bidding_log[0].bid_price, 1_500_000);
    log.set_winner("a_dsp", 1_200_000);
    assert_eq!(log.status, "success");
    assert_eq!(log.winning_dsp.as_deref(), Some("a_dsp"));
    assert_eq!(log.winning_price, 1_200_000);
}

#[test]
fn mock_constants() {
    assert_eq!(generate_nurl().as_deref(), Some("http://example.com/nurl"));
    assert_eq!(generate_adid().as_deref(), Some("ad-12345"));
    assert_eq!(generate_adomain(), Some(vec!["example.com".to_string()]));
    assert_eq!(generate_cid().as_deref(), Some("cid-12345"));
    assert_eq!(generate_crid().as_deref(), Some("crid-12345"));
    assert_eq!(generate_cat(), Some(vec!["IAB1".to_string(), "IAB2".to_string()]));
    assert_eq!(generate_attr(), Some(vec![1, 2]));
    assert_eq!(generate_dealid().as_deref(), Some("deal-123"));
    let h = generate_h().unwrap();
    assert!((50..600).contains(&h));
    let w = generate_w().unwrap();
    assert!((50..800).contains(&w));
    assert_eq!(generate_ext().unwrap()["extra_info"], "some_value");
}

fn mock_imp(id: &str, banner: Option<(i32, i32)>, native: bool) -> ImpDetail {
    ImpDetail {
        id: id.to_string(),
        bidfloor: Some(1_000_000),
        banner: banner.map(|(w, h)| BannerDetail { w, h }),
        video: None,
        audio: None,
        native: if native { Some(NativeDetail { request: "{}".to_string() }) } else { None },
        pmp: None,
    }
}

#[test]
fn mock_dsp_bids() {
    let b = mock_bid(&mock_imp("i9", Some((300, 250)), false), 1_500_000);
    assert_eq!(b.id, "bid-i9");
    assert_eq!(b.impid, "i9");
    assert_eq!(b.price, 1_500_000);
    assert!(b.adm.unwrap().contains("bid=bid-i9"));
    let req = BidRequest {
        id: "M".to_string(),
        imp: vec![mock_imp("a", Some((728, 90)), false), mock_imp("b", None, true)],
        site: None,
        app: None,
        device: None,
        user: None,
        source: None,
        regs: None,
        test: None,
        at: None,
        tmax: None,
        wseat: None,
        bseat: None,
        allimps: None,
        cur: None,
        wlang: None,
        bcat: None,
        badv: None,
    };
    let resp = handle_dsp_bid(&req);
    assert_eq!(resp.id, "M");
    assert_eq!(resp.seatbid[0].bid.len(), 2);
    let banner = &resp.seatbid[0].bid[0];
    assert!(banner.price >= 800_000 && banner.price < 1_200_000);
    let native = &resp.seatbid[0].bid[1];
    assert!(native.price >= 800_000 && native.price < 2_000_000);
    let v: serde_json::Value = serde_json::from_str(native.adm.as_ref().unwrap()).unwrap();
    assert!(v.get("native").is_some());
}

#[test]
fn json_object_detection() {
    assert!(is_json_object(" {\"a\": [1, 2]} "));
    assert!(!is_json_object("[1, 2]"));
    assert!(!is_json_object("{\"a\": "));
    assert!(!is_json_object(""));
}

#[test]
fn message_records_are_json() {
    let line = format_message_record("t", "a\"b");
    assert_eq!(line, "{\"timestamp\":\"t\",\"message\":\"a\\\"b\"}");
}

#[test]
fn control_characters_are_escaped() {
    let line = format_message_record("\u{1}", "\t\\/é");
    assert_eq!(line, "{\"timestamp\":\"\\u0001\",\"message\":\"\\t\\\\/é\"}");
    assert!(!rust_adx::logging::timestamp_now().is_empty());
}

#[test]
fn mock_prices_saturate() {
    let mut i = mock_imp("big", None, false);
    i.bidfloor = Some(u64::MAX);
    assert_eq!(mock_bid(&i, 3_000_000).price, u64::MAX);
    i.bidfloor = None;
    assert_eq!(mock_bid(&i, 3_000_000).price, 0);
}

#[test]
fn demand_names_end_in_dsp() {
    assert_eq!(rust_adx::catalog::demand_name("alpha"), "alpha_dsp");
}
