//! A stand-in DSP for local runs: it bids on every impression of a request at a random
//! multiple of the floor, with markup of the impression's kind carrying its own tracking.
use vstd::prelude::*;
use crate::openrtb::{Bid, BidRequest, BidResponse, ImpDetail, SeatBid};
use crate::json::parse_json;
use crate::price::MICROS_PER_UNIT;

verus! {

/// Relies on `rand::thread_rng().gen_range(lo..hi)`: a number drawn from `lo..hi`.
#[verifier::external_body]
fn random_between(lo: u64, hi: u64) -> (r: u64)
    requires
        lo < hi,
    ensures
        lo <= r < hi,
{
    rand::Rng::gen_range(&mut rand::thread_rng(), lo..hi)
}

pub fn generate_nurl() -> (r: Option<String>)
    ensures
        r matches Some(s) && s@ == "http://example.com/nurl"@,
{
    Some(String::from_str("http://example.com/nurl"))
}

pub fn generate_adid() -> (r: Option<String>)
    ensures
        r matches Some(s) && s@ == "ad-12345"@,
{
    Some(String::from_str("ad-12345"))
}

pub fn generate_adomain() -> (r: Option<Vec<String>>)
    ensures
        r matches Some(v) && v@.len() == 1 && v@[0]@ == "example.com"@,
{
    let mut v: Vec<String> = Vec::new();
    v.push(String::from_str("example.com"));
    Some(v)
}

pub fn generate_cid() -> (r: Option<String>)
    ensures
        r matches Some(s) && s@ == "cid-12345"@,
{
    Some(String::from_str("cid-12345"))
}

pub fn generate_crid() -> (r: Option<String>)
    ensures
        r matches Some(s) && s@ == "crid-12345"@,
{
    Some(String::from_str("crid-12345"))
}

pub fn generate_cat() -> (r: Option<Vec<String>>)
    ensures
        r matches Some(v) && v@.len() == 2 && v@[0]@ == "IAB1"@ && v@[1]@ == "IAB2"@,
{
    let mut v: Vec<String> = Vec::new();
    v.push(String::from_str("IAB1"));
    v.push(String::from_str("IAB2"));
    Some(v)
}

pub fn generate_attr() -> (r: Option<Vec<i32>>)
    ensures
        r matches Some(v) && v@ == seq![1i32, 2i32],
{
    let mut v: Vec<i32> = Vec::new();
    v.push(1);
    v.push(2);
    assert(v@ =~= seq![1i32, 2i32]);
    Some(v)
}

pub fn generate_dealid() -> (r: Option<String>)
    ensures
        r matches Some(s) && s@ == "deal-123"@,
{
    Some(String::from_str("deal-123"))
}

/// A random creative height in 50..600.
pub fn generate_h() -> (r: Option<i32>)
    ensures
        r matches Some(h) && 50 <= h < 600,
{
    Some(random_between(50, 600) as i32)
}

/// A random creative width in 50..800.
pub fn generate_w() -> (r: Option<i32>)
    ensures
        r matches Some(w) && 50 <= w < 800,
{
    Some(random_between(50, 800) as i32)
}

/// The extension object `{"extra_info":"some_value"}`.
pub fn generate_ext() -> Option<serde_json::Value> {
    match parse_json("{\"extra_info\":\"some_value\"}") {
        Some(p) => Some(p.value),
        None => None,
    }
}

/// The kind of an impression, as the mock prices and dresses it.
#[derive(PartialEq, Eq, Structural, Clone, Copy, Debug)]
pub enum MockKind {
    /// A banner of the given width and height.
    Banner(i32, i32),
    Video,
    Native,
    Other,
}

pub open spec fn kind_of(imp: ImpDetail) -> MockKind {
    if imp.banner is Some {
        MockKind::Banner(imp.banner->0.w, imp.banner->0.h)
    } else if imp.video is Some {
        MockKind::Video
    } else if imp.native is Some {
        MockKind::Native
    } else {
        MockKind::Other
    }
}

/// The range of the multiplier applied to the floor, in millionths.
pub open spec fn multiplier_range(k: MockKind) -> (u64, u64) {
    match k {
        MockKind::Banner(w, h) => if w == 300 && h == 250 {
            (1_000_000u64, 3_000_000u64)
        } else if w == 728 && h == 90 {
            (800_000u64, 1_200_000u64)
        } else {
            (1_000_000u64, 2_000_000u64)
        },
        MockKind::Video => (1_000_000u64, 2_500_000u64),
        MockKind::Native => (800_000u64, 2_000_000u64),
        MockKind::Other => (1_000_000u64, 2_000_000u64),
    }
}

pub fn mock_kind(imp: &ImpDetail) -> (r: MockKind)
    ensures
        r == kind_of(*imp),
{
    match &imp.banner {
        Some(b) => MockKind::Banner(b.w, b.h),
        None => if imp.video.is_some() {
            MockKind::Video
        } else if imp.native.is_some() {
            MockKind::Native
        } else {
            MockKind::Other
        },
    }
}

pub fn mock_multiplier_range(k: MockKind) -> (r: (u64, u64))
    ensures
        r == multiplier_range(k),
        r.0 < r.1 <= 3_000_000,
{
    match k {
        MockKind::Banner(w, h) => if w == 300 && h == 250 {
            (1_000_000, 3_000_000)
        } else if w == 728 && h == 90 {
            (800_000, 1_200_000)
        } else {
            (1_000_000, 2_000_000)
        },
        MockKind::Video => (1_000_000, 2_500_000),
        MockKind::Native => (800_000, 2_000_000),
        MockKind::Other => (1_000_000, 2_000_000),
    }
}

pub const BANNER_HEAD: &'static str = "<html><body>Mock DSP Banner Ad<br/>Auction Price: {AUCTION_PRICE}<br/><a href=\"http://dsp-tracker.local/click?bid=";

pub const BANNER_MID: &'static str = "\" target=\"_blank\">Click Here</a><img src=\"http://dsp-tracker.local/impression?bid=";

pub const PIXEL_TAIL: &'static str = "\" style=\"display:none;\" /></body></html>";

pub const VAST_HEAD: &'static str = "<VAST version=\"3.0\">\n  <Ad id=\"";

pub const VAST_MID1: &'static str = "\">\n    <InLine>\n      <AdSystem>Mock DSP</AdSystem>\n      <AdTitle>Mock Video Ad</AdTitle>\n      <Impression><![CDATA[http://dsp-tracker.local/impression?bid=";

pub const VAST_MID2: &'static str = "&price={AUCTION_PRICE}]]></Impression>\n      <Creatives>\n        <Creative>\n          <Linear>\n            <Duration>00:00:30</Duration>\n            <MediaFiles>\n              <MediaFile delivery=\"progressive\" type=\"video/mp4\" width=\"640\" height=\"360\" bitrate=\"500\">\n                http://example.com/video.mp4\n              </MediaFile>\n            </MediaFiles>\n            <VideoClicks>\n              <ClickTracking><![CDATA[http://dsp-tracker.local/click?bid=";

pub const VAST_TAIL: &'static str = "&price={AUCTION_PRICE}]]></ClickTracking>\n            </VideoClicks>\n          </Linear>\n        </Creative>\n      </Creatives>\n    </InLine>\n  </Ad>\n</VAST>";

pub const NATIVE_HEAD: &'static str = "{\"native\":{\"assets\":[{\"title\":{\"text\":\"Mock Native Ad\"}},{\"img\":{\"url\":\"http://example.com/native.jpg\"}}],\"impression_tracking\":\"http://dsp-tracker.local/impression?bid=";

pub const NATIVE_MID: &'static str = "&price={AUCTION_PRICE}\",\"click_tracking\":\"http://dsp-tracker.local/click?bid=";

pub const NATIVE_TAIL: &'static str = "&price={AUCTION_PRICE}\"}}";

pub const OTHER_HEAD: &'static str = "<html><body>Mock DSP Ad<br/>Auction Price: {AUCTION_PRICE}<br/><img src=\"http://dsp-tracker.local/impression?bid=";

/// The mock's markup for an impression of kind `k` answered by bid `id`.
pub open spec fn mock_adm_text(k: MockKind, id: Seq<char>) -> Seq<char> {
    match k {
        MockKind::Banner(_, _) => BANNER_HEAD@ + id + BANNER_MID@ + id + PIXEL_TAIL@,
        MockKind::Video => VAST_HEAD@ + id + VAST_MID1@ + id + VAST_MID2@ + id + VAST_TAIL@,
        MockKind::Native => NATIVE_HEAD@ + id + NATIVE_MID@ + id + NATIVE_TAIL@,
        MockKind::Other => OTHER_HEAD@ + id + PIXEL_TAIL@,
    }
}

pub fn mock_adm(k: MockKind, id: &str) -> (r: String)
    ensures
        r@ == mock_adm_text(k, id@),
{
    let mut s: String;
    match k {
        MockKind::Banner(_, _) => {
            s = String::from_str(BANNER_HEAD);
            s.append(id);
            s.append(BANNER_MID);
            s.append(id);
            s.append(PIXEL_TAIL);
        },
        MockKind::Video => {
            s = String::from_str(VAST_HEAD);
            s.append(id);
            s.append(VAST_MID1);
            s.append(id);
            s.append(VAST_MID2);
            s.append(id);
            s.append(VAST_TAIL);
        },
        MockKind::Native => {
            s = String::from_str(NATIVE_HEAD);
            s.append(id);
            s.append(NATIVE_MID);
            s.append(id);
            s.append(NATIVE_TAIL);
        },
        MockKind::Other => {
            s = String::from_str(OTHER_HEAD);
            s.append(id);
            s.append(PIXEL_TAIL);
        },
    }
    s
}

/// The floor times a multiplier given in millionths, rounded down to a micro-unit.
pub open spec fn scaled(floor: u64, multiplier: u64) -> int {
    floor as int * multiplier as int / MICROS_PER_UNIT as int
}

/// The mock's price for `floor` and `multiplier`: `scaled`, capped at the largest price.
pub open spec fn mock_price(floor: u64, multiplier: u64) -> u64 {
    if scaled(floor, multiplier) > u64::MAX as int {
        u64::MAX
    } else {
        scaled(floor, multiplier) as u64
    }
}

/// The floor of an impression, 0 when it has none.
pub open spec fn floor_of(imp: ImpDetail) -> u64 {
    match imp.bidfloor {
        Some(f) => f,
        None => 0,
    }
}

/// `b` is the mock's bid on `imp` for some multiplier in the range of the impression's kind.
pub open spec fn is_mock_bid(imp: ImpDetail, b: Bid) -> bool {
    let range = multiplier_range(kind_of(imp));
    &&& b.id@ == "bid-"@ + imp.id@
    &&& b.impid == imp.id
    &&& b.adm matches Some(a) && a@ == mock_adm_text(kind_of(imp), b.id@)
    &&& exists|m: u64| range.0 <= m < range.1 && #[trigger] mock_price(floor_of(imp), m) == b.price
}

/// The mock's bid on one impression: id `bid-<imp id>`, a price of the floor (0 if none) times
/// `multiplier` (in millionths) rounded down and capped at the largest price, and markup of
/// the impression's kind.
pub fn mock_bid(imp: &ImpDetail, multiplier: u64) -> (r: Bid)
    ensures
        r.id@ == "bid-"@ + imp.id@,
        r.impid == imp.id,
        r.adm matches Some(a) && a@ == mock_adm_text(kind_of(*imp), r.id@),
        r.price == mock_price(floor_of(*imp), multiplier),
{
    let mut id = String::from_str("bid-");
    id.append(imp.id.as_str());
    let floor: u64 = match imp.bidfloor {
        Some(f) => f,
        None => 0,
    };
    assert((floor as u128) * (multiplier as u128) <= 0xffff_ffff_ffff_ffffu128
        * 0xffff_ffff_ffff_ffffu128) by (nonlinear_arith);
    let wide: u128 = (floor as u128) * (multiplier as u128) / (MICROS_PER_UNIT as u128);
    let price: u64 = if wide > u64::MAX as u128 {
        u64::MAX
    } else {
        wide as u64
    };
    let adm = mock_adm(mock_kind(imp), id.as_str());
    Bid {
        id,
        impid: imp.id.clone(),
        price,
        nurl: generate_nurl(),
        adm: Some(adm),
        adid: generate_adid(),
        adomain: generate_adomain(),
        cid: generate_cid(),
        crid: generate_crid(),
        cat: generate_cat(),
        attr: generate_attr(),
        dealid: generate_dealid(),
        h: generate_h(),
        w: generate_w(),
        ext: generate_ext(),
    }
}

/// The mock's answer to a request: one seat `mock_seat` with one bid per impression, in order.
pub fn handle_dsp_bid(request: &BidRequest) -> (r: BidResponse)
    ensures
        r.id == request.id,
        r.seatbid@.len() == 1,
        r.seatbid@[0].bid@.len() == request.imp@.len(),
        forall|i: int|
            0 <= i < request.imp@.len() ==> is_mock_bid(
                request.imp@[i],
                #[trigger] r.seatbid@[0].bid@[i],
            ),
        r.seatbid@[0].seat matches Some(s) && s@ == "mock_seat"@,
        r.nbr is None,
        r.cur matches Some(c) && c@ == "USD"@,
{
    let imps = request.get_imp_details();
    let mut bids: Vec<Bid> = Vec::new();
    let mut i: usize = 0;
    while i < imps.len()
        invariant
            imps == &request.imp,
            i <= imps@.len(),
            bids@.len() == i,
            forall|j: int| 0 <= j < i ==> is_mock_bid(imps@[j], #[trigger] bids@[j]),
        decreases imps.len() - i,
    {
        let (lo, hi) = mock_multiplier_range(mock_kind(&imps[i]));
        let m = random_between(lo, hi);
        let b = mock_bid(&imps[i], m);
        assert(lo <= m < hi && mock_price(floor_of(imps@[i as int]), m) == b.price);
        assert(is_mock_bid(imps@[i as int], b));
        bids.push(b);
        i = i + 1;
    }
    let mut seats: Vec<SeatBid> = Vec::new();
    seats.push(SeatBid { bid: bids, seat: Some(String::from_str("mock_seat")), group: Some(0) });
    proof {
        reveal_strlit("mock_seat");
        reveal_strlit("USD");
    }
    BidResponse {
        id: request.id.clone(),
        seatbid: seats,
        bidid: None,
        cur: Some(String::from_str("USD")),
        customdata: None,
        nbr: None,
    }
}

} // verus!
