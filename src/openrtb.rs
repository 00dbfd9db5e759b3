//! The OpenRTB request and response subset the exchange reads and writes.
//! Prices are whole micro-units (millionths of the currency unit).
use vstd::prelude::*;

verus! {

/// The top-level bid request an SSP sends.
pub struct BidRequest {
    pub id: String,
    pub imp: Vec<ImpDetail>,
    pub site: Option<SiteDetail>,
    pub app: Option<AppDetail>,
    pub device: Option<DeviceDetail>,
    pub user: Option<UserDetail>,
    pub source: Option<SourceDetail>,
    pub regs: Option<RegsDetail>,
    pub test: Option<i32>,
    pub at: Option<i32>,
    pub tmax: Option<u64>,
    pub wseat: Option<Vec<String>>,
    pub bseat: Option<Vec<String>>,
    pub allimps: Option<i32>,
    pub cur: Option<Vec<String>>,
    pub wlang: Option<Vec<String>>,
    pub bcat: Option<Vec<String>>,
    pub badv: Option<Vec<String>>,
}

/// One impression of a request.
pub struct ImpDetail {
    pub id: String,
    /// The floor price in micro-units.
    pub bidfloor: Option<u64>,
    pub banner: Option<BannerDetail>,
    pub video: Option<VideoDetail>,
    pub audio: Option<AudioDetail>,
    pub native: Option<NativeDetail>,
    pub pmp: Option<PmpDetail>,
}

pub struct BannerDetail {
    pub w: i32,
    pub h: i32,
}

pub struct VideoDetail {
    pub mimes: Vec<String>,
    pub minduration: Option<i32>,
    pub maxduration: Option<i32>,
    pub protocols: Option<Vec<i32>>,
    pub w: Option<i32>,
    pub h: Option<i32>,
}

pub struct AudioDetail {
    pub mimes: Vec<String>,
    pub minduration: Option<i32>,
    pub maxduration: Option<i32>,
}

pub struct NativeDetail {
    pub request: String,
}

pub struct PmpDetail {
    pub private_auction: Option<i32>,
    pub deals: Option<Vec<Deal>>,
}

pub struct Deal {
    pub id: String,
    /// The deal's floor price in micro-units.
    pub bidfloor: Option<u64>,
}

pub struct SiteDetail {
    pub id: String,
    pub name: Option<String>,
    pub domain: Option<String>,
}

pub struct AppDetail {
    pub id: String,
    pub name: Option<String>,
}

pub struct DeviceDetail {
    pub ua: Option<String>,
    pub ip: Option<String>,
}

pub struct UserDetail {
    pub id: Option<String>,
}

pub struct SourceDetail {
    pub fd: Option<i32>,
    pub tid: Option<String>,
}

pub struct RegsDetail {
    pub coppa: Option<i32>,
    pub gdpr: Option<i32>,
}

/// The response returned for a request: a winner, a DSP's bids, or a no-bid.
pub struct BidResponse {
    pub id: String,
    pub seatbid: Vec<SeatBid>,
    pub bidid: Option<String>,
    pub cur: Option<String>,
    pub customdata: Option<String>,
    /// The no-bid reason; set only when nothing is offered.
    pub nbr: Option<i32>,
}

/// The bids of one seat.
pub struct SeatBid {
    pub bid: Vec<Bid>,
    pub seat: Option<String>,
    pub group: Option<i32>,
}

/// One bid for one impression.
pub struct Bid {
    pub id: String,
    pub impid: String,
    /// The price in micro-units.
    pub price: u64,
    pub nurl: Option<String>,
    pub adm: Option<String>,
    pub adid: Option<String>,
    pub adomain: Option<Vec<String>>,
    pub cid: Option<String>,
    pub crid: Option<String>,
    pub cat: Option<Vec<String>>,
    pub attr: Option<Vec<i32>>,
    pub dealid: Option<String>,
    pub h: Option<i32>,
    pub w: Option<i32>,
    pub ext: Option<serde_json::Value>,
}

impl BidResponse {
    /// A response with no seat bids and no fields set but the id.
    pub fn empty() -> (r: BidResponse)
        ensures
            r.id@ == Seq::<char>::empty(),
            r.seatbid@.len() == 0,
            r.bidid is None,
            r.cur is None,
            r.customdata is None,
            r.nbr is None,
    {
        BidResponse {
            id: String::new(),
            seatbid: Vec::new(),
            bidid: None,
            cur: None,
            customdata: None,
            nbr: None,
        }
    }
}

impl BidRequest {
    /// The impressions of the request.
    pub fn get_imp_details(&self) -> (r: &Vec<ImpDetail>)
        ensures
            r == &self.imp,
    {
        &self.imp
    }

    pub fn get_site_detail(&self) -> (r: Option<&SiteDetail>)
        ensures
            r is Some <==> self.site is Some,
            r matches Some(x) ==> *x == self.site->0,
    {
        self.site.as_ref()
    }

    pub fn get_app_detail(&self) -> (r: Option<&AppDetail>)
        ensures
            r is Some <==> self.app is Some,
            r matches Some(x) ==> *x == self.app->0,
    {
        self.app.as_ref()
    }

    pub fn get_device_detail(&self) -> (r: Option<&DeviceDetail>)
        ensures
            r is Some <==> self.device is Some,
            r matches Some(x) ==> *x == self.device->0,
    {
        self.device.as_ref()
    }

    pub fn get_user_detail(&self) -> (r: Option<&UserDetail>)
        ensures
            r is Some <==> self.user is Some,
            r matches Some(x) ==> *x == self.user->0,
    {
        self.user.as_ref()
    }

    pub fn get_source_detail(&self) -> (r: Option<&SourceDetail>)
        ensures
            r is Some <==> self.source is Some,
            r matches Some(x) ==> *x == self.source->0,
    {
        self.source.as_ref()
    }

    pub fn get_regs_detail(&self) -> (r: Option<&RegsDetail>)
        ensures
            r is Some <==> self.regs is Some,
            r matches Some(x) ==> *x == self.regs->0,
    {
        self.regs.as_ref()
    }
}

impl ImpDetail {
    pub fn get_banner_detail(&self) -> (r: Option<&BannerDetail>)
        ensures
            r is Some <==> self.banner is Some,
            r matches Some(x) ==> *x == self.banner->0,
    {
        self.banner.as_ref()
    }

    pub fn get_video_detail(&self) -> (r: Option<&VideoDetail>)
        ensures
            r is Some <==> self.video is Some,
            r matches Some(x) ==> *x == self.video->0,
    {
        self.video.as_ref()
    }

    pub fn get_audio_detail(&self) -> (r: Option<&AudioDetail>)
        ensures
            r is Some <==> self.audio is Some,
            r matches Some(x) ==> *x == self.audio->0,
    {
        self.audio.as_ref()
    }

    pub fn get_native_detail(&self) -> (r: Option<&NativeDetail>)
        ensures
            r is Some <==> self.native is Some,
            r matches Some(x) ==> *x == self.native->0,
    {
        self.native.as_ref()
    }

    pub fn get_pmp_detail(&self) -> (r: Option<&PmpDetail>)
        ensures
            r is Some <==> self.pmp is Some,
            r matches Some(x) ==> *x == self.pmp->0,
    {
        self.pmp.as_ref()
    }
}

} // verus!
