//! The HTTP front's decisions: which SSP and placement a request belongs to, and what is
//! sent back for an auction's result.
use vstd::prelude::*;
use crate::context::Context;
use crate::openrtb::{BidRequest, BidResponse};
use crate::placements::{Ssp, SspPlacement};

verus! {

/// The no-bid reason sent when nothing is offered ("unmatched").
pub const NO_FILL_NBR: i32 = 3;

pub const STATUS_OK: u16 = 200;

pub const STATUS_NO_CONTENT: u16 = 204;

/// The query of the bid route.
pub struct SspQuery {
    pub ssp_uuid: String,
}

/// What the front sends: an HTTP status and a bid response.
pub struct HttpReply {
    pub status: u16,
    pub body: BidResponse,
}

/// Why no context could be built for a request.
#[derive(PartialEq, Eq, Structural, Clone, Copy, Debug)]
pub enum FrontError {
    UnknownSsp,
    NoSspPlacement,
}

/// `i` is the first SSP of `s` with uuid `uuid`.
pub open spec fn is_first_ssp(s: Seq<Ssp>, uuid: Seq<char>, i: int) -> bool {
    0 <= i < s.len() && s[i].uuid@ == uuid && forall|j: int| 0 <= j < i ==> s[j].uuid@ != uuid
}

pub open spec fn has_ssp(s: Seq<Ssp>, uuid: Seq<char>) -> bool {
    exists|i: int| 0 <= i < s.len() && s[i].uuid@ == uuid
}

/// `i` is the first placement of `s` of the SSP with uuid `uuid`.
pub open spec fn is_first_placement(s: Seq<SspPlacement>, uuid: Seq<char>, i: int) -> bool {
    0 <= i < s.len() && s[i].ssp_uuid@ == uuid && forall|j: int|
        0 <= j < i ==> s[j].ssp_uuid@ != uuid
}

pub open spec fn has_placement(s: Seq<SspPlacement>, uuid: Seq<char>) -> bool {
    exists|i: int| 0 <= i < s.len() && s[i].ssp_uuid@ == uuid
}

/// The first SSP with uuid `uuid`.
pub fn find_ssp(ssps: &Vec<Ssp>, uuid: &String) -> (r: Option<usize>)
    ensures
        r is None <==> !has_ssp(ssps@, uuid@),
        r matches Some(i) ==> is_first_ssp(ssps@, uuid@, i as int),
{
    let mut i: usize = 0;
    while i < ssps.len()
        invariant
            i <= ssps@.len(),
            forall|j: int| 0 <= j < i ==> ssps@[j].uuid@ != uuid@,
        decreases ssps.len() - i,
    {
        if ssps[i].uuid == *uuid {
            return Some(i);
        }
        i = i + 1;
    }
    None
}

/// The first placement of the SSP with uuid `uuid`.
pub fn find_ssp_placement(placements: &Vec<SspPlacement>, uuid: &String) -> (r: Option<usize>)
    ensures
        r is None <==> !has_placement(placements@, uuid@),
        r matches Some(i) ==> is_first_placement(placements@, uuid@, i as int),
{
    let mut i: usize = 0;
    while i < placements.len()
        invariant
            i <= placements@.len(),
            forall|j: int| 0 <= j < i ==> placements@[j].ssp_uuid@ != uuid@,
        decreases placements.len() - i,
    {
        if placements[i].ssp_uuid == *uuid {
            return Some(i);
        }
        i = i + 1;
    }
    None
}

/// The context of a request from the SSP with uuid `ssp_uuid`: `Ok` exactly when that SSP is
/// known and has a placement, with the first such SSP and placement.
pub fn build_context(
    bid_request: BidRequest,
    ssps: &Vec<Ssp>,
    placements: &Vec<SspPlacement>,
    ssp_uuid: &String,
) -> (r: Result<Context, FrontError>)
    ensures
        !has_ssp(ssps@, ssp_uuid@) ==> r == Err::<Context, FrontError>(FrontError::UnknownSsp),
        has_ssp(ssps@, ssp_uuid@) && !has_placement(placements@, ssp_uuid@) ==> r == Err::<
            Context,
            FrontError,
        >(FrontError::NoSspPlacement),
        r matches Ok(c) ==> {
            &&& c.bid_request == bid_request
            &&& c.dsp_requests@.len() == 0
            &&& exists|i: int| is_first_ssp(ssps@, ssp_uuid@, i) && c.ssp == ssps@[i]
            &&& exists|i: int| is_first_placement(placements@, ssp_uuid@, i) && c.ssp_placement
                == placements@[i]
        },
        has_ssp(ssps@, ssp_uuid@) && has_placement(placements@, ssp_uuid@) ==> r is Ok,
{
    match find_ssp(ssps, ssp_uuid) {
        None => Err(FrontError::UnknownSsp),
        Some(i) => match find_ssp_placement(placements, ssp_uuid) {
            None => Err(FrontError::NoSspPlacement),
            Some(k) => {
                let ssp = ssps[i].duplicate();
                let placement = placements[k].duplicate();
                Ok(Context::new(bid_request, ssp, placement))
            },
        },
    }
}

/// The no-fill body: the request id, no seat bid, currency USD, no-bid reason 3.
pub open spec fn is_no_fill_response(r: BidResponse, request_id: Seq<char>) -> bool {
    &&& r.id@ == request_id
    &&& r.seatbid@.len() == 0
    &&& r.bidid is None
    &&& r.cur matches Some(c) && c@ == "USD"@
    &&& r.customdata is None
    &&& r.nbr == Some(NO_FILL_NBR)
}

/// The body sent with a 204 for request `request_id`.
pub fn no_fill_response(request_id: &String) -> (r: BidResponse)
    ensures
        is_no_fill_response(r, request_id@),
{
    proof {
        reveal_strlit("USD");
    }
    BidResponse {
        id: request_id.clone(),
        seatbid: Vec::new(),
        bidid: None,
        cur: Some(String::from_str("USD")),
        customdata: None,
        nbr: Some(NO_FILL_NBR),
    }
}

/// What is sent for the auction's result: 200 with the response when it holds a seat bid,
/// else 204 with the no-fill body.
pub fn reply_for(request_id: &String, auction: Option<BidResponse>) -> (r: HttpReply)
    ensures
        (auction matches Some(resp) && resp.seatbid@.len() > 0) ==> r.status == STATUS_OK
            && r.body == auction->0,
        !(auction matches Some(resp) && resp.seatbid@.len() > 0) ==> r.status == STATUS_NO_CONTENT
            && is_no_fill_response(r.body, request_id@),
{
    match auction {
        Some(resp) => {
            if resp.seatbid.len() > 0 {
                HttpReply { status: STATUS_OK, body: resp }
            } else {
                HttpReply { status: STATUS_NO_CONTENT, body: no_fill_response(request_id) }
            }
        },
        None => HttpReply { status: STATUS_NO_CONTENT, body: no_fill_response(request_id) },
    }
}

} // verus!
