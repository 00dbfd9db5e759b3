//! SSPs, their placements and the DSP-side placements.
use vstd::prelude::*;
use crate::price::{decimal, push_decimal};

verus! {

/// The kind of ad a placement carries; written on the wire as 1, 2 or 3.
#[derive(PartialEq, Eq, Structural, Clone, Copy, Debug)]
pub enum AdType {
    Native,
    Banner,
    Video,
}

/// The wire code of an ad type.
pub open spec fn ad_type_code(t: AdType) -> u8 {
    match t {
        AdType::Native => 1,
        AdType::Banner => 2,
        AdType::Video => 3,
    }
}

/// The ad type of a wire code. The error's text is not modelled here (the `TryFrom` impl
/// claims nothing through it); `ad_type_from_code` states the message exactly.
pub open spec fn ad_type_of_code(v: u8) -> Result<AdType, String> {
    if v == 1 {
        Ok(AdType::Native)
    } else if v == 2 {
        Ok(AdType::Banner)
    } else if v == 3 {
        Ok(AdType::Video)
    } else {
        Err(arbitrary())
    }
}

/// The message for a code that names no ad type.
pub open spec fn invalid_ad_type_message(v: u8) -> Seq<char> {
    "Invalid value for AdType: "@ + decimal(v as nat)
}

impl TryFrom<u8> for AdType {
    type Error = String;

    fn try_from(value: u8) -> (r: Result<AdType, String>) {
        ad_type_from_code(value)
    }
}

/// The message for a code that names no ad type.
pub fn invalid_ad_type(value: u8) -> (r: String)
    ensures
        r@ == invalid_ad_type_message(value),
{
    let mut s = String::from_str("Invalid value for AdType: ");
    push_decimal(&mut s, value as u64);
    s
}

impl vstd::std_specs::convert::TryFromSpecImpl<u8> for AdType {
    open spec fn obeys_try_from_spec() -> bool {
        false
    }

    open spec fn try_from_spec(v: u8) -> Result<AdType, String> {
        ad_type_of_code(v)
    }
}

/// The ad type of a wire code: `Ok` exactly for 1, 2 and 3, else the message naming the code.
pub fn ad_type_from_code(value: u8) -> (r: Result<AdType, String>)
    ensures
        r is Ok <==> 1 <= value <= 3,
        r matches Ok(t) ==> ad_type_code(t) == value,
        r matches Err(m) ==> m@ == invalid_ad_type_message(value),
{
    if value == 1 {
        Ok(AdType::Native)
    } else if value == 2 {
        Ok(AdType::Banner)
    } else if value == 3 {
        Ok(AdType::Video)
    } else {
        Err(invalid_ad_type(value))
    }
}

impl From<AdType> for u8 {
    fn from(ad: AdType) -> (r: u8) {
        match ad {
            AdType::Native => 1,
            AdType::Banner => 2,
            AdType::Video => 3,
        }
    }
}

impl vstd::std_specs::convert::FromSpecImpl<AdType> for u8 {
    open spec fn obeys_from_spec() -> bool {
        true
    }

    open spec fn from_spec(v: AdType) -> u8 {
        ad_type_code(v)
    }
}

/// An SSP: the seller side the exchange serves.
pub struct Ssp {
    pub id: u64,
    pub uuid: String,
    pub name: String,
    pub qps: u32,
}

/// An SSP's placement.
pub struct SspPlacement {
    pub ssp_id: u64,
    pub ssp_uuid: String,
    pub placement_id: String,
    pub ad_type: AdType,
    /// Unix time of the last change.
    pub update_time: u64,
    /// 1 = enabled, 2 = disabled.
    pub status: u8,
}

/// A DSP's placement.
pub struct DspPlacement {
    pub dsp_id: u64,
    pub dsp_uuid: String,
    pub tag_id: String,
    /// The ad types served, such as `banner` or `banner+video`.
    pub custom_ad_type: String,
    /// The exchange's share of a winning price, in parts per million.
    pub profit_rate_ppm: u64,
    /// A JSON document of size constraints.
    pub auth: String,
    pub update_time: u64,
    /// 1 = enabled, 2 = disabled.
    pub status: u8,
}

impl Ssp {
    /// An equal copy.
    pub fn duplicate(&self) -> (r: Ssp)
        ensures
            r == *self,
    {
        Ssp { id: self.id, uuid: self.uuid.clone(), name: self.name.clone(), qps: self.qps }
    }
}

impl SspPlacement {
    /// An equal copy.
    pub fn duplicate(&self) -> (r: SspPlacement)
        ensures
            r == *self,
    {
        SspPlacement {
            ssp_id: self.ssp_id,
            ssp_uuid: self.ssp_uuid.clone(),
            placement_id: self.placement_id.clone(),
            ad_type: self.ad_type,
            update_time: self.update_time,
            status: self.status,
        }
    }
}

impl DspPlacement {
    /// An equal copy.
    pub fn duplicate(&self) -> (r: DspPlacement)
        ensures
            r == *self,
    {
        DspPlacement {
            dsp_id: self.dsp_id,
            dsp_uuid: self.dsp_uuid.clone(),
            tag_id: self.tag_id.clone(),
            custom_ad_type: self.custom_ad_type.clone(),
            profit_rate_ppm: self.profit_rate_ppm,
            auth: self.auth.clone(),
            update_time: self.update_time,
            status: self.status,
        }
    }
}

} // verus!
