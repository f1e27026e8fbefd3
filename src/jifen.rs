//! The points economy: goods bought with points, the rules that award
//! points, and batches of manual awards.
use vstd::prelude::*;

verus! {

/// The status of an exchange of points for goods. Stored as 0 to 2.
#[derive(Debug, Clone, Copy, PartialEq, Eq, Structural)]
pub enum GoodsRecordStatus {
    /// Waiting to be confirmed.
    Pending,
    /// Exchanged, waiting to be picked up.
    Exchanged,
    /// Picked up.
    Received,
}

/// The stored code of a goods exchange status.
pub open spec fn goods_record_status_code(s: GoodsRecordStatus) -> u32 {
    match s {
        GoodsRecordStatus::Pending => 0,
        GoodsRecordStatus::Exchanged => 1,
        GoodsRecordStatus::Received => 2,
    }
}

/// The value a stored code names, if it names one.
pub open spec fn goods_record_status_decoded(code: u32) -> Option<GoodsRecordStatus> {
    if code == 0 {
        Some(GoodsRecordStatus::Pending)
    } else if code == 1 {
        Some(GoodsRecordStatus::Exchanged)
    } else if code == 2 {
        Some(GoodsRecordStatus::Received)
    } else {
        None
    }
}

/// Decoding with the fallback: an unknown code reads as `Pending`, so that the exchange is confirmed again.
pub open spec fn goods_record_status_or_default(code: u32) -> GoodsRecordStatus {
    match goods_record_status_decoded(code) {
        Some(s) => s,
        None => GoodsRecordStatus::Pending,
    }
}

impl GoodsRecordStatus {
    /// The value a stored code names, or `None` for any other code.
    pub fn decode(code: u32) -> (r: Option<GoodsRecordStatus>)
        ensures
            r == goods_record_status_decoded(code),
    {
        if code == 0 {
            Some(GoodsRecordStatus::Pending)
        } else if code == 1 {
            Some(GoodsRecordStatus::Exchanged)
        } else if code == 2 {
            Some(GoodsRecordStatus::Received)
        } else {
            None
        }
    }

    /// The stored code of this value.
    pub fn code(self) -> (r: u32)
        ensures
            r == goods_record_status_code(self),
    {
        match self {
            GoodsRecordStatus::Pending => 0,
            GoodsRecordStatus::Exchanged => 1,
            GoodsRecordStatus::Received => 2,
        }
    }
}

impl From<u32> for GoodsRecordStatus {
    /// Decodes with the `Pending` fallback for unknown codes.
    fn from(code: u32) -> (r: GoodsRecordStatus) {
        match GoodsRecordStatus::decode(code) {
            Some(s) => s,
            None => GoodsRecordStatus::Pending,
        }
    }
}

impl vstd::std_specs::convert::FromSpecImpl<u32> for GoodsRecordStatus {
    open spec fn obeys_from_spec() -> bool {
        true
    }

    open spec fn from_spec(code: u32) -> GoodsRecordStatus {
        goods_record_status_or_default(code)
    }
}

impl From<GoodsRecordStatus> for u32 {
    fn from(s: GoodsRecordStatus) -> (r: u32) {
        s.code()
    }
}

impl vstd::std_specs::convert::FromSpecImpl<GoodsRecordStatus> for u32 {
    open spec fn obeys_from_spec() -> bool {
        true
    }

    open spec fn from_spec(s: GoodsRecordStatus) -> u32 {
        goods_record_status_code(s)
    }
}

/// Goods that members can buy with points.
pub struct JifenGoods {
    pub id: u32,
    pub name: String,
    pub cover: String,
    /// How many are left.
    pub count: u32,
    /// The price in points.
    pub price: i32,
    pub description: Option<String>,
    pub enabled: bool,
}

/// A rule that awards points for an action.
pub struct JifenRule {
    pub id: u32,
    pub key: String,
    pub name: String,
    /// Points awarded per occurrence.
    pub jifen: i32,
    /// The period over which `max_count` applies.
    pub cycle: u32,
    pub max_count: u32,
    pub is_show: bool,
}

/// One entry of a batch of manual point changes.
pub struct AddRecordBatchItem {
    pub stu_id: String,
    /// Points added, or taken when negative.
    pub delta: i32,
    pub desc: String,
}

} // verus!
