//! What the job worker reads of a campaign.

use vstd::prelude::*;

verus! {

/// Where a campaign stands.
#[derive(Debug, Clone, Copy, PartialEq, Eq, Structural)]
pub enum CampaignStatus {
    Draft,
    Scheduled,
    Issuing,
    Paused,
    Ended,
    Cancelled,
}

/// How a campaign's coupons reach customers: pushed to a frozen audience, or claimed.
#[derive(Debug, Clone, Copy, PartialEq, Eq, Structural)]
pub enum IssueMode {
    Direct,
    FirstCome,
}

/// The parts of a campaign the issuing worker decides on.
#[derive(Debug, Clone, Copy, PartialEq, Eq, Structural)]
pub struct Campaign {
    pub status: CampaignStatus,
    pub issue_mode: IssueMode,
}

} // verus!
