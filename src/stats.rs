//! Counts shown on the dashboard.
use vstd::prelude::*;

verus! {

/// How many words the master list holds, how many are being learned, and
/// how many of those are due.
#[derive(Debug, Clone, Copy, PartialEq, Eq, Structural)]
pub struct DashboardStats {
    pub total_master: u64,
    pub total_learning: u64,
    pub due_today: u64,
}

} // verus!
