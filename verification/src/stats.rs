use vstd::prelude::*;

verus! {

/// Storage figures reported by the statistics endpoint.
#[derive(Debug)]
pub struct FilesInfo {
    /// How many objects the backend currently holds.
    pub files: usize,
}

/// The statistics report: one section per subsystem.
#[derive(Debug)]
pub struct StatisticsResponse {
    /// Storage figures.
    pub storage: FilesInfo,
}

} // verus!
