use vstd::prelude::*;

verus! {

/// Page params.
#[derive(Debug, Clone)]
pub struct PageParams {
    pub page: Option<u64>,
    pub page_size: Option<u64>,
    pub sort_by: Option<String>,
    pub sort_dir: Option<String>,
}

} // verus!
