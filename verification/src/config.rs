use vstd::prelude::*;

verus! {

/// Run configuration, produced by the surrounding shell (which loads and
/// validates it) and consumed read-only by the pipeline.
///
/// `concurrency` is the global ceiling on simultaneously in-flight asset
/// downloads; a usable configuration has `concurrency >= 1`.
pub struct Config {
    /// Credential token attached as a `Cookie` header to every request.
    pub cookie: String,
    /// Global concurrency ceiling for asset downloads, shared across galleries.
    pub concurrency: i64,
    /// When set, seek the original-resolution asset via a secondary link and
    /// redirect probe instead of the preview asset.
    pub original: bool,
    /// Optional upstream proxy URL.
    pub proxy: Option<String>,
    /// Path of the input list: one gallery source URL per line.
    pub input: String,
    /// Root directory under which downloaded files are written.
    pub output: String,
}

impl Config {
    /// A configuration is usable when its concurrency ceiling admits at
    /// least one in-flight download.
    pub open spec fn valid(&self) -> bool {
        self.concurrency >= 1
    }
}

} // verus!
