//! The `wasm-pack watch` and `wasm-pack serve` commands: rebuilding when the
//! crate's sources change, and what is served.

use vstd::prelude::*;
use crate::binary_install::path::{join, path_join};

verus! {

/// What the file-system watcher reports about the crate's sources.
#[derive(Clone, Copy, Debug)]
pub enum WatchEvent {
    /// A write has begun; more events follow.
    NoticeWrite,
    /// A removal has begun; more events follow.
    NoticeRemove,
    /// Something changed.
    Changed,
}

/// What the watch loop does next.
#[derive(Clone, Copy, Debug)]
pub enum WatchAction {
    /// Build the crate (a build already queued absorbs this one).
    Build,
    /// Wait for the next event.
    Wait,
}

/// The watch loop's decision: it starts by building (no event yet), then
/// rebuilds on every change but not on the notices that precede one.
pub fn watch(event: Option<WatchEvent>) -> (r: WatchAction)
    ensures
        match event {
            None => r is Build,
            Some(WatchEvent::Changed) => r is Build,
            Some(_) => r is Wait,
        },
{
    match event {
        None => WatchAction::Build,
        Some(WatchEvent::Changed) => WatchAction::Build,
        Some(WatchEvent::NoticeWrite) => WatchAction::Wait,
        Some(WatchEvent::NoticeRemove) => WatchAction::Wait,
    }
}

/// The directory watched for changes: the crate's `src`.
pub fn watch_path(crate_path: &str) -> (r: String)
    ensures
        r@ == path_join(crate_path@, "src"@),
{
    join(crate_path, "src")
}

/// How `wasm-pack serve` serves the crate.
#[derive(Debug)]
pub struct ServePlan {
    /// The port on 127.0.0.1.
    pub port: u16,
    /// The directory served.
    pub root: String,
    /// Whether the crate is rebuilt as its sources change meanwhile.
    pub watch: bool,
}

/// What `wasm-pack serve` does: serve `root` (the crate by default) on
/// `port` (8000 by default), watching the sources unless told not to.
pub fn serve(no_watch: bool, port: Option<u16>, root: Option<String>, crate_path: &str) -> (r: ServePlan)
    ensures
        r.port == match port { Some(p) => p, None => 8000u16 },
        r.root@ == match root { Some(d) => d@, None => crate_path@ },
        r.watch == !no_watch,
{
    let port = match port {
        Some(p) => p,
        None => 8000,
    };
    let root = match root {
        Some(d) => d,
        None => String::from_str(crate_path),
    };
    ServePlan { port, root, watch: !no_watch }
}

} // verus!
