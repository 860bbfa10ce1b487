//! Transfer bookkeeping: where files are placed on either end, and the
//! throughput of a completed download.

use vstd::prelude::*;
use vstd::string::StringExecFns;

verus! {

/// Where the client persists a downloaded file: inside the fixed local
/// directory, under the selected file's own name.
pub open spec fn download_dest_spec(name: Seq<char>) -> Seq<char> {
    "Shared/"@ + name
}

/// Destination path for a downloaded file.
pub fn download_destination(name: &str) -> (p: String)
    ensures
        p@ == download_dest_spec(name@),
{
    let base: String = String::from_str("Shared/");
    base.concat(name)
}

/// The path of a served file inside the server's root directory.
pub open spec fn served_path_spec(dir: Seq<char>, name: Seq<char>) -> Seq<char> {
    dir + "/"@ + name
}

/// Path the server opens for a resolved selection.
pub fn served_file_path(dir: &str, name: &str) -> (p: String)
    ensures
        p@ == served_path_spec(dir@, name@),
{
    let mut p: String = String::from_str(dir);
    p.append("/");
    p.append(name);
    p
}

/// Throughput of a completed transfer, in whole bytes per second.
///
/// The result is exact integer division, so it is always non-negative
/// and well defined whenever the elapsed time is positive.
pub fn throughput_bytes_per_sec(bytes: u64, elapsed_ms: u64) -> (r: u128)
    requires
        elapsed_ms > 0,
    ensures
        r == bytes as int * 1000 / elapsed_ms as int,
{
    (bytes as u128) * 1000 / (elapsed_ms as u128)
}

} // verus!
