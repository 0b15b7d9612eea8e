//! Artifact and Metadata Fetcher logic: the endpoints, the destination file
//! name, and the classification of HTTP statuses into success or the
//! operation's error. The network transfer itself happens outside the
//! library; these functions decide everything the transfer does not.

use vstd::prelude::*;
use vstd::string::StringExecFns;
use crate::config::AppConfig;
use crate::error::AppError;

verus! {

/// An HTTP status in the success class (2xx).
pub open spec fn is_success_status(code: u16) -> bool {
    200 <= code < 300
}

/// The artifact download endpoint: `{base}/forum/dl.php`.
pub fn download_url(cfg: &AppConfig) -> (r: String)
    ensures
        r@ == cfg.base_url@ + "/forum/dl.php"@,
{
    cfg.base_url.clone().concat("/forum/dl.php")
}

/// The file-listing fragment endpoint: `{base}/forum/viewtorrent.php`.
pub fn metadata_url(cfg: &AppConfig) -> (r: String)
    ensures
        r@ == cfg.base_url@ + "/forum/viewtorrent.php"@,
{
    cfg.base_url.clone().concat("/forum/viewtorrent.php")
}

/// The destination file name of a downloaded artifact: `{item-id}.torrent`.
pub fn artifact_filename(item_id: &str) -> (r: String)
    ensures
        r@ == item_id@ + ".torrent"@,
{
    item_id.to_owned().concat(".torrent")
}

/// The parameter list naming one item in an artifact or metadata request:
/// the single `t` pair carrying the item identifier verbatim.
pub fn item_param(item_id: &str) -> (v: Vec<(String, String)>)
    ensures
        v@.len() == 1,
        v@[0].0@ == "t"@,
        v@[0].1@ == item_id@,
{
    let mut v: Vec<(String, String)> = Vec::new();
    v.push(("t".to_owned(), item_id.to_owned()));
    v
}

/// Classifies the artifact endpoint's status: exactly the non-2xx statuses
/// yield `DownloadError`, so the caller writes no file for them.
pub fn check_download_status(code: u16) -> (r: Result<(), AppError>)
    ensures
        r is Ok <==> is_success_status(code),
        r matches Err(e) ==> (e matches AppError::Download(m) && m@ == "Download failed"@),
{
    if 200 <= code && code < 300 {
        Ok(())
    } else {
        Err(AppError::Download(String::from_str("Download failed")))
    }
}

/// Classifies the search and metadata endpoints' status: exactly the
/// non-2xx statuses yield `RequestError`.
pub fn check_request_status(code: u16) -> (r: Result<(), AppError>)
    ensures
        r is Ok <==> is_success_status(code),
        r matches Err(e) ==> (e matches AppError::Request(m) && m@ == "Request failed"@),
{
    if 200 <= code && code < 300 {
        Ok(())
    } else {
        Err(AppError::Request(String::from_str("Request failed")))
    }
}

} // verus!
