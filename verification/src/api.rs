//! Requests to the patch server: the URLs that are asked for, and what the
//! status of each answer means.

use vstd::prelude::*;
use vstd::string::StringSliceAdditionalSpecFns;
use crate::decimal::{decimal_string, push_decimal};
use crate::text::{chars_of, string_from_chars};

verus! {

/// Bytes that `urlencoding::encode` leaves as they are: ASCII letters and
/// digits and `-`, `.`, `_`, `~`.
pub open spec fn url_unreserved(b: u8) -> bool {
    (48 <= b && b <= 57) || (65 <= b && b <= 90) || (97 <= b && b <= 122) || b == 45 || b == 46
        || b == 95 || b == 126
}

/// The upper-case hex digit of a nibble `n < 16`.
pub open spec fn hex_upper_digit(n: u8) -> char {
    if n < 10 {
        (n + 48) as char
    } else {
        (n + 55) as char
    }
}

/// The text one byte becomes: itself if unreserved, else `%` and two upper-case hex digits.
pub open spec fn percent_encode_byte(b: u8) -> Seq<char> {
    if url_unreserved(b) {
        seq![b as char]
    } else {
        seq!['%', hex_upper_digit(b / 16), hex_upper_digit(b % 16)]
    }
}

/// Percent-encoding of a byte string, byte by byte.
pub open spec fn percent_encode(bytes: Seq<u8>) -> Seq<char>
    decreases bytes.len(),
{
    if bytes.len() == 0 {
        Seq::<char>::empty()
    } else {
        percent_encode_byte(bytes[0]) + percent_encode(bytes.drop_first())
    }
}

/// Calls `urlencoding::encode`, which percent-encodes every byte of the
/// UTF-8 text except ASCII letters, digits and `-`, `.`, `_`, `~`, writing
/// `%` and two upper-case hex digits; the contract states exactly that.
#[verifier::external_body]
fn url_encode(s: &str) -> (r: String)
    ensures
        r@ == percent_encode(s.spec_bytes()),
{
    urlencoding::encode(s).into_owned()
}

/// `s` without its trailing `/` characters (`str::trim_end_matches('/')`).
pub open spec fn trim_trailing_slashes(s: Seq<char>) -> Seq<char>
    decreases s.len(),
{
    if s.len() > 0 && s.last() == '/' {
        trim_trailing_slashes(s.drop_last())
    } else {
        s
    }
}

/// The server URL without trailing `/`.
pub fn trim_server_url(server_url: &str) -> (r: String)
    ensures
        r@ == trim_trailing_slashes(server_url@),
{
    let v = chars_of(server_url);
    let mut end = v.len();
    assert(v@.take(end as int) =~= v@);
    while end > 0 && v[end - 1] == '/'
        invariant
            end <= v@.len(),
            trim_trailing_slashes(server_url@) == trim_trailing_slashes(v@.take(end as int)),
            v@ == server_url@,
        decreases end,
    {
        assert(v@.take(end as int).drop_last() =~= v@.take(end - 1));
        end = end - 1;
    }
    let mut out: Vec<char> = Vec::new();
    for i in 0..end
        invariant
            end <= v@.len(),
            out@ == v@.take(i as int),
    {
        out.push(v[i]);
        assert(v@.take(i + 1) =~= v@.take(i as int).push(v@[i as int]));
    }
    string_from_chars(out.as_slice())
}

/// The URL that asks for the newest patch of a release.
pub open spec fn latest_patch_url_text(
    server_url: Seq<char>,
    app_id: Seq<u8>,
    version: Seq<u8>,
    channel: Seq<u8>,
    platform: Seq<u8>,
    architecture: Seq<u8>,
    current_patch_number: u32,
) -> Seq<char> {
    trim_trailing_slashes(server_url) + "/api/apps/"@ + percent_encode(app_id) + "/releases/"@
        + percent_encode(version) + "/patches/latest?platform="@ + percent_encode(platform)
        + "&channel="@ + percent_encode(channel) + "&architecture="@ + percent_encode(
        architecture,
    ) + "&currentPatchNumber="@ + decimal_string(current_patch_number as nat)
}

/// The URL from which a patch is downloaded.
pub open spec fn download_url_text(server_url: Seq<char>, patch_id: Seq<char>) -> Seq<char> {
    trim_trailing_slashes(server_url) + "/api/patches/"@ + patch_id + "/download"@
}

/// What the answer to a request for the newest patch means, by its HTTP status.
#[derive(Debug, Clone, Copy, PartialEq, Eq)]
pub enum CheckOutcome {
    /// 200: the body describes a newer patch.
    PatchAvailable,
    /// 404: there is no newer patch.
    NoNewerPatch,
    /// Any other status: the request failed.
    Failed,
}

/// The meaning of the status of an answer to a request for the newest patch.
pub fn check_outcome(status: u16) -> (r: CheckOutcome)
    ensures
        r == (if status == 200 {
            CheckOutcome::PatchAvailable
        } else if status == 404 {
            CheckOutcome::NoNewerPatch
        } else {
            CheckOutcome::Failed
        }),
{
    if status == 200 {
        CheckOutcome::PatchAvailable
    } else if status == 404 {
        CheckOutcome::NoNewerPatch
    } else {
        CheckOutcome::Failed
    }
}

/// Whether a download answered with `status` succeeded (any 2xx status).
pub fn download_succeeded(status: u16) -> (r: bool)
    ensures
        r == (200 <= status && status <= 299),
{
    200 <= status && status <= 299
}

/// The part of the patch-server client that forms its requests.
pub struct ApiClient {
    pub server_url: String,
}

impl ApiClient {
    /// A client of the server at `server_url`.
    pub fn new(server_url: String) -> (r: ApiClient)
        ensures
            r.server_url == server_url,
    {
        ApiClient { server_url }
    }

    /// The URL that asks the server for the newest patch of a release newer
    /// than `current_patch_number`; every field but the number is percent-encoded.
    pub fn latest_patch_url(
        &self,
        app_id: &str,
        version: &str,
        channel: &str,
        platform: &str,
        architecture: &str,
        current_patch_number: u32,
    ) -> (r: String)
        ensures
            r@ == latest_patch_url_text(
                self.server_url@,
                app_id.spec_bytes(),
                version.spec_bytes(),
                channel.spec_bytes(),
                platform.spec_bytes(),
                architecture.spec_bytes(),
                current_patch_number,
            ),
    {
        let mut url = trim_server_url(self.server_url.as_str());
        url.append("/api/apps/");
        url.append(url_encode(app_id).as_str());
        url.append("/releases/");
        url.append(url_encode(version).as_str());
        url.append("/patches/latest?platform=");
        url.append(url_encode(platform).as_str());
        url.append("&channel=");
        url.append(url_encode(channel).as_str());
        url.append("&architecture=");
        url.append(url_encode(architecture).as_str());
        url.append("&currentPatchNumber=");
        push_decimal(&mut url, current_patch_number);
        url
    }

    /// The URL from which the patch `patch_id` is downloaded (the id is not encoded).
    pub fn download_url(&self, patch_id: &str) -> (r: String)
        ensures
            r@ == download_url_text(self.server_url@, patch_id@),
    {
        let mut url = trim_server_url(self.server_url.as_str());
        url.append("/api/patches/");
        url.append(patch_id);
        url.append("/download");
        url
    }
}

} // verus!
