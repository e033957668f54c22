use vstd::prelude::*;
use crate::util::ids::uuid_text;
use crate::util::text::{decimal, i64_text, same_text, signed_decimal, uuid_hyphenated};

verus! {

/// MIME type stored with a frame of the given format.
pub open spec fn content_type_of(format: Seq<char>) -> Seq<char> {
    if format == "jpg"@ || format == "jpeg"@ {
        "image/jpeg"@
    } else if format == "png"@ {
        "image/png"@
    } else if format == "h264"@ {
        "video/h264"@
    } else {
        "application/octet-stream"@
    }
}

pub fn content_type(format: &str) -> (t: &'static str)
    ensures
        t@ == content_type_of(format@),
{
    if same_text(format, "jpg") || same_text(format, "jpeg") {
        "image/jpeg"
    } else if same_text(format, "png") {
        "image/png"
    } else if same_text(format, "h264") {
        "video/h264"
    } else {
        "application/octet-stream"
    }
}

/// Object key of a frame:
/// `trucks/<truck>/frames/<date path>/<object>.<format>`.
pub open spec fn frame_key_of(truck_id: u128, date_path: Seq<char>, object_id: u128, format: Seq<char>) -> Seq<char> {
    "trucks/"@ + uuid_hyphenated(truck_id) + "/frames/"@ + date_path + "/"@ + uuid_hyphenated(object_id) + "."@
        + format
}

/// The object key a frame is stored under; `date_path` is the capture day
/// as `YYYY/MM/DD`.
pub fn frame_key(truck_id: u128, date_path: &str, object_id: u128, format: &str) -> (key: String)
    ensures
        key@ == frame_key_of(truck_id, date_path@, object_id, format@),
{
    let mut key = String::from_str("trucks/");
    let t = uuid_text(truck_id);
    key.append(t.as_str());
    key.append("/frames/");
    key.append(date_path);
    key.append("/");
    let o = uuid_text(object_id);
    key.append(o.as_str());
    key.append(".");
    key.append(format);
    key
}

/// Link handed out for a stored object: `https://<bucket>/<key>?expires=<n>`.
pub open spec fn object_url_of(bucket: Seq<char>, key: Seq<char>, expires_in: i64) -> Seq<char> {
    "https://"@ + bucket + "/"@ + key + "?expires="@ + signed_decimal(expires_in as int)
}

/// Bucket the frames are stored in.
#[derive(Clone, Debug)]
pub struct BlobStore {
    pub bucket: String,
}

impl BlobStore {
    pub fn new(bucket: &str) -> (s: Self)
        ensures
            s.bucket@ == bucket@,
    {
        BlobStore { bucket: String::from_str(bucket) }
    }

    /// Link to an object, valid for `expires_in` seconds.
    pub fn generate_presigned_url(&self, key: &str, expires_in: i64) -> (url: String)
        ensures
            url@ == object_url_of(self.bucket@, key@, expires_in),
    {
        let mut url = String::from_str("https://");
        url.append(self.bucket.as_str());
        url.append("/");
        url.append(key);
        url.append("?expires=");
        let n = i64_text(expires_in);
        url.append(n.as_str());
        url
    }
}

} // verus!
