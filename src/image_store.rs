use vstd::prelude::*;
use crate::recipe::opt_view;
use crate::text::{chars_of, string_of};

verus! {

/// Where recipe photos are uploaded: a bucket of an S3 region.
#[derive(Debug)]
pub struct S3ImageStore {
    pub region: String,
    pub bucket_name: String,
}

/// How long an upload location stays valid, in seconds.
pub const UPLOAD_EXPIRY_SECS: u32 = 60 * 60;

impl S3ImageStore {
    /// The store of a bucket in a region.
    pub fn new(region: String, bucket_name: String) -> (r: S3ImageStore)
        ensures
            r.region@ == region@,
            r.bucket_name@ == bucket_name@,
    {
        S3ImageStore { region, bucket_name }
    }

    /// The store of the configured region and bucket, `eu-west-3` and
    /// `rustipe-photos` where they are not configured.
    pub fn from_settings(region: Option<String>, bucket_name: Option<String>) -> (r: S3ImageStore)
        ensures
            r.region@ == match opt_view(region) {
                Some(x) => x,
                None => "eu-west-3"@,
            },
            r.bucket_name@ == match opt_view(bucket_name) {
                Some(x) => x,
                None => "rustipe-photos"@,
            },
    {
        let region = match region {
            Some(x) => x,
            None => string_of(&chars_of("eu-west-3")),
        };
        let bucket_name = match bucket_name {
            Some(x) => x,
            None => string_of(&chars_of("rustipe-photos")),
        };
        S3ImageStore::new(region, bucket_name)
    }

    /// The key of an uploaded photo: `/{id}.{extension}`.
    pub fn upload_path(id: &str, extension: &str) -> (r: String)
        ensures
            r@ == "/"@ + id@ + "."@ + extension@,
    {
        let mut path = chars_of("/");
        let mut a = chars_of(id);
        path.append(&mut a);
        let mut dot = chars_of(".");
        path.append(&mut dot);
        let mut b = chars_of(extension);
        path.append(&mut b);
        string_of(&path)
    }
}

} // verus!
