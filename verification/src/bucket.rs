use vstd::prelude::*;

use crate::receipt::opt_view;
use crate::text::{owned, prefixed, starts_with, str_eq};

verus! {

/// The object bucket of a strand: objects are kept per soul and strand.
#[derive(Clone, Debug)]
pub struct ObjectBucket {
    pub soul_id: String,
    pub strand_id: String,
}

/// An object in a bucket, by key.
#[derive(Clone, Debug)]
pub struct ObjectUri {
    pub bucket: ObjectBucket,
    pub key: String,
}

/// Whether a bucket may be used, given the soul that owns its strand (`None`
/// when there is no such strand): the strand must exist and belong to the
/// bucket's soul.
pub open spec fn bucket_check(soul_id: Seq<char>, owner: Option<Seq<char>>) -> Result<(), Seq<char>> {
    match owner {
        None => Err("strand not found"@),
        Some(soul) => if soul == soul_id {
            Ok(())
        } else {
            Err("soul not found"@)
        },
    }
}

/// The result of a check over plain values.
pub open spec fn checked_as(r: Result<(), String>, c: Result<(), Seq<char>>) -> bool {
    match c {
        Ok(()) => r is Ok,
        Err(m) => r matches Err(e) && e@ == m,
    }
}

/// The object service of a runtime: its objects live under `runtime_root`.
#[derive(Clone, Debug)]
pub struct SantiService {
    pub runtime_root: String,
}

impl SantiService {
    /// A reference as it can be shown: a value that is not a `santi://`
    /// object reference is shown as it is (`Some`); an object reference
    /// (`None`) is rendered from its parsed object address instead.
    pub fn renderable_ref(&self, value: &str) -> (r: Option<String>)
        ensures
            prefixed(value@, "santi://"@) ==> r is None,
            !prefixed(value@, "santi://"@) ==> (r matches Some(x) && x@ == value@),
    {
        if starts_with(value, "santi://") {
            None
        } else {
            Some(owned(value))
        }
    }

    /// The root directory of the object store.
    pub fn object_store(&self) -> (r: String)
        ensures
            r@ == self.runtime_root@,
    {
        self.runtime_root.clone()
    }

    /// The bucket check; `owner` is the soul of the bucket's strand as the
    /// store has it.
    pub fn ensure_object_bucket(&self, bucket: &ObjectBucket, owner: &Option<String>) -> (r: Result<
        (),
        String,
    >)
        ensures
            checked_as(r, bucket_check(bucket.soul_id@, opt_view(*owner))),
    {
        match owner {
            None => Err(owned("strand not found")),
            Some(soul) => {
                if str_eq(soul.as_str(), bucket.soul_id.as_str()) {
                    Ok(())
                } else {
                    Err(owned("soul not found"))
                }
            },
        }
    }

    /// Whether an object may be stored at `uri`.
    pub fn put_bucket_object(&self, uri: &ObjectUri, owner: &Option<String>) -> (r: Result<(), String>)
        ensures
            checked_as(r, bucket_check(uri.bucket.soul_id@, opt_view(*owner))),
    {
        self.ensure_object_bucket(&uri.bucket, owner)
    }

    /// The object to read for a soul's strand and key, once its bucket checks.
    pub fn get_bucket_object(
        &self,
        soul_id: &str,
        strand_id: &str,
        key: &str,
        owner: &Option<String>,
    ) -> (r: Result<ObjectUri, String>)
        ensures
            match bucket_check(soul_id@, opt_view(*owner)) {
                Ok(()) => r matches Ok(u) && u.bucket.soul_id@ == soul_id@ && u.bucket.strand_id@
                    == strand_id@ && u.key@ == key@,
                Err(m) => r matches Err(e) && e@ == m,
            },
    {
        let bucket = ObjectBucket { soul_id: owned(soul_id), strand_id: owned(strand_id) };
        match self.ensure_object_bucket(&bucket, owner) {
            Ok(()) => Ok(ObjectUri { bucket, key: owned(key) }),
            Err(e) => Err(e),
        }
    }

    /// Whether the object at `uri` may be looked at.
    pub fn head_bucket_object(&self, uri: &ObjectUri, owner: &Option<String>) -> (r: Result<(), String>)
        ensures
            checked_as(r, bucket_check(uri.bucket.soul_id@, opt_view(*owner))),
    {
        self.ensure_object_bucket(&uri.bucket, owner)
    }

    /// Whether the object at `uri` may be deleted.
    pub fn delete_bucket_object(&self, uri: &ObjectUri, owner: &Option<String>) -> (r: Result<(), String>)
        ensures
            checked_as(r, bucket_check(uri.bucket.soul_id@, opt_view(*owner))),
    {
        self.ensure_object_bucket(&uri.bucket, owner)
    }

    /// Whether the objects of `bucket` may be listed.
    pub fn list_bucket_objects(&self, bucket: &ObjectBucket, owner: &Option<String>) -> (r: Result<
        (),
        String,
    >)
        ensures
            checked_as(r, bucket_check(bucket.soul_id@, opt_view(*owner))),
    {
        self.ensure_object_bucket(bucket, owner)
    }
}

} // verus!
