use vstd::prelude::*;
use vstd::string::StringExecFns;
use crate::error::{Error, ErrorKind};

verus! {

/// `name` is one of `names`.
pub open spec fn listed(names: Seq<String>, name: Seq<char>) -> bool {
    exists|i: int| 0 <= i < names.len() && #[trigger] names[i]@ == name
}

/// Whether `name` is one of `names`.
pub fn is_listed(names: &Vec<String>, name: &String) -> (r: bool)
    ensures
        r == listed(names@, name@),
{
    let mut i: usize = 0;
    while i < names.len()
        invariant
            i <= names@.len(),
            forall|j: int| 0 <= j < i ==> #[trigger] names@[j]@ != name@,
        decreases names@.len() - i,
    {
        if names[i] == *name {
            return true;
        }
        i = i + 1;
    }
    false
}

/// Succeeds when the destination bucket is among the account's buckets, and
/// fails with `NotFound` when it is not.
pub fn check_bucket_in_list(bucket_names: &Vec<String>, s3_bucket_name: &String) -> (r: Result<
    (),
    Error,
>)
    ensures
        r is Ok <==> listed(bucket_names@, s3_bucket_name@),
        r is Err ==> r->Err_0.kind == ErrorKind::NotFound,
{
    if is_listed(bucket_names, s3_bucket_name) {
        Ok(())
    } else {
        let msg = <String as StringExecFns>::from_str("Bucket ");
        let msg = msg.concat(s3_bucket_name.as_str()).concat(" is not available!");
        Err(Error::new(ErrorKind::NotFound, msg))
    }
}

/// Succeeds when the archive's key is in the bucket's object listing, and
/// fails with `NotFound` when it is not.
pub fn check_object_exists(object_keys: &Vec<String>, s3_object_name: &String) -> (r: Result<
    (),
    Error,
>)
    ensures
        r is Ok <==> listed(object_keys@, s3_object_name@),
        r is Err ==> r->Err_0.kind == ErrorKind::NotFound,
{
    if is_listed(object_keys, s3_object_name) {
        Ok(())
    } else {
        let msg = <String as StringExecFns>::from_str("Object ");
        let msg = msg.concat(s3_object_name.as_str()).concat(" is not available!");
        Err(Error::new(ErrorKind::NotFound, msg))
    }
}

} // verus!
