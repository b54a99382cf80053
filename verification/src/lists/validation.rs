//! Limits on list fields.
use vstd::prelude::*;
use crate::lists::types::ListError;
use crate::text::{chars_of, spec_utf8_len};

verus! {

pub const MAX_LIST_NAME_LENGTH: usize = 64;

pub const MAX_LIST_DESCRIPTION_LENGTH: usize = 256;

/// Most registrations in one batch.
pub const MAX_REGISTRATION_BATCH_SIZE: u32 = 90;

/// The name is at most `MAX_LIST_NAME_LENGTH` bytes long (in UTF-8).
pub fn assert_valid_list_name(name: &str) -> (r: Result<(), ListError>)
    ensures
        r is Ok <==> spec_utf8_len(name@) <= MAX_LIST_NAME_LENGTH,
        r is Err ==> r == Err::<(), ListError>(ListError::NameTooLong),
{
    if name.len() <= MAX_LIST_NAME_LENGTH {
        Ok(())
    } else {
        Err(ListError::NameTooLong)
    }
}

/// The description is at most `MAX_LIST_DESCRIPTION_LENGTH` bytes long (in UTF-8).
pub fn assert_valid_list_description(description: &str) -> (r: Result<(), ListError>)
    ensures
        r is Ok <==> spec_utf8_len(description@) <= MAX_LIST_DESCRIPTION_LENGTH,
        r is Err ==> r == Err::<(), ListError>(ListError::DescriptionTooLong),
{
    if description.len() <= MAX_LIST_DESCRIPTION_LENGTH {
        Ok(())
    } else {
        Err(ListError::DescriptionTooLong)
    }
}

/// `"https://"`.
pub open spec fn spec_https_prefix() -> Seq<char> {
    seq!['h', 't', 't', 'p', 's', ':', '/', '/']
}

/// The URL starts with `https://`.
pub fn assert_valid_url(url: &str) -> (r: Result<(), ListError>)
    ensures
        r is Ok <==> (url@.len() >= 8 && url@.subrange(0, 8) == spec_https_prefix()),
        r is Err ==> r == Err::<(), ListError>(ListError::InvalidUrl),
{
    let v = chars_of(url);
    let prefix = vec!['h', 't', 't', 'p', 's', ':', '/', '/'];
    assert(v@ == url@);
    assert(prefix@ =~= spec_https_prefix());
    if v.len() < 8 {
        return Err(ListError::InvalidUrl);
    }
    let mut i: usize = 0;
    while i < 8
        invariant
            i <= 8 <= v@.len(),
            v@ == url@,
            prefix@ == spec_https_prefix(),
            forall|j: int| 0 <= j < i ==> v@[j] == prefix@[j],
        decreases 8 - i,
    {
        if v[i] != prefix[i] {
            assert(v@.subrange(0, 8)[i as int] != spec_https_prefix()[i as int]);
            assert(v@.subrange(0, 8) != spec_https_prefix());
            return Err(ListError::InvalidUrl);
        }
        i += 1;
    }
    assert(v@.subrange(0, 8) =~= spec_https_prefix());
    Ok(())
}

} // verus!
