//! The decisions behind the local key-value store.
//!
//! The store itself is platform plumbing that lives in the embedding:
//! a per-key file in a data directory next to the executable on
//! native, a browser key-value store on the web. What can be decided
//! here is decided here: which keys are acceptable, what file name a
//! key's value is stored under, and the typed error the embedding
//! reports when storing fails.

use vstd::prelude::*;
use vstd::string::StrSliceExecFns;
use vstd::string::StringExecFns;

verus! {

/// Why storing a value failed. Loading never fails: a missing or
/// unreadable value is simply absent.
#[derive(Debug)]
pub enum StoreError {
    /// The backing file could not be written to.
    FileUnwriteable { path: String, message: String },
    /// The browser's local storage was not available; cookies may be
    /// blocked for the site.
    LocalStorageUnavailable,
}

/// A character a storage key may contain: ASCII alphabetic or an
/// underscore.
pub open spec fn spec_valid_key_char(c: char) -> bool {
    ||| 'a' as u32 <= c as u32 <= 'z' as u32
    ||| 'A' as u32 <= c as u32 <= 'Z' as u32
    ||| c as u32 == '_' as u32
}

/// Storage keys are restricted to ASCII alphabetic characters and
/// underscores.
pub open spec fn spec_valid_key(s: Seq<char>) -> bool {
    forall|i: int| 0 <= i < s.len() ==> spec_valid_key_char(s[i])
}

/// Checks that a key contains only ASCII alphabetic characters and
/// underscores; the embedding refuses to touch the store for any
/// other key.
pub fn validate_key(key: &str) -> (r: bool)
    ensures
        r == spec_valid_key(key@),
{
    let len = key.unicode_len();
    let mut i: usize = 0;
    while i < len
        invariant
            i <= key@.len(),
            len == key@.len(),
            forall|j: int| 0 <= j < i ==> spec_valid_key_char(key@[j]),
        decreases len - i,
    {
        let c = key.get_char(i);
        let u = c as u32;
        let lower = 'a' as u32 <= u && u <= 'z' as u32;
        let upper = 'A' as u32 <= u && u <= 'Z' as u32;
        if !(lower || upper || u == '_' as u32) {
            return false;
        }
        i += 1;
    }
    true
}

/// The name of the file a key's value is stored under on native
/// platforms: the key itself, with the store's fixed extension.
pub fn storage_file_name(key: &str) -> (r: String)
    ensures
        r@ == key@ + ".lfx"@,
{
    let mut s = key.to_owned();
    s.append(".lfx");
    s
}

} // verus!
