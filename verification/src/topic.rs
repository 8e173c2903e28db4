//! Validity of publish topics and subscribe filters.
//!
//! The wrapped MQTT library rejects a publish whose topic holds a wildcard
//! character, and a subscription whose filter misuses one: `#` may stand
//! only as the whole last level of a filter, and `+` must occupy a whole
//! level wherever it stands.  The checks here decide exactly those rules,
//! so a request that would be refused is reported as invalid before
//! anything is sent.

use vstd::prelude::*;

verus! {

/// A publish topic is valid when it contains no wildcard character.
pub open spec fn valid_topic(topic: Seq<char>) -> bool {
    forall|i: int| 0 <= i < topic.len() ==> topic[i] != '+' && topic[i] != '#'
}

/// A subscribe filter is valid when it is non-empty, a multi-level
/// wildcard `#` stands only as the whole last level, and a single-level
/// wildcard `+` occupies a whole level wherever it stands.
pub open spec fn valid_filter(filter: Seq<char>) -> bool {
    &&& filter.len() > 0
    &&& forall|i: int|
        0 <= i < filter.len() && #[trigger] filter[i] == '#' ==> i == filter.len() - 1 && (i == 0
            || filter[i - 1] == '/')
    &&& forall|i: int|
        0 <= i < filter.len() && #[trigger] filter[i] == '+' ==> (i == 0 || filter[i - 1] == '/') && (i
            == filter.len() - 1 || filter[i + 1] == '/')
}

/// Decides [`valid_topic`] for a topic string.
pub fn check_topic(topic: &str) -> (r: bool)
    ensures
        r == valid_topic(topic@),
{
    let len: usize = topic.unicode_len();
    let mut i: usize = 0;
    while i < len
        invariant
            len == topic@.len(),
            0 <= i <= len,
            forall|j: int| 0 <= j < i ==> #[trigger] topic@[j] != '+' && topic@[j] != '#',
        decreases len - i,
    {
        let c = topic.get_char(i);
        if c == '+' || c == '#' {
            assert(!valid_topic(topic@));
            return false;
        }
        i = i + 1;
    }
    true
}

/// Decides [`valid_filter`] for a filter string.
pub fn check_filter(filter: &str) -> (r: bool)
    ensures
        r == valid_filter(filter@),
{
    let len: usize = filter.unicode_len();
    if len == 0 {
        return false;
    }
    let mut i: usize = 0;
    while i < len
        invariant
            len == filter@.len(),
            0 < len,
            0 <= i <= len,
            forall|j: int|
                0 <= j < i && #[trigger] filter@[j] == '#' ==> j == len - 1 && (j == 0 || filter@[j - 1]
                    == '/'),
            forall|j: int|
                0 <= j < i && #[trigger] filter@[j] == '+' ==> (j == 0 || filter@[j - 1] == '/') && (j == len
                    - 1 || filter@[j + 1] == '/'),
        decreases len - i,
    {
        let c = filter.get_char(i);
        if c == '#' {
            if i + 1 != len {
                assert(!valid_filter(filter@));
                return false;
            }
            if i > 0 && filter.get_char(i - 1) != '/' {
                assert(!valid_filter(filter@));
                return false;
            }
        }
        if c == '+' {
            if i > 0 && filter.get_char(i - 1) != '/' {
                assert(!valid_filter(filter@));
                return false;
            }
            if i + 1 < len && filter.get_char(i + 1) != '/' {
                assert(!valid_filter(filter@));
                return false;
            }
        }
        i = i + 1;
    }
    true
}

} // verus!
