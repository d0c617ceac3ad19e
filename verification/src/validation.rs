//! Parameter checks applied before any request is sent.

use vstd::prelude::*;

use crate::errors::{is_validation, Error};
use crate::text::{is_blank, join2, join3, lemma_trim_empty_iff_blank, trim_spec, trim_text};
use crate::types::{DeliveryMode, SessionRef, UserRef};

verus! {

/// Longest accepted metadata key, in UTF-8 bytes.
pub const USER_METADATA_KEY_MAX_LENGTH: usize = 128;

/// Largest accepted metadata scan limit.
pub const USER_METADATA_SCAN_LIMIT_MAX: i32 = 1000;

/// Login names are compared and sent trimmed.
pub fn normalize_login_name(value: &str) -> (r: String)
    ensures
        r@ == trim_spec(value@),
{
    trim_text(value)
}

/// Refuses a non-positive ID with `FIELD is required`.
pub fn validate_positive_i64(value: i64, field: &str) -> (r: Result<(), Error>)
    ensures
        r is Ok == (value > 0),
        r matches Err(e) ==> is_validation(e, field@ + " is required"@),
{
    if value <= 0 {
        let m = join2(field, " is required");
        return Err(Error::validation(m.as_str()));
    }
    Ok(())
}

/// Refuses a login name that is blank, with `FIELD is required`.
pub fn validate_login_name(value: &str, field: &str) -> (r: Result<(), Error>)
    ensures
        r is Ok == !is_blank(value@),
        r matches Err(e) ==> is_validation(e, field@ + " is required"@),
{
    let t = normalize_login_name(value);
    proof {
        lemma_trim_empty_iff_blank(value@);
    }
    if t.unicode_len() == 0 {
        let m = join2(field, " is required");
        return Err(Error::validation(m.as_str()));
    }
    Ok(())
}

/// The outcome of checking a user reference: the first non-positive part is reported.
pub open spec fn user_ref_check(value: UserRef, field: Seq<char>) -> Option<Seq<char>> {
    if value.node_id <= 0 {
        Some(field + ".node_id"@ + " is required"@)
    } else if value.user_id <= 0 {
        Some(field + ".user_id"@ + " is required"@)
    } else {
        None
    }
}

/// Both IDs of a user reference must be positive.
pub fn validate_user_ref(value: &UserRef, field: &str) -> (r: Result<(), Error>)
    ensures
        r is Ok == (value.node_id > 0 && value.user_id > 0),
        r matches Err(e) ==> is_validation(e, user_ref_check(*value, field@)->0),
{
    let f1 = join2(field, ".node_id");
    validate_positive_i64(value.node_id, f1.as_str())?;
    let f2 = join2(field, ".user_id");
    validate_positive_i64(value.user_id, f2.as_str())?;
    Ok(())
}

/// A user reference that may be left unset as `{0, 0}`; otherwise it must be valid.
/// Returns whether it is set.
pub fn validate_optional_user_ref(value: &UserRef, field: &str) -> (r: Result<bool, Error>)
    ensures
        (value.node_id == 0 && value.user_id == 0) ==> r == Ok::<bool, Error>(false),
        !(value.node_id == 0 && value.user_id == 0) ==> match r {
            Ok(b) => b && value.node_id > 0 && value.user_id > 0,
            Err(e) => !(value.node_id > 0 && value.user_id > 0) && is_validation(
                e,
                user_ref_check(*value, field@)->0,
            ),
        },
{
    if value.node_id == 0 && value.user_id == 0 {
        return Ok(false);
    }
    validate_user_ref(value, field)?;
    Ok(true)
}

/// A filter text: `None` when blank, otherwise the trimmed text.
pub fn normalize_optional_filter(value: &str) -> (r: Option<String>)
    ensures
        is_blank(value@) ==> r is None,
        !is_blank(value@) ==> (r matches Some(s) && s@ == trim_spec(value@)),
{
    let t = trim_text(value);
    proof {
        lemma_trim_empty_iff_blank(value@);
    }
    if t.unicode_len() == 0 {
        None
    } else {
        Some(t)
    }
}

/// A session reference needs a positive serving node and a non-blank session ID.
pub fn validate_session_ref(value: &SessionRef, field: &str) -> (r: Result<(), Error>)
    ensures
        r is Ok == (value.serving_node_id > 0 && !is_blank(value.session_id@)),
        r matches Err(e) ==> if value.serving_node_id <= 0 {
            is_validation(e, field@ + ".serving_node_id"@ + " is required"@)
        } else {
            is_validation(e, field@ + ".session_id is required"@)
        },
{
    let f1 = join2(field, ".serving_node_id");
    validate_positive_i64(value.serving_node_id, f1.as_str())?;
    let t = trim_text(value.session_id.as_str());
    proof {
        lemma_trim_empty_iff_blank(value.session_id@);
    }
    if t.unicode_len() == 0 {
        let m = join2(field, ".session_id is required");
        return Err(Error::validation(m.as_str()));
    }
    Ok(())
}

/// A packet needs an explicit delivery mode.
pub fn validate_delivery_mode(mode: DeliveryMode) -> (r: Result<(), Error>)
    ensures
        r is Ok == (mode != DeliveryMode::Unspecified),
        r matches Err(e) ==> is_validation(e, "invalid delivery_mode \"\""@),
{
    match mode {
        DeliveryMode::BestEffort | DeliveryMode::RouteRetry => Ok(()),
        DeliveryMode::Unspecified => Err(Error::validation("invalid delivery_mode \"\"")),
    }
}

/// The characters a metadata key may hold: ASCII letters, digits, `.`, `_`, `:` and `-`.
pub open spec fn is_key_char(c: char) -> bool {
    ||| ('a' <= c && c <= 'z')
    ||| ('A' <= c && c <= 'Z')
    ||| ('0' <= c && c <= '9')
    ||| c == '.'
    ||| c == '_'
    ||| c == ':'
    ||| c == '-'
}

/// `i` is the first position of `s` that holds a character a key may not hold.
pub open spec fn first_bad_key_char(s: Seq<char>, i: int) -> bool {
    &&& 0 <= i < s.len()
    &&& !is_key_char(s[i])
    &&& forall|j: int| 0 <= j < i ==> is_key_char(#[trigger] s[j])
}

/// How `{:?}` prints a character (quoted and escaped), as computed by std.
pub uninterp spec fn char_debug(c: char) -> Seq<char>;

/// `format!("{:?}", c)`: std's `Debug` rendering of a character.
#[verifier::external_body]
fn char_debug_text(c: char) -> (r: String)
    ensures
        r@ == char_debug(c),
{
    format!("{:?}", c)
}

/// Bytes a character takes in UTF-8.
pub open spec fn utf8_width(c: char) -> nat {
    if (c as u32) < 0x80 {
        1
    } else if (c as u32) < 0x800 {
        2
    } else if (c as u32) < 0x10000 {
        3
    } else {
        4
    }
}

/// Bytes a text takes in UTF-8 (what `str::len` returns).
pub open spec fn utf8_len(s: Seq<char>) -> nat
    decreases s.len(),
{
    if s.len() == 0 {
        0
    } else {
        utf8_len(s.drop_last()) + utf8_width(s.last())
    }
}

proof fn lemma_utf8_len_prefix(s: Seq<char>, i: int)
    requires
        0 <= i < s.len(),
    ensures
        utf8_len(s.take(i + 1)) == utf8_len(s.take(i)) + utf8_width(s[i]),
{
    assert(s.take(i + 1).drop_last() =~= s.take(i));
}

proof fn lemma_utf8_len_mono(s: Seq<char>, i: int, j: int)
    requires
        0 <= i <= j <= s.len(),
    ensures
        utf8_len(s.take(i)) <= utf8_len(s.take(j)),
    decreases j - i,
{
    if i < j {
        lemma_utf8_len_prefix(s, j - 1);
        lemma_utf8_len_mono(s, i, j - 1);
    }
}

/// Whether `s` takes more than `limit` bytes in UTF-8.
fn utf8_longer_than(s: &str, limit: usize) -> (r: bool)
    ensures
        r == (utf8_len(s@) > limit),
{
    let n = s.unicode_len();
    let mut total: usize = 0;
    let mut i: usize = 0;
    while i < n
        invariant
            n == s@.len(),
            i <= n,
            total == utf8_len(s@.take(i as int)),
            total <= limit,
        decreases n - i,
    {
        let c = s.get_char(i);
        let w: usize = if (c as u32) < 0x80 {
            1
        } else if (c as u32) < 0x800 {
            2
        } else if (c as u32) < 0x10000 {
            3
        } else {
            4
        };
        proof {
            lemma_utf8_len_prefix(s@, i as int);
        }
        if w > limit - total {
            proof {
                lemma_utf8_len_mono(s@, i + 1, n as int);
                assert(s@.take(n as int) =~= s@);
            }
            return true;
        }
        total = total + w;
        i = i + 1;
    }
    assert(s@.take(n as int) =~= s@);
    false
}

/// The error a metadata key fragment gets, if any.
pub open spec fn key_fragment_error(value: Seq<char>, field: Seq<char>, allow_empty: bool) -> Option<
    Seq<char>,
> {
    if value.len() == 0 {
        if allow_empty {
            None
        } else {
            Some(field + " cannot be empty"@)
        }
    } else if utf8_len(value) > 128 {
        Some(field + " exceeds 128 characters"@)
    } else if exists|i: int| first_bad_key_char(value, i) {
        let i = choose|i: int| first_bad_key_char(value, i);
        Some(field + " contains unsupported character "@ + char_debug(value[i]))
    } else {
        None
    }
}

proof fn lemma_first_bad_unique(s: Seq<char>, i: int, k: int)
    requires
        first_bad_key_char(s, i),
        first_bad_key_char(s, k),
    ensures
        i == k,
{
    if i < k {
        assert(is_key_char(s[i]));
    } else if k < i {
        assert(is_key_char(s[k]));
    }
}

/// Checks a metadata key or key fragment: its length in bytes and its characters; empty is allowed only when `allow_empty` is set.
pub fn validate_user_metadata_key_fragment(value: &str, field: &str, allow_empty: bool) -> (r: Result<
    (),
    Error,
>)
    ensures
        r is Ok == key_fragment_error(value@, field@, allow_empty) is None,
        r matches Err(e) ==> is_validation(e, key_fragment_error(value@, field@, allow_empty)->0),
{
    let n = value.unicode_len();
    if n == 0 {
        if allow_empty {
            return Ok(());
        }
        let m = join2(field, " cannot be empty");
        return Err(Error::validation(m.as_str()));
    }
    if utf8_longer_than(value, USER_METADATA_KEY_MAX_LENGTH) {
        let m = join2(field, " exceeds 128 characters");
        return Err(Error::validation(m.as_str()));
    }
    let mut i: usize = 0;
    while i < n
        invariant
            n == value@.len(),
            n > 0,
            utf8_len(value@) <= 128,
            i <= n,
            forall|j: int| 0 <= j < i ==> is_key_char(#[trigger] value@[j]),
        decreases n - i,
    {
        let ch = value.get_char(i);
        let ok = ('a' <= ch && ch <= 'z') || ('A' <= ch && ch <= 'Z') || ('0' <= ch && ch <= '9')
            || ch == '.' || ch == '_' || ch == ':' || ch == '-';
        if !ok {
            proof {
                assert(first_bad_key_char(value@, i as int));
                let k = choose|k: int| first_bad_key_char(value@, k);
                lemma_first_bad_unique(value@, i as int, k);
            }
            let d = char_debug_text(ch);
            let m = join3(field, " contains unsupported character ", d.as_str());
            let e = Error::validation(m.as_str());
            proof {
                let k = choose|k: int| first_bad_key_char(value@, k);
                assert(k == i);
                assert(key_fragment_error(value@, field@, allow_empty) == Some(
                    field@ + " contains unsupported character "@ + char_debug(value@[i as int]),
                ));
            }
            return Err(e);
        }
        i = i + 1;
    }
    proof {
        assert forall|k: int| !first_bad_key_char(value@, k) by {
            if 0 <= k < value@.len() {
                assert(is_key_char(value@[k]));
            }
        }
    }
    Ok(())
}

/// A metadata key: non-empty, at most 128 bytes, only key characters.
pub fn validate_user_metadata_key(value: &str, field: &str) -> (r: Result<(), Error>)
    ensures
        r is Ok == key_fragment_error(value@, field@, false) is None,
        r matches Err(e) ==> is_validation(e, key_fragment_error(value@, field@, false)->0),
{
    validate_user_metadata_key_fragment(value, field, false)
}

/// An optional metadata key fragment (scan prefix or cursor): may be empty.
pub fn validate_optional_user_metadata_key_fragment(value: &str, field: &str) -> (r: Result<
    (),
    Error,
>)
    ensures
        r is Ok == key_fragment_error(value@, field@, true) is None,
        r matches Err(e) ==> is_validation(e, key_fragment_error(value@, field@, true)->0),
{
    validate_user_metadata_key_fragment(value, field, true)
}

/// A scan limit lies between 0 and 1000.
pub fn validate_user_metadata_scan_limit(limit: i32) -> (r: Result<(), Error>)
    ensures
        r is Ok == (0 <= limit <= 1000),
        r matches Err(e) ==> if limit < 0 {
            is_validation(e, "limit must be positive"@)
        } else {
            is_validation(e, "limit cannot exceed 1000"@)
        },
{
    if limit < 0 {
        return Err(Error::validation("limit must be positive"));
    }
    if limit > USER_METADATA_SCAN_LIMIT_MAX {
        return Err(Error::validation("limit cannot exceed 1000"));
    }
    Ok(())
}

} // verus!
