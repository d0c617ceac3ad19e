//! JSON documents as the HTTP API returns them, and the lenient readings the
//! SDK applies to their fields (a missing or mistyped field reads as zero,
//! false or empty; numbers may come as text).

use vstd::prelude::*;

use crate::errors::{is_protocol, Error};

verus! {

/// A JSON number with the readings the SDK uses: its text, and its value as
/// `i64` and as `u64` where it is an integer in range.
#[derive(Debug)]
pub struct JsonNumber {
    /// How the number prints.
    pub text: String,
    /// The number as `i64`, when it is an integer in range.
    pub as_i64: Option<i64>,
    /// The number as `u64`, when it is an integer in range.
    pub as_u64: Option<u64>,
}

/// A JSON value.
#[derive(Debug)]
pub enum JsonValue {
    Null,
    Bool(bool),
    Number(JsonNumber),
    String(String),
    Array(Vec<JsonValue>),
    /// The members of an object; no key occurs twice.
    Object(Vec<JsonMember>),
}

/// A member of a JSON object, with the compact JSON text of its value.
#[derive(Debug)]
pub struct JsonMember {
    pub key: String,
    pub value: JsonValue,
    /// The value serialised as compact JSON.
    pub encoded: Vec<u8>,
}

/// The value an optional reference points to.
pub open spec fn opt_val(o: Option<&JsonValue>) -> Option<JsonValue> {
    match o {
        Some(v) => Some(*v),
        None => None,
    }
}

/// The member of `members` with key `key`, if any (the first, should a key repeat).
pub open spec fn json_get(members: Seq<JsonMember>, key: Seq<char>) -> Option<JsonMember>
    decreases members.len(),
{
    if members.len() == 0 {
        None
    } else if members[0].key@ == key {
        Some(members[0])
    } else {
        json_get(members.drop_first(), key)
    }
}

/// The value of an optional member.
pub open spec fn member_value(m: Option<JsonMember>) -> Option<JsonValue> {
    match m {
        Some(m) => Some(m.value),
        None => None,
    }
}

/// The value under `key`.
pub open spec fn field(members: Seq<JsonMember>, key: Seq<char>) -> Option<JsonValue> {
    member_value(json_get(members, key))
}

/// The member under `k1`, or else the one under `k2`.
pub open spec fn get_either(members: Seq<JsonMember>, k1: Seq<char>, k2: Seq<char>) -> Option<JsonMember> {
    if json_get(members, k1) is Some {
        json_get(members, k1)
    } else {
        json_get(members, k2)
    }
}

/// Looks a key up in an object's members.
pub fn get_member<'a>(members: &'a Vec<JsonMember>, key: &str) -> (r: Option<&'a JsonMember>)
    ensures
        match r {
            Some(m) => json_get(members@, key@) == Some(*m),
            None => json_get(members@, key@) is None,
        },
{
    let mut i: usize = 0;
    assert(members@.skip(0) =~= members@);
    while i < members.len()
        invariant
            i <= members@.len(),
            json_get(members@.skip(i as int), key@) == json_get(members@, key@),
        decreases members@.len() - i,
    {
        assert(members@.skip(i as int).drop_first() =~= members@.skip(i as int + 1));
        if crate::text::text_eq(members[i].key.as_str(), key) {
            return Some(&members[i]);
        }
        i = i + 1;
    }
    None
}

/// The value under `key` of an object's members.
pub fn get<'a>(members: &'a Vec<JsonMember>, key: &str) -> (r: Option<&'a JsonValue>)
    ensures
        opt_val(r) == field(members@, key@),
{
    match get_member(members, key) {
        Some(m) => Some(&m.value),
        None => None,
    }
}

/// The value under `k1`, or else under `k2`.
pub fn get_either_value<'a>(members: &'a Vec<JsonMember>, k1: &str, k2: &str) -> (r: Option<
    &'a JsonValue,
>)
    ensures
        opt_val(r) == member_value(get_either(members@, k1@, k2@)),
{
    match get_member(members, k1) {
        Some(m) => Some(&m.value),
        None => get(members, k2),
    }
}

// ----- readings -----

/// A field read as text: a string as is, a number as it prints, else empty.
pub open spec fn str_of(v: Option<JsonValue>) -> Seq<char> {
    match v {
        Some(JsonValue::String(s)) => s@,
        Some(JsonValue::Number(n)) => n.text@,
        _ => Seq::empty(),
    }
}

/// A field as text: a string as is, a number as it prints, anything else empty.
pub fn str_value(value: Option<&JsonValue>) -> (r: String)
    ensures
        r@ == str_of(opt_val(value)),
{
    match value {
        Some(JsonValue::String(s)) => s.clone(),
        Some(JsonValue::Number(n)) => n.text.clone(),
        _ => String::new(),
    }
}

/// A field read as a flag: a boolean as is, else false.
pub open spec fn bool_of(v: Option<JsonValue>) -> bool {
    match v {
        Some(JsonValue::Bool(b)) => b,
        _ => false,
    }
}

/// A field as a flag: a boolean as is, anything else `false`.
pub fn bool_value(value: Option<&JsonValue>) -> (r: bool)
    ensures
        r == bool_of(opt_val(value)),
{
    match value {
        Some(JsonValue::Bool(b)) => *b,
        _ => false,
    }
}

/// Whether every character is an ASCII digit, and there is one at least.
pub open spec fn all_digits(s: Seq<char>) -> bool {
    s.len() > 0 && forall|i: int| 0 <= i < s.len() ==> '0' <= #[trigger] s[i] && s[i] <= '9'
}

/// The value of a run of decimal digits.
pub open spec fn digits_value(s: Seq<char>) -> nat
    decreases s.len(),
{
    if s.len() == 0 {
        0
    } else {
        digits_value(s.drop_last()) * 10 + ((s.last() as u32 - '0' as u32) as nat)
    }
}

/// What `str::parse::<i64>` gives: an optional `+` or `-` followed by decimal
/// digits whose value fits.
pub open spec fn parse_i64_spec(s: Seq<char>) -> Option<i64> {
    let (neg, digits) = if s.len() > 0 && (s[0] == '+' || s[0] == '-') {
        (s[0] == '-', s.drop_first())
    } else {
        (false, s)
    };
    if !all_digits(digits) {
        None
    } else if neg {
        if digits_value(digits) <= 0x8000_0000_0000_0000 {
            Some((0 - digits_value(digits)) as i64)
        } else {
            None
        }
    } else if digits_value(digits) <= i64::MAX {
        Some(digits_value(digits) as i64)
    } else {
        None
    }
}

/// What `str::parse::<u64>` gives: an optional `+` followed by decimal digits
/// whose value fits.
pub open spec fn parse_u64_spec(s: Seq<char>) -> Option<u64> {
    let digits = if s.len() > 0 && s[0] == '+' {
        s.drop_first()
    } else {
        s
    };
    if all_digits(digits) && digits_value(digits) <= u64::MAX {
        Some(digits_value(digits) as u64)
    } else {
        None
    }
}

/// Reads decimal digits `s[start..]`, giving up once the value passes `limit`.
fn parse_digits(s: &str, start: usize, limit: u64) -> (r: Option<u64>)
    requires
        start <= s@.len(),
        limit >= 9,
    ensures
        match r {
            Some(v) => all_digits(s@.skip(start as int)) && v == digits_value(s@.skip(start as int))
                && v <= limit,
            None => !all_digits(s@.skip(start as int)) || digits_value(s@.skip(start as int)) > limit,
        },
{
    let n = s.unicode_len();
    if start >= n {
        return None;
    }
    let mut acc: u64 = 0;
    let mut i: usize = start;
    while i < n
        invariant
            start <= i <= n,
            n == s@.len(),
            start < n,
            limit >= 9,
            acc <= limit,
            forall|j: int| start <= j < i ==> '0' <= #[trigger] s@[j] && s@[j] <= '9',
            acc == digits_value(s@.subrange(start as int, i as int)),
        decreases n - i,
    {
        let c = s.get_char(i);
        if c < '0' || c > '9' {
            assert(s@.skip(start as int)[i - start] == c);
            return None;
        }
        let d = (c as u32 - '0' as u32) as u64;
        assert(s@.subrange(start as int, i + 1).drop_last() =~= s@.subrange(start as int, i as int));
        if acc > (limit - d) / 10 {
            proof {
                assert((acc * 10 + d) > limit) by (nonlinear_arith)
                    requires
                        acc > (limit - d) / 10,
                        0 <= d <= 9,
                        limit >= 9,
                ;
                assert(digits_value(s@.subrange(start as int, i + 1)) == acc * 10 + d);
                if all_digits(s@.skip(start as int)) {
                    assert(s@.skip(start as int).subrange(0, i + 1 - start) =~= s@.subrange(start as int, i + 1));
                    lemma_digits_grow(s@.subrange(start as int, i + 1), s@.skip(start as int));
                }
            }
            return None;
        }
        assert(acc * 10 + d <= limit) by (nonlinear_arith)
            requires
                acc <= (limit - d) / 10,
                d <= 9,
                limit >= 9,
        ;
        acc = acc * 10 + d;
        i = i + 1;
    }
    assert(s@.subrange(start as int, n as int) =~= s@.skip(start as int));
    Some(acc)
}

/// A longer run of digits is worth at least as much as its prefix.
proof fn lemma_digits_grow(prefix: Seq<char>, s: Seq<char>)
    requires
        prefix.len() <= s.len(),
        prefix == s.subrange(0, prefix.len() as int),
        all_digits(s),
    ensures
        digits_value(prefix) <= digits_value(s),
    decreases s.len(),
{
    if prefix.len() == 0 {
    } else if prefix.len() < s.len() {
        assert(s.drop_last().subrange(0, prefix.len() as int) =~= prefix);
        assert forall|i: int| 0 <= i < s.drop_last().len() implies '0' <= #[trigger] s.drop_last()[i]
            && s.drop_last()[i] <= '9' by {
            assert(s.drop_last()[i] == s[i]);
        }
        lemma_digits_grow(prefix, s.drop_last());
        assert(digits_value(s.drop_last()) <= digits_value(s)) by (nonlinear_arith)
            requires
                digits_value(s) == digits_value(s.drop_last()) * 10 + ((s.last() as u32 - '0' as u32) as nat),
        ;
    } else {
        assert(prefix =~= s);
    }
}

/// Parses a decimal `i64` as `str::parse` does.
pub fn parse_i64(s: &str) -> (r: Option<i64>)
    ensures
        r == parse_i64_spec(s@),
{
    let n = s.unicode_len();
    let (neg, start) = if n > 0 && (s.get_char(0) == '+' || s.get_char(0) == '-') {
        (s.get_char(0) == '-', 1usize)
    } else {
        (false, 0usize)
    };
    proof {
        if n > 0 && (s@[0] == '+' || s@[0] == '-') {
            assert(s@.skip(1) =~= s@.drop_first());
        } else {
            assert(s@.skip(0) =~= s@);
        }
    }
    if neg {
        match parse_digits(s, start, 0x8000_0000_0000_0000u64) {
            Some(v) => {
                if v == 0x8000_0000_0000_0000u64 {
                    Some(i64::MIN)
                } else {
                    Some(0i64 - (v as i64))
                }
            },
            None => None,
        }
    } else {
        match parse_digits(s, start, 0x7fff_ffff_ffff_ffffu64) {
            Some(v) => Some(v as i64),
            None => None,
        }
    }
}

/// Parses a decimal `u64` as `str::parse` does.
pub fn parse_u64(s: &str) -> (r: Option<u64>)
    ensures
        r == parse_u64_spec(s@),
{
    let n = s.unicode_len();
    let start: usize = if n > 0 && s.get_char(0) == '+' {
        1
    } else {
        0
    };
    proof {
        if n > 0 && s@[0] == '+' {
            assert(s@.skip(1) =~= s@.drop_first());
        } else {
            assert(s@.skip(0) =~= s@);
        }
    }
    parse_digits(s, start, u64::MAX)
}

/// A field read as a signed integer: a number that fits `i64`, a text that
/// parses as one, else 0.
pub open spec fn int_of(v: Option<JsonValue>) -> i64 {
    match v {
        Some(JsonValue::Number(n)) => match n.as_i64 {
            Some(x) => x,
            None => match n.as_u64 {
                Some(u) => if u <= i64::MAX {
                    u as i64
                } else {
                    0
                },
                None => 0,
            },
        },
        Some(JsonValue::String(s)) => match parse_i64_spec(s@) {
            Some(x) => x,
            None => 0,
        },
        _ => 0,
    }
}

/// The integer a value holds, as a number or as decimal text; anything else reads as 0.
pub fn int_value(value: Option<&JsonValue>) -> (r: i64)
    ensures
        r == int_of(opt_val(value)),
{
    match value {
        Some(JsonValue::Number(n)) => match n.as_i64 {
            Some(x) => x,
            None => match n.as_u64 {
                Some(u) => if u <= 0x7fff_ffff_ffff_ffffu64 {
                    u as i64
                } else {
                    0
                },
                None => 0,
            },
        },
        Some(JsonValue::String(s)) => match parse_i64(s.as_str()) {
            Some(x) => x,
            None => 0,
        },
        _ => 0,
    }
}

/// A field read as `i32`: its integer reading when that fits, else 0.
pub open spec fn i32_of(v: Option<JsonValue>) -> i32 {
    if i32::MIN <= int_of(v) <= i32::MAX {
        int_of(v) as i32
    } else {
        0
    }
}

/// The integer a value holds when it fits in `i32`; anything else reads as 0.
pub fn i32_value(value: Option<&JsonValue>) -> (r: i32)
    ensures
        r == i32_of(opt_val(value)),
{
    let v = int_value(value);
    if -2147483648i64 <= v && v <= 2147483647i64 {
        v as i32
    } else {
        0
    }
}

/// A field read as an unsigned integer: a number that fits `u64`, a text that
/// parses as one, else 0.
pub open spec fn u64_of(v: Option<JsonValue>) -> u64 {
    match v {
        Some(JsonValue::Number(n)) => match n.as_u64 {
            Some(x) => x,
            None => match n.as_i64 {
                Some(i) => if i >= 0 {
                    i as u64
                } else {
                    0
                },
                None => 0,
            },
        },
        Some(JsonValue::String(s)) => match parse_u64_spec(s@) {
            Some(x) => x,
            None => 0,
        },
        _ => 0,
    }
}

/// The unsigned integer a value holds, as a number or as decimal text; anything else reads as 0.
pub fn u64_value(value: Option<&JsonValue>) -> (r: u64)
    ensures
        r == u64_of(opt_val(value)),
{
    match value {
        Some(JsonValue::Number(n)) => match n.as_u64 {
            Some(x) => x,
            None => match n.as_i64 {
                Some(i) => if i >= 0 {
                    i as u64
                } else {
                    0
                },
                None => 0,
            },
        },
        Some(JsonValue::String(s)) => match parse_u64(s.as_str()) {
            Some(x) => x,
            None => 0,
        },
        _ => 0,
    }
}

/// The elements of an array field; anything else reads as no elements.
pub open spec fn list_of(v: Option<JsonValue>) -> Seq<JsonValue> {
    match v {
        Some(JsonValue::Array(items)) => items@,
        _ => Seq::empty(),
    }
}

/// The members of a value that is an object.
pub fn expect_object(value: &JsonValue) -> (r: Result<&Vec<JsonMember>, Error>)
    ensures
        match *value {
            JsonValue::Object(m) => r matches Ok(x) && x@ == m@,
            _ => r matches Err(e) && is_protocol(e, "unexpected JSON object"@),
        },
{
    match value {
        JsonValue::Object(m) => Ok(m),
        _ => Err(Error::protocol("unexpected JSON object")),
    }
}

/// The list in a list response: the value itself when it is an array, else
/// the first of `keys` under which the object holds an array.
pub open spec fn payload_items(v: JsonValue, keys: Seq<Seq<char>>) -> Option<Seq<JsonValue>> {
    match v {
        JsonValue::Array(items) => Some(items@),
        JsonValue::Object(m) => first_array(m@, keys),
        _ => None,
    }
}

/// The array under the first of `keys` that holds one.
pub open spec fn first_array(m: Seq<JsonMember>, keys: Seq<Seq<char>>) -> Option<Seq<JsonValue>>
    decreases keys.len(),
{
    if keys.len() == 0 {
        None
    } else {
        match field(m, keys[0]) {
            Some(JsonValue::Array(items)) => Some(items@),
            _ => first_array(m, keys.drop_first()),
        }
    }
}

/// The view of a list of keys.
pub open spec fn key_views(keys: Seq<&str>) -> Seq<Seq<char>> {
    keys.map_values(|k: &str| k@)
}

/// The items of a list response. A value that is neither an array nor an
/// object is not an object; an object without an array under any of `keys`
/// lacks its items.
pub fn items_from_payload<'a>(value: &'a JsonValue, keys: &[&str]) -> (r: Result<&'a Vec<JsonValue>, Error>)
    ensures
        match payload_items(*value, key_views(keys@)) {
            Some(items) => r matches Ok(v) && v@ == items,
            None => r matches Err(e) && (if value is Object {
                is_protocol(e, "missing items in list response"@)
            } else {
                is_protocol(e, "unexpected JSON object"@)
            }),
        },
{
    let members = match value {
        JsonValue::Array(items) => {
            return Ok(items);
        },
        _ => expect_object(value)?,
    };
    let mut i: usize = 0;
    assert(key_views(keys@).skip(0) =~= key_views(keys@));
    while i < keys.len()
        invariant
            i <= keys@.len(),
            value is Object,
            members@ == value->Object_0@,
            first_array(members@, key_views(keys@).skip(i as int)) == first_array(
                members@,
                key_views(keys@),
            ),
        decreases keys@.len() - i,
    {
        assert(key_views(keys@).skip(i as int).drop_first() =~= key_views(keys@).skip(i as int + 1));
        assert(key_views(keys@).skip(i as int)[0] == keys@[i as int]@);
        match get(members, keys[i]) {
            Some(JsonValue::Array(items)) => {
                return Ok(items);
            },
            _ => {},
        }
        i = i + 1;
    }
    Err(Error::protocol("missing items in list response"))
}

} // verus!
