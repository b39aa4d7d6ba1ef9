//! Identifiers: random UUIDs and the API credentials derived from them.

use vstd::prelude::*;

use crate::text::{chars_of, push_str, string_of};

verus! {

/// A lower-case hexadecimal digit.
pub open spec fn is_lower_hex(c: char) -> bool {
    ('0' <= c && c <= '9') || ('a' <= c && c <= 'f')
}

/// Hyphenated lower-case UUID text: `xxxxxxxx-xxxx-4xxx-xxxx-xxxxxxxxxxxx`.
pub open spec fn is_uuid_text(s: Seq<char>) -> bool {
    &&& s.len() == 36
    &&& forall|i: int|
        0 <= i < 36 ==> if i == 8 || i == 13 || i == 18 || i == 23 {
            #[trigger] s[i] == '-'
        } else {
            is_lower_hex(s[i])
        }
    &&& s[14] == '4'
}

/// A random version-4 UUID from `uuid::Uuid::new_v4`, rendered by its
/// `Display` impl as hyphenated lower-case hex. Nothing is promised of the
/// value beyond that shape; `new_v4` panics if the system's random source
/// fails.
#[verifier::external_body]
pub(crate) fn new_uuid() -> (res: String)
    ensures
        is_uuid_text(res@),
{
    uuid::Uuid::new_v4().to_string()
}

/// `s` with every `c` removed (`str::replace(c, "")`).
pub open spec fn remove_char(s: Seq<char>, c: char) -> Seq<char>
    decreases s.len(),
{
    if s.len() == 0 {
        s
    } else if s.last() == c {
        remove_char(s.drop_last(), c)
    } else {
        remove_char(s.drop_last(), c).push(s.last())
    }
}

/// Removes every `c`.
pub fn remove_char_exec(s: &[char], c: char) -> (r: Vec<char>)
    ensures
        r@ == remove_char(s@, c),
{
    let mut r: Vec<char> = Vec::new();
    let mut i: usize = 0;
    while i < s.len()
        invariant
            i <= s.len(),
            r@ == remove_char(s@.take(i as int), c),
        decreases s.len() - i,
    {
        assert(s@.take(i + 1).drop_last() =~= s@.take(i as int));
        if s[i] != c {
            r.push(s[i]);
        }
        i = i + 1;
    }
    assert(s@.take(s.len() as int) =~= s@);
    r
}

proof fn lemma_uuid_compact(s: Seq<char>)
    requires
        is_uuid_text(s),
    ensures
        remove_char(s, '-').len() == 32,
        forall|i: int| 0 <= i < 32 ==> is_lower_hex(#[trigger] remove_char(s, '-')[i]),
{
    lemma_remove_char_shape(s, 36);
    assert(s.take(36) =~= s);
}

proof fn lemma_remove_char_shape(s: Seq<char>, n: int)
    requires
        is_uuid_text(s),
        0 <= n <= 36,
    ensures
        remove_char(s.take(n), '-').len() == n - (if n > 23 {
            4int
        } else if n > 18 {
            3int
        } else if n > 13 {
            2int
        } else if n > 8 {
            1int
        } else {
            0int
        }),
        forall|i: int|
            0 <= i < remove_char(s.take(n), '-').len() ==> is_lower_hex(
                #[trigger] remove_char(s.take(n), '-')[i],
            ),
    decreases n,
{
    if n == 36 {
        assert(s.take(36) =~= s);
    }
    if n > 0 {
        lemma_remove_char_shape(s, n - 1);
        assert(s.take(n).drop_last() =~= s.take(n - 1));
        assert(s.take(n).last() == s[n - 1]);
        let i = n - 1;
        if i == 8 || i == 13 || i == 18 || i == 23 {
            assert(s[i] == '-');
        } else {
            assert(is_lower_hex(s[i]));
        }
    } else {
        assert(s.take(0) =~= Seq::<char>::empty());
    }
}

/// A tenant API key: `bndy_` followed by the 32 hex digits of a random UUID.
pub fn generate_api_key() -> (res: String)
    ensures
        res@.len() == 37,
        res@.take(5) == "bndy_"@,
        forall|i: int| 5 <= i < 37 ==> is_lower_hex(#[trigger] res@[i]),
{
    let u = new_uuid();
    let v = chars_of(u.as_str());
    let compact = remove_char_exec(v.as_slice(), '-');
    let mut key = String::new();
    push_str(&mut key, "bndy_");
    crate::text::push_chars(&mut key, compact.as_slice());
    proof {
        reveal_strlit("bndy_");
        lemma_uuid_compact(u@);
        assert(key@.take(5) =~= "bndy_"@);
        assert forall|i: int| 5 <= i < 37 implies is_lower_hex(#[trigger] key@[i]) by {
            assert(key@[i] == compact@[i - 5]);
        }
    }
    key
}

/// A tenant API secret: the 32 hex digits of a random UUID.
pub fn generate_api_secret() -> (res: String)
    ensures
        res@.len() == 32,
        forall|i: int| 0 <= i < 32 ==> is_lower_hex(#[trigger] res@[i]),
{
    let u = new_uuid();
    let v = chars_of(u.as_str());
    let compact = remove_char_exec(v.as_slice(), '-');
    proof {
        lemma_uuid_compact(u@);
    }
    string_of(compact.as_slice())
}

} // verus!
