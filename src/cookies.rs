//! The session cookie: splitting `key=value` entries, looking a key up in the
//! document's cookie text, and building the text that sets or clears a cookie.
use vstd::prelude::*;

use crate::text::{
    chars_of, find_in, index_of, lemma_index_of, range_equals, string_of, trim, trim_range,
};

verus! {

/// Name of the cookie that holds the session credential.
pub const AUTH_TOKEN_COOKIE_NAME: &'static str = "AUTH_TOKEN";

/// The value written over a cookie to invalidate it.
pub const INVALID_COOKIE_VALUE: &'static str = "invalid";

/// Separator between the entries of the cookie text (`document.cookie`
/// writes `"; "`; the space is trimmed with the key).
pub const ENTRY_SEPARATOR: char = ';';

/// What `urlencoding::decode` makes of `s`: the percent-decoded text, or
/// `None` when the decoded bytes are not UTF-8.
pub uninterp spec fn percent_decoded(s: Seq<char>) -> Option<Seq<char>>;

pub open spec fn has_no_percent(s: Seq<char>) -> bool {
    forall|i: int| 0 <= i < s.len() ==> s[i] != '%'
}

pub open spec fn opt_chars(o: Option<String>) -> Option<Seq<char>> {
    match o {
        Some(s) => Some(s@),
        None => None,
    }
}

/// Relies on `urlencoding::decode`: percent-decodes `s` as UTF-8, fails when the
/// bytes are not UTF-8, and hands back a text without `%` as it is.
#[verifier::external_body]
fn url_decode(s: &str) -> (r: Option<String>)
    ensures
        opt_chars(r) == percent_decoded(s@),
        has_no_percent(s@) ==> opt_chars(r) == Some(s@),
{
    match urlencoding::decode(s) {
        Ok(v) => Some(v.into_owned()),
        Err(_) => None,
    }
}

/// Percent-decodes a cookie value: `None` when the decoded bytes are not
/// UTF-8; a value without `%` comes back as it is.
pub fn decode_cookie_value(value: &str) -> (r: Option<String>)
    ensures
        opt_chars(r) == percent_decoded(value@),
        has_no_percent(value@) ==> opt_chars(r) == Some(value@),
{
    url_decode(value)
}

/// The trimmed key and value of an entry `key=value`, split at the first `=`.
pub open spec fn key_value_of(entry: Seq<char>) -> Option<(Seq<char>, Seq<char>)> {
    let i = index_of(entry, '=');
    if i < entry.len() {
        Some((trim(entry.take(i as int)), trim(entry.skip(i as int + 1))))
    } else {
        None
    }
}

/// The decoded value that an entry gives for `key`.
pub open spec fn entry_value(entry: Seq<char>, key: Seq<char>) -> Option<Seq<char>> {
    match key_value_of(entry) {
        Some((k, v)) => if k == key {
            percent_decoded(v)
        } else {
            None
        },
        None => None,
    }
}

/// The value of the first entry of `all` that has key `key` and decodes.
pub open spec fn lookup_cookie(all: Seq<char>, key: Seq<char>) -> Option<Seq<char>>
    decreases all.len(),
{
    let i = index_of(all, ENTRY_SEPARATOR);
    match entry_value(all.take(i as int), key) {
        Some(v) => Some(v),
        None => if i < all.len() {
            lookup_cookie(all.skip(i as int + 1), key)
        } else {
            None
        },
    }
}

/// The text that sets cookie `key` to `value`.
pub open spec fn cookie_assignment(key: Seq<char>, value: Seq<char>) -> Seq<char> {
    key + seq!['='] + value
}

fn key_value_in(v: &Vec<char>, lo: usize, hi: usize) -> (r: Option<(Vec<char>, Vec<char>)>)
    requires
        lo <= hi <= v@.len(),
    ensures
        match r {
            Some((k, x)) => key_value_of(v@.subrange(lo as int, hi as int)) == Some((k@, x@)),
            None => key_value_of(v@.subrange(lo as int, hi as int)) is None,
        },
{
    let ghost e = v@.subrange(lo as int, hi as int);
    let i = find_in(v, '=', lo, hi);
    if i < hi {
        let k = trim_range(v, lo, i);
        let x = trim_range(v, i + 1, hi);
        proof {
            assert(e.take(i - lo) =~= v@.subrange(lo as int, i as int));
            assert(e.skip(i - lo + 1) =~= v@.subrange(i + 1, hi as int));
        }
        Some((k, x))
    } else {
        None
    }
}

/// Splits an entry `key=value` at its first `=` and trims both sides.
pub fn process_key_value_str(key_value_str: &str) -> (r: Option<(String, String)>)
    ensures
        match r {
            Some((k, v)) => key_value_of(key_value_str@) == Some((k@, v@)),
            None => key_value_of(key_value_str@) is None,
        },
{
    let v = chars_of(key_value_str);
    assert(v@.subrange(0, v@.len() as int) =~= v@);
    match key_value_in(&v, 0, v.len()) {
        Some((k, x)) => Some((string_of(&k), string_of(&x))),
        None => None,
    }
}

/// Looks `key` up in the cookie text `all_cookies`: the decoded value of the
/// first entry with that key whose value decodes.
pub fn search_for_cookie(all_cookies: &str, key: &str) -> (r: Option<String>)
    ensures
        opt_chars(r) == lookup_cookie(all_cookies@, key@),
{
    let all = chars_of(all_cookies);
    let want = chars_of(key);
    let n = all.len();
    let mut p: usize = 0;
    assert(all@.skip(0) =~= all@);
    loop
        invariant
            p <= n == all@.len(),
            all@ == all_cookies@,
            want@ == key@,
            lookup_cookie(all@, key@) == lookup_cookie(all@.skip(p as int), key@),
        decreases n - p,
    {
        let ghost rest = all@.skip(p as int);
        let j = find_in(&all, ENTRY_SEPARATOR, p, n);
        proof {
            assert(all@.subrange(p as int, n as int) =~= rest);
            assert(rest.take(j - p) =~= all@.subrange(p as int, j as int));
        }
        let ghost entry = all@.subrange(p as int, j as int);
        let found: Option<String> = match key_value_in(&all, p, j) {
            Some((k, x)) => {
                assert(k@.subrange(0, k@.len() as int) =~= k@);
                if range_equals(&k, 0, k.len(), &want) {
                    let xs = string_of(&x);
                    decode_cookie_value(xs.as_str())
                } else {
                    None
                }
            },
            None => None,
        };
        assert(opt_chars(found) == entry_value(entry, key@));
        if found.is_some() {
            return found;
        }
        if j < n {
            proof {
                assert(rest.skip(j - p + 1) =~= all@.skip(j + 1));
            }
            p = j + 1;
        } else {
            return None;
        }
    }
}

/// The cookie text that sets cookie `key` to `value`: `key=value`.
pub fn set_document_cookie(key: &str, value: &str) -> (r: String)
    ensures
        r@ == cookie_assignment(key@, value@),
{
    let mut out = chars_of(key);
    out.push('=');
    let mut rest = chars_of(value);
    out.append(&mut rest);
    assert(out@ =~= cookie_assignment(key@, value@));
    string_of(&out)
}

/// The cookie text that invalidates cookie `key`.
pub fn unset_document_cookie(key: &str) -> (r: String)
    ensures
        r@ == cookie_assignment(key@, INVALID_COOKIE_VALUE@),
{
    set_document_cookie(key, INVALID_COOKIE_VALUE)
}

/// A cookie set to `value` reads back, under its key, as the decoded,
/// trimmed value, provided the key is trimmed and holds neither `=` nor the
/// entry separator, and the value holds no entry separator.
pub proof fn lemma_assignment_reads_back(key: Seq<char>, value: Seq<char>)
    requires
        trim(key) == key,
        forall|i: int| 0 <= i < key.len() ==> key[i] != '=' && key[i] != ENTRY_SEPARATOR,
        forall|i: int| 0 <= i < value.len() ==> value[i] != ENTRY_SEPARATOR,
    ensures
        lookup_cookie(cookie_assignment(key, value), key) == percent_decoded(trim(value)),
{
    let all = cookie_assignment(key, value);
    assert forall|i: int| 0 <= i < all.len() implies all[i] != ENTRY_SEPARATOR by {
        if i < key.len() {
            assert(all[i] == key[i]);
        } else if i > key.len() {
            assert(all[i] == value[i - key.len() - 1]);
        }
    }
    lemma_index_of(all, ENTRY_SEPARATOR, all.len());
    assert(all.take(all.len() as int) =~= all);
    assert forall|i: int| 0 <= i < key.len() implies all[i] != '=' by {
        assert(all[i] == key[i]);
    }
    lemma_index_of(all, '=', key.len());
    assert(all.take(key.len() as int) =~= key);
    assert(all.skip(key.len() as int + 1) =~= value);
}

} // verus!
