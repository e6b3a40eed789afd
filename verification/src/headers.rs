//! HTTP headers, held in the `http` crate's `HeaderMap`.

use crate::metadata::Entries;
use http::{HeaderMap, HeaderValue};
use vstd::prelude::*;
use vstd::slice::slice_subrange;
use vstd::string::StringSliceAdditionalSpecFns;
use vstd::utf8::{encode_utf8, is_ascii_chars, is_ascii_chars_encode_utf8};

verus! {

#[verifier::external_type_specification]
#[verifier::external_body]
#[verifier::reject_recursive_types(T)]
pub struct ExHeaderMap<T>(http::HeaderMap<T>);

#[verifier::external_type_specification]
#[verifier::external_body]
pub struct ExHeaderValue(http::HeaderValue);

/// What a header map holds: the values of each name, in the order in which they
/// were added.
pub uninterp spec fn header_entries(h: http::HeaderMap<http::HeaderValue>) -> Map<
    Seq<u8>,
    Seq<Seq<u8>>,
>;

/// How many distinct names a map may hold so that another is sure to find a
/// place. A map that holds more can be full, depending on how its names hash.
pub const MAX_NAMES: usize = 6553;

/// Nothing could be inserted, since the map has no place for another name.
#[derive(Debug, Clone, Copy, PartialEq, Eq, Structural)]
pub struct HeadersFull;

/// The byte that stands for `b` in a header name: letters in lower case, digits
/// and some signs as they are. Zero stands for a byte that no name holds.
pub open spec fn name_byte(b: u8) -> u8 {
    if 0x41 <= b <= 0x5a {
        (b + 32) as u8
    } else if (0x61 <= b <= 0x7a) || (0x30 <= b <= 0x39) || (0x23 <= b <= 0x27) || b == 0x21 || b
        == 0x2a || b == 0x2b || b == 0x2d || b == 0x2e || b == 0x5e || b == 0x5f || b == 0x60 || b
        == 0x7c || b == 0x7e {
        b
    } else {
        0
    }
}

/// A name with each byte replaced by the one that stands for it.
pub open spec fn name_bytes(src: Seq<u8>) -> Seq<u8> {
    src.map_values(|b: u8| name_byte(b))
}

/// The header name that `src` spells, if it spells one.
pub open spec fn header_name(src: Seq<u8>) -> Option<Seq<u8>> {
    if 1 <= src.len() <= 65535 && (forall|i: int|
        0 <= i < src.len() ==> name_byte(#[trigger] src[i]) != 0) {
        Some(name_bytes(src))
    } else {
        None
    }
}

/// The name that is looked up for `src`. Only short names are checked byte by
/// byte beforehand; the others are simply not found.
pub open spec fn lookup_name(src: Seq<u8>) -> Option<Seq<u8>> {
    if src.len() <= 64 {
        header_name(src)
    } else if src.len() <= 65535 {
        Some(name_bytes(src))
    } else {
        None
    }
}

/// The first value of a name.
pub open spec fn first_value(entries: Entries, name: Option<Seq<u8>>) -> Option<Seq<u8>> {
    match name {
        Some(n) => if entries.dom().contains(n) && entries[n].len() > 0 {
            Some(entries[n][0])
        } else {
            None
        },
        None => None,
    }
}

/// The entries without those of a name.
pub open spec fn without(entries: Entries, name: Option<Seq<u8>>) -> Entries {
    match name {
        Some(n) => entries.remove(n),
        None => entries,
    }
}

/// Whether a byte is a visible ASCII character, a space or a tab.
pub open spec fn visible(b: u8) -> bool {
    32 <= b < 127 || b == 9
}

/// Whether every byte is a visible ASCII character, a space or a tab.
pub open spec fn all_visible(s: Seq<u8>) -> bool {
    forall|i: int| 0 <= i < s.len() ==> visible(#[trigger] s[i])
}

/// What an optional slice holds.
pub open spec fn bytes_of(v: Option<&[u8]>) -> Option<Seq<u8>> {
    match v {
        Some(s) => Some(s@),
        None => None,
    }
}

/// `HeaderMap::get` by a string finds the first value of the name.
#[verifier::external_body]
pub(crate) fn header_get<'a>(headers: &'a HeaderMap, name: &str) -> (r: Option<&'a [u8]>)
    ensures
        bytes_of(r) == first_value(header_entries(*headers), lookup_name(name.spec_bytes())),
{
    match headers.get(name) {
        Some(value) => Some(value.as_bytes()),
        None => None,
    }
}

/// `HeaderMap::remove` by a string removes all values of the name.
#[verifier::external_body]
pub(crate) fn header_remove(headers: &mut HeaderMap, name: &str)
    ensures
        header_entries(*final(headers)) == without(
            header_entries(*old(headers)),
            lookup_name(name.spec_bytes()),
        ),
{
    headers.remove(name);
}

/// `HeaderMap::try_insert` by a static string, with a `HeaderValue::from_static`,
/// replaces all values of the name by the one given, and tells whether it did.
/// Where the map is full, it does nothing; a map with few names is not. It
/// panics where the strings are no name and no value.
#[verifier::external_body]
pub(crate) fn header_insert(headers: &mut HeaderMap, name: &'static str, value: &'static str) -> (r:
    bool)
    requires
        header_name(name.spec_bytes()) is Some,
        all_visible(value.spec_bytes()),
    ensures
        header_entries(*final(headers)) == (if r {
            header_entries(*old(headers)).insert(
                header_name(name.spec_bytes())->0,
                seq![value.spec_bytes()],
            )
        } else {
            header_entries(*old(headers))
        }),
        header_entries(*final(headers)).dom().len() <= header_entries(*old(headers)).dom().len()
            + 1,
        header_entries(*old(headers)).dom().len() <= MAX_NAMES ==> r,
{
    headers.try_insert(name, HeaderValue::from_static(value)).is_ok()
}

/// Whether a byte is a space or a tab, the only whitespace among visible bytes.
pub open spec fn blank(b: u8) -> bool {
    b == 0x20 || b == 0x09
}

/// The bytes without leading blanks.
pub open spec fn trim_start(s: Seq<u8>) -> Seq<u8>
    decreases s.len(),
{
    if s.len() > 0 && blank(s[0]) {
        trim_start(s.drop_first())
    } else {
        s
    }
}

/// The bytes without trailing blanks.
pub open spec fn trim_end(s: Seq<u8>) -> Seq<u8>
    decreases s.len(),
{
    if s.len() > 0 && blank(s.last()) {
        trim_end(s.drop_last())
    } else {
        s
    }
}

/// Whether the bytes from `i` to `j` are one item of a list: what stands
/// between two commas, or between a comma and an end.
pub open spec fn is_item(list: Seq<u8>, i: int, j: int) -> bool {
    &&& 0 <= i <= j <= list.len()
    &&& i == 0 || list[i - 1] == 0x2c
    &&& j == list.len() || list[j] == 0x2c
    &&& forall|k: int| i <= k < j ==> list[k] != 0x2c
}

/// Whether a comma-separated list has an item that is `name`, blanks around it
/// left aside.
pub open spec fn lists(list: Seq<u8>, name: Seq<u8>) -> bool {
    exists|i: int, j: int| #[trigger]
        is_item(list, i, j) && trim_end(trim_start(list.subrange(i, j))) == name
}

proof fn lemma_trim_start(s: Seq<u8>)
    ensures
        exists|a: int|
            0 <= a <= s.len() && #[trigger] s.skip(a) == trim_start(s) && (forall|k: int|
                0 <= k < a ==> blank(#[trigger] s[k])),
    decreases s.len(),
{
    if s.len() > 0 && blank(s[0]) {
        lemma_trim_start(s.drop_first());
        let t = s.drop_first();
        let a = choose|a: int|
            0 <= a <= t.len() && #[trigger] t.skip(a) == trim_start(t) && (forall|k: int|
                0 <= k < a ==> blank(#[trigger] t[k]));
        assert(s.skip(a + 1) =~= t.skip(a));
        assert forall|k: int| 0 <= k < a + 1 implies blank(#[trigger] s[k]) by {
            if k > 0 {
                assert(blank(t[k - 1]));
            }
        }
    } else {
        assert(s.skip(0) =~= s);
    }
}

proof fn lemma_trim_end(s: Seq<u8>)
    ensures
        exists|b: int|
            0 <= b <= s.len() && #[trigger] s.take(b) == trim_end(s) && (forall|k: int|
                b <= k < s.len() ==> blank(#[trigger] s[k])),
    decreases s.len(),
{
    if s.len() > 0 && blank(s.last()) {
        let t = s.drop_last();
        lemma_trim_end(t);
        let b = choose|b: int|
            0 <= b <= t.len() && #[trigger] t.take(b) == trim_end(t) && (forall|k: int|
                b <= k < t.len() ==> blank(#[trigger] t[k]));
        assert(s.take(b) =~= t.take(b));
        assert forall|k: int| b <= k < s.len() implies blank(#[trigger] s[k]) by {
            if k < t.len() {
                assert(blank(t[k]));
            }
        }
    } else {
        assert(s.take(s.len() as int) =~= s);
    }
}

proof fn lemma_trim_start_of_padded(s: Seq<u8>, a: int)
    requires
        0 <= a < s.len(),
        forall|k: int| 0 <= k < a ==> blank(#[trigger] s[k]),
        !blank(s[a]),
    ensures
        trim_start(s) == s.skip(a),
    decreases s.len(),
{
    if a == 0 {
        assert(s.skip(0) =~= s);
    } else {
        assert(blank(s[0]));
        assert forall|k: int| 0 <= k < a - 1 implies blank(#[trigger] s.drop_first()[k]) by {
            assert(blank(s[k + 1]));
        }
        lemma_trim_start_of_padded(s.drop_first(), a - 1);
        assert(s.drop_first().skip(a - 1) =~= s.skip(a));
    }
}

proof fn lemma_trim_end_of_padded(s: Seq<u8>, b: int)
    requires
        0 < b <= s.len(),
        forall|k: int| b <= k < s.len() ==> blank(#[trigger] s[k]),
        !blank(s[b - 1]),
    ensures
        trim_end(s) == s.take(b),
    decreases s.len(),
{
    if b == s.len() {
        assert(s.take(b) =~= s);
    } else {
        assert(blank(s[s.len() - 1]));
        assert forall|k: int| b <= k < s.drop_last().len() implies blank(
            #[trigger] s.drop_last()[k],
        ) by {
            assert(blank(s[k]));
        }
        lemma_trim_end_of_padded(s.drop_last(), b);
        assert(s.drop_last().take(b) =~= s.take(b));
    }
}

/// Whether a byte is a space or a tab.
pub open spec fn is_space(b: u8) -> bool {
    b == ' ' as u8 || b == '\t' as u8
}

/// Whether `name` stands in the list from `a` to `b`, with only spaces and tabs
/// between it and a comma or an end on either side, at `i` and `j`.
pub open spec fn stands_alone(
    list: Seq<u8>,
    name: Seq<u8>,
    i: int,
    a: int,
    b: int,
    j: int,
) -> bool {
    &&& 0 <= i <= a <= b <= j <= list.len()
    &&& list.subrange(a, b) == name
    &&& i == 0 || list[i - 1] == ',' as u8
    &&& j == list.len() || list[j] == ',' as u8
    &&& forall|k: int| i <= k < a ==> is_space(#[trigger] list[k])
    &&& forall|k: int| b <= k < j ==> is_space(#[trigger] list[k])
}

/// Whether bytes are neither commas nor spaces nor tabs, and there are some.
pub open spec fn is_word(name: Seq<u8>) -> bool {
    &&& name.len() > 0
    &&& forall|k: int|
        0 <= k < name.len() ==> !is_space(#[trigger] name[k]) && name[k] != ',' as u8
}

/// A list has a name just where the name stands in it, alone between two commas
/// or ends but for spaces and tabs.
pub proof fn lemma_list_has_what_stands_alone(list: &[u8], name: &[u8], r: bool)
    requires
        call_ensures(list_contains, (list, name), r),
        is_word(name@),
    ensures
        r <==> exists|i: int, a: int, b: int, j: int| #[trigger]
            stands_alone(list@, name@, i, a, b, j),
{
    lemma_lists(list@, name@);
}

pub(crate) proof fn lemma_lists(list: Seq<u8>, name: Seq<u8>)
    requires
        is_word(name),
    ensures
        lists(list, name) <==> exists|i: int, a: int, b: int, j: int| #[trigger]
            stands_alone(list, name, i, a, b, j),
{
    if lists(list, name) {
        lemma_listed_stands_alone(list, name);
    }
    if exists|i: int, a: int, b: int, j: int| #[trigger] stands_alone(list, name, i, a, b, j) {
        let (i, a, b, j) = choose|i: int, a: int, b: int, j: int| #[trigger]
            stands_alone(list, name, i, a, b, j);
        lemma_standing_is_listed(list, name, i, a, b, j);
    }
}

proof fn lemma_listed_stands_alone(list: Seq<u8>, name: Seq<u8>)
    requires
        lists(list, name),
    ensures
        exists|i: int, a: int, b: int, j: int| #[trigger] stands_alone(list, name, i, a, b, j),
{
    let (i, j) = choose|i: int, j: int| #[trigger]
        is_item(list, i, j) && trim_end(trim_start(list.subrange(i, j))) == name;
    let item = list.subrange(i, j);
    lemma_trim_start(item);
    let a = choose|a: int|
        0 <= a <= item.len() && #[trigger] item.skip(a) == trim_start(item) && (forall|k: int|
            0 <= k < a ==> blank(#[trigger] item[k]));
    let t = item.skip(a);
    lemma_trim_end(t);
    let b = choose|b: int|
        0 <= b <= t.len() && #[trigger] t.take(b) == trim_end(t) && (forall|k: int|
            b <= k < t.len() ==> blank(#[trigger] t[k]));
    assert(list.subrange(i + a, i + a + b) =~= t.take(b));
    assert forall|k: int| i <= k < i + a implies is_space(#[trigger] list[k]) by {
        assert(blank(item[k - i]));
    }
    assert forall|k: int| i + a + b <= k < j implies is_space(#[trigger] list[k]) by {
        assert(blank(t[k - i - a]));
    }
    assert(stands_alone(list, name, i, i + a, i + a + b, j));
}

proof fn lemma_standing_is_listed(
    list: Seq<u8>,
    name: Seq<u8>,
    i: int,
    a: int,
    b: int,
    j: int,
)
    requires
        is_word(name),
        stands_alone(list, name, i, a, b, j),
    ensures
        lists(list, name),
{
    let item = list.subrange(i, j);
    assert forall|k: int| a <= k < b implies list[k] == #[trigger] name[k - a] by {
        assert(list.subrange(a, b)[k - a] == list[k]);
    }
    assert forall|k: int| i <= k < j implies list[k] != 0x2c by {
        if k < a {
            assert(is_space(list[k]));
        } else if k < b {
            assert(!is_space(name[k - a]));
        } else {
            assert(is_space(list[k]));
        }
    }
    assert(is_item(list, i, j));
    assert forall|k: int| 0 <= k < a - i implies blank(#[trigger] item[k]) by {
        assert(is_space(list[i + k]));
    }
    assert(item[a - i] == name[a - a]);
    assert(!is_space(name[0]));
    lemma_trim_start_of_padded(item, a - i);
    let t = item.skip(a - i);
    assert forall|k: int| b - a <= k < t.len() implies blank(#[trigger] t[k]) by {
        assert(is_space(list[a + k]));
    }
    assert(t[b - a - 1] == name[b - 1 - a]);
    assert(!is_space(name[b - 1 - a]));
    lemma_trim_end_of_padded(t, b - a);
    assert(t.take(b - a) =~= list.subrange(a, b));
}

/// Whether two slices hold the same bytes.
pub(crate) fn bytes_equal(a: &[u8], b: &[u8]) -> (r: bool)
    ensures
        r == (a@ == b@),
{
    if a.len() != b.len() {
        return false;
    }
    let mut i: usize = 0;
    while i < a.len()
        invariant
            i <= a@.len(),
            a@.len() == b@.len(),
            forall|k: int| 0 <= k < i ==> a@[k] == b@[k],
        decreases a@.len() - i,
    {
        if a[i] != b[i] {
            return false;
        }
        i = i + 1;
    }
    assert(a@ =~= b@);
    true
}

/// The slice without leading and trailing blanks.
fn trim(s: &[u8]) -> (r: &[u8])
    ensures
        r@ == trim_end(trim_start(s@)),
{
    let mut lo: usize = 0;
    assert(s@.skip(0) =~= s@);
    while lo < s.len() && (s[lo] == 0x20 || s[lo] == 0x09)
        invariant
            lo <= s@.len(),
            trim_start(s@) == trim_start(s@.skip(lo as int)),
        decreases s@.len() - lo,
    {
        assert(s@.skip(lo as int).drop_first() =~= s@.skip(lo + 1));
        lo = lo + 1;
    }
    let mut hi: usize = s.len();
    assert(s@.subrange(lo as int, hi as int) =~= s@.skip(lo as int));
    while hi > lo && (s[hi - 1] == 0x20 || s[hi - 1] == 0x09)
        invariant
            lo <= hi <= s@.len(),
            trim_end(trim_start(s@)) == trim_end(s@.subrange(lo as int, hi as int)),
        decreases hi - lo,
    {
        assert(s@.subrange(lo as int, hi as int).drop_last() =~= s@.subrange(lo as int, hi - 1));
        hi = hi - 1;
    }
    slice_subrange(s, lo, hi)
}

/// Whether a comma-separated list has an item that is `name`, blanks around it
/// left aside.
pub fn list_contains(list: &[u8], name: &[u8]) -> (r: bool)
    ensures
        r == lists(list@, name@),
{
    let mut start: usize = 0;
    let mut k: usize = 0;
    loop
        invariant
            start <= k <= list@.len(),
            start == 0 || list@[start - 1] == 0x2c,
            forall|m: int| start <= m < k ==> list@[m] != 0x2c,
            forall|i: int, j: int| #[trigger]
                is_item(list@, i, j) && i < start ==> trim_end(
                    trim_start(list@.subrange(i, j)),
                ) != name@,
        decreases list@.len() - k,
    {
        if k == list.len() || list[k] == 0x2c {
            let item = slice_subrange(list, start, k);
            assert(is_item(list@, start as int, k as int));
            if bytes_equal(trim(item), name) {
                return true;
            }
            assert forall|i: int, j: int| #[trigger]
                is_item(list@, i, j) && i < k + 1 implies trim_end(
                trim_start(list@.subrange(i, j)),
            ) != name@ by {
                if i > start {
                    assert(list@[i - 1] == 0x2c);
                } else if i == start {
                    if j < k {
                        assert(list@[j] == 0x2c);
                    } else if j > k {
                        assert(list@[k as int] == 0x2c);
                    }
                }
            }
            if k == list.len() {
                return false;
            }
            start = k + 1;
        }
        k = k + 1;
    }
}

/// Whether the request takes responses in the named encoding.
pub open spec fn accepts(entries: Entries, name: Seq<char>) -> bool {
    match first_value(entries, lookup_name(encode_utf8("grpc-accept-encoding"@))) {
        Some(v) => all_visible(v) && lists(v, encode_utf8(name)),
        None => false,
    }
}

/// Whether every byte is a visible ASCII character, a space or a tab.
pub(crate) fn is_visible(s: &[u8]) -> (r: bool)
    ensures
        r == all_visible(s@),
{
    let mut i: usize = 0;
    while i < s.len()
        invariant
            i <= s@.len(),
            forall|k: int| 0 <= k < i ==> visible(#[trigger] s@[k]),
        decreases s@.len() - i,
    {
        let b = s[i];
        if !(32 <= b && b < 127 || b == 9) {
            assert(!visible(s@[i as int]));
            return false;
        }
        i = i + 1;
    }
    true
}

/// Whether `grpc-accept-encoding` lists `name`.
pub fn accept_encoding_contains(headers: &HeaderMap, name: &str) -> (r: bool)
    ensures
        r == accepts(header_entries(*headers), name@),
{
    match header_get(headers, "grpc-accept-encoding") {
        Some(value) => is_visible(value) && list_contains(value, name.as_bytes()),
        None => false,
    }
}

/// Text of lower-case letters and hyphens only.
pub open spec fn is_lower(s: Seq<char>) -> bool {
    forall|i: int| 0 <= i < s.len() ==> 'a' <= #[trigger] s[i] <= 'z' || s[i] == '-'
}

pub(crate) proof fn lemma_lower_name(s: Seq<char>)
    requires
        is_lower(s),
        1 <= s.len() <= 64,
    ensures
        header_name(encode_utf8(s)) == Some(encode_utf8(s)),
        all_visible(encode_utf8(s)),
        encode_utf8(s).len() == s.len(),
        forall|i: int| 0 <= i < s.len() ==> #[trigger] encode_utf8(s)[i] == s[i] as u8,
{
    assert(is_ascii_chars(s));
    is_ascii_chars_encode_utf8(s);
    let b = encode_utf8(s);
    assert forall|i: int| 0 <= i < b.len() implies name_byte(#[trigger] b[i]) == b[i] && b[i] != 0
        && visible(b[i]) by {
        let c = s[i];
        assert('a' <= c <= 'z' || c == '-');
    }
    assert(name_bytes(b) =~= b);
}

pub(crate) proof fn lemma_name_spells_itself(src: Seq<u8>)
    requires
        header_name(src) is Some,
    ensures
        header_name(header_name(src)->0) == header_name(src),
        lookup_name(src) == header_name(src),
{
    let name = name_bytes(src);
    assert forall|i: int| 0 <= i < name.len() implies name_byte(#[trigger] name[i]) == name[i]
        && name[i] != 0 by {
        assert(name_byte(src[i]) != 0);
    }
    assert(name_bytes(name) =~= name);
}

} // verus!
