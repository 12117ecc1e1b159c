//! Cleaning and shortening of model output text.
//!
//! Model replies often arrive wrapped in a Markdown code fence (three
//! backticks, optionally followed by `json`). `clean_content` removes the
//! surrounding white space and such a fence; `truncate` shortens a cleaned
//! reply to a byte budget.
use vstd::prelude::*;
use vstd::string::StringSliceAdditionalSpecFns;
use vstd::utf8::*;

verus! {

broadcast use vstd::string::group_string_axioms;

/// The Unicode `White_Space` property: the characters that `char::is_whitespace`
/// and `str::trim` treat as white space.
pub open spec fn is_white_space(c: char) -> bool {
    let u = c as u32;
    ||| 0x9 <= u <= 0xD
    ||| u == 0x20
    ||| u == 0x85
    ||| u == 0xA0
    ||| u == 0x1680
    ||| 0x2000 <= u <= 0x200A
    ||| u == 0x2028
    ||| u == 0x2029
    ||| u == 0x202F
    ||| u == 0x205F
    ||| u == 0x3000
}

/// `s` with its leading white space removed.
pub open spec fn trim_start(s: Seq<char>) -> Seq<char>
    decreases s.len(),
{
    if s.len() > 0 && is_white_space(s[0]) {
        trim_start(s.drop_first())
    } else {
        s
    }
}

/// `s` with its trailing white space removed.
pub open spec fn trim_end(s: Seq<char>) -> Seq<char>
    decreases s.len(),
{
    if s.len() > 0 && is_white_space(s.last()) {
        trim_end(s.drop_last())
    } else {
        s
    }
}

/// `s` with its leading and trailing white space removed.
pub open spec fn trim(s: Seq<char>) -> Seq<char> {
    trim_end(trim_start(s))
}

/// Whether `s` begins with `p`.
pub open spec fn starts_with(s: Seq<char>, p: Seq<char>) -> bool {
    p.len() <= s.len() && s.take(p.len() as int) == p
}

/// Whether `s` ends with `p`.
pub open spec fn ends_with(s: Seq<char>, p: Seq<char>) -> bool {
    p.len() <= s.len() && s.skip(s.len() - p.len()) == p
}

/// `s` with every leading occurrence of the non-empty `p` removed, one after
/// another (what `str::trim_start_matches` does with a string pattern).
pub open spec fn strip_prefixes(s: Seq<char>, p: Seq<char>) -> Seq<char>
    decreases s.len(),
{
    if p.len() > 0 && starts_with(s, p) {
        strip_prefixes(s.skip(p.len() as int), p)
    } else {
        s
    }
}

/// `s` with every trailing occurrence of the non-empty `p` removed, one after
/// another (what `str::trim_end_matches` does with a string pattern).
pub open spec fn strip_suffixes(s: Seq<char>, p: Seq<char>) -> Seq<char>
    decreases s.len(),
{
    if p.len() > 0 && ends_with(s, p) {
        strip_suffixes(s.take(s.len() - p.len()), p)
    } else {
        s
    }
}

/// The code fence opener and closer: three backticks.
pub open spec fn fence() -> Seq<char> {
    seq!['`', '`', '`']
}

/// The opener of a fenced JSON block.
pub open spec fn json_fence() -> Seq<char> {
    seq!['`', '`', '`', 'j', 's', 'o', 'n']
}

/// What `clean_content` returns for `s`: the trimmed text; where it opens a
/// code fence, the fence markers are stripped and the inside is trimmed again.
pub open spec fn clean(s: Seq<char>) -> Seq<char> {
    let t = trim(s);
    if starts_with(t, json_fence()) {
        trim(strip_suffixes(strip_prefixes(t, json_fence()), fence()))
    } else if starts_with(t, fence()) {
        trim(strip_suffixes(strip_prefixes(t, fence()), fence()))
    } else {
        t
    }
}

/// The ellipsis that `truncate` appends to a shortened text.
pub open spec fn ellipsis() -> Seq<char> {
    seq!['.', '.', '.']
}

/// Whether `truncate(s, max)` returns rather than panics: the cleaned text
/// fits in `max` bytes, or byte `max` starts a character. (Its byte length
/// fits in a `usize`, as that of every string in memory does.)
pub open spec fn truncate_defined(s: Seq<char>, max: nat) -> bool {
    let bytes = encode_utf8(clean(s));
    &&& bytes.len() <= usize::MAX
    &&& bytes.len() <= max || is_char_boundary(bytes, max as int)
}

/// What `truncate(s, max)` returns: the cleaned text if it fits in `max`
/// bytes of UTF-8, else its first `max` bytes followed by `...`.
pub open spec fn truncated(s: Seq<char>, max: nat) -> Seq<char> {
    let c = clean(s);
    let bytes = encode_utf8(c);
    if bytes.len() <= max {
        c
    } else {
        decode_utf8(bytes.take(max as int)) + ellipsis()
    }
}

proof fn lemma_trim_start_shape(s: Seq<char>)
    ensures
        trim_start(s).len() == 0 || !is_white_space(trim_start(s)[0]),
    decreases s.len(),
{
    if s.len() > 0 && is_white_space(s[0]) {
        lemma_trim_start_shape(s.drop_first());
    }
}

proof fn lemma_trim_end_shape(s: Seq<char>)
    ensures
        trim_end(s).len() <= s.len(),
        trim_end(s) == s.take(trim_end(s).len() as int),
        trim_end(s).len() == 0 || !is_white_space(trim_end(s).last()),
    decreases s.len(),
{
    if s.len() > 0 && is_white_space(s.last()) {
        lemma_trim_end_shape(s.drop_last());
        assert(s.drop_last().take(trim_end(s).len() as int) =~= s.take(trim_end(s).len() as int));
    } else {
        assert(s.take(s.len() as int) =~= s);
    }
}

/// Trimming a trimmed text changes nothing.
pub proof fn trim_is_idempotent(s: Seq<char>)
    ensures
        trim(trim(s)) == trim(s),
{
    let t = trim_start(s);
    let e = trim_end(t);
    lemma_trim_start_shape(s);
    lemma_trim_end_shape(t);
    if e.len() > 0 {
        assert(e[0] == t[0]);
    }
    assert(trim_start(e) == e);
    assert(trim_end(e) == e);
}

/// The cleaned text has no white space around it: trimming it changes nothing.
pub proof fn clean_is_trimmed(s: Seq<char>)
    ensures
        trim(clean(s)) == clean(s),
{
    let t = trim(s);
    trim_is_idempotent(s);
    if starts_with(t, json_fence()) {
        trim_is_idempotent(strip_suffixes(strip_prefixes(t, json_fence()), fence()));
    } else if starts_with(t, fence()) {
        trim_is_idempotent(strip_suffixes(strip_prefixes(t, fence()), fence()));
    }
}

/// Whether every character of `w` is white space.
pub open spec fn all_white(w: Seq<char>) -> bool {
    forall|i: int| 0 <= i < w.len() ==> #[trigger] is_white_space(w[i])
}

proof fn lemma_trim_start_skips(w: Seq<char>, x: Seq<char>)
    requires
        all_white(w),
    ensures
        trim_start(w + x) == trim_start(x),
    decreases w.len(),
{
    if w.len() == 0 {
        assert(w + x =~= x);
    } else {
        assert(is_white_space((w + x)[0]));
        assert((w + x).drop_first() =~= w.drop_first() + x);
        lemma_trim_start_skips(w.drop_first(), x);
    }
}

proof fn lemma_trim_end_skips(x: Seq<char>, w: Seq<char>)
    requires
        all_white(w),
    ensures
        trim_end(x + w) == trim_end(x),
    decreases w.len(),
{
    if w.len() == 0 {
        assert(x + w =~= x);
    } else {
        assert(is_white_space((x + w).last()));
        assert((x + w).drop_last() =~= x + w.drop_last());
        lemma_trim_end_skips(x, w.drop_last());
    }
}

/// The tag that follows the fence of a JSON block.
pub open spec fn json_tag() -> Seq<char> {
    seq!['j', 's', 'o', 'n']
}

/// Stripping the opener `open` and the closing fence from `open + b + fence`
/// leaves `b`, where `b` does not start with a backtick and does not end in
/// a fence.
proof fn lemma_strip_fences(open: Seq<char>, b: Seq<char>)
    requires
        open == fence() || open == json_fence(),
        b.len() > 0,
        b[0] != '`',
        !ends_with(b, fence()),
    ensures
        strip_suffixes(strip_prefixes(open + b + fence(), open), fence()) == b,
{
    let core = open + b + fence();
    let rest = b + fence();
    assert(open.len() > 0 && open[0] == '`');
    assert(fence().len() == 3);
    assert(core.take(open.len() as int) =~= open);
    assert(starts_with(core, open));
    assert(core.skip(open.len() as int) =~= rest);
    assert(rest[0] == b[0]);
    if starts_with(rest, open) {
        assert(rest.take(open.len() as int)[0] == rest[0]);
        assert(false);
    }
    assert(strip_prefixes(rest, open) == rest);
    assert(strip_prefixes(core, open) == strip_prefixes(rest, open));
    assert(rest.skip(rest.len() - 3) =~= fence());
    assert(ends_with(rest, fence()));
    assert(rest.take(rest.len() - 3) =~= b);
    assert(strip_suffixes(b, fence()) == b);
    assert(strip_suffixes(rest, fence()) == strip_suffixes(b, fence()));
}

/// A fenced block cleans to its trimmed inside: for white space `w1` and
/// `w2` around it, an opener of three backticks (or three backticks and
/// `json`), an inside `b` that does not start with a backtick or end in a
/// fence, and a closing fence, the fences and the tag go and the inside is
/// trimmed; nothing else of it is removed. Whatever follows a plain opener
/// (a language name such as `python`, or text) stays, except a `json` tag,
/// which makes the opener a JSON one.
pub proof fn clean_unwraps_fenced_block(w1: Seq<char>, open: Seq<char>, b: Seq<char>, w2: Seq<char>)
    requires
        all_white(w1),
        all_white(w2),
        open == fence() || open == json_fence(),
        b.len() > 0,
        b[0] != '`',
        !ends_with(b, fence()),
        open == fence() ==> !starts_with(b, json_tag()),
    ensures
        clean(w1 + open + b + fence() + w2) == trim(b),
{
    let core = open + b + fence();
    let s = w1 + open + b + fence() + w2;
    assert(s =~= w1 + (core + w2));
    assert(!is_white_space('`'));
    lemma_trim_start_skips(w1, core + w2);
    assert((core + w2)[0] == '`');
    assert(trim_start(core + w2) == core + w2);
    lemma_trim_end_skips(core, w2);
    assert(core.last() == '`');
    assert(trim_end(core) == core);
    assert(trim(s) == core);
    lemma_strip_fences(open, b);
    if open == fence() {
        if starts_with(core, json_fence()) {
            assert forall|k: int| 0 <= k < 7 implies core[k] == json_fence()[k] by {
                assert(core.take(7)[k] == core[k]);
            }
            if b.len() >= 4 {
                assert(b.take(4) =~= json_tag()) by {
                    assert forall|k: int| 0 <= k < 4 implies b.take(4)[k] == json_tag()[k] by {
                        assert(core[3 + k] == b[k]);
                    }
                }
                assert(false);
            } else {
                let n = b.len() as int;
                assert(core[3 + n] == '`');
                assert(json_fence()[3 + n] != '`');
                assert(false);
            }
        }
        assert(core.take(3) =~= fence());
    } else {
        assert(core.take(7) =~= json_fence());
    }
}

/// Text that does not open a code fence once trimmed is only trimmed.
pub proof fn clean_of_unfenced_text_trims(s: Seq<char>)
    requires
        !starts_with(trim(s), fence()),
    ensures
        clean(s) == trim(s),
{
    let t = trim(s);
    if starts_with(t, json_fence()) {
        assert(t.take(3) =~= t.take(7).take(3));
        assert(json_fence().take(3) =~= fence());
        assert(false);
    }
}

/// The lowercase form of a string (`str::to_lowercase`, by the Unicode
/// `Lowercase` mapping).
pub uninterp spec fn lowercase(s: Seq<char>) -> Seq<char>;

/// The lowercase form of an ASCII character: `A` to `Z` become `a` to `z`,
/// every other character stays.
pub open spec fn ascii_lower_char(c: char) -> char {
    if 'A' <= c && c <= 'Z' {
        ((c as u32) + 32) as char
    } else {
        c
    }
}

/// The ASCII lowercase form of `s`, character by character.
pub open spec fn ascii_lowercase(s: Seq<char>) -> Seq<char> {
    s.map_values(|c: char| ascii_lower_char(c))
}

/// `str::to_lowercase`. Its result is named `lowercase` of the argument. Of
/// the Unicode case mapping only its ASCII part is stated: on ASCII text it
/// maps `A` to `Z` to `a` to `z` and keeps every other character.
#[verifier::external_body]
pub(crate) fn to_lowercase(s: &str) -> (r: String)
    ensures
        r@ == lowercase(s@),
        is_ascii_chars(s@) ==> r@ == ascii_lowercase(s@),
{
    s.to_lowercase()
}

proof fn lemma_encode_concat(a: Seq<char>, b: Seq<char>)
    ensures
        encode_utf8(a + b) == encode_utf8(a) + encode_utf8(b),
    decreases a.len(),
{
    if a.len() == 0 {
        assert(a + b =~= b);
        assert(encode_utf8(a) + encode_utf8(b) =~= encode_utf8(b));
    } else {
        lemma_encode_concat(a.drop_first(), b);
        assert((a + b).drop_first() =~= a.drop_first() + b);
        assert((a + b)[0] == a[0]);
        assert(encode_utf8(a + b) =~= encode_utf8(a) + encode_utf8(b));
    }
}

/// A truncated text takes at most `max` bytes of UTF-8, plus the three of
/// the ellipsis.
pub proof fn truncated_fits_budget(s: Seq<char>, max: nat)
    requires
        truncate_defined(s, max),
    ensures
        encode_utf8(truncated(s, max)).len() <= max + 3,
{
    let c = clean(s);
    let bytes = encode_utf8(c);
    if bytes.len() > max {
        broadcast use vstd::utf8::group_utf8_lib;

        let head = bytes.take(max as int);
        assert(head =~= bytes.subrange(0, max as int));
        assert(valid_utf8(bytes));
        assert(valid_utf8(head));
        assert(encode_utf8(decode_utf8(head)) == head);
        lemma_encode_concat(decode_utf8(head), ellipsis());
        let e = ellipsis();
        assert(e.drop_first().drop_first().drop_first() =~= Seq::<char>::empty());
        let e3 = e.drop_first().drop_first().drop_first();
        assert(encode_utf8(e3).len() == 0);
        assert(('.' as u32) == 0x2Eu32);
        assert(encode_scalar(0x2Eu32).len() == 1);
        assert(e.drop_first().drop_first()[0] == '.');
        assert(encode_utf8(e.drop_first().drop_first()).len() == 1);
        assert(encode_utf8(e.drop_first()).len() == 2);
        assert(encode_utf8(e).len() == 3);
    }
}

/// Lowercasing ASCII text twice gives what lowercasing it once gives, and the
/// result is ASCII again.
pub proof fn ascii_lowercase_is_idempotent(s: Seq<char>)
    requires
        is_ascii_chars(s),
    ensures
        is_ascii_chars(ascii_lowercase(s)),
        ascii_lowercase(ascii_lowercase(s)) == ascii_lowercase(s),
{
    assert(ascii_lowercase(ascii_lowercase(s)) =~= ascii_lowercase(s));
}

/// Whether `c` has the Unicode `White_Space` property.
pub fn is_whitespace_char(c: char) -> (b: bool)
    ensures
        b == is_white_space(c),
{
    let u = c as u32;
    (0x9 <= u && u <= 0xD) || u == 0x20 || u == 0x85 || u == 0xA0 || u == 0x1680 || (0x2000 <= u
        && u <= 0x200A) || u == 0x2028 || u == 0x2029 || u == 0x202F || u == 0x205F || u == 0x3000
}

/// The characters of `s`, in order.
pub fn chars_of(s: &str) -> (v: Vec<char>)
    ensures
        v@ == s@,
{
    let mut v: Vec<char> = Vec::new();
    for c in it: s.chars()
        invariant
            v@ == it.seq().take(it.index() as int),
            it.seq() == s@,
    {
        v.push(c);
    }
    v
}

proof fn lemma_trim_start_step(s: Seq<char>, lo: int, hi: int)
    requires
        0 <= lo < hi <= s.len(),
        is_white_space(s[lo]),
    ensures
        trim_start(s.subrange(lo, hi)) == trim_start(s.subrange(lo + 1, hi)),
{
    assert(s.subrange(lo, hi).drop_first() =~= s.subrange(lo + 1, hi));
}

proof fn lemma_trim_end_step(s: Seq<char>, lo: int, hi: int)
    requires
        0 <= lo < hi <= s.len(),
        is_white_space(s[hi - 1]),
    ensures
        trim_end(s.subrange(lo, hi)) == trim_end(s.subrange(lo, hi - 1)),
{
    assert(s.subrange(lo, hi).drop_last() =~= s.subrange(lo, hi - 1));
}

/// Whether `v[at..at + p.len()]` equals `p`.
pub(crate) fn matches_at(v: &Vec<char>, at: usize, hi: usize, p: &Vec<char>) -> (b: bool)
    requires
        at <= hi <= v.len(),
    ensures
        b == starts_with(v@.subrange(at as int, hi as int), p@),
{
    let ghost sub = v@.subrange(at as int, hi as int);
    if p.len() > hi - at {
        return false;
    }
    let mut i: usize = 0;
    while i < p.len()
        invariant
            at <= hi <= v.len(),
            p.len() <= hi - at,
            i <= p.len(),
            sub == v@.subrange(at as int, hi as int),
            forall|j: int| 0 <= j < i ==> v@[at + j] == p@[j],
        decreases p.len() - i,
    {
        if v[at + i] != p[i] {
            assert(sub.take(p.len() as int)[i as int] != p@[i as int]);
            return false;
        }
        i = i + 1;
    }
    assert(sub.take(p.len() as int) =~= p@);
    true
}

/// Whether `v[lo..hi]` ends with `p`.
fn matches_end(v: &Vec<char>, lo: usize, hi: usize, p: &Vec<char>) -> (b: bool)
    requires
        lo <= hi <= v.len(),
    ensures
        b == ends_with(v@.subrange(lo as int, hi as int), p@),
{
    if p.len() > hi - lo {
        return false;
    }
    let start = hi - p.len();
    let b = matches_at(v, start, hi, p);
    proof {
        let sub = v@.subrange(lo as int, hi as int);
        let tail = v@.subrange(start as int, hi as int);
        assert(sub.skip(sub.len() - p@.len()) =~= tail);
        assert(tail.take(p@.len() as int) =~= tail);
    }
    b
}

/// Narrows `[lo, hi)` so that `v[lo..hi]` becomes the trimmed `v[lo..hi]`.
fn trim_range(v: &Vec<char>, lo: usize, hi: usize) -> (r: (usize, usize))
    requires
        lo <= hi <= v.len(),
    ensures
        r.0 <= r.1 <= v.len(),
        v@.subrange(r.0 as int, r.1 as int) == trim(v@.subrange(lo as int, hi as int)),
{
    let mut a = lo;
    while a < hi && is_whitespace_char(v[a])
        invariant
            lo <= a <= hi <= v.len(),
            trim_start(v@.subrange(lo as int, hi as int)) == trim_start(
                v@.subrange(a as int, hi as int),
            ),
        decreases hi - a,
    {
        proof {
            lemma_trim_start_step(v@, a as int, hi as int);
        }
        a = a + 1;
    }
    proof {
        let sub = v@.subrange(a as int, hi as int);
        if sub.len() > 0 {
            assert(sub[0] == v@[a as int]);
        }
        assert(trim_start(sub) == sub);
    }
    let mut b = hi;
    while b > a && is_whitespace_char(v[b - 1])
        invariant
            lo <= a <= b <= hi <= v.len(),
            trim_end(v@.subrange(a as int, hi as int)) == trim_end(
                v@.subrange(a as int, b as int),
            ),
        decreases b - a,
    {
        proof {
            lemma_trim_end_step(v@, a as int, b as int);
        }
        b = b - 1;
    }
    proof {
        let sub = v@.subrange(a as int, b as int);
        if sub.len() > 0 {
            assert(sub.last() == v@[b - 1]);
        }
        assert(trim_end(sub) == sub);
    }
    (a, b)
}

/// Narrows `[lo, hi)` past every leading occurrence of `p`.
fn strip_prefixes_range(v: &Vec<char>, lo: usize, hi: usize, p: &Vec<char>) -> (a: usize)
    requires
        lo <= hi <= v.len(),
        p.len() > 0,
    ensures
        lo <= a <= hi,
        v@.subrange(a as int, hi as int) == strip_prefixes(v@.subrange(lo as int, hi as int), p@),
{
    let mut a = lo;
    while matches_at(v, a, hi, p)
        invariant
            lo <= a <= hi <= v.len(),
            p.len() > 0,
            strip_prefixes(v@.subrange(lo as int, hi as int), p@) == strip_prefixes(
                v@.subrange(a as int, hi as int),
                p@,
            ),
        decreases hi - a,
    {
        proof {
            let sub = v@.subrange(a as int, hi as int);
            assert(sub.skip(p@.len() as int) =~= v@.subrange(a + p@.len(), hi as int));
        }
        a = a + p.len();
    }
    a
}

/// Narrows `[lo, hi)` before every trailing occurrence of `p`.
fn strip_suffixes_range(v: &Vec<char>, lo: usize, hi: usize, p: &Vec<char>) -> (b: usize)
    requires
        lo <= hi <= v.len(),
        p.len() > 0,
    ensures
        lo <= b <= hi,
        v@.subrange(lo as int, b as int) == strip_suffixes(v@.subrange(lo as int, hi as int), p@),
{
    let mut b = hi;
    while matches_end(v, lo, b, p)
        invariant
            lo <= b <= hi <= v.len(),
            p.len() > 0,
            strip_suffixes(v@.subrange(lo as int, hi as int), p@) == strip_suffixes(
                v@.subrange(lo as int, b as int),
                p@,
            ),
        decreases b - lo,
    {
        proof {
            let sub = v@.subrange(lo as int, b as int);
            assert(sub.take(sub.len() - p@.len()) =~= v@.subrange(lo as int, b - p@.len()));
        }
        b = b - p.len();
    }
    b
}

/// Removes the white space around `s` and, where the text opens a code fence
/// (three backticks, optionally followed by `json`), the fence markers, then
/// the white space inside them.
pub fn clean_content(s: &str) -> (r: String)
    ensures
        r@ == clean(s@),
{
    let v = chars_of(s);
    let fence_pat: Vec<char> = vec!['`', '`', '`'];
    let json_pat: Vec<char> = vec!['`', '`', '`', 'j', 's', 'o', 'n'];
    assert(fence_pat@ =~= fence());
    assert(json_pat@ =~= json_fence());
    let (lo, hi) = trim_range(&v, 0, v.len());
    assert(v@.subrange(0, v@.len() as int) =~= v@);
    let (a, b) = if matches_at(&v, lo, hi, &json_pat) {
        let a = strip_prefixes_range(&v, lo, hi, &json_pat);
        let b = strip_suffixes_range(&v, a, hi, &fence_pat);
        trim_range(&v, a, b)
    } else if matches_at(&v, lo, hi, &fence_pat) {
        let a = strip_prefixes_range(&v, lo, hi, &fence_pat);
        let b = strip_suffixes_range(&v, a, hi, &fence_pat);
        trim_range(&v, a, b)
    } else {
        (lo, hi)
    };
    String::from_str(s.substring_char(a, b))
}

/// `s` cleaned as `clean_content` does; where the result is longer than `max`
/// bytes of UTF-8, its first `max` bytes followed by `...`.
pub fn truncate(s: &str, max: usize) -> (r: String)
    requires
        truncate_defined(s@, max as nat),
    ensures
        r@ == truncated(s@, max as nat),
{
    let c = clean_content(s);
    let cs = c.as_str();
    if cs.len() <= max {
        assert(cs.spec_bytes() == encode_utf8(clean(s@)));
        c
    } else {
        let (head, _tail) = cs.split_at(max);
        proof {
            broadcast use vstd::utf8::group_utf8_lib;

            assert(head.spec_bytes() =~= encode_utf8(clean(s@)).take(max as int));
            assert(decode_utf8(encode_utf8(head@)) == head@);
            assert(head@ == decode_utf8(encode_utf8(clean(s@)).take(max as int)));
        }
        let dots = "...";
        proof {
            reveal_strlit("...");
        }
        assert(dots@ =~= ellipsis());
        String::from_str(head).concat(dots)
    }
}

} // verus!
