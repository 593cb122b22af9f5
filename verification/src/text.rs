//! Text handling shared by the parsers of command output and sysfs files:
//! Unicode whitespace trimming and splitting, line splitting, decimal
//! parsing, and the std conversions they rest on.
use vstd::prelude::*;
use vstd::string::StrSliceExecFns;
use vstd::string::StringExecFns;

verus! {

/// The Unicode `White_Space` property, which `char::is_whitespace` tests.
pub open spec fn is_white_space(c: char) -> bool {
    ||| ('\u{9}' <= c && c <= '\u{d}')
    ||| c == ' '
    ||| c == '\u{85}'
    ||| c == '\u{a0}'
    ||| c == '\u{1680}'
    ||| ('\u{2000}' <= c && c <= '\u{200a}')
    ||| c == '\u{2028}'
    ||| c == '\u{2029}'
    ||| c == '\u{202f}'
    ||| c == '\u{205f}'
    ||| c == '\u{3000}'
}

/// Whether `c` is Unicode whitespace.
pub fn white_space(c: char) -> (b: bool)
    ensures
        b == is_white_space(c),
{
    ('\u{9}' <= c && c <= '\u{d}') || c == ' ' || c == '\u{85}' || c == '\u{a0}'
        || c == '\u{1680}' || ('\u{2000}' <= c && c <= '\u{200a}') || c == '\u{2028}'
        || c == '\u{2029}' || c == '\u{202f}' || c == '\u{205f}' || c == '\u{3000}'
}

/// The characters of `s`, in order.
pub fn chars_of(s: &str) -> (v: Vec<char>)
    ensures
        v@ == s@,
{
    let mut v: Vec<char> = Vec::new();
    for c in it: s.chars()
        invariant
            v@ == it.seq().take(it.index()),
            it.seq() == s@,
    {
        v.push(c);
    }
    v
}

/// `s` without its leading whitespace.
pub open spec fn trim_start_spec(s: Seq<char>) -> Seq<char>
    decreases s.len(),
{
    if s.len() > 0 && is_white_space(s[0]) {
        trim_start_spec(s.drop_first())
    } else {
        s
    }
}

/// `s` without its trailing whitespace.
pub open spec fn trim_end_spec(s: Seq<char>) -> Seq<char>
    decreases s.len(),
{
    if s.len() > 0 && is_white_space(s.last()) {
        trim_end_spec(s.drop_last())
    } else {
        s
    }
}

/// `s` without leading and trailing whitespace, as `str::trim` gives it.
pub open spec fn trim_spec(s: Seq<char>) -> Seq<char> {
    trim_end_spec(trim_start_spec(s))
}

/// The text of `s[from..to]` as an owned string.
fn substring(s: &str, from: usize, to: usize) -> (r: String)
    requires
        from <= to <= s@.len(),
    ensures
        r@ == s@.subrange(from as int, to as int),
{
    let part = s.substring_char(from, to);
    String::from_str(part)
}

/// `s` without leading and trailing whitespace.
pub fn trim(s: &str) -> (r: String)
    ensures
        r@ == trim_spec(s@),
{
    let cs = chars_of(s);
    let n = cs.len();
    let mut i: usize = 0;
    assert(s@.subrange(0, n as int) =~= s@);
    while i < n && white_space(cs[i])
        invariant
            cs@ == s@,
            n == cs@.len(),
            i <= n,
            trim_start_spec(s@) == trim_start_spec(s@.subrange(i as int, n as int)),
        decreases n - i,
    {
        assert(s@.subrange(i as int, n as int).drop_first() =~= s@.subrange(i + 1, n as int));
        i = i + 1;
    }
    assert(trim_start_spec(s@.subrange(i as int, n as int)) == s@.subrange(i as int, n as int));
    let mut j: usize = n;
    while j > i && white_space(cs[j - 1])
        invariant
            cs@ == s@,
            n == cs@.len(),
            i <= j <= n,
            trim_spec(s@) == trim_end_spec(s@.subrange(i as int, j as int)),
        decreases j - i,
    {
        assert(s@.subrange(i as int, j as int).drop_last() =~= s@.subrange(i as int, j - 1));
        j = j - 1;
    }
    substring(s, i, j)
}

/// The views of a sequence of strings.
pub open spec fn views(v: Seq<String>) -> Seq<Seq<char>> {
    v.map_values(|t: String| t@)
}

/// The words found in `s` so far, and the word being read at its end.
pub open spec fn split_state(s: Seq<char>) -> (Seq<Seq<char>>, Seq<char>)
    decreases s.len(),
{
    if s.len() == 0 {
        (Seq::empty(), Seq::empty())
    } else {
        let (done, cur) = split_state(s.drop_last());
        if is_white_space(s.last()) {
            if cur.len() > 0 {
                (done.push(cur), Seq::empty())
            } else {
                (done, Seq::empty())
            }
        } else {
            (done, cur.push(s.last()))
        }
    }
}

/// The maximal runs of non-whitespace characters of `s`, in order, as
/// `str::split_whitespace` yields them.
pub open spec fn words(s: Seq<char>) -> Seq<Seq<char>> {
    let (done, cur) = split_state(s);
    if cur.len() > 0 {
        done.push(cur)
    } else {
        done
    }
}

/// The words of `s`.
pub fn split_whitespace(s: &str) -> (r: Vec<String>)
    ensures
        views(r@) == words(s@),
{
    let cs = chars_of(s);
    let n = cs.len();
    let mut out: Vec<String> = Vec::new();
    let mut start: usize = 0;
    let mut i: usize = 0;
    while i < n
        invariant
            cs@ == s@,
            n == cs@.len(),
            start <= i <= n,
            split_state(s@.take(i as int)) == (views(out@), s@.subrange(start as int, i as int)),
        decreases n - i,
    {
        let ghost before = out@;
        assert(s@.take(i + 1).drop_last() =~= s@.take(i as int));
        assert(s@.take(i + 1).last() == s@[i as int]);
        if white_space(cs[i]) {
            if start < i {
                let w = substring(s, start, i);
                out.push(w);
                assert(views(out@) =~= views(before).push(s@.subrange(start as int, i as int)));
            }
            start = i + 1;
            assert(s@.subrange(start as int, i + 1) =~= Seq::<char>::empty());
        } else {
            assert(s@.subrange(start as int, i + 1) =~= s@.subrange(start as int, i as int).push(
                s@[i as int],
            ));
        }
        i = i + 1;
    }
    assert(s@.take(n as int) =~= s@);
    if start < n {
        let ghost before = out@;
        let w = substring(s, start, n);
        out.push(w);
        assert(views(out@) =~= views(before).push(s@.subrange(start as int, n as int)));
    }
    out
}

/// The lines found in `s` so far, and the line being read at its end.
pub open spec fn line_state(s: Seq<char>) -> (Seq<Seq<char>>, Seq<char>)
    decreases s.len(),
{
    if s.len() == 0 {
        (Seq::empty(), Seq::empty())
    } else {
        let (done, cur) = line_state(s.drop_last());
        if s.last() == '\n' {
            (done.push(strip_carriage_return(cur)), Seq::empty())
        } else {
            (done, cur.push(s.last()))
        }
    }
}

/// A line ended by `"\r\n"` loses its `'\r'`.
pub open spec fn strip_carriage_return(line: Seq<char>) -> Seq<char> {
    if line.len() > 0 && line.last() == '\r' {
        line.drop_last()
    } else {
        line
    }
}

/// The lines of `s` as `str::lines` yields them: split at `'\n'`, a `'\r'`
/// just before the `'\n'` dropped, and no empty line after a final `'\n'`.
pub open spec fn lines_spec(s: Seq<char>) -> Seq<Seq<char>> {
    let (done, cur) = line_state(s);
    if cur.len() > 0 {
        done.push(cur)
    } else {
        done
    }
}

/// The lines of `s`.
pub fn lines(s: &str) -> (r: Vec<String>)
    ensures
        views(r@) == lines_spec(s@),
{
    let cs = chars_of(s);
    let n = cs.len();
    let mut out: Vec<String> = Vec::new();
    let mut start: usize = 0;
    let mut i: usize = 0;
    while i < n
        invariant
            cs@ == s@,
            n == cs@.len(),
            start <= i <= n,
            line_state(s@.take(i as int)) == (views(out@), s@.subrange(start as int, i as int)),
        decreases n - i,
    {
        let ghost before = out@;
        assert(s@.take(i + 1).drop_last() =~= s@.take(i as int));
        assert(s@.take(i + 1).last() == s@[i as int]);
        if cs[i] == '\n' {
            let end = if start < i && cs[i - 1] == '\r' {
                i - 1
            } else {
                i
            };
            assert(s@.subrange(start as int, end as int) =~= strip_carriage_return(
                s@.subrange(start as int, i as int),
            ));
            let line = substring(s, start, end);
            out.push(line);
            assert(views(out@) =~= views(before).push(s@.subrange(start as int, end as int)));
            start = i + 1;
            assert(s@.subrange(start as int, i + 1) =~= Seq::<char>::empty());
        } else {
            assert(s@.subrange(start as int, i + 1) =~= s@.subrange(start as int, i as int).push(
                s@[i as int],
            ));
        }
        i = i + 1;
    }
    assert(s@.take(n as int) =~= s@);
    if start < n {
        let ghost before = out@;
        let line = substring(s, start, n);
        out.push(line);
        assert(views(out@) =~= views(before).push(s@.subrange(start as int, n as int)));
    }
    out
}

/// Whether `s` begins with `prefix`.
pub open spec fn has_prefix(s: Seq<char>, prefix: Seq<char>) -> bool {
    prefix.len() <= s.len() && s.subrange(0, prefix.len() as int) == prefix
}

/// Whether `s` begins with `prefix`.
pub fn starts_with(s: &str, prefix: &str) -> (b: bool)
    ensures
        b == has_prefix(s@, prefix@),
{
    let cs = chars_of(s);
    let ps = chars_of(prefix);
    if ps.len() > cs.len() {
        return false;
    }
    let mut i: usize = 0;
    while i < ps.len()
        invariant
            cs@ == s@,
            ps@ == prefix@,
            ps@.len() <= cs@.len(),
            i <= ps@.len(),
            forall|k: int| 0 <= k < i ==> cs@[k] == ps@[k],
        decreases ps@.len() - i,
    {
        if cs[i] != ps[i] {
            assert(s@.subrange(0, prefix@.len() as int)[i as int] != prefix@[i as int]);
            return false;
        }
        i = i + 1;
    }
    assert(s@.subrange(0, prefix@.len() as int) =~= prefix@);
    true
}

/// Whether `c` occurs in `s`.
pub fn contains_char(s: &str, c: char) -> (b: bool)
    ensures
        b == s@.contains(c),
{
    let cs = chars_of(s);
    let mut i: usize = 0;
    while i < cs.len()
        invariant
            cs@ == s@,
            i <= cs@.len(),
            forall|k: int| 0 <= k < i ==> cs@[k] != c,
        decreases cs@.len() - i,
    {
        if cs[i] == c {
            assert(s@[i as int] == c);
            return true;
        }
        i = i + 1;
    }
    false
}

/// The value of an ASCII decimal digit.
pub open spec fn digit_value(c: char) -> nat {
    (c as nat - '0' as nat) as nat
}

/// Whether `c` is an ASCII decimal digit.
pub open spec fn is_digit(c: char) -> bool {
    '0' <= c && c <= '9'
}

/// Whether every character of `s` is a decimal digit.
pub open spec fn all_digits(s: Seq<char>) -> bool {
    forall|k: int| 0 <= k < s.len() ==> is_digit(#[trigger] s[k])
}

/// The number that the decimal digits `s` denote.
pub open spec fn decimal_value(s: Seq<char>) -> nat
    decreases s.len(),
{
    if s.len() == 0 {
        0
    } else {
        decimal_value(s.drop_last()) * 10 + digit_value(s.last())
    }
}

/// The digits of an unsigned number as `u64::from_str` reads them: one
/// optional leading `'+'`.
pub open spec fn unsigned_digits(s: Seq<char>) -> Seq<char> {
    if s.len() > 0 && s[0] == '+' {
        s.drop_first()
    } else {
        s
    }
}

/// What `u64::from_str` gives for `s`: a number when `s` is an optional
/// `'+'` and at least one decimal digit whose value fits in 64 bits.
pub open spec fn parse_u64_spec(s: Seq<char>) -> Option<u64> {
    let digits = unsigned_digits(s);
    if digits.len() > 0 && all_digits(digits) && decimal_value(digits) <= u64::MAX {
        Some(decimal_value(digits) as u64)
    } else {
        None
    }
}

/// The value of a digit string does not shrink when digits are appended.
proof fn lemma_decimal_value_grows(s: Seq<char>, k: int)
    requires
        0 <= k <= s.len(),
        all_digits(s),
    ensures
        decimal_value(s.take(k)) <= decimal_value(s),
    decreases s.len() - k,
{
    if k < s.len() {
        lemma_decimal_value_grows(s, k + 1);
        assert(s.take(k + 1).drop_last() =~= s.take(k));
        assert(is_digit(s[k]));
    } else {
        assert(s.take(k) =~= s);
    }
}

/// `s` read as an unsigned decimal number, as `u64::from_str` reads it.
pub fn parse_u64(s: &str) -> (r: Option<u64>)
    ensures
        r == parse_u64_spec(s@),
{
    let cs = chars_of(s);
    let n = cs.len();
    let mut i: usize = if n > 0 && cs[0] == '+' {
        1
    } else {
        0
    };
    let ghost digits = unsigned_digits(s@);
    assert(digits =~= s@.subrange(i as int, n as int));
    if i == n {
        return None;
    }
    let first = i;
    let mut value: u64 = 0;
    while i < n
        invariant
            cs@ == s@,
            n == cs@.len(),
            first <= i <= n,
            digits == s@.subrange(first as int, n as int),
            digits == unsigned_digits(s@),
            all_digits(digits.take(i - first)),
            value == decimal_value(digits.take(i - first)),
        decreases n - i,
    {
        let c = cs[i];
        assert(digits.take(i - first + 1).drop_last() =~= digits.take(i - first));
        assert(digits[i - first] == c);
        if !('0' <= c && c <= '9') {
            assert(!all_digits(digits));
            return None;
        }
        let d = (c as u32 - '0' as u32) as u64;
        assert(decimal_value(digits.take(i - first + 1)) == value * 10 + d);
        match value.checked_mul(10) {
            Some(m) => match m.checked_add(d) {
                Some(v) => {
                    value = v;
                },
                None => {
                    proof {
                        if all_digits(digits) {
                            lemma_decimal_value_grows(digits, i - first + 1);
                        }
                    }
                    return None;
                },
            },
            None => {
                proof {
                    if all_digits(digits) {
                        lemma_decimal_value_grows(digits, i - first + 1);
                    }
                }
                return None;
            },
        }
        i = i + 1;
        assert(all_digits(digits.take(i - first)));
    }
    assert(digits.take(n - first) =~= digits);
    Some(value)
}

/// The words `ws` joined by single spaces.
pub open spec fn join_spaced(ws: Seq<Seq<char>>) -> Seq<char>
    decreases ws.len(),
{
    if ws.len() == 0 {
        Seq::empty()
    } else if ws.len() == 1 {
        ws[0]
    } else {
        join_spaced(ws.drop_last()) + seq![' '] + ws.last()
    }
}

/// `parts[from..]` joined by single spaces.
pub fn join_spaced_from(parts: &Vec<String>, from: usize) -> (r: String)
    requires
        from <= parts@.len(),
    ensures
        r@ == join_spaced(views(parts@).subrange(from as int, parts@.len() as int)),
{
    let mut out = String::new();
    let n = parts.len();
    let mut k: usize = from;
    let sep = " ";
    proof {
        reveal_strlit(" ");
    }
    assert(views(parts@).subrange(from as int, from as int) =~= Seq::<Seq<char>>::empty());
    while k < n
        invariant
            n == parts@.len(),
            from <= k <= n,
            sep@ == seq![' '],
            out@ == join_spaced(views(parts@).subrange(from as int, k as int)),
        decreases n - k,
    {
        let ghost ws = views(parts@).subrange(from as int, k + 1);
        assert(ws.drop_last() =~= views(parts@).subrange(from as int, k as int));
        assert(ws.last() == parts@[k as int]@);
        if k > from {
            out.append(sep);
        } else {
            assert(ws.len() == 1);
        }
        out.append(parts[k].as_str());
        k = k + 1;
    }
    out
}

/// What `str::to_uppercase` gives for `s`: each character replaced by its
/// Unicode uppercase mapping, from std's tables.
pub uninterp spec fn uppercase(s: Seq<char>) -> Seq<char>;

/// Calls `str::to_uppercase`. The contract says that the result is the
/// uppercase mapping of `s` (named `uppercase`), and that every character
/// maps to at least one character (`char::to_uppercase` yields the character
/// itself when it has no mapping), so the result is never shorter and is
/// empty only for empty text; the Unicode tables behind it are not written
/// out here.
#[verifier::external_body]
pub(crate) fn to_uppercase(s: &str) -> (r: String)
    ensures
        r@ == uppercase(s@),
        r@.len() >= s@.len(),
        r@.len() == 0 <==> s@.len() == 0,
{
    s.to_uppercase()
}

/// What `String::from_utf8_lossy` gives for `bytes`: the UTF-8 decoding of
/// the bytes, each invalid sequence replaced by U+FFFD.
pub uninterp spec fn utf8_lossy(bytes: Seq<u8>) -> Seq<char>;

/// Calls `String::from_utf8_lossy` and takes ownership of its result. The
/// contract names the decoding (`utf8_lossy`) without writing out UTF-8.
#[verifier::external_body]
pub(crate) fn decode_utf8_lossy(bytes: &[u8]) -> (r: String)
    ensures
        r@ == utf8_lossy(bytes@),
{
    String::from_utf8_lossy(bytes).into_owned()
}

/// Whether `a` and `b` hold the same text.
pub fn same_text(a: &str, b: &str) -> (r: bool)
    ensures
        r == (a@ == b@),
{
    let x = String::from_str(a);
    let y = String::from_str(b);
    x == y
}

/// `raw` trimmed and uppercased, the form in which MAC addresses are kept.
pub open spec fn normalized_mac(raw: Seq<char>) -> Seq<char> {
    uppercase(trim_spec(raw))
}

/// `raw` trimmed and uppercased.
pub fn normalize_mac_text(raw: &str) -> (r: String)
    ensures
        r@ == normalized_mac(raw@),
        r@.len() > 0 <==> trim_spec(raw@).len() > 0,
{
    let t = trim(raw);
    to_uppercase(t.as_str())
}

} // verus!
