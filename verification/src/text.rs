//! Character classes and small text routines shared by the statement builders.
//!
//! Every routine is specified over the characters of its input, `Seq<char>`,
//! so that the statements built from them can be described exactly.

use vstd::prelude::*;

verus! {

/// `String::push` appends the given character to the end of the string and
/// changes nothing else.
pub assume_specification[ String::push ](s: &mut String, c: char)
    ensures
        final(s)@ == old(s)@.push(c),
;

pub open spec fn is_ascii_upper(c: char) -> bool {
    'A' <= c <= 'Z'
}

pub open spec fn is_ascii_lower(c: char) -> bool {
    'a' <= c <= 'z'
}

pub open spec fn is_ascii_digit(c: char) -> bool {
    '0' <= c <= '9'
}

/// The characters a column name is made of: lower-case ASCII letters,
/// ASCII digits and the underscore.
pub open spec fn is_column_char(c: char) -> bool {
    is_ascii_lower(c) || is_ascii_digit(c) || c == '_'
}

/// The characters an identifier may hold.
pub open spec fn is_identifier_char(c: char) -> bool {
    is_ascii_lower(c) || is_ascii_upper(c) || is_ascii_digit(c) || c == '_'
}

/// What one character of a logical name becomes in a column name: an ASCII
/// letter is lower-cased, an ASCII digit stays, anything else is an
/// underscore.
pub open spec fn normalize_char(c: char) -> char {
    if is_ascii_upper(c) {
        ((c as u8) + 32) as char
    } else if is_ascii_lower(c) || is_ascii_digit(c) {
        c
    } else {
        '_'
    }
}

/// A logical name, character by character, in the alphabet of column names.
pub open spec fn normalize(name: Seq<char>) -> Seq<char> {
    name.map_values(|c: char| normalize_char(c))
}

/// The longest identifier PostgreSQL keeps without truncating it.
pub const MAX_IDENTIFIER_LEN: usize = 63;

/// An identifier that may be written into a statement as it stands: between
/// one and 63 identifier characters, the first of them no digit.
pub open spec fn is_valid_identifier(s: Seq<char>) -> bool {
    &&& 1 <= s.len() <= MAX_IDENTIFIER_LEN
    &&& !is_ascii_digit(s[0])
    &&& forall|i: int| 0 <= i < s.len() ==> is_identifier_char(#[trigger] s[i])
}

/// The code points with the Unicode property `White_Space`.
pub open spec fn is_whitespace(c: char) -> bool {
    let n: u32 = c as u32;
    ||| 0x09 <= n <= 0x0D
    ||| n == 0x20
    ||| n == 0x85
    ||| n == 0xA0
    ||| n == 0x1680
    ||| 0x2000 <= n <= 0x200A
    ||| n == 0x2028
    ||| n == 0x2029
    ||| n == 0x202F
    ||| n == 0x205F
    ||| n == 0x3000
}

/// The number of leading characters of `s` that satisfy `strip`.
pub open spec fn leading(s: Seq<char>, strip: spec_fn(char) -> bool) -> nat
    decreases s.len(),
{
    if s.len() > 0 && strip(s[0]) {
        1 + leading(s.drop_first(), strip)
    } else {
        0
    }
}

/// The number of trailing characters of `s` that satisfy `strip`.
pub open spec fn trailing(s: Seq<char>, strip: spec_fn(char) -> bool) -> nat
    decreases s.len(),
{
    if s.len() > 0 && strip(s.last()) {
        1 + trailing(s.drop_last(), strip)
    } else {
        0
    }
}

/// `s` without the characters at its start that satisfy `strip`, and then
/// without those at its end.
pub open spec fn strip_both(s: Seq<char>, strip: spec_fn(char) -> bool) -> Seq<char> {
    let rest = s.skip(leading(s, strip) as int);
    rest.take(rest.len() - trailing(rest, strip))
}

/// `s` without leading and trailing whitespace.
pub open spec fn trim(s: Seq<char>) -> Seq<char> {
    strip_both(s, Strip::Whitespace.cuts())
}

/// `s` without the double quotes at its start and at its end.
pub open spec fn trim_quotes(s: Seq<char>) -> Seq<char> {
    strip_both(s, Strip::Quotes.cuts())
}

/// The characters other than `c`.
pub open spec fn other_than(c: char) -> spec_fn(char) -> bool {
    |d: char| d != c
}

/// The place of the first `c` in `s`; the length of `s` where it has none.
pub open spec fn position(s: Seq<char>, c: char) -> nat {
    leading(s, other_than(c))
}

/// The decimal digit for a value below ten.
pub open spec fn digit(d: nat) -> char
    recommends
        d < 10,
{
    (('0' as u8) + d) as char
}

/// The decimal notation of `n`, without sign or leading zeros.
pub open spec fn decimal(n: nat) -> Seq<char>
    decreases n,
{
    if n < 10 {
        seq![digit(n)]
    } else {
        decimal(n / 10).push(digit(n % 10))
    }
}

/// The parts, with `sep` between each two neighbours.
pub open spec fn join(parts: Seq<Seq<char>>, sep: Seq<char>) -> Seq<char>
    decreases parts.len(),
{
    if parts.len() == 0 {
        Seq::empty()
    } else if parts.len() == 1 {
        parts[0]
    } else {
        join(parts.drop_last(), sep) + sep + parts.last()
    }
}

/// How often `c` occurs in `s`.
pub open spec fn count_char(s: Seq<char>, c: char) -> nat
    decreases s.len(),
{
    if s.len() == 0 {
        0
    } else {
        count_char(s.drop_last(), c) + if s.last() == c {
            1nat
        } else {
            0nat
        }
    }
}

/// The views of a list of strings.
pub open spec fn texts(parts: Seq<String>) -> Seq<Seq<char>> {
    parts.map_values(|p: String| p@)
}

/// The characters of `s`, one by one.
pub fn chars_of(s: &str) -> (out: Vec<char>)
    ensures
        out@ == s@,
{
    broadcast use vstd::string::group_string_axioms;

    let mut out: Vec<char> = Vec::new();
    for c in it: s.chars()
        invariant
            it.seq() == s@,
            out@ == s@.take(it.index() as int),
    {
        out.push(c);
        assert(s@.take(it.index() + 1) =~= s@.take(it.index() as int).push(c));
    }
    assert(s@.take(s@.len() as int) =~= s@);
    out
}

/// Appends the characters `chars[from..to]` to `out`.
pub(crate) fn push_range(out: &mut String, chars: &Vec<char>, from: usize, to: usize)
    requires
        from <= to <= chars.len(),
    ensures
        final(out)@ == old(out)@ + chars@.subrange(from as int, to as int),
{
    let mut i: usize = from;
    while i < to
        invariant
            from <= i <= to <= chars.len(),
            out@ == old(out)@ + chars@.subrange(from as int, i as int),
        decreases to - i,
    {
        out.push(chars[i]);
        assert(chars@.subrange(from as int, i + 1) =~= chars@.subrange(from as int, i as int).push(
            chars@[i as int],
        ));
        i += 1;
    }
}

/// What one character of a logical name becomes in a column name.
pub fn normalize_one(c: char) -> (out: char)
    ensures
        out == normalize_char(c),
        is_column_char(out),
{
    if c >= 'A' && c <= 'Z' {
        ((c as u8) + 32) as char
    } else if (c >= 'a' && c <= 'z') || (c >= '0' && c <= '9') {
        c
    } else {
        '_'
    }
}

/// Turns a logical field name into the text a column name is built from.
pub fn normalize_field_name(field: &str) -> (out: String)
    ensures
        out@ == normalize(field@),
{
    broadcast use vstd::string::group_string_axioms;

    let mut out = String::new();
    for c in it: field.chars()
        invariant
            it.seq() == field@,
            out@ == normalize(field@.take(it.index() as int)),
    {
        out.push(normalize_one(c));
        assert(field@.take(it.index() + 1) =~= field@.take(it.index() as int).push(c));
        assert(normalize(field@.take(it.index() as int).push(c)) =~= normalize(
            field@.take(it.index() as int),
        ).push(normalize_char(c)));
    }
    assert(field@.take(field@.len() as int) =~= field@);
    out
}

/// Whether `s` may be written into a statement as an identifier.
pub fn is_valid_identifier_text(s: &str) -> (ok: bool)
    ensures
        ok == is_valid_identifier(s@),
{
    let chars = chars_of(s);
    if chars.len() == 0 || chars.len() > MAX_IDENTIFIER_LEN {
        return false;
    }
    if chars[0] >= '0' && chars[0] <= '9' {
        return false;
    }
    let mut i: usize = 0;
    while i < chars.len()
        invariant
            i <= chars.len(),
            chars@ == s@,
            forall|j: int| 0 <= j < i ==> is_identifier_char(#[trigger] s@[j]),
        decreases chars.len() - i,
    {
        let c = chars[i];
        let ok = (c >= 'a' && c <= 'z') || (c >= 'A' && c <= 'Z') || (c >= '0' && c <= '9') || c
            == '_';
        if !ok {
            assert(!is_identifier_char(s@[i as int]));
            return false;
        }
        i += 1;
    }
    true
}

/// Appends the decimal notation of `n` to `out`.
pub fn push_decimal(out: &mut String, n: u64)
    ensures
        final(out)@ == old(out)@ + decimal(n as nat),
    decreases n,
{
    if n >= 10 {
        push_decimal(out, n / 10);
    }
    let d: u8 = (n % 10) as u8;
    out.push((48u8 + d) as char);
    assert(final(out)@ =~= old(out)@ + decimal(n as nat));
}

/// The parts, with `sep` between each two neighbours.
pub fn join_texts(parts: &Vec<String>, sep: &str) -> (out: String)
    ensures
        out@ == join(texts(parts@), sep@),
{
    let mut out = String::new();
    let mut i: usize = 0;
    while i < parts.len()
        invariant
            i <= parts.len(),
            out@ == join(texts(parts@.take(i as int)), sep@),
        decreases parts.len() - i,
    {
        proof {
            let before = texts(parts@.take(i as int));
            let after = texts(parts@.take(i + 1));
            assert(after =~= before.push(parts@[i as int]@));
            assert(after.drop_last() =~= before);
        }
        if i > 0 {
            out.append(sep);
        }
        out.append(parts[i].as_str());
        i += 1;
    }
    assert(parts@.take(parts@.len() as int) =~= parts@);
    out
}

/// What is cut from both ends of a text.
#[derive(Clone, Copy, PartialEq, Eq, Structural)]
pub enum Strip {
    /// Unicode whitespace.
    Whitespace,
    /// The double quote.
    Quotes,
}

impl Strip {
    /// The characters this value cuts.
    pub open spec fn cuts(self) -> spec_fn(char) -> bool {
        match self {
            Strip::Whitespace => |c: char| is_whitespace(c),
            Strip::Quotes => |c: char| c == '"',
        }
    }

    /// Whether `c` is one of the characters this value cuts.
    pub fn cuts_char(self, c: char) -> (hit: bool)
        ensures
            hit == (self.cuts())(c),
    {
        match self {
            Strip::Whitespace => {
                let n: u32 = c as u32;
                (0x09 <= n && n <= 0x0D) || n == 0x20 || n == 0x85 || n == 0xA0 || n == 0x1680 || (
                0x2000 <= n && n <= 0x200A) || n == 0x2028 || n == 0x2029 || n == 0x202F || n
                    == 0x205F || n == 0x3000
            },
            Strip::Quotes => c == '"',
        }
    }
}

/// Counting from the left stops at the first character that `strip` rejects.
pub proof fn lemma_leading(s: Seq<char>, strip: spec_fn(char) -> bool, k: int)
    requires
        0 <= k <= s.len(),
        forall|j: int| 0 <= j < k ==> strip(#[trigger] s[j]),
        k < s.len() ==> !strip(s[k]),
    ensures
        leading(s, strip) == k,
    decreases k,
{
    if k > 0 {
        let rest = s.drop_first();
        assert forall|j: int| 0 <= j < k - 1 implies strip(#[trigger] rest[j]) by {
            assert(rest[j] == s[j + 1]);
        }
        lemma_leading(rest, strip, k - 1);
    }
}

/// Counting from the right stops at the last character that `strip` rejects.
pub proof fn lemma_trailing(s: Seq<char>, strip: spec_fn(char) -> bool, k: int)
    requires
        0 <= k <= s.len(),
        forall|j: int| s.len() - k <= j < s.len() ==> strip(#[trigger] s[j]),
        k < s.len() ==> !strip(s[s.len() - k - 1]),
    ensures
        trailing(s, strip) == k,
    decreases k,
{
    if k > 0 {
        let rest = s.drop_last();
        assert forall|j: int| rest.len() - (k - 1) <= j < rest.len() implies strip(
            #[trigger] rest[j],
        ) by {
            assert(rest[j] == s[j]);
        }
        lemma_trailing(rest, strip, k - 1);
    }
}

/// The bounds of `chars[from..to]` once `what` is cut from both its ends.
pub(crate) fn strip_range(chars: &Vec<char>, from: usize, to: usize, what: Strip) -> (bounds: (
    usize,
    usize,
))
    requires
        from <= to <= chars.len(),
    ensures
        from <= bounds.0 <= bounds.1 <= to,
        chars@.subrange(bounds.0 as int, bounds.1 as int) == strip_both(
            chars@.subrange(from as int, to as int),
            what.cuts(),
        ),
{
    let ghost s = chars@.subrange(from as int, to as int);
    let mut a: usize = from;
    while a < to && what.cuts_char(chars[a])
        invariant
            from <= a <= to <= chars.len(),
            forall|j: int| from <= j < a ==> (what.cuts())(#[trigger] chars@[j]),
        decreases to - a,
    {
        a += 1;
    }
    let mut b: usize = to;
    while b > a && what.cuts_char(chars[b - 1])
        invariant
            a <= b <= to <= chars.len(),
            forall|j: int| b <= j < to ==> (what.cuts())(#[trigger] chars@[j]),
        decreases b - a,
    {
        b -= 1;
    }
    proof {
        assert forall|j: int| 0 <= j < a - from implies (what.cuts())(#[trigger] s[j]) by {
            assert(s[j] == chars@[from + j]);
        }
        lemma_leading(s, what.cuts(), a - from);
        let rest = s.skip(a - from);
        assert(rest =~= chars@.subrange(a as int, to as int));
        assert forall|j: int| rest.len() - (to - b) <= j < rest.len() implies (what.cuts())(
            #[trigger] rest[j],
        ) by {
            assert(rest[j] == chars@[a + j]);
        }
        if b > a {
            assert(rest[rest.len() - (to - b) - 1] == chars@[b - 1]);
        }
        lemma_trailing(rest, what.cuts(), to - b);
        assert(rest.take(rest.len() - (to - b)) =~= chars@.subrange(a as int, b as int));
    }
    (a, b)
}

/// Counts the occurrences of `c` in `chars` and finds the first of them.
pub fn scan_for(chars: &Vec<char>, c: char) -> (found: (usize, usize))
    ensures
        found.0 == count_char(chars@, c),
        found.1 == position(chars@, c),
        found.1 <= chars.len(),
        found.0 > 0 <==> found.1 < chars.len(),
{
    let mut count: usize = 0;
    let mut first: usize = chars.len();
    let mut i: usize = 0;
    while i < chars.len()
        invariant
            i <= chars.len(),
            count <= i,
            count == count_char(chars@.take(i as int), c),
            count == 0 ==> first == chars.len(),
            count > 0 ==> first < i && chars@[first as int] == c,
            forall|j: int| 0 <= j < i && j < first ==> chars@[j] != c,
        decreases chars.len() - i,
    {
        proof {
            assert(chars@.take(i + 1).drop_last() =~= chars@.take(i as int));
        }
        if chars[i] == c {
            if count == 0 {
                first = i;
            }
            count += 1;
        }
        i += 1;
    }
    proof {
        assert(chars@.take(chars@.len() as int) =~= chars@);
        assert forall|j: int| 0 <= j < first implies (other_than(c))(#[trigger] chars@[j]) by {}
        lemma_leading(chars@, other_than(c), first as int);
    }
    (count, first)
}

/// What `f` makes of an element of `s` is among the results of
/// `s.filter_map(f)`.
pub proof fn lemma_filter_map_keeps<A, B>(s: Seq<A>, f: spec_fn(A) -> Option<B>, i: int)
    requires
        0 <= i < s.len(),
        f(s[i]) is Some,
    ensures
        s.filter_map(f).contains(f(s[i])->0),
    decreases s.len(),
{
    let rest = s.drop_last();
    let kept = rest.filter_map(f);
    if i == s.len() - 1 {
        let all = s.filter_map(f);
        assert(all == kept + seq![f(s[i])->0]);
        assert(all[all.len() - 1] == f(s[i])->0);
    } else {
        lemma_filter_map_keeps(rest, f, i);
        let at = choose|at: int| 0 <= at < kept.len() && kept[at] == f(s[i])->0;
        assert(s.filter_map(f)[at] == f(s[i])->0);
    }
}

/// A normalized name stays as it is when it is normalized again, and has
/// the length of the name it was made from.
pub proof fn lemma_normalize_settles(name: Seq<char>)
    ensures
        normalize(name).len() == name.len(),
        normalize(normalize(name)) == normalize(name),
        forall|i: int| 0 <= i < name.len() ==> is_column_char(#[trigger] normalize(name)[i]),
{
    assert(normalize(normalize(name)) =~= normalize(name));
}

} // verus!
