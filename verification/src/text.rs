//! Text primitives shared by the whole library.
//!
//! A string is modelled by its sequence of characters: every contract speaks
//! of `s@`, a `Seq<char>`.

use vstd::prelude::*;

verus! {

/// `String::push` appends one character at the end.
pub assume_specification[ String::push ](s: &mut String, ch: char)
    ensures
        final(s)@ == old(s)@.push(ch),
;

/// The characters of `s`, in order.
pub fn chars_of(s: &str) -> (r: Vec<char>)
    ensures
        r@ == s@,
{
    let mut out: Vec<char> = Vec::new();
    for c in it: s.chars()
        invariant
            out@ == it.seq().take(it.index()),
            it.seq() == s@,
    {
        out.push(c);
    }
    out
}

/// The string made of `chars`.
pub fn string_of(chars: &[char]) -> (r: String)
    ensures
        r@ == chars@,
{
    let mut out = String::new();
    let mut i: usize = 0;
    while i < chars.len()
        invariant
            i <= chars.len(),
            out@ == chars@.take(i as int),
        decreases chars.len() - i,
    {
        out.push(chars[i]);
        i += 1;
    }
    assert(chars@.take(i as int) == chars@);
    out
}

/// Whether two strings hold the same characters.
pub fn same_text(a: &str, b: &str) -> (r: bool)
    ensures
        r == (a@ == b@),
{
    a.to_owned() == b.to_owned()
}

/// `a` followed by `b`.
pub fn concat2(a: &str, b: &str) -> (r: String)
    ensures
        r@ == a@ + b@,
{
    let mut out = a.to_owned();
    out.append(b);
    out
}

/// `a`, `b` and `c` one after the other.
pub fn concat3(a: &str, b: &str, c: &str) -> (r: String)
    ensures
        r@ == a@ + b@ + c@,
{
    let mut out = a.to_owned();
    out.append(b);
    out.append(c);
    out
}

/// `a`, `b`, `c` and `d` one after the other.
pub fn concat4(a: &str, b: &str, c: &str, d: &str) -> (r: String)
    ensures
        r@ == a@ + b@ + c@ + d@,
{
    let mut out = concat3(a, b, c);
    out.append(d);
    out
}

// ── Debug form ───────────────────────────────────────────────────────────────

/// The debug form of a string: its characters in double quotes, escaped.
pub uninterp spec fn debug_text(s: Seq<char>) -> Seq<char>;

/// The debug form of a string, as `std::fmt::Debug` for `str` writes it.
///
/// The contract only claims that the output is determined by the characters.
#[verifier::external_body]
pub(crate) fn debug_quoted(s: &str) -> (r: String)
    ensures
        r@ == debug_text(s@),
{
    format!("{:?}", s)
}

// ── Trimming ─────────────────────────────────────────────────────────────────

/// Whether a character has the Unicode property `White_Space`.
pub open spec fn is_white_space(c: char) -> bool {
    let n = c as u32;
    ||| 0x9 <= n <= 0xD
    ||| n == 0x20
    ||| n == 0x85
    ||| n == 0xA0
    ||| n == 0x1680
    ||| 0x2000 <= n <= 0x200A
    ||| n == 0x2028
    ||| n == 0x2029
    ||| n == 0x202F
    ||| n == 0x205F
    ||| n == 0x3000
}

/// `s` without the white space at its beginning.
pub open spec fn trimmed_start(s: Seq<char>) -> Seq<char>
    decreases s.len(),
{
    if s.len() > 0 && is_white_space(s[0]) {
        trimmed_start(s.drop_first())
    } else {
        s
    }
}

/// `s` without the white space at its end.
pub open spec fn trimmed_end(s: Seq<char>) -> Seq<char>
    decreases s.len(),
{
    if s.len() > 0 && is_white_space(s.last()) {
        trimmed_end(s.drop_last())
    } else {
        s
    }
}

/// `s` without the white space at both ends.
pub open spec fn trimmed(s: Seq<char>) -> Seq<char> {
    trimmed_end(trimmed_start(s))
}

fn white_space(c: char) -> (r: bool)
    ensures
        r == is_white_space(c),
{
    let n: u32 = c as u32;
    (0x9 <= n && n <= 0xD) || n == 0x20 || n == 0x85 || n == 0xA0 || n == 0x1680 || (0x2000 <= n
        && n <= 0x200A) || n == 0x2028 || n == 0x2029 || n == 0x202F || n == 0x205F || n == 0x3000
}

/// The characters of `s` without the white space at both ends.
pub fn trim_chars(s: &str) -> (r: Vec<char>)
    ensures
        r@ == trimmed(s@),
{
    let all = chars_of(s);
    let mut from: usize = 0;
    assert(all@.skip(0) == all@);
    while from < all.len() && white_space(all[from])
        invariant
            from <= all.len(),
            trimmed_start(all@.skip(from as int)) == trimmed_start(all@),
        decreases all.len() - from,
    {
        assert(all@.skip(from as int).drop_first() == all@.skip(from + 1));
        from += 1;
    }
    let mut to: usize = all.len();
    assert(all@.subrange(from as int, to as int) == all@.skip(from as int));
    while to > from && white_space(all[to - 1])
        invariant
            from <= to <= all.len(),
            trimmed_end(all@.subrange(from as int, to as int)) == trimmed(all@),
        decreases to,
    {
        assert(all@.subrange(from as int, to as int).drop_last() == all@.subrange(
            from as int,
            to - 1,
        ));
        to -= 1;
    }
    let mut out: Vec<char> = Vec::new();
    let mut i: usize = from;
    while i < to
        invariant
            from <= i <= to <= all.len(),
            out@ == all@.subrange(from as int, i as int),
        decreases to - i,
    {
        out.push(all[i]);
        i += 1;
    }
    out
}

// ── Numbers ──────────────────────────────────────────────────────────────────

/// The character of a decimal digit.
pub open spec fn digit_char(d: int) -> char {
    (48 + d) as char
}

/// The decimal digits of a natural number.
pub open spec fn nat_text(n: nat) -> Seq<char>
    decreases n,
{
    if n < 10 {
        seq![digit_char(n as int)]
    } else {
        nat_text(n / 10).push(digit_char((n % 10) as int))
    }
}

/// The decimal form of an integer.
pub open spec fn int_text(n: int) -> Seq<char> {
    if n < 0 {
        seq!['-'] + nat_text((-n) as nat)
    } else {
        nat_text(n as nat)
    }
}

fn push_nat(out: &mut String, n: u64)
    ensures
        final(out)@ == old(out)@ + nat_text(n as nat),
    decreases n,
{
    let d: u8 = (n % 10) as u8;
    let c: char = (48u8 + d) as char;
    if n >= 10 {
        push_nat(out, n / 10);
    }
    out.push(c);
    assert(c == digit_char((n % 10) as int));
    assert(final(out)@ == old(out)@ + nat_text(n as nat));
}

/// The decimal form of `n`.
pub fn int_to_string(n: i64) -> (r: String)
    ensures
        r@ == int_text(n as int),
{
    let mut out = String::new();
    if n < 0 {
        out.push('-');
        let m: u64 = (-(n as i128)) as u64;
        push_nat(&mut out, m);
        assert(out@ == int_text(n as int));
    } else {
        push_nat(&mut out, n as u64);
        assert(out@ == int_text(n as int));
    }
    out
}

/// A text without white space at its ends is trimmed already.
pub(crate) proof fn lemma_trimmed_is_kept(s: Seq<char>)
    requires
        s.len() > 0,
        !is_white_space(s[0]),
        !is_white_space(s.last()),
    ensures
        trimmed(s) == s,
{
}

// ── Lists ────────────────────────────────────────────────────────────────────

/// The strings of a list.
pub open spec fn texts(v: Seq<String>) -> Seq<Seq<char>> {
    v.map_values(|s: String| s@)
}

/// The parts one after the other, with a separator between them.
pub open spec fn joined(parts: Seq<Seq<char>>, sep: Seq<char>) -> Seq<char>
    decreases parts.len(),
{
    if parts.len() == 0 {
        Seq::empty()
    } else if parts.len() == 1 {
        parts[0]
    } else {
        joined(parts.drop_last(), sep) + sep + parts.last()
    }
}

/// The strings of a list, with a separator between them.
pub fn join(parts: &Vec<String>, sep: &str) -> (r: String)
    ensures
        r@ == joined(texts(parts@), sep@),
{
    let mut out = String::new();
    let mut i: usize = 0;
    while i < parts.len()
        invariant
            i <= parts.len(),
            out@ == joined(texts(parts@).take(i as int), sep@),
        decreases parts.len() - i,
    {
        if i > 0 {
            out.append(sep);
        }
        out.append(parts[i].as_str());
        proof {
            let all = texts(parts@);
            assert(all.take(i + 1).drop_last() == all.take(i as int));
            assert(all.take(i + 1).last() == parts@[i as int]@);
            assert(out@ == joined(all.take(i + 1), sep@));
        }
        i += 1;
    }
    assert(texts(parts@).take(i as int) == texts(parts@));
    out
}

// ── Order ────────────────────────────────────────────────────────────────────

/// Whether `a` comes before `b` in the order of their code points.
pub open spec fn text_less(a: Seq<char>, b: Seq<char>) -> bool
    decreases a.len(),
{
    if b.len() == 0 {
        false
    } else if a.len() == 0 {
        true
    } else if a[0] != b[0] {
        (a[0] as int) < (b[0] as int)
    } else {
        text_less(a.drop_first(), b.drop_first())
    }
}

/// Whether `a` comes before `b`.
pub fn comes_before(a: &str, b: &str) -> (r: bool)
    ensures
        r == text_less(a@, b@),
{
    let x = chars_of(a);
    let y = chars_of(b);
    let mut i: usize = 0;
    assert(x@.skip(0) == x@ && y@.skip(0) == y@);
    while i < x.len() && i < y.len() && x[i] == y[i]
        invariant
            i <= x.len(),
            i <= y.len(),
            text_less(x@, y@) == text_less(x@.skip(i as int), y@.skip(i as int)),
        decreases x.len() - i,
    {
        assert(x@.skip(i as int).drop_first() == x@.skip(i + 1));
        assert(y@.skip(i as int).drop_first() == y@.skip(i + 1));
        i += 1;
    }
    if i >= y.len() {
        false
    } else if i >= x.len() {
        true
    } else {
        let c: char = x[i];
        let d: char = y[i];
        c < d
    }
}

/// No string comes before itself.
pub proof fn lemma_text_less_irreflexive(a: Seq<char>)
    ensures
        !text_less(a, a),
    decreases a.len(),
{
    if a.len() > 0 {
        lemma_text_less_irreflexive(a.drop_first());
    }
}

/// The order of strings is transitive.
pub proof fn lemma_text_less_transitive(a: Seq<char>, b: Seq<char>, c: Seq<char>)
    requires
        text_less(a, b),
        text_less(b, c),
    ensures
        text_less(a, c),
    decreases a.len(),
{
    if a.len() > 0 && a[0] == b[0] && b[0] == c[0] {
        lemma_text_less_transitive(a.drop_first(), b.drop_first(), c.drop_first());
    }
}

/// Of two different strings one comes before the other.
pub proof fn lemma_text_less_total(a: Seq<char>, b: Seq<char>)
    requires
        a != b,
    ensures
        text_less(a, b) || text_less(b, a),
    decreases a.len(),
{
    if a.len() > 0 && b.len() > 0 {
        if a[0] == b[0] {
            if a.drop_first() == b.drop_first() {
                assert(a == seq![a[0]] + a.drop_first());
                assert(b == seq![b[0]] + b.drop_first());
            }
            lemma_text_less_total(a.drop_first(), b.drop_first());
        }
    } else {
        assert(a.len() > 0 || b.len() > 0) by {
            if a.len() == 0 && b.len() == 0 {
                assert(a =~= b);
            }
        }
    }
}

// ── What the operations are for ──────────────────────────────────────────────

/// Whether all characters of a text are white space.
pub open spec fn is_blank(s: Seq<char>) -> bool {
    forall|i: int| 0 <= i < s.len() ==> is_white_space(#[trigger] s[i])
}

proof fn lemma_cut_at_the_start(s: Seq<char>) -> (front: Seq<char>)
    ensures
        s == front + trimmed_start(s),
        is_blank(front),
        trimmed_start(s).len() > 0 ==> !is_white_space(trimmed_start(s)[0]),
    decreases s.len(),
{
    if s.len() > 0 && is_white_space(s[0]) {
        let f = lemma_cut_at_the_start(s.drop_first());
        let front = seq![s[0]] + f;
        assert(s =~= seq![s[0]] + s.drop_first());
        assert(seq![s[0]] + (f + trimmed_start(s)) =~= front + trimmed_start(s));
        front
    } else {
        assert(s =~= Seq::<char>::empty() + s);
        Seq::empty()
    }
}

proof fn lemma_cut_at_the_end(s: Seq<char>) -> (back: Seq<char>)
    ensures
        s == trimmed_end(s) + back,
        is_blank(back),
        trimmed_end(s).len() > 0 ==> !is_white_space(trimmed_end(s).last()),
    decreases s.len(),
{
    if s.len() > 0 && is_white_space(s.last()) {
        let b = lemma_cut_at_the_end(s.drop_last());
        let back = b.push(s.last());
        assert(s =~= s.drop_last().push(s.last()));
        assert((trimmed_end(s) + b).push(s.last()) =~= trimmed_end(s) + back);
        back
    } else {
        assert(s =~= s + Seq::<char>::empty());
        Seq::empty()
    }
}

/// Trimming takes away nothing but white space, only at the ends, and all of it.
pub proof fn law_trimming_takes_the_white_space_around(s: &str, r: Vec<char>)
    requires
        call_ensures(trim_chars, (s,), r),
    ensures
        exists|a: Seq<char>, b: Seq<char>|
            s@ == #[trigger] (a + r@ + b) && is_blank(a) && is_blank(b),
        r@.len() > 0 ==> !is_white_space(r@[0]) && !is_white_space(r@.last()),
{
    let a = lemma_cut_at_the_start(s@);
    let t = trimmed_start(s@);
    let b = lemma_cut_at_the_end(t);
    assert(s@ =~= a + r@ + b);
    if r@.len() > 0 {
        assert(r@[0] == t[0]);
    }
}

/// The number that decimal digits stand for.
pub open spec fn number_read(s: Seq<char>) -> int
    decreases s.len(),
{
    if s.len() == 0 {
        0
    } else {
        10 * number_read(s.drop_last()) + (s.last() as int - '0' as int)
    }
}

proof fn lemma_nat_text_is_read_back(n: nat)
    ensures
        nat_text(n).len() > 0,
        number_read(nat_text(n)) == n,
        forall|i: int| 0 <= i < nat_text(n).len() ==> '0' <= #[trigger] nat_text(n)[i] <= '9',
        n > 0 ==> nat_text(n)[0] != '0',
        n == 0 ==> nat_text(n).len() == 1,
    decreases n,
{
    if n < 10 {
        let s = nat_text(n);
        assert(s.drop_last() =~= Seq::empty());
        reveal_with_fuel(number_read, 2);
    } else {
        lemma_nat_text_is_read_back(n / 10);
        assert(nat_text(n).drop_last() =~= nat_text(n / 10));
    }
}

/// A number is written in decimal digits that stand for it, without zeros in front and
/// with a sign where it is negative.
pub proof fn law_numbers_are_written_in_digits(n: i64, r: String)
    requires
        call_ensures(int_to_string, (n,), r),
    ensures
        n >= 0 ==> {
            &&& r@.len() > 0
            &&& number_read(r@) == n
            &&& forall|i: int| 0 <= i < r@.len() ==> '0' <= #[trigger] r@[i] <= '9'
            &&& r@[0] == '0' ==> n == 0 && r@.len() == 1
        },
        n < 0 ==> {
            &&& r@.len() > 1
            &&& r@[0] == '-'
            &&& number_read(r@.skip(1)) == -n
            &&& forall|i: int| 1 <= i < r@.len() ==> '0' <= #[trigger] r@[i] <= '9'
            &&& r@[1] != '0'
        },
{
    if n < 0 {
        let m = (-n) as nat;
        lemma_nat_text_is_read_back(m);
        assert(r@.skip(1) =~= nat_text(m));
        assert forall|i: int| 1 <= i < r@.len() implies '0' <= #[trigger] r@[i] <= '9' by {
            assert(r@[i] == nat_text(m)[i - 1]);
        }
    } else {
        lemma_nat_text_is_read_back(n as nat);
    }
}

/// One more part of a list comes last, behind the separator; the first one stands alone,
/// and no parts come to nothing.
pub proof fn law_parts_are_joined_in_order(
    parts: &Vec<String>,
    more: &Vec<String>,
    sep: &str,
    r: String,
    longer: String,
)
    requires
        call_ensures(join, (parts, sep), r),
        call_ensures(join, (more, sep), longer),
        more@.len() == parts@.len() + 1,
        more@.drop_last() == parts@,
    ensures
        parts@.len() == 0 ==> r@.len() == 0 && longer@ == more@[0]@,
        parts@.len() > 0 ==> longer@ == r@ + sep@ + more@.last()@,
{
    let all = texts(more@);
    assert(all.drop_last() =~= texts(parts@));
    assert(all.last() == more@.last()@);
    if parts@.len() == 0 {
        assert(all[0] == more@[0]@);
    }
}

/// One text comes before another exactly if it goes on into it, or if at the first place
/// where they differ its character is the smaller one.
pub proof fn law_texts_are_ordered_by_the_first_difference(
    a: &str,
    b: &str,
    r: bool,
    common: Seq<char>,
    x: Seq<char>,
    y: Seq<char>,
)
    requires
        call_ensures(comes_before, (a, b), r),
        a@ == common + x,
        b@ == common + y,
        x.len() > 0 && y.len() > 0 ==> x[0] != y[0],
    ensures
        x.len() == 0 ==> r == (y.len() > 0),
        x.len() > 0 && y.len() == 0 ==> !r,
        x.len() > 0 && y.len() > 0 ==> r == ((x[0] as int) < (y[0] as int)),
{
    lemma_common_front_is_passed(common, x, y);
}

proof fn lemma_common_front_is_passed(common: Seq<char>, x: Seq<char>, y: Seq<char>)
    ensures
        text_less(common + x, common + y) == text_less(x, y),
    decreases common.len(),
{
    if common.len() == 0 {
        assert(common + x =~= x);
        assert(common + y =~= y);
    } else {
        lemma_common_front_is_passed(common.drop_first(), x, y);
        assert((common + x).drop_first() =~= common.drop_first() + x);
        assert((common + y).drop_first() =~= common.drop_first() + y);
    }
}

/// A text of one character is trimmed to nothing exactly if that character is a space, a
/// control character for lines, columns or pages, or one of the other blanks of Unicode.
pub proof fn law_blanks_are_trimmed(s: &str, r: Vec<char>)
    requires
        call_ensures(trim_chars, (s,), r),
        s@.len() == 1,
    ensures
        ({
            let n = s@[0] as u32;
            r@.len() == 0 <==> n == 9 || n == 10 || n == 11 || n == 12 || n == 13 || n == 32 || n
                == 133 || n == 160 || n == 5760 || (8191 < n && n < 8203) || n == 8232 || n == 8233
                || n == 8239 || n == 8287 || n == 12288
        }),
{
    reveal_with_fuel(trimmed_start, 2);
    reveal_with_fuel(trimmed_end, 2);
    if is_white_space(s@[0]) {
        assert(s@.drop_first() =~= Seq::<char>::empty());
        assert(trimmed_start(s@) =~= Seq::<char>::empty());
    } else {
        assert(trimmed_start(s@) == s@);
        assert(s@.last() == s@[0]);
    }
}

} // verus!
