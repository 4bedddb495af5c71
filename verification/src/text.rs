//! Text: decimal numbers, words of a line, joined lists.

use vstd::prelude::*;

verus! {

/// The decimal digit `d`.
pub open spec fn digit(d: int) -> char {
    (('0' as int) + d) as char
}

/// `n` in decimal, without leading zeros.
pub open spec fn decimal(n: nat) -> Seq<char>
    decreases n,
{
    if n < 10 {
        seq![digit(n as int)]
    } else {
        decimal(n / 10).push(digit((n % 10) as int))
    }
}

/// `i` in decimal, with a minus sign when it is negative.
pub open spec fn integer(i: int) -> Seq<char> {
    if i < 0 {
        "-"@ + decimal((-i) as nat)
    } else {
        decimal(i as nat)
    }
}

/// The number that a run of decimal digits stands for, nothing for other text.
pub open spec fn digits_value(s: Seq<char>) -> Option<nat>
    decreases s.len(),
{
    if s.len() == 0 {
        Some(0)
    } else {
        match digits_value(s.drop_last()) {
            Some(n) if '0' <= s.last() <= '9' => Some((n * 10 + (s.last() as int - '0' as int)) as nat),
            _ => None,
        }
    }
}

/// The number that unsigned decimal text stands for: an optional plus sign and
/// at least one digit.
pub open spec fn unsigned_value(s: Seq<char>) -> Option<nat> {
    let digits = if s.len() > 0 && s[0] == '+' {
        s.skip(1)
    } else {
        s
    };
    if digits.len() == 0 {
        None
    } else {
        digits_value(digits)
    }
}

/// The characters with the Unicode property White_Space.
pub open spec fn is_space(c: char) -> bool {
    ||| '\u{9}' <= c <= '\u{d}'
    ||| c == '\u{20}'
    ||| c == '\u{85}'
    ||| c == '\u{a0}'
    ||| c == '\u{1680}'
    ||| '\u{2000}' <= c <= '\u{200a}'
    ||| c == '\u{2028}'
    ||| c == '\u{2029}'
    ||| c == '\u{202f}'
    ||| c == '\u{205f}'
    ||| c == '\u{3000}'
}

/// The words of a line: its longest runs of characters other than white
/// space, in order. Each such character starts a word when white space or
/// nothing stands before it, and extends the last word otherwise.
pub open spec fn words(s: Seq<char>) -> Seq<Seq<char>>
    decreases s.len(),
{
    if s.len() == 0 {
        Seq::empty()
    } else {
        let before = words(s.drop_last());
        if is_space(s.last()) {
            before
        } else if s.len() == 1 || is_space(s[s.len() - 2]) {
            before.push(seq![s.last()])
        } else {
            before.drop_last().push(before.last().push(s.last()))
        }
    }
}

/// `s` without the white space at its two ends.
pub open spec fn trimmed(s: Seq<char>) -> Seq<char>
    decreases s.len(),
{
    if s.len() == 0 {
        s
    } else if is_space(s[0]) {
        trimmed(s.skip(1))
    } else if is_space(s.last()) {
        trimmed(s.drop_last())
    } else {
        s
    }
}

/// The texts one after another, `sep` between neighbours.
pub open spec fn joined(parts: Seq<Seq<char>>, sep: Seq<char>) -> Seq<char>
    decreases parts.len(),
{
    if parts.len() == 0 {
        Seq::empty()
    } else if parts.len() == 1 {
        parts[0]
    } else {
        joined(parts.drop_last(), sep) + sep + parts.last()
    }
}

/// What the texts of a list hold.
pub open spec fn contents(list: Seq<String>) -> Seq<Seq<char>> {
    list.map_values(|s: String| s@)
}

/// Whether two texts hold the same characters.
pub fn same_text(a: &str, b: &str) -> (r: bool)
    ensures
        r == (a@ == b@),
{
    a.to_owned() == b.to_owned()
}

/// Two texts, one behind the other.
pub fn concat2(a: &str, b: &str) -> (r: String)
    ensures
        r@ == a@ + b@,
{
    let mut s = a.to_owned();
    s.append(b);
    s
}

/// Three texts, one behind the other.
pub fn concat3(a: &str, b: &str, c: &str) -> (r: String)
    ensures
        r@ == a@ + b@ + c@,
{
    let mut s = a.to_owned();
    s.append(b);
    s.append(c);
    s
}

fn digit_text(d: u64) -> (r: &'static str)
    requires
        d < 10,
    ensures
        r@ == seq![digit(d as int)],
{
    proof {
        reveal_strlit("0");
        reveal_strlit("1");
        reveal_strlit("2");
        reveal_strlit("3");
        reveal_strlit("4");
        reveal_strlit("5");
        reveal_strlit("6");
        reveal_strlit("7");
        reveal_strlit("8");
        reveal_strlit("9");
    }
    if d == 0 {
        "0"
    } else if d == 1 {
        "1"
    } else if d == 2 {
        "2"
    } else if d == 3 {
        "3"
    } else if d == 4 {
        "4"
    } else if d == 5 {
        "5"
    } else if d == 6 {
        "6"
    } else if d == 7 {
        "7"
    } else if d == 8 {
        "8"
    } else {
        "9"
    }
}

/// `n` in decimal.
pub fn decimal_text(n: u64) -> (r: String)
    ensures
        r@ == decimal(n as nat),
    decreases n,
{
    if n < 10 {
        digit_text(n).to_owned()
    } else {
        let mut s = decimal_text(n / 10);
        s.append(digit_text(n % 10));
        assert(s@ =~= decimal(n as nat));
        s
    }
}

/// `i` in decimal, with a minus sign when it is negative.
pub fn integer_text(i: i32) -> (r: String)
    ensures
        r@ == integer(i as int),
{
    if i < 0 {
        let n: i64 = -(i as i64);
        concat2("-", decimal_text(n as u64).as_str())
    } else {
        decimal_text(i as u64)
    }
}

/// The characters of a text.
pub fn characters(s: &str) -> (r: Vec<char>)
    ensures
        r@ == s@,
{
    let mut out: Vec<char> = Vec::new();
    for c in it: s.chars()
        invariant
            out@ == it.seq().take(it.index() as int),
            it.seq() == s@,
    {
        out.push(c);
    }
    out
}

/// Whether a character is white space.
pub fn space(c: char) -> (r: bool)
    ensures
        r == is_space(c),
{
    ('\u{9}' <= c && c <= '\u{d}') || c == '\u{20}' || c == '\u{85}' || c == '\u{a0}' || c
        == '\u{1680}' || ('\u{2000}' <= c && c <= '\u{200a}') || c == '\u{2028}' || c == '\u{2029}'
        || c == '\u{202f}' || c == '\u{205f}' || c == '\u{3000}'
}

/// The words of a line, in order.
pub fn split_words(line: &str) -> (r: Vec<String>)
    ensures
        contents(r@) == words(line@),
{
    let chars = characters(line);
    let n: usize = chars.len();
    let mut out: Vec<String> = Vec::new();
    let mut start: usize = 0;
    let mut i: usize = 0;
    while i < n
        invariant
            chars@ == line@,
            n == line@.len(),
            start <= i <= n,
            forall|k: int| start <= k < i ==> !is_space(#[trigger] line@[k]),
            start > 0 ==> is_space(line@[start - 1]),
            start < i ==> words(line@.take(i as int)) == contents(out@).push(
                line@.subrange(start as int, i as int),
            ),
            start == i ==> words(line@.take(i as int)) == contents(out@),
        decreases n - i,
    {
        let ghost s = line@.take(i + 1);
        assert(s.drop_last() =~= line@.take(i as int));
        assert(s.last() == line@[i as int]);
        if space(chars[i]) {
            if start < i {
                let word = line.substring_char(start, i).to_owned();
                let ghost before = out@;
                out.push(word);
                assert(contents(out@) =~= contents(before).push(word@));
            }
            start = i + 1;
        } else {
            let ghost before = words(line@.take(i as int));
            if start < i {
                assert(s[s.len() - 2] == line@[i - 1]);
                assert(before.last().push(s.last()) =~= line@.subrange(start as int, i + 1));
                assert(before.drop_last() =~= contents(out@));
            } else {
                if i > 0 {
                    assert(s[s.len() - 2] == line@[i - 1]);
                }
                assert(seq![s.last()] =~= line@.subrange(start as int, i + 1));
            }
        }
        i = i + 1;
    }
    assert(line@.take(n as int) =~= line@);
    if start < n {
        let word = line.substring_char(start, n).to_owned();
        let ghost before = out@;
        out.push(word);
        assert(contents(out@) =~= contents(before).push(word@));
    }
    out
}

/// A line without the white space at its two ends.
pub fn trim(line: &str) -> (r: String)
    ensures
        r@ == trimmed(line@),
{
    let chars = characters(line);
    let mut from: usize = 0;
    let mut to: usize = chars.len();
    assert(line@.subrange(0, to as int) =~= line@);
    while from < to && space(chars[from])
        invariant
            chars@ == line@,
            from <= to == line@.len(),
            trimmed(line@) == trimmed(line@.subrange(from as int, to as int)),
        decreases to - from,
    {
        assert(line@.subrange(from as int, to as int).skip(1) =~= line@.subrange(
            from + 1,
            to as int,
        ));
        from = from + 1;
    }
    while from < to && space(chars[to - 1])
        invariant
            chars@ == line@,
            from <= to <= line@.len(),
            from < to ==> !is_space(line@[from as int]),
            trimmed(line@) == trimmed(line@.subrange(from as int, to as int)),
        decreases to - from,
    {
        assert(line@.subrange(from as int, to as int).drop_last() =~= line@.subrange(
            from as int,
            to - 1,
        ));
        to = to - 1;
    }
    line.substring_char(from, to).to_owned()
}

/// The texts one after another, `sep` between neighbours.
pub fn join(parts: &Vec<String>, sep: &str) -> (r: String)
    ensures
        r@ == joined(contents(parts@), sep@),
{
    let mut out = String::new();
    let n: usize = parts.len();
    let mut i: usize = 0;
    while i < n
        invariant
            i <= n == parts@.len(),
            out@ == joined(contents(parts@).take(i as int), sep@),
        decreases n - i,
    {
        let ghost now = contents(parts@).take(i + 1);
        assert(now.drop_last() =~= contents(parts@).take(i as int));
        assert(now.last() == parts@[i as int]@);
        if i > 0 {
            out.append(sep);
        }
        out.append(parts[i].as_str());
        i = i + 1;
        assert(out@ =~= joined(now, sep@));
    }
    assert(contents(parts@).take(n as int) =~= contents(parts@));
    out
}

/// The number that unsigned decimal text stands for, when it is at most
/// `limit`.
pub fn parse_unsigned(s: &str, limit: u64) -> (r: Option<u64>)
    requires
        limit <= 0xffff_ffff,
    ensures
        r == match unsigned_value(s@) {
            Some(n) if n <= limit => Some(n as u64),
            _ => None,
        },
{
    let chars = characters(s);
    let n: usize = chars.len();
    let first: usize = if n > 0 && chars[0] == '+' {
        1
    } else {
        0
    };
    if first == n {
        assert(s@.skip(first as int).len() == 0);
        return None;
    }
    let ghost digits = s@.skip(first as int);
    assert(first == 0 ==> digits =~= s@);
    let mut value: u64 = 0;
    let mut i: usize = first;
    assert(digits.take(0) =~= Seq::<char>::empty());
    while i < n
        invariant
            chars@ == s@,
            first <= i <= n == s@.len(),
            first < n,
            limit <= 0xffff_ffff,
            value <= limit,
            digits == s@.skip(first as int),
            unsigned_value(s@) == digits_value(digits),
            digits_value(digits.take(i - first)) == Some(value as nat),
        decreases n - i,
    {
        let c = chars[i];
        let ghost now = digits.take(i + 1 - first);
        assert(now.drop_last() =~= digits.take(i - first));
        assert(now.last() == c);
        if c < '0' || c > '9' {
            proof {
                lemma_digits_prefix(digits, i + 1 - first);
            }
            return None;
        }
        value = value * 10 + (c as u64 - '0' as u64);
        assert(digits_value(now) == Some(value as nat));
        if value > limit {
            proof {
                lemma_digits_prefix(digits, i + 1 - first);
            }
            return None;
        }
        i = i + 1;
    }
    assert(digits.take(n - first) =~= digits);
    Some(value)
}

/// A text stands for no number when its start stands for none, and for no
/// smaller number than its start.
pub proof fn lemma_digits_prefix(s: Seq<char>, k: int)
    requires
        0 <= k <= s.len(),
    ensures
        match (digits_value(s.take(k)), digits_value(s)) {
            (None, whole) => whole is None,
            (Some(a), Some(b)) => a <= b,
            _ => true,
        },
    decreases s.len() - k,
{
    if k == s.len() {
        assert(s.take(k) =~= s);
    } else {
        lemma_digits_prefix(s.drop_last(), k);
        assert(s.drop_last().take(k) =~= s.take(k));
    }
}

/// Decimal text reads back as the number it was made from.
pub proof fn decimal_reads_back(n: nat)
    ensures
        unsigned_value(decimal(n)) == Some(n),
        digits_value(decimal(n)) == Some(n),
        decimal(n).len() > 0,
        decimal(n)[0] != '+',
        forall|i: int| 0 <= i < decimal(n).len() ==> '0' <= #[trigger] decimal(n)[i] <= '9',
    decreases n,
{
    if n < 10 {
        let s = decimal(n);
        assert(s.drop_last() =~= Seq::<char>::empty());
        assert(digits_value(s.drop_last()) == Some(0nat));
    } else {
        decimal_reads_back(n / 10);
        let s = decimal(n);
        assert(s.drop_last() =~= decimal(n / 10));
        assert(s.last() == digit((n % 10) as int));
    }
}

/// No word is empty or holds white space.
pub proof fn lemma_words_hold_no_space(s: Seq<char>)
    ensures
        forall|i: int| 0 <= i < words(s).len() ==> (#[trigger] words(s)[i]).len() > 0,
        forall|i: int, k: int|
            0 <= i < words(s).len() && 0 <= k < words(s)[i].len() ==> !is_space(
                #[trigger] words(s)[i][k],
            ),
        s.len() > 0 && !is_space(s.last()) ==> words(s).len() > 0,
    decreases s.len(),
{
    if s.len() > 0 {
        lemma_words_hold_no_space(s.drop_last());
        let before = words(s.drop_last());
        let now = words(s);
        if !is_space(s.last()) {
            if s.len() == 1 || is_space(s[s.len() - 2]) {
                assert(now == before.push(seq![s.last()]));
            } else {
                assert(s.drop_last().last() == s[s.len() - 2]);
                assert(now == before.drop_last().push(before.last().push(s.last())));
            }
            assert forall|i: int, k: int|
                0 <= i < now.len() && 0 <= k < now[i].len() implies !is_space(
                #[trigger] now[i][k],
            ) by {
                if i < before.len() && k < before[i].len() {
                    assert(!is_space(before[i][k]));
                }
            }
        }
    }
}

/// Text without white space, not empty.
pub open spec fn is_word(s: Seq<char>) -> bool {
    s.len() > 0 && forall|k: int| 0 <= k < s.len() ==> !is_space(#[trigger] s[k])
}

proof fn lemma_word_extends(s: Seq<char>, w: Seq<char>)
    requires
        is_word(w),
        s.len() == 0 || is_space(s.last()),
    ensures
        words(s + w) == words(s).push(w),
    decreases w.len(),
{
    let t = s + w;
    assert(t.last() == w.last());
    if w.len() == 1 {
        assert(t.drop_last() =~= s);
        assert(w =~= seq![t.last()]);
        if s.len() > 0 {
            assert(t[t.len() - 2] == s.last());
        }
    } else {
        let v = w.drop_last();
        lemma_word_extends(s, v);
        assert(t.drop_last() =~= s + v);
        assert(t[t.len() - 2] == v.last());
        assert(!is_space(v[v.len() - 1]));
        assert(words(s).push(v).drop_last() =~= words(s));
        assert(v.push(w.last()) =~= w);
    }
}

/// Words joined with blanks are the words of the line that comes out.
pub proof fn joined_words_split_back(ws: Seq<Seq<char>>)
    requires
        forall|i: int| 0 <= i < ws.len() ==> is_word(#[trigger] ws[i]),
    ensures
        words(joined(ws, " "@)) == ws,
    decreases ws.len(),
{
    reveal_strlit(" ");
    if ws.len() == 0 {
    } else if ws.len() == 1 {
        let none = Seq::<char>::empty();
        lemma_word_extends(none, ws[0]);
        assert(none + ws[0] =~= ws[0]);
        assert(words(none).push(ws[0]) =~= ws);
    } else {
        let front = ws.drop_last();
        assert forall|i: int| 0 <= i < front.len() implies is_word(#[trigger] front[i]) by {
            assert(front[i] == ws[i]);
        }
        joined_words_split_back(front);
        let line = joined(front, " "@) + " "@;
        assert(line.last() == ' ');
        assert(line.drop_last() =~= joined(front, " "@));
        lemma_word_extends(line, ws.last());
        assert(words(line) == front);
        assert(front.push(ws.last()) =~= ws);
    }
}

proof fn lemma_leading_space(s: Seq<char>)
    requires
        s.len() > 0,
        is_space(s[0]),
    ensures
        words(s.skip(1)) == words(s),
    decreases s.len(),
{
    let t = s.skip(1);
    if t.len() == 0 {
        assert(s.drop_last() =~= Seq::<char>::empty());
        assert(words(s.drop_last()) == Seq::<Seq<char>>::empty());
    } else {
        lemma_leading_space(s.drop_last());
        assert(s.drop_last().skip(1) =~= t.drop_last());
        assert(t.last() == s.last());
        if t.len() > 1 {
            assert(t[t.len() - 2] == s[s.len() - 2]);
        }
    }
}

/// White space around a line does not change its words.
pub proof fn trimming_keeps_words(s: Seq<char>)
    ensures
        words(trimmed(s)) == words(s),
    decreases s.len(),
{
    if s.len() > 0 {
        if is_space(s[0]) {
            lemma_leading_space(s);
            trimming_keeps_words(s.skip(1));
        } else if is_space(s.last()) {
            trimming_keeps_words(s.drop_last());
        }
    }
}

/// No line break stands in `s`.
pub open spec fn unbroken(s: Seq<char>) -> bool {
    forall|i: int| 0 <= i < s.len() ==> #[trigger] s[i] != '\n'
}

/// Texts without a line break, joined without one, hold none.
pub proof fn joined_stays_unbroken(parts: Seq<Seq<char>>, sep: Seq<char>)
    requires
        unbroken(sep),
        forall|i: int| 0 <= i < parts.len() ==> unbroken(#[trigger] parts[i]),
    ensures
        unbroken(joined(parts, sep)),
    decreases parts.len(),
{
    if parts.len() > 1 {
        let rest = parts.drop_last();
        assert forall|i: int| 0 <= i < rest.len() implies unbroken(#[trigger] rest[i]) by {
            assert(rest[i] == parts[i]);
        }
        joined_stays_unbroken(rest, sep);
        let last = parts[parts.len() - 1];
        assert(unbroken(last));
    }
}

/// A number in decimal holds no line break.
pub proof fn integer_is_unbroken(i: int)
    ensures
        unbroken(integer(i)),
{
    reveal_strlit("-");
    if i < 0 {
        decimal_reads_back((-i) as nat);
        let d = decimal((-i) as nat);
        assert forall|k: int| 0 <= k < integer(i).len() implies #[trigger] integer(i)[k] != '\n' by {
            if k > 0 {
                assert('0' <= d[k - 1] <= '9');
            }
        }
    } else {
        decimal_reads_back(i as nat);
    }
}

/// Trimming takes away exactly the white space around a text: what is left is
/// the part from `a` to `b`, all before and behind it is white space, and it
/// neither starts nor ends with any.
pub proof fn trimming_takes_only_space(s: Seq<char>) -> (r: (int, int))
    ensures
        0 <= r.0 <= r.1 <= s.len(),
        trimmed(s) == s.subrange(r.0, r.1),
        forall|i: int| 0 <= i < r.0 || r.1 <= i < s.len() ==> is_space(#[trigger] s[i]),
        r.0 < r.1 ==> !is_space(s[r.0]) && !is_space(s[r.1 - 1]),
    decreases s.len(),
{
    if s.len() == 0 {
        assert(s =~= s.subrange(0, 0));
        (0, 0)
    } else if is_space(s[0]) {
        let (a, b) = trimming_takes_only_space(s.skip(1));
        assert(s.skip(1).subrange(a, b) =~= s.subrange(a + 1, b + 1));
        assert forall|i: int| 0 <= i < a + 1 || b + 1 <= i < s.len() implies is_space(
            #[trigger] s[i],
        ) by {
            if i > 0 {
                assert(s[i] == s.skip(1)[i - 1]);
            }
        }
        (a + 1, b + 1)
    } else if is_space(s.last()) {
        let (a, b) = trimming_takes_only_space(s.drop_last());
        assert(s.drop_last().subrange(a, b) =~= s.subrange(a, b));
        assert forall|i: int| 0 <= i < a || b <= i < s.len() implies is_space(#[trigger] s[i]) by {
            if i < s.len() - 1 {
                assert(s[i] == s.drop_last()[i]);
            }
        }
        (a, b)
    } else {
        assert(s =~= s.subrange(0, s.len() as int));
        (0, s.len() as int)
    }
}

/// Text stands for a number only when it is made of digits, with at most a plus
/// sign before them, which does not change the number.
pub proof fn only_digits_are_numbers(s: Seq<char>, n: nat, i: int)
    ensures
        unsigned_value(s) is Some && 0 < i < s.len() ==> '0' <= s[i] <= '9',
        unsigned_value(s) is Some && s.len() > 0 ==> s[0] == '+' || '0' <= s[0] <= '9',
        unsigned_value(s) is Some ==> s.len() > 0,
        unsigned_value(seq!['+'] + decimal(n)) == Some(n),
{
    decimal_reads_back(n);
    let signed = seq!['+'] + decimal(n);
    assert(signed[0] == '+');
    assert(signed.skip(1) =~= decimal(n));
    let digits = if s.len() > 0 && s[0] == '+' {
        s.skip(1)
    } else {
        s
    };
    if unsigned_value(s) is Some {
        lemma_all_digits(digits);
        assert(digits.len() > 0);
        if s[0] == '+' {
            if 0 < i < s.len() {
                assert(s[i] == digits[i - 1]);
            }
        } else {
            assert(s[0] == digits[0]);
        }
    }
}

proof fn lemma_all_digits(s: Seq<char>)
    requires
        digits_value(s) is Some,
    ensures
        forall|k: int| 0 <= k < s.len() ==> '0' <= #[trigger] s[k] <= '9',
    decreases s.len(),
{
    if s.len() > 0 {
        lemma_all_digits(s.drop_last());
        assert forall|k: int| 0 <= k < s.len() implies '0' <= #[trigger] s[k] <= '9' by {
            if k < s.len() - 1 {
                assert(s[k] == s.drop_last()[k]);
            }
        }
    }
}

/// One more text is joined behind the others, with the separator between them;
/// no separator stands around a single one.
pub proof fn joined_grows_at_its_end(parts: Seq<Seq<char>>, part: Seq<char>, sep: Seq<char>)
    ensures
        joined(Seq::empty(), sep).len() == 0,
        joined(seq![part], sep) == part,
        parts.len() > 0 ==> joined(parts.push(part), sep) == joined(parts, sep) + sep + part,
{
    assert(parts.push(part).drop_last() =~= parts);
}

/// No number has a leading zero but zero itself, and a negative number is its
/// digits behind a minus sign.
pub proof fn numbers_are_written_plainly(n: nat)
    ensures
        n > 0 ==> decimal(n)[0] != '0',
        integer(n as int) == decimal(n),
        n > 0 ==> integer(-n) == seq!['-'] + decimal(n),
    decreases n,
{
    reveal_strlit("-");
    if n >= 10 {
        numbers_are_written_plainly(n / 10);
        decimal_reads_back(n / 10);
        assert(decimal(n)[0] == decimal(n / 10)[0]);
    }
    assert("-"@ =~= seq!['-']);
}

} // verus!
