//! Text primitives that the catalogue and the classifier are built on: substring
//! search, positional fields, and decimal numbers. Every contract speaks of the
//! characters of a string, `s@`.

use vstd::prelude::*;
use vstd::std_specs::iter::IteratorSpec;

verus! {

/// `needle` stands in `hay` at offset `at`.
pub open spec fn occurs_at(hay: Seq<char>, needle: Seq<char>, at: int) -> bool {
    &&& 0 <= at
    &&& at + needle.len() <= hay.len()
    &&& hay.subrange(at, at + needle.len()) == needle
}

/// `needle` stands somewhere in `hay`.
pub open spec fn mentions(hay: Seq<char>, needle: Seq<char>) -> bool {
    exists|at: int| occurs_at(hay, needle, at)
}

/// The offset at which the field that starts at `from` ends: the first `delimiter`
/// at or after `from`, or the end of the text.
pub open spec fn field_end(s: Seq<char>, delimiter: char, from: int) -> int
    decreases s.len() - from,
{
    if from < 0 || from >= s.len() || s[from] == delimiter {
        from
    } else {
        field_end(s, delimiter, from + 1)
    }
}

/// The offset at which field number `index` starts, if the text has that many fields.
pub open spec fn field_start(s: Seq<char>, delimiter: char, index: nat) -> Option<int>
    decreases index,
{
    if index == 0 {
        Some(0)
    } else {
        match field_start(s, delimiter, (index - 1) as nat) {
            None => None,
            Some(from) => {
                let end = field_end(s, delimiter, from);
                if end >= s.len() {
                    None
                } else {
                    Some(end + 1)
                }
            },
        }
    }
}

/// Field number `index` (from 0) of a text whose fields are separated by `delimiter`.
pub open spec fn field(s: Seq<char>, delimiter: char, index: nat) -> Option<Seq<char>> {
    match field_start(s, delimiter, index) {
        None => None,
        Some(from) => Some(s.subrange(from, field_end(s, delimiter, from))),
    }
}

/// The value of a decimal digit.
pub open spec fn digit_value(c: char) -> Option<nat> {
    if '0' <= c && c <= '9' {
        Some((c as nat - '0' as nat) as nat)
    } else {
        None
    }
}

/// The value of a run of decimal digits, most significant first; the empty run is 0.
pub open spec fn decimal_value(s: Seq<char>) -> Option<nat>
    decreases s.len(),
{
    if s.len() == 0 {
        Some(0)
    } else {
        match (decimal_value(s.drop_last()), digit_value(s.last())) {
            (Some(high), Some(low)) => Some(10 * high + low),
            _ => None,
        }
    }
}

/// The number a text denotes as a `u8`: an optional `+`, then at least one decimal
/// digit and nothing else, with a value of at most 255.
pub open spec fn number_u8(s: Seq<char>) -> Option<u8> {
    let digits = if s.len() > 0 && s[0] == '+' {
        s.drop_first()
    } else {
        s
    };
    if digits.len() == 0 {
        None
    } else {
        match decimal_value(digits) {
            Some(v) => if v <= 255 {
                Some(v as u8)
            } else {
                None
            },
            None => None,
        }
    }
}

/// The character of a decimal digit.
pub open spec fn digit_char(d: nat) -> char {
    if d == 0 {
        '0'
    } else if d == 1 {
        '1'
    } else if d == 2 {
        '2'
    } else if d == 3 {
        '3'
    } else if d == 4 {
        '4'
    } else if d == 5 {
        '5'
    } else if d == 6 {
        '6'
    } else if d == 7 {
        '7'
    } else if d == 8 {
        '8'
    } else {
        '9'
    }
}

/// A number written in decimal, without leading zeros.
pub open spec fn decimal_digits(n: nat) -> Seq<char>
    decreases n,
{
    if n < 10 {
        seq![digit_char(n)]
    } else {
        decimal_digits(n / 10).push(digit_char(n % 10))
    }
}

/// The characters of a string, one by one.
pub fn chars_of(s: &str) -> (v: Vec<char>)
    ensures
        v@ == s@,
{
    broadcast use vstd::string::group_string_axioms;

    let mut v: Vec<char> = Vec::new();
    let mut rest = s.chars();
    loop
        invariant
            v@ + rest.remaining() == s@,
            rest.obeys_prophetic_iter_laws(),
        ensures
            v@ == s@,
        decreases s@.len() - v@.len(),
    {
        match rest.next() {
            Some(c) => {
                v.push(c);
                assert(v@ + rest.remaining() =~= s@);
            },
            None => {
                assert(v@ =~= s@);
                break ;
            },
        }
    }
    v
}

/// Whether `needle` stands in `hay` at offset `at`.
pub fn occurs_in_at(hay: &Vec<char>, needle: &Vec<char>, at: usize) -> (found: bool)
    ensures
        found == occurs_at(hay@, needle@, at as int),
{
    if needle.len() > hay.len() || at > hay.len() - needle.len() {
        return false;
    }
    let mut j: usize = 0;
    while j < needle.len()
        invariant
            at + needle.len() <= hay.len(),
            j <= needle.len(),
            forall|k: int| 0 <= k < j ==> hay@[at + k] == needle@[k],
        decreases needle.len() - j,
    {
        if hay[at + j] != needle[j] {
            assert(hay@.subrange(at as int, at + needle.len())[j as int] == hay@[at + j]);
            return false;
        }
        j += 1;
    }
    assert(hay@.subrange(at as int, at + needle.len()) =~= needle@);
    true
}

/// Whether `needle` stands somewhere in `hay`. The empty needle stands in every text.
pub fn contains(hay: &str, needle: &str) -> (found: bool)
    ensures
        found == mentions(hay@, needle@),
{
    let h = chars_of(hay);
    let n = chars_of(needle);
    if n.len() > h.len() {
        return false;
    }
    let last: usize = h.len() - n.len();
    let mut at: usize = 0;
    loop
        invariant
            h@ == hay@,
            n@ == needle@,
            last + n.len() == h.len(),
            at <= last,
            forall|k: int| 0 <= k < at ==> !occurs_at(h@, n@, k),
        decreases last - at,
    {
        if occurs_in_at(&h, &n, at) {
            return true;
        }
        if at == last {
            return false;
        }
        at += 1;
    }
}

/// Whether two texts hold the same characters.
pub fn same(a: &str, b: &str) -> (equal: bool)
    ensures
        equal == (a@ == b@),
{
    let x = chars_of(a);
    let y = chars_of(b);
    if x.len() != y.len() {
        return false;
    }
    let found = occurs_in_at(&x, &y, 0);
    proof {
        if found {
            assert(x@.subrange(0, y@.len() as int) =~= x@);
        }
        if x@ == y@ {
            assert(x@.subrange(0, y@.len() as int) =~= y@);
        }
    }
    found
}

/// The end of the field that starts at `from`.
fn scan_field(s: &Vec<char>, delimiter: char, from: usize) -> (end: usize)
    requires
        from <= s.len(),
    ensures
        end == field_end(s@, delimiter, from as int),
        from <= end <= s.len(),
{
    let mut end: usize = from;
    while end < s.len() && s[end] != delimiter
        invariant
            from <= end <= s.len(),
            field_end(s@, delimiter, from as int) == field_end(s@, delimiter, end as int),
        decreases s.len() - end,
    {
        end += 1;
    }
    end
}

/// Field number `index` (from 0) of `source`, a text whose fields are separated by
/// `delimiter`; `None` when the text has fewer fields.
pub fn cut<'a>(source: &'a str, delimiter: char, index: usize) -> (found: Option<&'a str>)
    ensures
        match found {
            Some(f) => field(source@, delimiter, index as nat) == Some(f@),
            None => field(source@, delimiter, index as nat) is None,
        },
{
    let s = chars_of(source);
    let mut from: usize = 0;
    let mut k: usize = 0;
    loop
        invariant
            s@ == source@,
            k <= index,
            from <= s.len(),
            field_start(s@, delimiter, k as nat) == Some(from as int),
        decreases index - k,
    {
        let end: usize = scan_field(&s, delimiter, from);
        if k == index {
            return Some(source.substring_char(from, end));
        }
        if end >= s.len() {
            assert(field_start(s@, delimiter, (k + 1) as nat) is None);
            proof {
                lemma_no_later_field(s@, delimiter, (k + 1) as nat, index as nat);
            }
            return None;
        }
        from = end + 1;
        k += 1;
    }
}

/// Once a text has run out of fields it has no later field either.
pub proof fn lemma_no_later_field(s: Seq<char>, delimiter: char, first: nat, later: nat)
    requires
        field_start(s, delimiter, first) is None,
        first <= later,
    ensures
        field_start(s, delimiter, later) is None,
    decreases later,
{
    if first < later {
        lemma_no_later_field(s, delimiter, first, (later - 1) as nat);
    }
}

/// A run of digits has a value only if each shorter run it starts with has one, and
/// that value is no larger.
pub proof fn lemma_decimal_prefix(s: Seq<char>, n: int)
    requires
        0 <= n <= s.len(),
    ensures
        decimal_value(s) matches Some(whole) ==> (decimal_value(s.take(n)) matches Some(part)
            && part <= whole),
    decreases s.len(),
{
    if n == s.len() {
        assert(s.take(n) == s);
    } else {
        assert(s.drop_last().take(n) == s.take(n));
        lemma_decimal_prefix(s.drop_last(), n);
    }
}

/// The value of `c` as a decimal digit, if it is one.
pub fn digit_of(c: char) -> (d: Option<u16>)
    ensures
        d matches Some(v) ==> v < 10 && digit_value(c) == Some(v as nat),
        d is None ==> digit_value(c) is None,
{
    if c == '0' {
        Some(0)
    } else if c == '1' {
        Some(1)
    } else if c == '2' {
        Some(2)
    } else if c == '3' {
        Some(3)
    } else if c == '4' {
        Some(4)
    } else if c == '5' {
        Some(5)
    } else if c == '6' {
        Some(6)
    } else if c == '7' {
        Some(7)
    } else if c == '8' {
        Some(8)
    } else if c == '9' {
        Some(9)
    } else {
        None
    }
}

/// The number that `s` denotes as a `u8`, if it denotes one.
pub fn parse_u8(s: &str) -> (n: Option<u8>)
    ensures
        n == number_u8(s@),
{
    let v = chars_of(s);
    let start: usize = if v.len() > 0 && v[0] == '+' {
        1
    } else {
        0
    };
    if start >= v.len() {
        return None;
    }
    let ghost digits = v@.subrange(start as int, v.len() as int);
    assert(digits == if s@.len() > 0 && s@[0] == '+' {
        s@.drop_first()
    } else {
        s@
    });
    let mut acc: u16 = 0;
    let mut i: usize = start;
    assert(digits.take(0).len() == 0);
    while i < v.len()
        invariant
            start <= i <= v.len(),
            digits == v@.subrange(start as int, v.len() as int),
            digits == if s@.len() > 0 && s@[0] == '+' {
                s@.drop_first()
            } else {
                s@
            },
            decimal_value(digits.take(i - start)) == Some(acc as nat),
            acc <= 255,
        decreases v.len() - i,
    {
        let ghost upto = digits.take(i + 1 - start);
        assert(upto.drop_last() == digits.take(i - start));
        assert(upto.last() == v@[i as int]);
        proof {
            lemma_decimal_prefix(digits, i + 1 - start);
        }
        let digit: u16 = match digit_of(v[i]) {
            Some(d) => d,
            None => {
                return None;
            },
        };
        let next: u16 = acc * 10 + digit;
        if next > 255 {
            return None;
        }
        acc = next;
        i += 1;
    }
    assert(digits.take(v.len() - start) == digits);
    Some(acc as u8)
}

/// One decimal digit as a text.
fn digit_text(d: u8) -> (t: &'static str)
    requires
        d < 10,
    ensures
        t@ == seq![digit_char(d as nat)],
{
    proof {
        reveal_strlit("0");
        reveal_strlit("1");
        reveal_strlit("2");
        reveal_strlit("3");
        reveal_strlit("4");
        reveal_strlit("5");
        reveal_strlit("6");
        reveal_strlit("7");
        reveal_strlit("8");
        reveal_strlit("9");
    }
    let t = if d == 0 {
        "0"
    } else if d == 1 {
        "1"
    } else if d == 2 {
        "2"
    } else if d == 3 {
        "3"
    } else if d == 4 {
        "4"
    } else if d == 5 {
        "5"
    } else if d == 6 {
        "6"
    } else if d == 7 {
        "7"
    } else if d == 8 {
        "8"
    } else {
        "9"
    };
    assert(t@ =~= seq![digit_char(d as nat)]);
    t
}

/// `n` written in decimal, without leading zeros.
pub fn decimal(n: u8) -> (t: String)
    ensures
        t@ == decimal_digits(n as nat),
{
    let mut t = String::new();
    if n >= 100 {
        t.append(digit_text(n / 100));
    }
    if n >= 10 {
        t.append(digit_text((n / 10) % 10));
    }
    t.append(digit_text(n % 10));
    proof {
        let m = n as nat;
        if m >= 100 {
            assert(decimal_digits(m / 100) == seq![digit_char(m / 100)]);
            assert(decimal_digits(m / 10) == decimal_digits(m / 100).push(
                digit_char((m / 10) % 10),
            ));
        } else if m >= 10 {
            assert(decimal_digits(m / 10) == seq![digit_char(m / 10)]);
        }
        assert(t@ =~= decimal_digits(m));
    }
    t
}

/// The two texts, one after the other.
pub fn join(head: &str, tail: &str) -> (t: String)
    ensures
        t@ == head@ + tail@,
{
    let mut t = String::from_str(head);
    t.append(tail);
    t
}

/// A field ends at or after its start, and within the text.
pub proof fn lemma_field_end_bounds(s: Seq<char>, delimiter: char, from: int)
    requires
        0 <= from <= s.len(),
    ensures
        from <= field_end(s, delimiter, from) <= s.len(),
    decreases s.len() - from,
{
    if from < s.len() && s[from] != delimiter {
        lemma_field_end_bounds(s, delimiter, from + 1);
    }
}

/// A field starts within the text, and no earlier than at the offset of its
/// number: a text has at most one field more than it has characters.
pub proof fn lemma_field_start_bounds(s: Seq<char>, delimiter: char, index: nat)
    ensures
        field_start(s, delimiter, index) matches Some(from) ==> index <= from <= s.len(),
    decreases index,
{
    if index > 0 {
        lemma_field_start_bounds(s, delimiter, (index - 1) as nat);
        match field_start(s, delimiter, (index - 1) as nat) {
            Some(from) => {
                lemma_field_end_bounds(s, delimiter, from);
            },
            None => {},
        }
    }
}

/// Between its start and its end a field holds no delimiter, and at its end
/// stands a delimiter or the text is over.
pub proof fn lemma_field_end_stops(s: Seq<char>, delimiter: char, from: int)
    requires
        0 <= from <= s.len(),
    ensures
        forall|i: int| from <= i < field_end(s, delimiter, from) ==> s[i] != delimiter,
        field_end(s, delimiter, from) == s.len() || s[field_end(s, delimiter, from)] == delimiter,
    decreases s.len() - from,
{
    if from < s.len() && s[from] != delimiter {
        lemma_field_end_stops(s, delimiter, from + 1);
    }
}

/// A field holds no delimiter.
pub proof fn law_field_holds_no_delimiter(s: Seq<char>, delimiter: char, index: nat)
    ensures
        field(s, delimiter, index) matches Some(f) ==> !f.contains(delimiter),
{
    lemma_field_start_bounds(s, delimiter, index);
    match field_start(s, delimiter, index) {
        Some(from) => {
            lemma_field_end_stops(s, delimiter, from);
            lemma_field_end_bounds(s, delimiter, from);
        },
        None => {},
    }
}

/// A number written in decimal has at least one digit.
pub proof fn lemma_decimal_has_digits(n: nat)
    ensures
        decimal_digits(n).len() > 0,
{
}

/// Written in decimal and read again, a number is what it was.
pub proof fn law_decimal_reads_back(n: u8)
    ensures
        number_u8(decimal_digits(n as nat)) == Some(n),
{
    let m = n as nat;
    let text = decimal_digits(m);
    if m < 10 {
        assert(text.drop_last() =~= Seq::<char>::empty());
        assert(decimal_value(text.drop_last()) == Some(0nat));
        assert(decimal_value(text) == Some(m));
    } else if m < 100 {
        let tens = decimal_digits(m / 10);
        assert(tens.drop_last() =~= Seq::<char>::empty());
        assert(decimal_value(tens.drop_last()) == Some(0nat));
        assert(decimal_value(tens) == Some(m / 10));
        assert(text.drop_last() =~= tens);
        assert(decimal_value(text) == Some(m));
    } else {
        let hundreds = decimal_digits(m / 100);
        assert(hundreds.drop_last() =~= Seq::<char>::empty());
        assert(decimal_value(hundreds.drop_last()) == Some(0nat));
        assert(decimal_value(hundreds) == Some(m / 100));
        let tens = decimal_digits(m / 10);
        assert(tens.drop_last() =~= hundreds);
        assert(decimal_value(tens) == Some(m / 10));
        assert(text.drop_last() =~= tens);
        assert(decimal_value(text) == Some(m));
    }
}

} // verus!
