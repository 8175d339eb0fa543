//! The little text handling that the policies need: ASCII case folding, trimming,
//! and hexadecimal and decimal numerals.
use vstd::prelude::*;

verus! {

/// `c` with an ASCII capital replaced by its small letter.
pub open spec fn lower_char(c: char) -> char {
    if 'A' <= c <= 'Z' {
        ((c as u8) + 32) as char
    } else {
        c
    }
}

/// `s` with every ASCII capital replaced by its small letter.
pub open spec fn lower(s: Seq<char>) -> Seq<char> {
    Seq::new(s.len(), |i: int| lower_char(s[i]))
}

/// The code points with the Unicode property White_Space.
pub open spec fn white_space(c: char) -> bool {
    ||| '\u{9}' <= c <= '\u{d}'
    ||| c == ' '
    ||| c == '\u{85}'
    ||| c == '\u{a0}'
    ||| c == '\u{1680}'
    ||| '\u{2000}' <= c <= '\u{200a}'
    ||| c == '\u{2028}'
    ||| c == '\u{2029}'
    ||| c == '\u{202f}'
    ||| c == '\u{205f}'
    ||| c == '\u{3000}'
}

/// `s` without its leading white space.
pub open spec fn trim_start(s: Seq<char>) -> Seq<char>
    decreases s.len(),
{
    if s.len() > 0 && white_space(s[0]) {
        trim_start(s.drop_first())
    } else {
        s
    }
}

/// `s` without its trailing white space.
pub open spec fn trim_end(s: Seq<char>) -> Seq<char>
    decreases s.len(),
{
    if s.len() > 0 && white_space(s.last()) {
        trim_end(s.drop_last())
    } else {
        s
    }
}

/// `s` without the white space around it.
pub open spec fn trimmed(s: Seq<char>) -> Seq<char> {
    trim_end(trim_start(s))
}

/// `c` with an ASCII capital replaced by its small letter.
pub fn to_lower_char(c: char) -> (r: char)
    ensures
        r == lower_char(c),
{
    if 'A' <= c && c <= 'Z' {
        ((c as u8) + 32) as char
    } else {
        c
    }
}

/// Whether two texts agree once ASCII capitals are replaced by small letters.
pub fn eq_ignore_ascii_case(a: &str, b: &str) -> (r: bool)
    ensures
        r == (lower(a@) == lower(b@)),
{
    let n: usize = a.unicode_len();
    if n != b.unicode_len() {
        assert(lower(a@).len() != lower(b@).len());
        return false;
    }
    let mut i: usize = 0;
    while i < n
        invariant
            i <= n,
            n == a@.len(),
            n == b@.len(),
            forall|j: int| 0 <= j < i ==> lower_char(a@[j]) == lower_char(b@[j]),
        decreases n - i,
    {
        if to_lower_char(a.get_char(i)) != to_lower_char(b.get_char(i)) {
            assert(lower(a@)[i as int] != lower(b@)[i as int]);
            return false;
        }
        i += 1;
    }
    assert(lower(a@) =~= lower(b@));
    true
}

/// Whether two texts hold the same characters.
pub fn same_text(a: &str, b: &str) -> (r: bool)
    ensures
        r == (a@ == b@),
{
    let n: usize = a.unicode_len();
    if n != b.unicode_len() {
        return false;
    }
    let mut i: usize = 0;
    while i < n
        invariant
            i <= n,
            n == a@.len(),
            n == b@.len(),
            forall|j: int| 0 <= j < i ==> a@[j] == b@[j],
        decreases n - i,
    {
        if a.get_char(i) != b.get_char(i) {
            return false;
        }
        i += 1;
    }
    assert(a@ =~= b@);
    true
}

/// Whether `c` has the Unicode property White_Space.
pub fn is_white_space(c: char) -> (r: bool)
    ensures
        r == white_space(c),
{
    ('\u{9}' <= c && c <= '\u{d}') || c == ' ' || c == '\u{85}' || c == '\u{a0}' || c == '\u{1680}'
        || ('\u{2000}' <= c && c <= '\u{200a}') || c == '\u{2028}' || c == '\u{2029}' || c
        == '\u{202f}' || c == '\u{205f}' || c == '\u{3000}'
}

/// `s` without the white space around it.
pub fn trim(s: &str) -> (r: &str)
    ensures
        r@ == trimmed(s@),
{
    let n: usize = s.unicode_len();
    let mut from: usize = 0;
    assert(s@.subrange(0, n as int) =~= s@);
    while from < n && is_white_space(s.get_char(from))
        invariant
            from <= n,
            n == s@.len(),
            trim_start(s@.subrange(from as int, n as int)) == trim_start(s@),
        decreases n - from,
    {
        assert(s@.subrange(from as int, n as int).drop_first() =~= s@.subrange(from + 1, n as int));
        from += 1;
    }
    assert(trim_start(s@) == s@.subrange(from as int, n as int));
    let mut to: usize = n;
    while from < to && is_white_space(s.get_char(to - 1))
        invariant
            from <= to <= n,
            n == s@.len(),
            trim_end(s@.subrange(from as int, to as int)) == trimmed(s@),
        decreases to,
    {
        assert(s@.subrange(from as int, to as int).drop_last() =~= s@.subrange(from as int, to - 1));
        to -= 1;
    }
    s.substring_char(from, to)
}

/// Every character is white space.
pub open spec fn blank(s: Seq<char>) -> bool {
    forall|i: int| 0 <= i < s.len() ==> white_space(#[trigger] s[i])
}

/// White space in front of a text is trimmed away.
proof fn lemma_trim_start_of_padded(padding: Seq<char>, s: Seq<char>)
    requires
        blank(padding),
    ensures
        trim_start(padding + s) == trim_start(s),
    decreases padding.len(),
{
    if padding.len() > 0 {
        let rest = padding.drop_first();
        assert(white_space(padding[0]));
        assert forall|i: int| 0 <= i < rest.len() implies white_space(#[trigger] rest[i]) by {
            assert(rest[i] == padding[i + 1]);
        }
        assert((padding + s).drop_first() =~= rest + s);
        lemma_trim_start_of_padded(rest, s);
    } else {
        assert(padding + s =~= s);
    }
}

/// White space behind a text is trimmed away.
proof fn lemma_trim_end_of_padded(s: Seq<char>, padding: Seq<char>)
    requires
        blank(padding),
    ensures
        trim_end(s + padding) == trim_end(s),
    decreases padding.len(),
{
    if padding.len() > 0 {
        let rest = padding.drop_last();
        assert(white_space(padding[padding.len() - 1]));
        assert forall|i: int| 0 <= i < rest.len() implies white_space(#[trigger] rest[i]) by {
            assert(rest[i] == padding[i]);
        }
        assert((s + padding).drop_last() =~= s + rest);
        lemma_trim_end_of_padded(s, rest);
    } else {
        assert(s + padding =~= s);
    }
}

/// A text that is trimmed in front, with white space behind it.
proof fn lemma_trim_start_before_padding(s: Seq<char>, padding: Seq<char>)
    requires
        blank(padding),
    ensures
        trim_end(trim_start(s + padding)) == trimmed(s),
    decreases s.len(),
{
    if s.len() > 0 {
        if white_space(s[0]) {
            assert((s + padding).drop_first() =~= s.drop_first() + padding);
            lemma_trim_start_before_padding(s.drop_first(), padding);
        } else {
            lemma_trim_end_of_padded(s, padding);
        }
    } else {
        assert(s + padding =~= padding + s);
        lemma_trim_start_of_padded(padding, s);
    }
}

/// White space around a text makes no difference once it is trimmed.
pub proof fn law_trimming_ignores_padding(before: Seq<char>, s: Seq<char>, after: Seq<char>)
    requires
        blank(before),
        blank(after),
    ensures
        trimmed(before + s + after) == trimmed(s),
{
    assert(before + s + after =~= before + (s + after));
    lemma_trim_start_of_padded(before, s + after);
    lemma_trim_start_before_padding(s, after);
}

/// What trimming leaves is a stretch of the text that neither begins nor ends in white
/// space, and all that it takes away is white space.
pub proof fn law_trimming_takes_only_the_padding(s: Seq<char>)
    ensures
        exists|from: int, to: int|
            {
                &&& 0 <= from <= to <= s.len()
                &&& trimmed(s) == #[trigger] s.subrange(from, to)
                &&& blank(s.subrange(0, from))
                &&& blank(s.subrange(to, s.len() as int))
            },
        trimmed(s).len() > 0 ==> !white_space(trimmed(s)[0]) && !white_space(trimmed(s).last()),
{
    let from = lemma_trim_start(s);
    let start = trim_start(s);
    let to = lemma_trim_end(start);
    assert(trimmed(s) =~= s.subrange(from, from + to));
    assert forall|i: int| 0 <= i < s.len() - (from + to) implies white_space(
        #[trigger] s.subrange(from + to, s.len() as int)[i],
    ) by {
        assert(s.subrange(from + to, s.len() as int)[i] == start.subrange(
            to,
            start.len() as int,
        )[i]);
    }
}

proof fn lemma_trim_start(s: Seq<char>) -> (from: int)
    ensures
        0 <= from <= s.len(),
        trim_start(s) == s.subrange(from, s.len() as int),
        blank(s.subrange(0, from)),
        from < s.len() ==> !white_space(s[from]),
    decreases s.len(),
{
    if s.len() > 0 && white_space(s[0]) {
        let rest = s.drop_first();
        let inner = lemma_trim_start(rest);
        assert(rest.subrange(inner, rest.len() as int) =~= s.subrange(inner + 1, s.len() as int));
        assert forall|i: int| 0 <= i < inner + 1 implies white_space(
            #[trigger] s.subrange(0, inner + 1)[i],
        ) by {
            if i > 0 {
                assert(s.subrange(0, inner + 1)[i] == rest.subrange(0, inner)[i - 1]);
            }
        }
        inner + 1
    } else {
        assert(s.subrange(0, s.len() as int) =~= s);
        0
    }
}

proof fn lemma_trim_end(s: Seq<char>) -> (to: int)
    ensures
        0 <= to <= s.len(),
        trim_end(s) == s.subrange(0, to),
        blank(s.subrange(to, s.len() as int)),
        to > 0 ==> !white_space(s[to - 1]),
    decreases s.len(),
{
    if s.len() > 0 && white_space(s.last()) {
        let rest = s.drop_last();
        let to = lemma_trim_end(rest);
        assert(rest.subrange(0, to) =~= s.subrange(0, to));
        assert forall|i: int| 0 <= i < s.len() - to implies white_space(
            #[trigger] s.subrange(to, s.len() as int)[i],
        ) by {
            if i < rest.len() - to {
                assert(s.subrange(to, s.len() as int)[i] == rest.subrange(
                    to,
                    rest.len() as int,
                )[i]);
            }
        }
        to
    } else {
        assert(s.subrange(0, s.len() as int) =~= s);
        s.len() as int
    }
}

/// Trimming and folding the case can be done in either order.
pub proof fn law_case_makes_no_difference_to_trimming(s: Seq<char>)
    ensures
        trimmed(lower(s)) == lower(trimmed(s)),
{
    lemma_lower_trim_start(s);
    lemma_lower_trim_end(trim_start(s));
}

proof fn lemma_lower_trim_start(s: Seq<char>)
    ensures
        trim_start(lower(s)) == lower(trim_start(s)),
    decreases s.len(),
{
    if s.len() > 0 {
        assert(lower(s).drop_first() =~= lower(s.drop_first()));
        assert(white_space(lower(s)[0]) == white_space(s[0]));
        lemma_lower_trim_start(s.drop_first());
    }
}

proof fn lemma_lower_trim_end(s: Seq<char>)
    ensures
        trim_end(lower(s)) == lower(trim_end(s)),
    decreases s.len(),
{
    if s.len() > 0 {
        assert(lower(s).drop_last() =~= lower(s.drop_last()));
        assert(white_space(lower(s).last()) == white_space(s.last()));
        lemma_lower_trim_end(s.drop_last());
    }
}

/// The small hexadecimal digit of a value below sixteen.
pub open spec fn hex_digit(value: int) -> char
    recommends
        0 <= value < 16,
{
    if value < 10 {
        (48 + value) as char
    } else {
        (87 + value) as char
    }
}

/// The two hexadecimal digits of a byte.
pub open spec fn hex_byte(value: u8) -> Seq<char> {
    seq![hex_digit(value as int / 16), hex_digit(value as int % 16)]
}

/// The four hexadecimal digits of a 16-bit number.
pub open spec fn hex_word(value: u16) -> Seq<char> {
    hex_byte((value / 256) as u8) + hex_byte((value % 256) as u8)
}

/// The decimal numeral of `value`, without leading zeros.
pub open spec fn decimal(value: nat) -> Seq<char>
    decreases value,
{
    if value < 10 {
        seq![hex_digit(value as int)]
    } else {
        decimal(value / 10).push(hex_digit(value as int % 10))
    }
}

/// Appends the hexadecimal digit of `value`.
fn push_digit(out: &mut String, value: u8)
    requires
        value < 16,
    ensures
        final(out)@ == old(out)@.push(hex_digit(value as int)),
{
    let digits = "0123456789abcdef";
    proof {
        reveal_strlit("0123456789abcdef");
        assert(digits@[value as int] == hex_digit(value as int));
    }
    out.append(digits.substring_char(value as usize, value as usize + 1));
}

/// Appends the two hexadecimal digits of a byte.
pub fn push_hex_byte(out: &mut String, value: u8)
    ensures
        final(out)@ == old(out)@ + hex_byte(value),
{
    push_digit(out, value / 16);
    push_digit(out, value % 16);
    assert(out@ =~= old(out)@ + hex_byte(value));
}

/// Appends the four hexadecimal digits of a 16-bit number.
pub fn push_hex_word(out: &mut String, value: u16)
    ensures
        final(out)@ == old(out)@ + hex_word(value),
{
    push_hex_byte(out, (value / 256) as u8);
    push_hex_byte(out, (value % 256) as u8);
    assert(out@ =~= old(out)@ + hex_word(value));
}

/// Appends the decimal numeral of `value`.
pub fn push_decimal(out: &mut String, value: u64)
    ensures
        final(out)@ == old(out)@ + decimal(value as nat),
    decreases value,
{
    if value >= 10 {
        push_decimal(out, value / 10);
    }
    push_digit(out, (value % 10) as u8);
    assert(out@ =~= old(out)@ + decimal(value as nat));
}

/// Folding the case keeps the length, moves the ASCII capitals to the small letters
/// thirty-two places on, leaves every other character alone, and changes nothing when
/// done again.
pub proof fn law_folding_moves_only_capitals(s: Seq<char>, i: int)
    requires
        0 <= i < s.len(),
    ensures
        lower(s).len() == s.len(),
        'A' <= s[i] <= 'Z' ==> lower(s)[i] as int == s[i] as int + 32,
        !('A' <= s[i] <= 'Z') ==> lower(s)[i] == s[i],
        lower(lower(s)) == lower(s),
{
    assert(lower(lower(s)) =~= lower(s));
}

/// White space is the 25 code points with that property: six in ASCII and nineteen
/// beyond.
pub proof fn law_white_space_code_points(c: char)
    ensures
        ({
            let code = c as int;
            white_space(c) <==> {
                ||| 9 <= code <= 13
                ||| code == 32
                ||| code == 0x85
                ||| code == 0xa0
                ||| code == 0x1680
                ||| 0x2000 <= code <= 0x200a
                ||| 0x2028 <= code <= 0x2029
                ||| code == 0x202f
                ||| code == 0x205f
                ||| code == 0x3000
            }
        }),
{
}

/// The value of a numeral's digit: a figure, or a small letter from ten on.
pub open spec fn digit_value(c: char) -> int {
    if c <= '9' {
        c as int - 48
    } else {
        c as int - 87
    }
}

/// A digit is one of the sixteen figures and small letters, and reads back as its value.
pub proof fn law_digit_reads_back(value: int)
    requires
        0 <= value < 16,
    ensures
        digit_value(hex_digit(value)) == value,
        '0' <= hex_digit(value) <= '9' || 'a' <= hex_digit(value) <= 'f',
        value < 10 <==> hex_digit(value) <= '9',
{
}

/// The digits of a byte are two, and read back in base sixteen as the byte; those of a
/// 16-bit number are four, and read back as the number.
pub proof fn law_hex_reads_back(byte: u8, number: u16)
    ensures
        hex_byte(byte).len() == 2,
        16 * digit_value(hex_byte(byte)[0]) + digit_value(hex_byte(byte)[1]) == byte,
        forall|i: int|
            0 <= i < 2 ==> '0' <= #[trigger] hex_byte(byte)[i] <= '9' || 'a' <= hex_byte(byte)[i]
                <= 'f',
        hex_word(number).len() == 4,
        4096 * digit_value(hex_word(number)[0]) + 256 * digit_value(hex_word(number)[1]) + 16
            * digit_value(hex_word(number)[2]) + digit_value(hex_word(number)[3]) == number,
{
    let high = (number / 256) as u8;
    let low = (number % 256) as u8;
    assert(hex_word(number)[0] == hex_byte(high)[0] && hex_word(number)[1] == hex_byte(high)[1]);
    assert(hex_word(number)[2] == hex_byte(low)[0] && hex_word(number)[3] == hex_byte(low)[1]);
}

/// The number that a decimal numeral stands for.
pub open spec fn numeral_value(s: Seq<char>) -> int
    decreases s.len(),
{
    if s.len() == 0 {
        0
    } else {
        10 * numeral_value(s.drop_last()) + digit_value(s.last())
    }
}

/// A decimal numeral is made of figures, has no leading zero but in zero itself, and
/// reads back as the number.
pub proof fn law_decimal_reads_back(value: nat)
    ensures
        decimal(value).len() > 0,
        numeral_value(decimal(value)) == value,
        forall|i: int|
            0 <= i < decimal(value).len() ==> '0' <= #[trigger] decimal(value)[i] <= '9',
        decimal(value)[0] == '0' ==> decimal(value).len() == 1,
        value > 0 ==> decimal(value)[0] != '0',
    decreases value,
{
    let s = decimal(value);
    if value < 10 {
        assert(s.drop_last() =~= Seq::<char>::empty());
        assert(numeral_value(Seq::<char>::empty()) == 0);
    } else {
        let head = decimal(value / 10);
        law_decimal_reads_back(value / 10);
        assert(s.drop_last() =~= head);
        assert(s[0] == head[0]);
        assert forall|i: int| 0 <= i < s.len() implies '0' <= #[trigger] s[i] <= '9' by {
            if i < head.len() {
                assert(s[i] == head[i]);
            }
        }
    }
}

} // verus!
