use vstd::prelude::*;
use crate::errors::{viewed_result, DecodeError, DecodeFailure};
use crate::text::ascii_at;

verus! {

/// `Digit ::= [0-9]`
pub open spec fn is_digit(c: char) -> bool {
    '0' <= c && c <= '9'
}

/// `Sign ::= [+-]`
pub open spec fn is_sign(c: char) -> bool {
    c == '+' || c == '-'
}

/// The lower-case form of an ASCII letter; any other character is itself.
pub open spec fn lower(c: char) -> char {
    if 'A' <= c && c <= 'Z' {
        ((c as u8 + 32) as u8) as char
    } else {
        c
    }
}

/// Every character of `s` from `from` up to `to` is a digit.
pub open spec fn digits_between(s: Seq<char>, from: int, to: int) -> bool {
    forall|i: int| from <= i < to ==> is_digit(#[trigger] s[i])
}

/// `s[from..to]` is `Digit+ | Digit+ '.' Digit* | Digit* '.' Digit+`.
pub open spec fn mantissa_between(s: Seq<char>, from: int, to: int) -> bool {
    ||| from < to && digits_between(s, from, to)
    ||| exists|dot: int|
        from <= dot < to && #[trigger] s[dot] == '.' && to - from >= 2 && digits_between(
            s,
            from,
            dot,
        ) && digits_between(s, dot + 1, to)
}

/// Where the digits of an exponent begin, when the exponent begins at `from`.
pub open spec fn exponent_digits_start(s: Seq<char>, from: int, to: int) -> int {
    if from + 1 < to && is_sign(s[from + 1]) {
        from + 2
    } else {
        from + 1
    }
}

/// `s[from..to]` is `('e' | 'E') Sign? Digit+`.
pub open spec fn exponent_between(s: Seq<char>, from: int, to: int) -> bool {
    &&& from < to
    &&& lower(s[from]) == 'e'
    &&& exponent_digits_start(s, from, to) < to
    &&& digits_between(s, exponent_digits_start(s, from, to), to)
}

/// `s[from..to]` is a mantissa, or a mantissa followed by an exponent.
pub open spec fn number_between(s: Seq<char>, from: int, to: int) -> bool {
    ||| mantissa_between(s, from, to)
    ||| exists|e: int|
        from < e < to && #[trigger] mantissa_between(s, from, e) && exponent_between(s, e, to)
}

/// `s[from..]` is `word`, letter case aside. `word` is in lower case.
pub open spec fn word_from(s: Seq<char>, from: int, word: Seq<char>) -> bool {
    &&& s.len() - from == word.len()
    &&& forall|i: int| 0 <= i < word.len() ==> lower(#[trigger] s[from + i]) == word[i]
}

/// `s[from..]` is `inf`, `infinity` or `nan`, letter case aside.
pub open spec fn special_from(s: Seq<char>, from: int) -> bool {
    ||| word_from(s, from, seq!['i', 'n', 'f'])
    ||| word_from(s, from, seq!['i', 'n', 'f', 'i', 'n', 'i', 't', 'y'])
    ||| word_from(s, from, seq!['n', 'a', 'n'])
}

/// Where the text begins after an optional sign.
pub open spec fn after_sign(s: Seq<char>) -> int {
    if s.len() > 0 && is_sign(s[0]) {
        1
    } else {
        0
    }
}

/// The decimal texts that stand for a number:
///
/// ```text
/// Float  ::= Sign? ( 'inf' | 'infinity' | 'nan' | Number )
/// Number ::= ( Digit+ | Digit+ '.' Digit* | Digit* '.' Digit+ ) Exp?
/// Exp    ::= 'e' Sign? Digit+
/// ```
///
/// with letters in either case. This is the grammar by which Rust reads a
/// binary floating-point number from text.
pub open spec fn is_float_text(s: Seq<char>) -> bool {
    special_from(s, after_sign(s)) || number_between(s, after_sign(s), s.len() as int)
}

/// The text of zero.
pub open spec fn zero_text() -> Seq<char> {
    seq!['0']
}

/// Every decimal text is ASCII.
pub proof fn lemma_float_text_is_ascii(s: Seq<char>)
    requires
        is_float_text(s),
    ensures
        vstd::utf8::is_ascii_chars(s),
{
    let a = after_sign(s);
    let n = s.len() as int;
    assert forall|i: int| 0 <= i < n implies '\0' <= #[trigger] s[i] <= '\u{7f}' by {
        if i < a {
        } else if special_from(s, a) {
            let w1 = seq!['i', 'n', 'f'];
            let w2 = seq!['i', 'n', 'f', 'i', 'n', 'i', 't', 'y'];
            let w3 = seq!['n', 'a', 'n'];
            let c = s[a + (i - a)];
            if word_from(s, a, w1) {
                assert(lower(c) == w1[i - a]);
            } else if word_from(s, a, w2) {
                assert(lower(c) == w2[i - a]);
            } else {
                assert(lower(c) == w3[i - a]);
            }
            lemma_lower_ascii(c);
        } else {
            lemma_number_is_ascii(s, a, n, i);
        }
    }
}

proof fn lemma_lower_ascii(c: char)
    requires
        'a' <= lower(c) <= 'z',
    ensures
        '\0' <= c <= '\u{7f}',
{
    if 'A' <= c && c <= 'Z' {
    } else {
    }
}

proof fn lemma_mantissa_is_ascii(s: Seq<char>, from: int, to: int, i: int)
    requires
        mantissa_between(s, from, to),
        from <= i < to,
    ensures
        is_digit(s[i]) || s[i] == '.',
{
    if from < to && digits_between(s, from, to) {
    } else {
        let dot = choose|dot: int|
            from <= dot < to && #[trigger] s[dot] == '.' && to - from >= 2 && digits_between(
                s,
                from,
                dot,
            ) && digits_between(s, dot + 1, to);
        if i < dot {
        } else if i > dot {
        }
    }
}

proof fn lemma_number_is_ascii(s: Seq<char>, from: int, to: int, i: int)
    requires
        number_between(s, from, to),
        from <= i < to,
    ensures
        '\0' <= s[i] <= '\u{7f}',
{
    if mantissa_between(s, from, to) {
        lemma_mantissa_is_ascii(s, from, to, i);
    } else {
        let e = choose|e: int|
            from < e < to && #[trigger] mantissa_between(s, from, e) && exponent_between(s, e, to);
        if i < e {
            lemma_mantissa_is_ascii(s, from, e, i);
        } else if i == e {
            if 'A' <= s[i] && s[i] <= 'Z' {
            }
        } else if i < exponent_digits_start(s, e, to) {
        } else {
        }
    }
}

/// A number, held as the decimal text that it was written with.
///
/// The text always is one that [`is_float_text`] admits, so that reading it
/// as a binary floating-point number cannot fail.
#[derive(Debug)]
pub struct Number {
    text: String,
}

impl Clone for Number {
    fn clone(&self) -> (r: Self)
        ensures
            r@ == self@,
    {
        proof {
            use_type_invariant(self);
        }
        Number { text: self.text.clone() }
    }
}

impl Default for Number {
    fn default() -> (r: Self)
        ensures
            r@ == zero_text(),
    {
        Number::zero()
    }
}

impl View for Number {
    type V = Seq<char>;

    closed spec fn view(&self) -> Seq<char> {
        self.text@
    }
}

fn is_digit_char(c: char) -> (r: bool)
    ensures
        r == is_digit(c),
{
    '0' <= c && c <= '9'
}

fn is_sign_char(c: char) -> (r: bool)
    ensures
        r == is_sign(c),
{
    c == '+' || c == '-'
}

fn lower_char(c: char) -> (r: char)
    ensures
        r == lower(c),
{
    if 'A' <= c && c <= 'Z' {
        ((c as u8) + 32) as char
    } else {
        c
    }
}

/// The end of the run of digits that begins at `from`.
fn digits_end(s: &str, n: usize, from: usize) -> (end: usize)
    requires
        s.is_ascii(),
        n == s@.len(),
        from <= n,
    ensures
        from <= end <= n,
        digits_between(s@, from as int, end as int),
        end == n || !is_digit(s@[end as int]),
{
    let mut i: usize = from;
    while i < n
        invariant
            s.is_ascii(),
            n == s@.len(),
            from <= i <= n,
            digits_between(s@, from as int, i as int),
        decreases n - i,
    {
        if !is_digit_char(ascii_at(s, i)) {
            return i;
        }
        i += 1;
    }
    i
}

/// Whether `s[from..]` is `word`, letter case aside.
fn is_word_from(s: &str, n: usize, from: usize, word: &str) -> (r: bool)
    requires
        s.is_ascii(),
        word.is_ascii(),
        n == s@.len(),
        from <= n,
    ensures
        r == word_from(s@, from as int, word@),
{
    let m = word.unicode_len();
    if n - from != m {
        return false;
    }
    let mut i: usize = 0;
    while i < m
        invariant
            s.is_ascii(),
            word.is_ascii(),
            n == s@.len(),
            m == word@.len(),
            from <= n,
            n - from == m,
            i <= m,
            forall|k: int| 0 <= k < i ==> lower(#[trigger] s@[from + k]) == word@[k],
        decreases m - i,
    {
        if lower_char(ascii_at(s, from + i)) != ascii_at(word, i) {
            assert(lower(s@[from + i]) != word@[i as int]);
            return false;
        }
        i += 1;
    }
    true
}

/// Whether `s[from..]` is `inf`, `infinity` or `nan`, letter case aside.
fn is_special_from(s: &str, n: usize, from: usize) -> (r: bool)
    requires
        s.is_ascii(),
        n == s@.len(),
        from <= n,
    ensures
        r == special_from(s@, from as int),
{
    proof {
        reveal_strlit("inf");
        reveal_strlit("infinity");
        reveal_strlit("nan");
        assert("inf"@ =~= seq!['i', 'n', 'f']);
        assert("infinity"@ =~= seq!['i', 'n', 'f', 'i', 'n', 'i', 't', 'y']);
        assert("nan"@ =~= seq!['n', 'a', 'n']);
    }
    is_word_from(s, n, from, "inf") || is_word_from(s, n, from, "infinity") || is_word_from(
        s,
        n,
        from,
        "nan",
    )
}

/// Whether `s[from..]` is a mantissa, or a mantissa followed by an exponent.
fn is_number_from(s: &str, n: usize, from: usize) -> (r: bool)
    requires
        s.is_ascii(),
        n == s@.len(),
        from <= n,
    ensures
        r == number_between(s@, from as int, n as int),
{
    let int_end = digits_end(s, n, from);
    let has_dot = int_end < n && ascii_at(s, int_end) == '.';
    let mantissa_end = if has_dot {
        digits_end(s, n, int_end + 1)
    } else {
        int_end
    };
    let mantissa_ok = if has_dot {
        mantissa_end - from >= 2
    } else {
        int_end > from
    };
    proof {
        lemma_mantissa_end(s@, from as int, n as int, int_end as int, mantissa_end as int);
    }
    if !mantissa_ok {
        return false;
    }
    if mantissa_end == n {
        return true;
    }
    if lower_char(ascii_at(s, mantissa_end)) != 'e' {
        return false;
    }
    let mut digits_start = mantissa_end + 1;
    if digits_start < n && is_sign_char(ascii_at(s, digits_start)) {
        digits_start += 1;
    }
    let end = digits_end(s, n, digits_start);
    end > digits_start && end == n
}

/// What a scan for a mantissa from `from` finds: `int_end` ends the first
/// run of digits, and `mantissa_end` ends the second one, behind a point, if
/// there is a point. A mantissa that begins at `from` ends at `mantissa_end`
/// or it is followed by none of `e`, `E`.
proof fn lemma_mantissa_end(s: Seq<char>, from: int, to: int, int_end: int, mantissa_end: int)
    requires
        0 <= from <= int_end <= to <= s.len(),
        digits_between(s, from, int_end),
        int_end == to || !is_digit(s[int_end]),
        int_end < to && s[int_end] == '.' ==> {
            &&& int_end < mantissa_end <= to
            &&& digits_between(s, int_end + 1, mantissa_end)
            &&& (mantissa_end == to || !is_digit(s[mantissa_end]))
        },
        !(int_end < to && s[int_end] == '.') ==> mantissa_end == int_end,
    ensures
        forall|e: int|
            from <= e <= to && #[trigger] mantissa_between(s, from, e) && (e == to || lower(s[e])
                == 'e') ==> e == mantissa_end,
        mantissa_between(s, from, mantissa_end) <==> (if int_end < to && s[int_end] == '.' {
            mantissa_end - from >= 2
        } else {
            int_end > from
        }),
{
    assert forall|e: int|
        from <= e <= to && #[trigger] mantissa_between(s, from, e) && (e == to || lower(s[e])
            == 'e') implies e == mantissa_end by {
        if from < e && digits_between(s, from, e) {
            if e < int_end {
                assert(is_digit(s[e]));
            } else if e > int_end {
                assert(is_digit(s[int_end]));
            }
        } else {
            let dot = choose|dot: int|
                from <= dot < e && #[trigger] s[dot] == '.' && e - from >= 2 && digits_between(
                    s,
                    from,
                    dot,
                ) && digits_between(s, dot + 1, e);
            if dot < int_end {
                assert(is_digit(s[dot]));
            } else if dot > int_end {
                assert(is_digit(s[int_end]));
            }
            if e < mantissa_end {
                assert(is_digit(s[e]));
            } else if e > mantissa_end {
                assert(is_digit(s[mantissa_end]));
            }
        }
    }
    if int_end < to && s[int_end] == '.' {
        if mantissa_end - from >= 2 {
            assert(s[int_end] == '.');
        } else {
            if mantissa_between(s, from, mantissa_end) {
                if digits_between(s, from, mantissa_end) {
                    assert(is_digit(s[int_end]));
                }
            }
        }
    } else {
        if mantissa_between(s, from, mantissa_end) && !(int_end > from) {
        }
    }
}

impl Number {
    #[verifier::type_invariant]
    spec fn well_formed(self) -> bool {
        is_float_text(self.text@)
    }

    /// Whether `s` is a decimal text.
    pub fn is_valid(s: &str) -> (r: bool)
        ensures
            r == is_float_text(s@),
    {
        if !s.is_ascii() {
            proof {
                if is_float_text(s@) {
                    lemma_float_text_is_ascii(s@);
                }
            }
            return false;
        }
        let n = s.unicode_len();
        let from: usize = if n > 0 && is_sign_char(ascii_at(s, 0)) {
            1
        } else {
            0
        };
        is_special_from(s, n, from) || is_number_from(s, n, from)
    }

    /// The number that `s` is written for, if `s` is a decimal text.
    pub fn parse(s: &str) -> (r: Option<Number>)
        ensures
            r is Some <==> is_float_text(s@),
            r matches Some(n) ==> n@ == s@,
    {
        if Number::is_valid(s) {
            Some(Number { text: s.to_owned() })
        } else {
            None
        }
    }

    /// Zero, written `0`.
    pub fn zero() -> (r: Number)
        ensures
            r@ == zero_text(),
    {
        proof {
            reveal_strlit("0");
            assert("0"@ =~= zero_text());
            assert(digits_between(zero_text(), 0, 1));
            assert(mantissa_between(zero_text(), 0, 1));
        }
        Number { text: "0".to_owned() }
    }

    /// The text of the number.
    pub fn as_str(&self) -> (r: &str)
        ensures
            r@ == self@,
            is_float_text(r@),
    {
        proof {
            use_type_invariant(self);
        }
        self.text.as_str()
    }
}

/// What [`parse_required`] returns for the text `s`.
pub open spec fn required_number(s: Seq<char>) -> Result<Seq<char>, DecodeFailure> {
    if is_float_text(s) {
        Ok(s)
    } else {
        Err(DecodeFailure::InvalidNumber)
    }
}

/// What [`parse_optional`] returns for the text `s`, if there is one.
pub open spec fn optional_number(s: Option<Seq<char>>) -> Result<
    Option<Seq<char>>,
    DecodeFailure,
> {
    match s {
        None => Ok(None),
        Some(t) => match required_number(t) {
            Ok(n) => Ok(Some(n)),
            Err(e) => Err(e),
        },
    }
}

/// What [`parse_or_zero`] returns for the text `s`.
pub open spec fn number_or_zero(s: Seq<char>) -> Seq<char> {
    if is_float_text(s) {
        s
    } else {
        zero_text()
    }
}

/// What [`format_quantity`] returns for the number `n`.
pub open spec fn quantity_text(n: Seq<char>) -> Seq<char> {
    n
}

/// The mathematical value of a text that may be absent.
pub open spec fn optional_str_view(s: Option<&str>) -> Option<Seq<char>> {
    match s {
        Some(t) => Some(t@),
        None => None,
    }
}

/// The mathematical value of a number that may be absent.
pub open spec fn optional_view(n: Option<Number>) -> Option<Seq<char>> {
    match n {
        Some(x) => Some(x@),
        None => None,
    }
}

/// Reads a number from `s`; a text that is no number is an error.
pub fn parse_required(s: &str) -> (r: Result<Number, DecodeError>)
    ensures
        viewed_result(r) == required_number(s@),
{
    match Number::parse(s) {
        Some(n) => Ok(n),
        None => Err(DecodeError::InvalidNumber),
    }
}

/// Reads a number from `s` where there is a text; no text gives no number,
/// and a text that is no number is an error.
pub fn parse_optional(s: Option<&str>) -> (r: Result<Option<Number>, DecodeError>)
    ensures
        match r {
            Ok(n) => optional_number(optional_str_view(s)) == Ok::<
                Option<Seq<char>>,
                DecodeFailure,
            >(optional_view(n)),
            Err(e) => optional_number(optional_str_view(s)) == Err::<
                Option<Seq<char>>,
                DecodeFailure,
            >(e@),
        },
{
    match s {
        None => Ok(None),
        Some(t) => match parse_required(t) {
            Ok(n) => Ok(Some(n)),
            Err(e) => Err(e),
        },
    }
}

/// Reads a number from `s`; the empty text, and any other text that is no
/// number, gives zero.
pub fn parse_or_zero(s: &str) -> (r: Number)
    ensures
        r@ == number_or_zero(s@),
{
    match Number::parse(s) {
        Some(n) => n,
        None => Number::zero(),
    }
}

/// The text by which a quantity goes out on the wire.
pub fn format_quantity(n: &Number) -> (r: String)
    ensures
        r@ == quantity_text(n@),
{
    n.as_str().to_owned()
}

/// Every decimal text is read as a number; written out and read again, that
/// number is the number that was read first.
pub proof fn lemma_quantity_round_trip(s: Seq<char>)
    requires
        is_float_text(s),
    ensures
        required_number(s) is Ok,
        required_number(quantity_text(required_number(s)->Ok_0)) == required_number(s),
{
}

/// No text is read, and a text that is read gives a number: reading a text
/// that may be absent fails on a text that is no number, and on nothing
/// else.
pub proof fn lemma_optional_number(s: Option<Seq<char>>)
    ensures
        s is None ==> optional_number(s) == Ok::<Option<Seq<char>>, DecodeFailure>(None),
        s is Some && is_float_text(s->0) ==> optional_number(s) == Ok::<
            Option<Seq<char>>,
            DecodeFailure,
        >(s),
        s is Some && !is_float_text(s->0) ==> optional_number(s) == Err::<
            Option<Seq<char>>,
            DecodeFailure,
        >(DecodeFailure::InvalidNumber),
{
}

/// The empty text is no number, and reads as zero.
pub proof fn lemma_empty_is_zero()
    ensures
        !is_float_text(Seq::<char>::empty()),
        number_or_zero(Seq::<char>::empty()) == zero_text(),
{
    let s = Seq::<char>::empty();
    assert(!special_from(s, 0)) by {
        assert(seq!['i', 'n', 'f'].len() == 3);
        assert(seq!['i', 'n', 'f', 'i', 'n', 'i', 't', 'y'].len() == 8);
        assert(seq!['n', 'a', 'n'].len() == 3);
    }
}

} // verus!
