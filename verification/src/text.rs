//! Text as sequences of characters: comparison, splitting, trimming, numbers.
use vstd::prelude::*;

verus! {

/// The views of a sequence of strings.
pub open spec fn views(v: Seq<String>) -> Seq<Seq<char>> {
    v.map_values(|s: String| s@)
}

/// The result is an error with exactly this message.
pub open spec fn fails_with<T>(r: Result<T, String>, message: Seq<char>) -> bool {
    r matches Err(e) && e@ == message
}

/// The view of an optional string.
pub open spec fn opt_view(o: Option<String>) -> Option<Seq<char>> {
    match o {
        Some(s) => Some(s@),
        None => None,
    }
}

/// Whether two texts hold the same characters.
pub fn text_eq(a: &str, b: &str) -> (same: bool)
    ensures
        same == (a@ == b@),
{
    broadcast use vstd::utf8::encode_utf8_decode_utf8;
    let x = a.as_bytes();
    let y = b.as_bytes();
    if x.len() != y.len() {
        return false;
    }
    let mut i: usize = 0;
    while i < x.len()
        invariant
            x@ == vstd::utf8::encode_utf8(a@),
            y@ == vstd::utf8::encode_utf8(b@),
            x.len() == y.len(),
            i <= x.len(),
            forall|k: int| 0 <= k < i ==> x@[k] == y@[k],
        decreases x.len() - i,
    {
        if x[i] != y[i] {
            return false;
        }
        i = i + 1;
    }
    assert(x@ =~= y@);
    assert(vstd::utf8::decode_utf8(x@) == a@);
    assert(vstd::utf8::decode_utf8(y@) == b@);
    true
}

/// Whether an optional text is present and equal to `b`.
pub fn opt_text_eq(a: &Option<String>, b: &str) -> (same: bool)
    ensures
        same == (opt_view(*a) == Some(b@)),
{
    match a {
        Some(s) => text_eq(s.as_str(), b),
        None => false,
    }
}

/// Whether two optional texts are equal.
pub fn opt_text_same(a: &Option<String>, b: &Option<String>) -> (same: bool)
    ensures
        same == (opt_view(*a) == opt_view(*b)),
{
    match (a, b) {
        (Some(x), Some(y)) => text_eq(x.as_str(), y.as_str()),
        (None, None) => true,
        _ => false,
    }
}

/// The characters of a text.
pub fn chars_of(s: &str) -> (chars: Vec<char>)
    ensures
        chars@ == s@,
{
    let mut chars: Vec<char> = Vec::new();
    for c in it: s.chars()
        invariant
            chars@ == it.seq().take(it.index() as int),
            it.seq() == s@,
    {
        chars.push(c);
    }
    assert(chars@ =~= s@);
    chars
}

/// Unicode White_Space, the characters that separate words.
pub open spec fn is_space(c: char) -> bool {
    ||| 0x09 <= c as u32 <= 0x0d
    ||| c as u32 == 0x20
    ||| c as u32 == 0x85
    ||| c as u32 == 0xa0
    ||| c as u32 == 0x1680
    ||| 0x2000 <= c as u32 <= 0x200a
    ||| c as u32 == 0x2028
    ||| c as u32 == 0x2029
    ||| c as u32 == 0x202f
    ||| c as u32 == 0x205f
    ||| c as u32 == 0x3000
}

/// Whether a character separates words.
pub fn space(c: char) -> (r: bool)
    ensures
        r == is_space(c),
{
    let n: u32 = c as u32;
    (0x09 <= n && n <= 0x0d) || n == 0x20 || n == 0x85 || n == 0xa0 || n == 0x1680 || (0x2000 <= n
        && n <= 0x200a) || n == 0x2028 || n == 0x2029 || n == 0x202f || n == 0x205f || n == 0x3000
}

/// What is left of a text after its leading white space.
pub open spec fn trim_front(s: Seq<char>) -> Seq<char>
    decreases s.len(),
{
    if s.len() > 0 && is_space(s[0]) {
        trim_front(s.skip(1))
    } else {
        s
    }
}

/// What is left of a text before its trailing white space.
pub open spec fn trim_back(s: Seq<char>) -> Seq<char>
    decreases s.len(),
{
    if s.len() > 0 && is_space(s.last()) {
        trim_back(s.drop_last())
    } else {
        s
    }
}

/// A text without leading and trailing white space.
pub open spec fn trimmed(s: Seq<char>) -> Seq<char> {
    trim_back(trim_front(s))
}

/// The length of the run of non-space characters at the front of a text.
pub open spec fn word_len(s: Seq<char>) -> nat
    decreases s.len(),
{
    if s.len() == 0 || is_space(s[0]) {
        0
    } else {
        1 + word_len(s.skip(1))
    }
}

/// The maximal runs of non-space characters of a text, in order.
pub open spec fn words(s: Seq<char>) -> Seq<Seq<char>>
    decreases s.len(),
{
    if s.len() == 0 {
        Seq::empty()
    } else if is_space(s[0]) {
        words(s.skip(1))
    } else {
        let n = word_len(s);
        if n == 0 || n > s.len() {
            Seq::empty()
        } else {
            seq![s.take(n as int)] + words(s.skip(n as int))
        }
    }
}

proof fn lemma_word_len(s: Seq<char>, n: int)
    requires
        0 <= n <= s.len(),
        forall|k: int| 0 <= k < n ==> !is_space(s[k]),
        n == s.len() || is_space(s[n]),
    ensures
        word_len(s) == n,
    decreases s.len(),
{
    if n > 0 {
        lemma_word_len(s.skip(1), n - 1);
    }
}

proof fn lemma_trim_front(s: Seq<char>, n: int)
    requires
        0 <= n <= s.len(),
        forall|k: int| 0 <= k < n ==> is_space(s[k]),
        n == s.len() || !is_space(s[n]),
    ensures
        trim_front(s) == s.skip(n),
    decreases s.len(),
{
    if n > 0 {
        lemma_trim_front(s.skip(1), n - 1);
        assert(s.skip(1).skip(n - 1) =~= s.skip(n));
    } else {
        assert(s.skip(0) =~= s);
    }
}

proof fn lemma_trim_back(s: Seq<char>, n: int)
    requires
        0 <= n <= s.len(),
        forall|k: int| n <= k < s.len() ==> is_space(s[k]),
        n == 0 || !is_space(s[n - 1]),
    ensures
        trim_back(s) == s.take(n),
    decreases s.len(),
{
    if n < s.len() {
        lemma_trim_back(s.drop_last(), n);
        assert(s.drop_last().take(n) =~= s.take(n));
    } else {
        assert(s.take(n) =~= s);
    }
}

/// A text without leading and trailing white space.
pub fn trim(s: &str) -> (t: String)
    ensures
        t@ == trimmed(s@),
{
    let chars = chars_of(s);
    let mut from: usize = 0;
    while from < chars.len() && space(chars[from])
        invariant
            from <= chars.len(),
            forall|k: int| 0 <= k < from ==> is_space(chars@[k]),
        decreases chars.len() - from,
    {
        from = from + 1;
    }
    let mut to: usize = chars.len();
    while to > from && space(chars[to - 1])
        invariant
            from <= to <= chars.len(),
            forall|k: int| to <= k < chars.len() ==> is_space(chars@[k]),
        decreases to,
    {
        to = to - 1;
    }
    proof {
        lemma_trim_front(s@, from as int);
        lemma_trim_back(s@.skip(from as int), to - from);
        assert(s@.skip(from as int).take(to - from) =~= s@.subrange(from as int, to as int));
    }
    s.substring_char(from, to).to_owned()
}

/// The words of a text.
pub fn split_words(s: &str) -> (out: Vec<String>)
    ensures
        views(out@) == words(s@),
{
    let chars = chars_of(s);
    let mut out: Vec<String> = Vec::new();
    let mut i: usize = 0;
    assert(s@.skip(0) =~= s@);
    assert(views(out@) + words(s@) =~= words(s@));
    while i < chars.len()
        invariant
            chars@ == s@,
            i <= chars.len(),
            views(out@) + words(s@.skip(i as int)) == words(s@),
        decreases chars.len() - i,
    {
        assert(s@.skip(i as int).skip(1) =~= s@.skip(i + 1));
        if space(chars[i]) {
            i = i + 1;
        } else {
            let mut j: usize = i;
            while j < chars.len() && !space(chars[j])
                invariant
                    chars@ == s@,
                    i <= j <= chars.len(),
                    forall|k: int| i <= k < j ==> !is_space(chars@[k]),
                decreases chars.len() - j,
            {
                j = j + 1;
            }
            let ghost rest = s@.skip(i as int);
            let ghost before = out@;
            proof {
                lemma_word_len(rest, j - i);
                assert(rest.take(j - i) =~= s@.subrange(i as int, j as int));
                assert(rest.skip(j - i) =~= s@.skip(j as int));
            }
            out.push(s.substring_char(i, j).to_owned());
            proof {
                assert(views(out@) =~= views(before).push(s@.subrange(i as int, j as int)));
                assert(views(before) + (seq![rest.take(j - i)] + words(s@.skip(j as int)))
                    =~= views(out@) + words(s@.skip(j as int)));
            }
            i = j;
        }
    }
    assert(s@.skip(i as int) =~= Seq::<char>::empty());
    assert(views(out@) + Seq::<Seq<char>>::empty() =~= views(out@));
    out
}

/// How many characters stand before the first `sep`.
pub open spec fn until(s: Seq<char>, sep: char) -> nat
    decreases s.len(),
{
    if s.len() == 0 || s[0] == sep {
        0
    } else {
        1 + until(s.skip(1), sep)
    }
}

/// The pieces of a text between separators: one more than there are separators.
pub open spec fn pieces(s: Seq<char>, sep: char) -> Seq<Seq<char>>
    decreases s.len(),
{
    let n = until(s, sep);
    if n >= s.len() {
        seq![s]
    } else {
        seq![s.take(n as int)] + pieces(s.skip(n as int + 1), sep)
    }
}

pub proof fn lemma_until(s: Seq<char>, sep: char, n: int)
    requires
        0 <= n <= s.len(),
        forall|k: int| 0 <= k < n ==> s[k] != sep,
        n == s.len() || s[n] == sep,
    ensures
        until(s, sep) == n,
    decreases s.len(),
{
    if n > 0 {
        lemma_until(s.skip(1), sep, n - 1);
    }
}

/// The pieces of a text between separators.
pub fn split_on(s: &str, sep: char) -> (out: Vec<String>)
    ensures
        views(out@) == pieces(s@, sep),
        out@.len() >= 1,
{
    let chars = chars_of(s);
    let mut out: Vec<String> = Vec::new();
    let mut from: usize = 0;
    let mut i: usize = 0;
    assert(s@.skip(0) =~= s@);
    assert(views(out@) + pieces(s@, sep) =~= pieces(s@, sep));
    while i < chars.len()
        invariant
            chars@ == s@,
            from <= i <= chars.len(),
            forall|k: int| from <= k < i ==> chars@[k] != sep,
            views(out@) + pieces(s@.skip(from as int), sep) == pieces(s@, sep),
        decreases chars.len() - i,
    {
        if chars[i] == sep {
            let ghost rest = s@.skip(from as int);
            let ghost before = out@;
            proof {
                lemma_until(rest, sep, i - from);
                assert(rest.take(i - from) =~= s@.subrange(from as int, i as int));
                assert(rest.skip(i - from + 1) =~= s@.skip(i + 1));
            }
            out.push(s.substring_char(from, i).to_owned());
            proof {
                assert(views(out@) =~= views(before).push(s@.subrange(from as int, i as int)));
                assert(views(before) + (seq![rest.take(i - from)] + pieces(s@.skip(i + 1), sep))
                    =~= views(out@) + pieces(s@.skip(i + 1), sep));
            }
            from = i + 1;
        }
        i = i + 1;
    }
    let ghost rest = s@.skip(from as int);
    let ghost before = out@;
    proof {
        lemma_until(rest, sep, i - from);
        assert(rest =~= s@.subrange(from as int, i as int));
    }
    out.push(s.substring_char(from, i).to_owned());
    assert(views(out@) =~= views(before) + seq![rest]);
    out
}

/// Whether `pattern` occurs in `s` at `at`.
pub open spec fn occurs_at(s: Seq<char>, pattern: Seq<char>, at: int) -> bool {
    0 <= at && at + pattern.len() <= s.len() && s.subrange(at, at + pattern.len()) == pattern
}

/// Whether `pattern` occurs somewhere in `s`.
pub open spec fn occurs(s: Seq<char>, pattern: Seq<char>) -> bool {
    exists|at: int| #[trigger] occurs_at(s, pattern, at)
}

fn match_at(s: &Vec<char>, pattern: &Vec<char>, at: usize) -> (r: bool)
    requires
        at + pattern@.len() <= s@.len(),
    ensures
        r == occurs_at(s@, pattern@, at as int),
{
    let mut i: usize = 0;
    while i < pattern.len()
        invariant
            at + pattern@.len() <= s.len(),
            i <= pattern.len(),
            forall|k: int| 0 <= k < i ==> s@[at + k] == pattern@[k],
        decreases pattern.len() - i,
    {
        if s[at + i] != pattern[i] {
            assert(s@.subrange(at as int, at + pattern@.len())[i as int] != pattern@[i as int]);
            return false;
        }
        i = i + 1;
    }
    assert(s@.subrange(at as int, at + pattern@.len()) =~= pattern@);
    true
}

/// Whether `pattern` occurs somewhere in `s`.
pub fn contains_text(s: &str, pattern: &str) -> (r: bool)
    ensures
        r == occurs(s@, pattern@),
{
    let text = chars_of(s);
    let wanted = chars_of(pattern);
    if wanted.len() > text.len() {
        return false;
    }
    let mut at: usize = 0;
    while at <= text.len() - wanted.len()
        invariant
            text@ == s@,
            wanted@ == pattern@,
            wanted@.len() <= text@.len(),
            at <= text@.len() - wanted@.len() + 1,
            forall|k: int| 0 <= k < at ==> !#[trigger] occurs_at(s@, pattern@, k),
        decreases text.len() - wanted.len() + 1 - at,
    {
        if match_at(&text, &wanted, at) {
            return true;
        }
        if at == text.len() - wanted.len() {
            return false;
        }
        at = at + 1;
    }
    false
}

/// The text after `prefix`, when the text starts with it.
pub open spec fn after_prefix(s: Seq<char>, prefix: Seq<char>) -> Option<Seq<char>> {
    if occurs_at(s, prefix, 0) {
        Some(s.skip(prefix.len() as int))
    } else {
        None
    }
}

/// Removes a prefix, when the text starts with it.
pub fn strip_prefix(s: &str, prefix: &str) -> (r: Option<String>)
    ensures
        opt_view(r) == after_prefix(s@, prefix@),
{
    let text = chars_of(s);
    let wanted = chars_of(prefix);
    if wanted.len() > text.len() || !match_at(&text, &wanted, 0) {
        return None;
    }
    assert(s@.subrange(wanted.len() as int, text.len() as int) =~= s@.skip(prefix@.len() as int));
    Some(s.substring_char(wanted.len(), text.len()).to_owned())
}

/// Whether a text ends with `suffix`.
pub open spec fn has_suffix(s: Seq<char>, suffix: Seq<char>) -> bool {
    occurs_at(s, suffix, s.len() - suffix.len())
}

/// Whether a text ends with `suffix`.
pub fn ends_with(s: &str, suffix: &str) -> (r: bool)
    ensures
        r == has_suffix(s@, suffix@),
{
    let text = chars_of(s);
    let wanted = chars_of(suffix);
    if wanted.len() > text.len() {
        return false;
    }
    match_at(&text, &wanted, text.len() - wanted.len())
}

/// Whether a character occurs in a text.
pub fn contains_char(s: &str, c: char) -> (r: bool)
    ensures
        r == s@.contains(c),
{
    let text = chars_of(s);
    let mut i: usize = 0;
    while i < text.len()
        invariant
            text@ == s@,
            i <= text.len(),
            forall|k: int| 0 <= k < i ==> text@[k] != c,
        decreases text.len() - i,
    {
        if text[i] == c {
            return true;
        }
        i = i + 1;
    }
    false
}

/// One decimal digit.
pub open spec fn digit(n: nat) -> Seq<char> {
    seq![(('0' as u32) + n) as char]
}

/// A natural number in decimal notation.
pub open spec fn decimal(n: nat) -> Seq<char>
    decreases n,
{
    if n < 10 {
        digit(n)
    } else {
        decimal(n / 10) + digit(n % 10)
    }
}

fn digit_text(n: u128) -> (s: &'static str)
    requires
        n < 10,
    ensures
        s@ == digit(n as nat),
{
    proof {
        reveal_strlit("0");
        reveal_strlit("1");
        reveal_strlit("2");
        reveal_strlit("3");
        reveal_strlit("4");
        reveal_strlit("5");
        reveal_strlit("6");
        reveal_strlit("7");
        reveal_strlit("8");
        reveal_strlit("9");
    }
    let s: &'static str = if n == 0 {
        "0"
    } else if n == 1 {
        "1"
    } else if n == 2 {
        "2"
    } else if n == 3 {
        "3"
    } else if n == 4 {
        "4"
    } else if n == 5 {
        "5"
    } else if n == 6 {
        "6"
    } else if n == 7 {
        "7"
    } else if n == 8 {
        "8"
    } else {
        "9"
    };
    assert(s@ =~= digit(n as nat));
    s
}

/// A number in decimal notation.
pub fn decimal_text(n: u128) -> (s: String)
    ensures
        s@ == decimal(n as nat),
    decreases n,
{
    if n < 10 {
        digit_text(n).to_owned()
    } else {
        decimal_text(n / 10).concat(digit_text(n % 10))
    }
}

/// A signed number in decimal notation.
pub open spec fn signed_decimal(n: int) -> Seq<char> {
    if n < 0 {
        "-"@ + decimal((-n) as nat)
    } else {
        decimal(n as nat)
    }
}

/// A signed number in decimal notation.
pub fn signed_decimal_text(n: i64) -> (s: String)
    ensures
        s@ == signed_decimal(n as int),
{
    if n < 0 {
        let magnitude: u128 = (-(n as i128)) as u128;
        "-".to_owned().concat(decimal_text(magnitude).as_str())
    } else {
        decimal_text(n as u128)
    }
}

/// The number that a run of decimal digits denotes.
pub open spec fn digits_value(s: Seq<char>) -> nat
    decreases s.len(),
{
    if s.len() == 0 {
        0
    } else {
        digits_value(s.drop_last()) * 10 + (s.last() as u32 - '0' as u32) as nat
    }
}

pub open spec fn is_digit(c: char) -> bool {
    '0' as u32 <= c as u32 <= '9' as u32
}

/// Whether a text holds decimal digits only.
pub open spec fn all_digits(s: Seq<char>) -> bool {
    forall|i: int| 0 <= i < s.len() ==> is_digit(#[trigger] s[i])
}

/// The value of a text as an unsigned integer of at most `max`: an optional
/// plus sign, then decimal digits only.
pub open spec fn unsigned_value(s: Seq<char>, max: nat) -> Option<nat> {
    let digits = if s.len() > 0 && s[0] == '+' {
        s.skip(1)
    } else {
        s
    };
    if digits.len() > 0 && all_digits(digits) && digits_value(digits) <= max {
        Some(digits_value(digits))
    } else {
        None
    }
}

/// An optional number in messages.
pub open spec fn opt_number(n: Option<u64>) -> Seq<char> {
    match n {
        None => "None"@,
        Some(v) => "Some("@ + decimal(v as nat) + ")"@,
    }
}

/// An optional number in messages.
pub fn opt_number_text(n: Option<u64>) -> (s: String)
    ensures
        s@ == opt_number(n),
{
    match n {
        None => "None".to_owned(),
        Some(v) => "Some(".to_owned().concat(decimal_text(v as u128).as_str()).concat(")"),
    }
}

/// The outcome of a function that returns a text or fails with a message.
pub open spec fn outcome(r: Result<String, String>) -> Result<Seq<char>, Seq<char>> {
    match r {
        Ok(text) => Ok(text@),
        Err(error) => Err(error@),
    }
}

/// The outcomes of several such calls.
pub open spec fn outcomes(readings: Seq<Result<String, String>>) -> Seq<
    Result<Seq<char>, Seq<char>>,
> {
    readings.map_values(|r: Result<String, String>| outcome(r))
}

/// A text that is one word is its own only word.
pub proof fn lemma_words_of_word(w: Seq<char>)
    requires
        w.len() > 0,
        forall|k: int| 0 <= k < w.len() ==> !is_space(#[trigger] w[k]),
    ensures
        words(w) == seq![w],
{
    lemma_word_len(w, w.len() as int);
    assert(w.take(w.len() as int) =~= w);
    assert(w.skip(w.len() as int) =~= Seq::<char>::empty());
    assert(words(Seq::<char>::empty()) =~= Seq::<Seq<char>>::empty());
    assert(seq![w] + Seq::<Seq<char>>::empty() =~= seq![w]);
}

/// Two words with a space between them are the words of the text.
pub proof fn lemma_words_of_pair(a: Seq<char>, b: Seq<char>)
    requires
        a.len() > 0,
        b.len() > 0,
        forall|k: int| 0 <= k < a.len() ==> !is_space(#[trigger] a[k]),
        forall|k: int| 0 <= k < b.len() ==> !is_space(#[trigger] b[k]),
    ensures
        words(a + " "@ + b) == seq![a, b],
{
    reveal_strlit(" ");
    let s = a + " "@ + b;
    lemma_word_len(s, a.len() as int);
    assert(s.take(a.len() as int) =~= a);
    let rest = s.skip(a.len() as int);
    assert(rest.skip(1) =~= b);
    assert(is_space(rest[0]));
    lemma_words_of_word(b);
    assert(words(rest) == words(b));
    assert(seq![a] + seq![b] =~= seq![a, b]);
}

/// Every word is a non-empty run of non-space characters.
pub proof fn lemma_words_are_words(s: Seq<char>, i: int)
    requires
        0 <= i < words(s).len(),
    ensures
        words(s)[i].len() > 0,
        forall|k: int| 0 <= k < words(s)[i].len() ==> !is_space(#[trigger] words(s)[i][k]),
    decreases s.len(),
{
    if s.len() == 0 {
    } else if is_space(s[0]) {
        lemma_words_are_words(s.skip(1), i);
    } else {
        let n = word_len(s);
        lemma_word_run(s);
        if i > 0 {
            lemma_words_are_words(s.skip(n as int), i - 1);
            assert(words(s)[i] == words(s.skip(n as int))[i - 1]);
        } else {
            assert(words(s)[0] == s.take(n as int));
        }
    }
}

proof fn lemma_word_run(s: Seq<char>)
    ensures
        word_len(s) <= s.len(),
        forall|k: int| 0 <= k < word_len(s) ==> !is_space(#[trigger] s[k]),
    decreases s.len(),
{
    if s.len() > 0 && !is_space(s[0]) {
        lemma_word_run(s.skip(1));
        assert forall|k: int| 0 <= k < word_len(s) implies !is_space(#[trigger] s[k]) by {
            if k > 0 {
                assert(s[k] == s.skip(1)[k - 1]);
            }
        }
    }
}

/// A line without the carriage return before its end.
pub open spec fn without_return(line: Seq<char>) -> Seq<char> {
    if line.len() > 0 && line.last() == '\r' {
        line.drop_last()
    } else {
        line
    }
}

/// The lines of a text: what stands before each newline, without a carriage
/// return, and what stands after the last one, if anything does.
pub open spec fn lines_of(s: Seq<char>) -> Seq<Seq<char>> {
    let parts = pieces(s, '\n');
    let ended = parts.drop_last().map_values(|line: Seq<char>| without_return(line));
    if parts.last().len() == 0 {
        ended
    } else {
        ended.push(parts.last())
    }
}

fn drop_return(line: &str) -> (r: String)
    ensures
        r@ == without_return(line@),
{
    let chars = chars_of(line);
    if chars.len() > 0 && chars[chars.len() - 1] == '\r' {
        assert(line@.subrange(0, chars.len() - 1) =~= line@.drop_last());
        line.substring_char(0, chars.len() - 1).to_owned()
    } else {
        line.to_owned()
    }
}

/// The lines of a text.
pub fn split_lines(s: &str) -> (out: Vec<String>)
    ensures
        views(out@) == lines_of(s@),
{
    let parts = split_on(s, '\n');
    let ghost all = pieces(s@, '\n');
    assert(all.len() == parts@.len());
    let last: usize = parts.len() - 1;
    let mut out: Vec<String> = Vec::new();
    let mut i: usize = 0;
    while i < last
        invariant
            all == views(parts@),
            last == parts@.len() - 1,
            i <= last,
            out@.len() == i,
            forall|k: int| 0 <= k < i ==> (#[trigger] out@[k])@ == without_return(all[k]),
        decreases last - i,
    {
        assert(all[i as int] == parts@[i as int]@);
        out.push(drop_return(parts[i].as_str()));
        i = i + 1;
    }
    let ghost ended = all.drop_last().map_values(|line: Seq<char>| without_return(line));
    assert(views(out@) =~= ended);
    assert(all.last() == parts@[last as int]@);
    if !parts[last].as_str().is_empty() {
        let ghost before = out@;
        out.push(parts[last].clone());
        assert(views(out@) =~= ended.push(all.last()));
    }
    out
}

/// Where `pattern` first occurs in `s`, looking from `from` on.
pub open spec fn first_occurrence(s: Seq<char>, pattern: Seq<char>, from: int) -> Option<int>
    decreases s.len() - from + 1,
{
    if from < 0 || from + pattern.len() > s.len() {
        None
    } else if occurs_at(s, pattern, from) {
        Some(from)
    } else {
        first_occurrence(s, pattern, from + 1)
    }
}

/// What stands before and after the first `separator` of a text.
pub open spec fn split_once_spec(s: Seq<char>, separator: Seq<char>) -> Option<
    (Seq<char>, Seq<char>),
> {
    match first_occurrence(s, separator, 0) {
        None => None,
        Some(at) => Some((s.take(at), s.skip(at + separator.len()))),
    }
}

/// What stands before and after the first `separator` of a text.
pub fn split_once(s: &str, separator: &str) -> (r: Option<(String, String)>)
    ensures
        match r {
            None => split_once_spec(s@, separator@) is None,
            Some((before, after)) => split_once_spec(s@, separator@) == Some((before@, after@)),
        },
{
    let text = chars_of(s);
    let wanted = chars_of(separator);
    let mut at: usize = 0;
    while wanted.len() <= text.len() && at <= text.len() - wanted.len()
        invariant
            text@ == s@,
            wanted@ == separator@,
            first_occurrence(s@, separator@, at as int) == first_occurrence(s@, separator@, 0),
            at <= text@.len() + 1,
        decreases text.len() + 1 - at,
    {
        if match_at(&text, &wanted, at) {
            assert(s@.subrange(0, at as int) =~= s@.take(at as int));
            assert(s@.subrange(at + wanted.len(), text.len() as int) =~= s@.skip(
                at + wanted.len() as int,
            ));
            return Some(
                (
                    s.substring_char(0, at).to_owned(),
                    s.substring_char(at + wanted.len(), text.len()).to_owned(),
                ),
            );
        }
        if at == text.len() {
            assert(first_occurrence(s@, separator@, at + 1) is None);
            return None;
        }
        at = at + 1;
    }
    None
}

/// The message with which parsing this text as a `u64` fails.
pub uninterp spec fn parse_u64_message(s: Seq<char>) -> Seq<char>;

/// Calls `str::parse::<u64>`: an optional plus sign followed by decimal digits
/// whose value fits is accepted, everything else is an error, whose
/// displayed text is named `parse_u64_message`.
#[verifier::external_body]
pub(crate) fn parse_u64(s: &str) -> (r: Result<u64, String>)
    ensures
        match unsigned_value(s@, u64::MAX as nat) {
            Some(v) => r matches Ok(n) && n == v,
            None => fails_with(r, parse_u64_message(s@)),
        },
{
    s.parse::<u64>().map_err(|error| error.to_string())
}

/// The quoted form of a text in messages.
pub uninterp spec fn quoted(s: Seq<char>) -> Seq<char>;

/// Formats a text with std's `Debug` for `str`; the result is named `quoted`.
#[verifier::external_body]
pub(crate) fn quote(s: &str) -> (r: String)
    ensures
        r@ == quoted(s@),
{
    format!("{:?}", s)
}

/// A list of pairs of texts in messages.
pub uninterp spec fn listed_pairs(pairs: Seq<(Seq<char>, Seq<char>)>) -> Seq<char>;

/// The contents of a list of pairs of texts.
pub open spec fn pair_views(pairs: Seq<(String, String)>) -> Seq<(Seq<char>, Seq<char>)> {
    pairs.map_values(|pair: (String, String)| (pair.0@, pair.1@))
}

/// Formats a list with std's `Debug` for `Vec`; the result is named
/// `listed_pairs`.
#[verifier::external_body]
pub(crate) fn list_pairs(pairs: &Vec<(String, String)>) -> (r: String)
    ensures
        r@ == listed_pairs(pair_views(pairs@)),
{
    format!("{:?}", pairs)
}

/// The value of a text as a signed integer between `min` and `max`: an optional
/// sign, then decimal digits only.
pub open spec fn signed_value(s: Seq<char>, min: int, max: int) -> Option<int> {
    if s.len() > 0 && s[0] == '-' {
        let digits = s.skip(1);
        if digits.len() > 0 && all_digits(digits) && -digits_value(digits) >= min {
            Some(-digits_value(digits))
        } else {
            None
        }
    } else {
        match unsigned_value(s, max as nat) {
            None => None,
            Some(v) => Some(v as int),
        }
    }
}

/// The message with which parsing this text as a `u32` fails.
pub uninterp spec fn parse_u32_message(s: Seq<char>) -> Seq<char>;

/// Calls `str::parse::<u32>`: an optional plus sign followed by decimal digits
/// whose value fits is accepted, everything else is an error, whose displayed
/// text is named `parse_u32_message`.
#[verifier::external_body]
pub(crate) fn parse_u32(s: &str) -> (r: Result<u32, String>)
    ensures
        match unsigned_value(s@, u32::MAX as nat) {
            Some(v) => r matches Ok(n) && n == v,
            None => fails_with(r, parse_u32_message(s@)),
        },
{
    s.parse::<u32>().map_err(|error| error.to_string())
}

/// The message with which parsing this text as an `i32` fails.
pub uninterp spec fn parse_i32_message(s: Seq<char>) -> Seq<char>;

/// Calls `str::parse::<i32>`: an optional sign followed by decimal digits whose
/// value fits is accepted, everything else is an error, whose displayed text
/// is named `parse_i32_message`.
#[verifier::external_body]
pub(crate) fn parse_i32(s: &str) -> (r: Result<i32, String>)
    ensures
        match signed_value(s@, i32::MIN as int, i32::MAX as int) {
            Some(v) => r matches Ok(n) && n == v,
            None => fails_with(r, parse_i32_message(s@)),
        },
{
    s.parse::<i32>().map_err(|error| error.to_string())
}

/// The message with which these bytes fail to be UTF-8.
pub uninterp spec fn utf8_message(bytes: Seq<u8>) -> Seq<char>;

/// Calls `std::str::from_utf8`: valid UTF-8 gives the text that it encodes,
/// everything else is an error, whose displayed text is named `utf8_message`.
#[verifier::external_body]
pub(crate) fn utf8_text(bytes: &[u8]) -> (r: Result<String, String>)
    ensures
        if vstd::utf8::valid_utf8(bytes@) {
            r matches Ok(text) && text@ == vstd::utf8::decode_utf8(bytes@)
        } else {
            fails_with(r, utf8_message(bytes@))
        },
{
    std::str::from_utf8(bytes).map(|text| text.to_owned()).map_err(|error| error.to_string())
}

/// What follows the last `c` of a text.
pub open spec fn after_last_spec(s: Seq<char>, c: char) -> Option<Seq<char>>
    decreases s.len(),
{
    if s.len() == 0 {
        None
    } else if s.last() == c {
        Some(Seq::empty())
    } else {
        match after_last_spec(s.drop_last(), c) {
            None => None,
            Some(rest) => Some(rest.push(s.last())),
        }
    }
}

proof fn lemma_after_last(s: Seq<char>, c: char, at: int)
    requires
        0 <= at < s.len(),
        s[at] == c,
        forall|k: int| at < k < s.len() ==> s[k] != c,
    ensures
        after_last_spec(s, c) == Some(s.skip(at + 1)),
    decreases s.len(),
{
    if at == s.len() - 1 {
        assert(s.skip(at + 1) =~= Seq::empty());
    } else {
        lemma_after_last(s.drop_last(), c, at);
        assert(s.drop_last().skip(at + 1).push(s.last()) =~= s.skip(at + 1));
    }
}

proof fn lemma_after_last_none(s: Seq<char>, c: char)
    requires
        forall|k: int| 0 <= k < s.len() ==> s[k] != c,
    ensures
        after_last_spec(s, c) is None,
    decreases s.len(),
{
    if s.len() > 0 {
        lemma_after_last_none(s.drop_last(), c);
    }
}

/// What follows the last `c` of a text.
pub fn after_last(s: &str, c: char) -> (r: Option<String>)
    ensures
        opt_view(r) == after_last_spec(s@, c),
{
    let text = chars_of(s);
    let mut i: usize = text.len();
    while i > 0
        invariant
            text@ == s@,
            i <= text.len(),
            forall|k: int| i <= k < text.len() ==> text@[k] != c,
        decreases i,
    {
        if text[i - 1] == c {
            proof {
                lemma_after_last(s@, c, i - 1);
                assert(s@.subrange(i as int, text.len() as int) =~= s@.skip(i as int));
            }
            return Some(s.substring_char(i, text.len()).to_owned());
        }
        i = i - 1;
    }
    proof {
        lemma_after_last_none(s@, c);
    }
    None
}

/// A number is written with digits only, none of them leading, and reads back
/// as the number that was written.
pub proof fn law_numbers_read_back(n: nat)
    ensures
        decimal(n).len() > 0,
        all_digits(decimal(n)),
        digits_value(decimal(n)) == n,
        n > 0 ==> decimal(n)[0] != '0',
    decreases n,
{
    if n < 10 {
        let text = digit(n);
        assert(text.drop_last() =~= Seq::<char>::empty());
        assert(digits_value(text.drop_last()) == 0);
        assert(text.last() as u32 - '0' as u32 == n);
    } else {
        law_numbers_read_back(n / 10);
        let text = decimal(n);
        let head = decimal(n / 10);
        assert(text.drop_last() =~= head);
        assert(text.last() as u32 - '0' as u32 == n % 10);
        assert forall|i: int| 0 <= i < text.len() implies is_digit(#[trigger] text[i]) by {
            if i < head.len() {
                assert(text[i] == head[i]);
            }
        }
        assert(text[0] == head[0]);
    }
}

/// A written number within its bounds is read as the number that it was, with
/// its sign; anything else around it is no number.
pub proof fn law_written_numbers_are_read(n: int, max: nat, min: int)
    requires
        min <= n <= max,
    ensures
        n >= 0 ==> unsigned_value(signed_decimal(n), max) == Some(n as nat),
        signed_value(signed_decimal(n), min, max as int) == Some(n),
        unsigned_value(Seq::empty(), max) is None,
{
    if n >= 0 {
        law_numbers_read_back(n as nat);
        let text = decimal(n as nat);
        assert(is_digit(text[0]));
    } else {
        law_numbers_read_back((-n) as nat);
        reveal_strlit("-");
        let text = signed_decimal(n);
        assert(text[0] == '-');
        assert(text.skip(1) =~= decimal((-n) as nat));
    }
}

/// A text is cut at every separator and nowhere else: a piece without one is a
/// piece of its own, and what follows the separator is cut in the same way.
pub proof fn law_texts_are_cut_at_separators(a: Seq<char>, b: Seq<char>, sep: char)
    requires
        !a.contains(sep),
    ensures
        pieces(a, sep) == seq![a],
        pieces(a + seq![sep] + b, sep) == seq![a] + pieces(b, sep),
{
    lemma_until_end(a, sep);
    let whole = a + seq![sep] + b;
    lemma_until_at(a, b, sep);
    assert(whole.take(a.len() as int) =~= a);
    assert(whole.skip(a.len() as int + 1) =~= b);
}

proof fn lemma_until_end(a: Seq<char>, sep: char)
    requires
        !a.contains(sep),
    ensures
        until(a, sep) == a.len(),
    decreases a.len(),
{
    if a.len() > 0 {
        assert(a.contains(a[0]));
        assert forall|i: int| 0 <= i < a.skip(1).len() implies a.skip(1)[i] != sep by {
            assert(a.contains(a[i + 1]));
        }
        lemma_until_end(a.skip(1), sep);
    }
}

proof fn lemma_until_at(a: Seq<char>, b: Seq<char>, sep: char)
    requires
        !a.contains(sep),
    ensures
        until(a + seq![sep] + b, sep) == a.len(),
    decreases a.len(),
{
    let whole = a + seq![sep] + b;
    if a.len() > 0 {
        assert(a.contains(a[0]));
        assert(whole[0] == a[0]);
        assert forall|i: int| 0 <= i < a.skip(1).len() implies a.skip(1)[i] != sep by {
            assert(a.contains(a[i + 1]));
        }
        lemma_until_at(a.skip(1), b, sep);
        assert(whole.skip(1) =~= a.skip(1) + seq![sep] + b);
    } else {
        assert(whole[0] == sep);
    }
}

/// A text that is split once is split at the first separator: both sides and
/// the separator between them make it up again.
pub proof fn law_texts_are_split_at_the_first(s: Seq<char>, separator: Seq<char>)
    ensures
        split_once_spec(s, separator) matches Some((before, after)) ==> s == before + separator
            + after,
        split_once_spec(s, separator) matches Some((before, after)) ==> forall|at: int|
            0 <= at < before.len() ==> !#[trigger] occurs_at(s, separator, at),
        split_once_spec(s, separator) is None ==> !occurs(s, separator),
{
    lemma_first_occurrence(s, separator, 0);
    match split_once_spec(s, separator) {
        Some((before, after)) => {
            let at = first_occurrence(s, separator, 0)->0;
            assert(s.subrange(at, at + separator.len()) == separator);
            assert(s =~= before + separator + after);
        },
        None => {},
    }
}

proof fn lemma_first_occurrence(s: Seq<char>, pattern: Seq<char>, from: int)
    requires
        0 <= from,
    ensures
        first_occurrence(s, pattern, from) matches Some(at) ==> from <= at && occurs_at(
            s,
            pattern,
            at,
        ) && forall|k: int| from <= k < at ==> !#[trigger] occurs_at(s, pattern, k),
        first_occurrence(s, pattern, from) is None ==> forall|k: int|
            from <= k ==> !#[trigger] occurs_at(s, pattern, k),
    decreases s.len() - from + 1,
{
    if from + pattern.len() <= s.len() && !occurs_at(s, pattern, from) {
        lemma_first_occurrence(s, pattern, from + 1);
    }
}

/// What follows the last of a character is all that follows it, and holds no
/// further one.
pub proof fn law_rest_follows_the_last(head: Seq<char>, rest: Seq<char>, c: char)
    requires
        !rest.contains(c),
    ensures
        after_last_spec(head.push(c) + rest, c) == Some(rest),
    decreases rest.len(),
{
    let whole = head.push(c) + rest;
    if rest.len() > 0 {
        assert(rest.contains(rest.last()));
        assert forall|i: int| 0 <= i < rest.drop_last().len() implies rest.drop_last()[i] != c by {
            assert(rest.contains(rest[i]));
        }
        law_rest_follows_the_last(head, rest.drop_last(), c);
        assert(whole.drop_last() =~= head.push(c) + rest.drop_last());
        assert(whole.last() == rest.last());
        assert(rest.drop_last().push(rest.last()) =~= rest);
    } else {
        assert(whole.last() == c);
        assert(rest =~= Seq::empty());
    }
}

/// Blanks around a text go, and nothing else: what is left neither begins nor
/// ends with one, and a text that does neither stays as it is.
pub proof fn law_blanks_are_trimmed(s: Seq<char>)
    ensures
        trimmed(s).len() > 0 ==> !is_space(trimmed(s)[0]) && !is_space(trimmed(s).last()),
        s.len() > 0 && !is_space(s[0]) && !is_space(s.last()) ==> trimmed(s) == s,
{
    lemma_front_is_no_space(s);
    lemma_back_is_no_space(trim_front(s));
}

proof fn lemma_front_is_no_space(s: Seq<char>)
    ensures
        trim_front(s).len() > 0 ==> !is_space(trim_front(s)[0]),
    decreases s.len(),
{
    if s.len() > 0 && is_space(s[0]) {
        lemma_front_is_no_space(s.skip(1));
    }
}

proof fn lemma_back_is_no_space(s: Seq<char>)
    ensures
        trim_back(s).len() > 0 ==> !is_space(trim_back(s).last()) && trim_back(s)[0] == s[0],
    decreases s.len(),
{
    if s.len() > 0 && is_space(s.last()) {
        lemma_back_is_no_space(s.drop_last());
    }
}

/// A text without its prefix, and one that ends as it was made to end.
pub proof fn law_prefix_and_suffix_are_found(a: Seq<char>, b: Seq<char>)
    ensures
        after_prefix(a + b, a) == Some(b),
        has_suffix(a + b, b),
        occurs(a + b, a),
        occurs(a + b, b),
{
    let whole = a + b;
    assert(whole.subrange(0, a.len() as int) =~= a);
    assert(whole.skip(a.len() as int) =~= b);
    assert(whole.subrange(a.len() as int, whole.len() as int) =~= b);
    assert(occurs_at(whole, a, 0));
    assert(occurs_at(whole, b, a.len() as int));
}

/// A line ends with its line feed, which is not part of it, and neither is a
/// carriage return before it; a last line needs none.
pub proof fn law_lines_end_with_a_line_feed(line: Seq<char>, rest: Seq<char>)
    requires
        !line.contains('\n'),
    ensures
        lines_of(Seq::empty()).len() == 0,
        line.len() > 0 ==> lines_of(line) == seq![line],
        lines_of(line + seq!['\n']) == seq![
            if line.len() > 0 && line.last() == '\r' {
                line.drop_last()
            } else {
                line
            },
        ],
        lines_of(line + seq!['\n'] + rest) == seq![
            if line.len() > 0 && line.last() == '\r' {
                line.drop_last()
            } else {
                line
            },
        ] + lines_of(rest),
{
    lemma_lines_step(line, rest);
    lemma_lines_step(line, Seq::empty());
    let nothing = Seq::<char>::empty();
    assert(!nothing.contains('\n'));
    law_texts_are_cut_at_separators(nothing, nothing, '\n');
    assert(lines_of(nothing) =~= Seq::empty());
    assert(line + seq!['\n'] + nothing =~= line + seq!['\n']);
    law_texts_are_cut_at_separators(line, rest, '\n');
    if line.len() > 0 {
        assert(lines_of(line) =~= seq![line]);
    }
}

proof fn lemma_lines_step(line: Seq<char>, rest: Seq<char>)
    requires
        !line.contains('\n'),
    ensures
        lines_of(line + seq!['\n'] + rest) == seq![without_return(line)] + lines_of(rest),
{
    law_texts_are_cut_at_separators(line, rest, '\n');
    let parts = pieces(rest, '\n');
    let all = pieces(line + seq!['\n'] + rest, '\n');
    assert(parts.len() >= 1) by {
        reveal_with_fuel(pieces, 2);
    }
    assert(all.last() == parts.last());
    assert(all.drop_last() =~= seq![line] + parts.drop_last());
    assert(lines_of(line + seq!['\n'] + rest) =~= seq![without_return(line)] + lines_of(rest));
}

} // verus!
