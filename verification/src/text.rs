//! Character-level text helpers: control-character filtering for committed
//! text and the sanitization rules of single-line and multiline inputs.
use vstd::prelude::*;
use vstd::string::*;

verus! {

/// Whether `c` is in the Unicode general category Cc (control codes):
/// U+0000..=U+001F and U+007F..=U+009F.
pub open spec fn is_control_char(c: char) -> bool {
    (c as u32) <= 0x1f || (0x7f <= (c as u32) && (c as u32) <= 0x9f)
}

/// Whether `c` is a control character (general category Cc).
pub fn char_is_control(c: char) -> (control: bool)
    ensures
        control == is_control_char(c),
{
    let code = c as u32;
    code <= 0x1f || (0x7f <= code && code <= 0x9f)
}

/// Appends one character to a `String`.
///
/// Calls `String::push`, which appends the character at the end of the
/// string; the contract states exactly that.
#[verifier::external_body]
pub(crate) fn push_char(s: &mut String, c: char)
    ensures
        final(s)@ == old(s)@.push(c),
{
    s.push(c);
}

/// The decimal digit character of `d` (for `d` below ten).
pub open spec fn digit_char(d: nat) -> char {
    (48 + d) as char
}

/// The decimal rendering of `n`, most significant digit first, without
/// leading zeros (and `0` for zero).
pub open spec fn decimal(n: nat) -> Seq<char>
    decreases n,
{
    if n < 10 {
        seq![digit_char(n)]
    } else {
        decimal(n / 10).push(digit_char(n % 10))
    }
}

/// Appends the decimal rendering of `n` to `out`.
pub fn push_decimal(out: &mut String, n: usize)
    ensures
        final(out)@ == old(out)@ + decimal(n as nat),
    decreases n,
{
    if n >= 10 {
        push_decimal(out, n / 10);
    }
    let d: u8 = (n % 10) as u8;
    let c = (48u8 + d) as char;
    let ghost before = out@;
    push_char(out, c);
    proof {
        if n >= 10 {
            assert(decimal(n as nat) == decimal((n / 10) as nat).push(digit_char((n % 10) as nat)));
        } else {
            assert(decimal(n as nat) == seq![digit_char(n as nat)]);
        }
        assert(out@ =~= old(out)@ + decimal(n as nat));
    }
}

/// Whether committed text keeps `c`: everything but control characters,
/// with newline, carriage return and tab kept.
pub open spec fn keeps_commit_char(c: char) -> bool {
    !is_control_char(c) || c == '\n' || c == '\r' || c == '\t'
}

/// The characters of `s` that committed text keeps, in order.
pub open spec fn commit_chars(s: Seq<char>) -> Seq<char>
    decreases s.len(),
{
    if s.len() == 0 {
        Seq::empty()
    } else if keeps_commit_char(s.last()) {
        commit_chars(s.drop_last()).push(s.last())
    } else {
        commit_chars(s.drop_last())
    }
}

/// Drops the control characters of `text`, keeping newline, carriage return
/// and tab.
pub fn filter_commit_chars(text: &str) -> (filtered: String)
    ensures
        filtered@ == commit_chars(text@),
{
    let mut out = String::new();
    let n = text.unicode_len();
    let mut i: usize = 0;
    while i < n
        invariant
            n == text@.len(),
            i <= n,
            out@ == commit_chars(text@.take(i as int)),
        decreases n - i,
    {
        let c = text.get_char(i);
        assert(text@.take(i + 1).drop_last() =~= text@.take(i as int));
        assert(text@.take(i + 1).last() == c);
        if !char_is_control(c) || c == '\n' || c == '\r' || c == '\t' {
            push_char(&mut out, c);
        }
        i = i + 1;
    }
    assert(text@.take(n as int) =~= text@);
    out
}


/// What a single-line input keeps of character `c`: newline, carriage
/// return and tab become a space, other control characters are dropped.
pub open spec fn single_line_char(c: char) -> Option<char> {
    if c == '\n' || c == '\r' || c == '\t' {
        Some(' ')
    } else if is_control_char(c) {
        None
    } else {
        Some(c)
    }
}

/// The text a single-line input keeps of `s`.
pub open spec fn single_line_chars(s: Seq<char>) -> Seq<char>
    decreases s.len(),
{
    if s.len() == 0 {
        Seq::empty()
    } else {
        match single_line_char(s.last()) {
            Some(c) => single_line_chars(s.drop_last()).push(c),
            None => single_line_chars(s.drop_last()),
        }
    }
}

/// What a multiline input keeps of the character at position `i` of `s`:
/// a line feed right after a carriage return is dropped (the pair is one
/// line break), a carriage return becomes a line feed, a tab becomes a
/// space, and other control characters but line feed are dropped.
pub open spec fn multiline_char(s: Seq<char>, i: int) -> Option<char> {
    let c = s[i];
    if c == '\n' && i > 0 && s[i - 1] == '\r' {
        None
    } else {
        let c = if c == '\r' {
            '\n'
        } else {
            c
        };
        if c == '\t' {
            Some(' ')
        } else if c == '\n' || !is_control_char(c) {
            Some(c)
        } else {
            None
        }
    }
}

/// The text a multiline input keeps of the first `k` characters of `s`.
pub open spec fn multiline_chars(s: Seq<char>, k: int) -> Seq<char>
    decreases k,
{
    if k <= 0 {
        Seq::empty()
    } else {
        match multiline_char(s, k - 1) {
            Some(c) => multiline_chars(s, k - 1).push(c),
            None => multiline_chars(s, k - 1),
        }
    }
}

pub fn sanitize_single_line_text(text: &str) -> (sanitized: String)
    ensures
        sanitized@ == single_line_chars(text@),
{
    let mut out = String::new();
    let n = text.unicode_len();
    let mut i: usize = 0;
    while i < n
        invariant
            n == text@.len(),
            i <= n,
            out@ == single_line_chars(text@.take(i as int)),
        decreases n - i,
    {
        let c = text.get_char(i);
        assert(text@.take(i + 1).drop_last() =~= text@.take(i as int));
        assert(text@.take(i + 1).last() == c);
        if c == '\n' || c == '\r' || c == '\t' {
            push_char(&mut out, ' ');
        } else if !char_is_control(c) {
            push_char(&mut out, c);
        }
        i = i + 1;
    }
    assert(text@.take(n as int) =~= text@);
    out
}

pub fn sanitize_multiline_text(text: &str) -> (sanitized: String)
    ensures
        sanitized@ == multiline_chars(text@, text@.len() as int),
{
    let mut out = String::new();
    let n = text.unicode_len();
    let mut i: usize = 0;
    let mut prev_cr = false;
    while i < n
        invariant
            n == text@.len(),
            i <= n,
            prev_cr == (i > 0 && text@[i - 1] == '\r'),
            out@ == multiline_chars(text@, i as int),
        decreases n - i,
    {
        let c = text.get_char(i);
        if !(c == '\n' && prev_cr) {
            let c = if c == '\r' {
                '\n'
            } else {
                c
            };
            if c == '\t' {
                push_char(&mut out, ' ');
            } else if c == '\n' || !char_is_control(c) {
                push_char(&mut out, c);
            }
        }
        prev_cr = text.get_char(i) == '\r';
        i = i + 1;
    }
    out
}

/// Sanitizes text for a text input: the multiline rules for a multiline
/// input, the single-line rules otherwise.
pub fn sanitize_text_input_text(text: &str, multiline: bool) -> (sanitized: String)
    ensures
        sanitized@ == if multiline {
            multiline_chars(text@, text@.len() as int)
        } else {
            single_line_chars(text@)
        },
{
    if multiline {
        sanitize_multiline_text(text)
    } else {
        sanitize_single_line_text(text)
    }
}


/// Single-line sanitized text holds no control character (so no line
/// break or tab).
pub proof fn law_single_line_has_no_control_chars(s: Seq<char>)
    ensures
        forall|i: int|
            0 <= i < single_line_chars(s).len() ==> !is_control_char(
                #[trigger] single_line_chars(s)[i],
            ),
    decreases s.len(),
{
    if s.len() > 0 {
        law_single_line_has_no_control_chars(s.drop_last());
        let prev = single_line_chars(s.drop_last());
        let r = single_line_chars(s);
        assert forall|i: int| 0 <= i < r.len() implies !is_control_char(#[trigger] r[i]) by {
            if i < prev.len() {
                assert(r[i] == prev[i]);
            }
        }
    }
}

/// Text without control characters is left as it is by the single-line
/// rules.
pub proof fn lemma_single_line_keeps_clean_text(s: Seq<char>)
    requires
        forall|i: int| 0 <= i < s.len() ==> !is_control_char(#[trigger] s[i]),
    ensures
        single_line_chars(s) == s,
    decreases s.len(),
{
    if s.len() > 0 {
        lemma_single_line_keeps_clean_text(s.drop_last());
        assert(!is_control_char(s[s.len() - 1]));
        assert(s.drop_last().push(s.last()) =~= s);
    }
}

/// Sanitizing single-line text twice gives what sanitizing once gives.
pub proof fn law_single_line_sanitizing_is_idempotent(s: Seq<char>)
    ensures
        single_line_chars(single_line_chars(s)) == single_line_chars(s),
{
    law_single_line_has_no_control_chars(s);
    lemma_single_line_keeps_clean_text(single_line_chars(s));
}

/// Multiline sanitized text holds no carriage return, and no control
/// character but line feed.
pub proof fn law_multiline_has_only_line_feed_controls(s: Seq<char>, k: int)
    requires
        0 <= k <= s.len(),
    ensures
        forall|i: int|
            0 <= i < multiline_chars(s, k).len() ==> (#[trigger] multiline_chars(s, k)[i] == '\n'
                || !is_control_char(multiline_chars(s, k)[i])),
    decreases k,
{
    if k > 0 {
        law_multiline_has_only_line_feed_controls(s, k - 1);
        let prev = multiline_chars(s, k - 1);
        let r = multiline_chars(s, k);
        assert forall|i: int| 0 <= i < r.len() implies (#[trigger] r[i] == '\n' || !is_control_char(r[i])) by {
            if i < prev.len() {
                assert(r[i] == prev[i]);
            }
        }
    }
}

/// Committed text holds no control character but line feed, carriage
/// return and tab.
pub proof fn law_commit_text_keeps_only_line_controls(s: Seq<char>)
    ensures
        forall|i: int|
            0 <= i < commit_chars(s).len() ==> keeps_commit_char(#[trigger] commit_chars(s)[i]),
    decreases s.len(),
{
    if s.len() > 0 {
        law_commit_text_keeps_only_line_controls(s.drop_last());
        let prev = commit_chars(s.drop_last());
        let r = commit_chars(s);
        assert forall|i: int| 0 <= i < r.len() implies keeps_commit_char(#[trigger] r[i]) by {
            if i < prev.len() {
                assert(r[i] == prev[i]);
            }
        }
    }
}

/// Filtering committed text twice gives what filtering once gives.
pub proof fn law_commit_filter_is_idempotent(s: Seq<char>)
    ensures
        commit_chars(commit_chars(s)) == commit_chars(s),
{
    law_commit_text_keeps_only_line_controls(s);
    lemma_commit_keeps_clean_text(commit_chars(s));
}

proof fn lemma_commit_keeps_clean_text(s: Seq<char>)
    requires
        forall|i: int| 0 <= i < s.len() ==> keeps_commit_char(#[trigger] s[i]),
    ensures
        commit_chars(s) == s,
    decreases s.len(),
{
    if s.len() > 0 {
        lemma_commit_keeps_clean_text(s.drop_last());
        assert(keeps_commit_char(s[s.len() - 1]));
        assert(s.drop_last().push(s.last()) =~= s);
    }
}

} // verus!
