//! The operator command grammar: whitespace trimming, the two session-ending
//! words, and base-10 index parsing. Commands are handled as raw bytes; the
//! process edge has already dropped input that is not valid text.

use vstd::prelude::*;

verus! {

/// The whitespace bytes trimmed from a command: tab through carriage return,
/// and space.
pub open spec fn is_space(b: u8) -> bool {
    b == 32 || (9 <= b && b <= 13)
}

/// `s` with its leading whitespace removed.
pub open spec fn trim_front(s: Seq<u8>) -> Seq<u8>
    decreases s.len(),
{
    if s.len() > 0 && is_space(s[0]) {
        trim_front(s.subrange(1, s.len() as int))
    } else {
        s
    }
}

/// `s` with its trailing whitespace removed.
pub open spec fn trim_back(s: Seq<u8>) -> Seq<u8>
    decreases s.len(),
{
    if s.len() > 0 && is_space(s[s.len() - 1]) {
        trim_back(s.subrange(0, s.len() - 1))
    } else {
        s
    }
}

/// `s` with surrounding whitespace removed.
pub open spec fn trim_spec(s: Seq<u8>) -> Seq<u8> {
    trim_back(trim_front(s))
}

proof fn lemma_trim_front_skips(s: Seq<u8>, k: int)
    requires
        0 <= k <= s.len(),
        forall|j: int| 0 <= j < k ==> is_space(s[j]),
        k == s.len() || !is_space(s[k]),
    ensures
        trim_front(s) == s.subrange(k, s.len() as int),
    decreases k,
{
    if k == 0 {
        assert(s.subrange(0, s.len() as int) =~= s);
    } else {
        let t = s.subrange(1, s.len() as int);
        lemma_trim_front_skips(t, k - 1);
        assert(t.subrange(k - 1, t.len() as int) =~= s.subrange(k, s.len() as int));
    }
}

proof fn lemma_trim_back_cuts(s: Seq<u8>, k: int)
    requires
        0 <= k <= s.len(),
        forall|j: int| k <= j < s.len() ==> is_space(s[j]),
        k == 0 || !is_space(s[k - 1]),
    ensures
        trim_back(s) == s.subrange(0, k),
    decreases s.len(),
{
    if k == s.len() {
        if s.len() > 0 && is_space(s[s.len() - 1]) {
            assert(false);
        }
        assert(s.subrange(0, k) =~= s);
    } else {
        let t = s.subrange(0, s.len() - 1);
        lemma_trim_back_cuts(t, k);
        assert(t.subrange(0, k) =~= s.subrange(0, k));
    }
}

/// Returns `v`'s bytes with surrounding whitespace removed.
pub fn trim_bytes(v: &Vec<u8>) -> (r: Vec<u8>)
    ensures
        r@ == trim_spec(v@),
{
    let n = v.len();
    let mut start: usize = 0;
    while start < n && is_space_byte(v[start])
        invariant
            start <= n,
            n == v@.len(),
            forall|j: int| 0 <= j < start ==> is_space(v@[j]),
        decreases n - start,
    {
        start = start + 1;
    }
    let mut end: usize = n;
    while end > start && is_space_byte(v[end - 1])
        invariant
            start <= end <= n,
            n == v@.len(),
            forall|j: int| end <= j < n ==> is_space(v@[j]),
        decreases end,
    {
        end = end - 1;
    }
    proof {
        lemma_trim_front_skips(v@, start as int);
        let t = v@.subrange(start as int, n as int);
        lemma_trim_back_cuts(t, end - start);
        assert(t.subrange(0, end - start) =~= v@.subrange(start as int, end as int));
    }
    let mut r: Vec<u8> = Vec::new();
    let mut i: usize = start;
    while i < end
        invariant
            start <= i <= end <= n,
            n == v@.len(),
            r@ =~= v@.subrange(start as int, i as int),
        decreases end - i,
    {
        r.push(v[i]);
        i = i + 1;
    }
    assert(r@ =~= v@.subrange(start as int, end as int));
    r
}

/// Whether `b` is one of the whitespace bytes that trimming removes.
pub fn is_space_byte(b: u8) -> (r: bool)
    ensures
        r == is_space(b),
{
    b == 32 || (9 <= b && b <= 13)
}

/// The bytes of the word `exit`.
pub open spec fn exit_word() -> Seq<u8> {
    seq![101u8, 120u8, 105u8, 116u8]
}

/// The bytes of the word `quit`.
pub open spec fn quit_word() -> Seq<u8> {
    seq![113u8, 117u8, 105u8, 116u8]
}

/// Whether `s`, after trimming surrounding whitespace, is exactly `exit` or
/// `quit`: the two commands that end an active session.
pub open spec fn is_exit_command(s: Seq<u8>) -> bool {
    trim_spec(s) == exit_word() || trim_spec(s) == quit_word()
}

/// Decides whether `v` is a session-ending command.
pub fn is_exit_command_bytes(v: &Vec<u8>) -> (r: bool)
    ensures
        r == is_exit_command(v@),
{
    let t = trim_bytes(v);
    if t.len() != 4 {
        assert(t@ != exit_word() && t@ != quit_word());
        return false;
    }
    let is_exit = t[0] == 101 && t[1] == 120 && t[2] == 105 && t[3] == 116;
    let is_quit = t[0] == 113 && t[1] == 117 && t[2] == 105 && t[3] == 116;
    proof {
        if is_exit {
            assert(t@ =~= exit_word());
        } else {
            assert(t@ != exit_word());
        }
        if is_quit {
            assert(t@ =~= quit_word());
        } else {
            assert(t@ != quit_word());
        }
    }
    is_exit || is_quit
}

/// Whether `b` is a decimal digit byte.
pub open spec fn is_digit(b: u8) -> bool {
    48 <= b && b <= 57
}

/// Whether every byte of `s` is a decimal digit.
pub open spec fn all_digits(s: Seq<u8>) -> bool {
    forall|i: int| 0 <= i < s.len() ==> is_digit(s[i])
}

/// The numeric value of a sequence of decimal digit bytes, most significant
/// first.
pub open spec fn digits_value(s: Seq<u8>) -> int
    decreases s.len(),
{
    if s.len() == 0 {
        0
    } else {
        digits_value(s.subrange(0, s.len() - 1)) * 10 + (s[s.len() - 1] - 48)
    }
}

proof fn lemma_digits_value_nonneg(s: Seq<u8>)
    requires
        all_digits(s),
    ensures
        digits_value(s) >= 0,
    decreases s.len(),
{
    if s.len() > 0 {
        let t = s.subrange(0, s.len() - 1);
        lemma_digits_value_nonneg(t);
    }
}

proof fn lemma_digits_step(s: Seq<u8>, i: int)
    requires
        0 <= i < s.len(),
    ensures
        digits_value(s.subrange(0, i + 1)) == digits_value(s.subrange(0, i)) * 10 + (s[i] - 48),
{
    let t = s.subrange(0, i + 1);
    assert(t.subrange(0, i) =~= s.subrange(0, i));
}

proof fn lemma_digits_prefix_le(s: Seq<u8>, i: int)
    requires
        all_digits(s),
        0 <= i <= s.len(),
    ensures
        digits_value(s.subrange(0, i)) <= digits_value(s),
    decreases s.len() - i,
{
    if i == s.len() {
        assert(s.subrange(0, i) =~= s);
    } else {
        lemma_digits_step(s, i);
        lemma_digits_value_nonneg(s.subrange(0, i));
        lemma_digits_prefix_le(s, i + 1);
    }
}

/// Parses `v` as a base-10 non-negative integer: every byte must be a decimal
/// digit, the value must fit in 64 bits, and the input must not be empty.
pub fn parse_index(v: &Vec<u8>) -> (r: Option<u64>)
    ensures
        match r {
            Some(n) => v@.len() > 0 && all_digits(v@) && n == digits_value(v@),
            None => v@.len() == 0 || !all_digits(v@) || digits_value(v@) > u64::MAX,
        },
{
    let len = v.len();
    if len == 0 {
        return None;
    }
    let mut acc: u64 = 0;
    let mut i: usize = 0;
    while i < len
        invariant
            0 <= i <= len,
            len == v@.len(),
            forall|j: int| 0 <= j < i ==> is_digit(v@[j]),
            acc == digits_value(v@.subrange(0, i as int)),
        decreases len - i,
    {
        let b = v[i];
        if b < 48 || b > 57 {
            assert(!is_digit(v@[i as int]));
            return None;
        }
        let d = (b - 48) as u64;
        if acc > (u64::MAX - d) / 10 {
            proof {
                lemma_digits_step(v@, i as int);
                if all_digits(v@) {
                    lemma_digits_prefix_le(v@, i as int + 1);
                }
            }
            return None;
        }
        proof {
            lemma_digits_step(v@, i as int);
        }
        acc = acc * 10 + d;
        i = i + 1;
    }
    assert(v@.subrange(0, len as int) =~= v@);
    Some(acc)
}

} // verus!
