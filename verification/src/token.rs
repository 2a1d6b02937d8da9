//! Request and session tokens.
//!
//! Every outgoing request carries a token derived from the session's
//! monotonically increasing counter, so that completion events can be
//! correlated unambiguously. The create-session step additionally carries a
//! session-identity token, which must differ from the request token of the
//! same step because the broker correlates the two differently.

use vstd::prelude::*;
use vstd::string::StringExecFns;
use vstd::arithmetic::div_mod::lemma_fundamental_div_mod;

verus! {

/// The character for a single decimal digit.
pub open spec fn digit_char(d: nat) -> char {
    if d == 0 {
        '0'
    } else if d == 1 {
        '1'
    } else if d == 2 {
        '2'
    } else if d == 3 {
        '3'
    } else if d == 4 {
        '4'
    } else if d == 5 {
        '5'
    } else if d == 6 {
        '6'
    } else if d == 7 {
        '7'
    } else if d == 8 {
        '8'
    } else {
        '9'
    }
}

/// The decimal rendering of a natural number, most significant digit first,
/// without leading zeros (zero itself renders as "0").
pub open spec fn dec_digits(n: nat) -> Seq<char>
    decreases n,
{
    if n < 10 {
        seq![digit_char(n)]
    } else {
        dec_digits(n / 10) + seq![digit_char(n % 10)]
    }
}

/// The request-identity token minted for counter value `n`.
pub open spec fn request_token(n: nat) -> Seq<char> {
    dec_digits(n)
}

/// The session-identity token minted for counter value `n`.
pub open spec fn session_token(n: nat) -> Seq<char> {
    seq!['s'] + dec_digits(n)
}

proof fn lemma_dec_digits_len(n: nat)
    ensures
        dec_digits(n).len() >= 1,
        n >= 10 ==> dec_digits(n).len() >= 2,
    decreases n,
{
    if n >= 10 {
        lemma_dec_digits_len(n / 10);
    }
}

/// Distinct counter values yield distinct decimal renderings: the rendering
/// is injective, so tokens never repeat within one session.
pub proof fn lemma_dec_digits_injective(a: nat, b: nat)
    requires
        dec_digits(a) == dec_digits(b),
    ensures
        a == b,
    decreases a,
{
    lemma_dec_digits_len(a);
    lemma_dec_digits_len(b);
    if a < 10 && b < 10 {
        assert(dec_digits(a) == seq![digit_char(a)]);
        assert(dec_digits(b) == seq![digit_char(b)]);
        assert(seq![digit_char(a)][0] == digit_char(a));
        assert(seq![digit_char(b)][0] == digit_char(b));
        assert(digit_char(a) == digit_char(b));
        assert(a == b);
    } else if a < 10 {
        assert(dec_digits(a).len() == 1);
        assert(dec_digits(b).len() >= 2);
    } else if b < 10 {
        assert(dec_digits(b).len() == 1);
        assert(dec_digits(a).len() >= 2);
    } else {
        assert(dec_digits(a) == dec_digits(a / 10) + seq![digit_char(a % 10)]);
        assert(dec_digits(b) == dec_digits(b / 10) + seq![digit_char(b % 10)]);
        assert(dec_digits(a).last() == digit_char(a % 10));
        assert(dec_digits(b).last() == digit_char(b % 10));
        assert(a % 10 == b % 10);
        assert(dec_digits(a).drop_last() =~= dec_digits(a / 10));
        assert(dec_digits(b).drop_last() =~= dec_digits(b / 10));
        assert(dec_digits(a / 10) == dec_digits(b / 10));
        lemma_dec_digits_injective(a / 10, b / 10);
        assert(a / 10 == b / 10);
        lemma_fundamental_div_mod(a as int, 10);
        lemma_fundamental_div_mod(b as int, 10);
        assert(a == 10 * (a / 10) + (a % 10));
        assert(b == 10 * (b / 10) + (b % 10));
        assert(a == b);
    }
}

/// The request tokens of two different counter values are different strings.
pub proof fn lemma_request_tokens_distinct(a: nat, b: nat)
    requires
        a != b,
    ensures
        request_token(a) != request_token(b),
{
    if request_token(a) == request_token(b) {
        lemma_dec_digits_injective(a, b);
    }
}

/// The session token and the request token minted for any two counter
/// values are different strings: a session token is one character longer
/// than the rendering it wraps and starts with a letter, no rendering of
/// which starts that way.
pub proof fn lemma_session_token_not_request_token(a: nat, b: nat)
    ensures
        session_token(a) != request_token(b),
{
    lemma_dec_digits_first_is_digit(b);
    assert(session_token(a)[0] == 's');
}

/// The session tokens of two different counter values are different strings.
pub proof fn lemma_session_tokens_distinct(a: nat, b: nat)
    requires
        a != b,
    ensures
        session_token(a) != session_token(b),
{
    if session_token(a) == session_token(b) {
        assert(session_token(a).skip(1) =~= dec_digits(a));
        assert(session_token(b).skip(1) =~= dec_digits(b));
        lemma_dec_digits_injective(a, b);
    }
}

/// Whether a character is a decimal digit.
pub open spec fn is_digit_char(c: char) -> bool {
    exists|d: nat| d < 10 && c == digit_char(d)
}

proof fn lemma_dec_digits_first_is_digit(n: nat)
    ensures
        dec_digits(n).len() >= 1,
        is_digit_char(dec_digits(n)[0]),
    decreases n,
{
    if n < 10 {
        assert(dec_digits(n)[0] == digit_char(n));
    } else {
        lemma_dec_digits_first_is_digit(n / 10);
        assert(dec_digits(n)[0] == dec_digits(n / 10)[0]);
    }
}

fn append_digit(s: &mut String, d: u64)
    requires
        d < 10,
    ensures
        final(s)@ == old(s)@ + seq![digit_char(d as nat)],
{
    proof {
        reveal_strlit("0");
        reveal_strlit("1");
        reveal_strlit("2");
        reveal_strlit("3");
        reveal_strlit("4");
        reveal_strlit("5");
        reveal_strlit("6");
        reveal_strlit("7");
        reveal_strlit("8");
        reveal_strlit("9");
    }
    if d == 0 {
        s.append("0");
    } else if d == 1 {
        s.append("1");
    } else if d == 2 {
        s.append("2");
    } else if d == 3 {
        s.append("3");
    } else if d == 4 {
        s.append("4");
    } else if d == 5 {
        s.append("5");
    } else if d == 6 {
        s.append("6");
    } else if d == 7 {
        s.append("7");
    } else if d == 8 {
        s.append("8");
    } else {
        s.append("9");
    }
    proof {
        assert(s@ =~= old(s)@ + seq![digit_char(d as nat)]);
    }
}

fn append_dec_digits(s: &mut String, n: u64)
    ensures
        final(s)@ == old(s)@ + dec_digits(n as nat),
    decreases n,
{
    if n >= 10 {
        append_dec_digits(s, n / 10);
    }
    append_digit(s, n % 10);
    proof {
        assert(s@ =~= old(s)@ + dec_digits(n as nat));
    }
}

/// Render the request token for counter value `n`.
pub fn render_request_token(n: u64) -> (s: String)
    ensures
        s@ == request_token(n as nat),
{
    let mut s = String::new();
    append_dec_digits(&mut s, n);
    proof {
        assert(s@ =~= request_token(n as nat));
    }
    s
}

/// Render the session token for counter value `n`.
pub fn render_session_token(n: u64) -> (s: String)
    ensures
        s@ == session_token(n as nat),
{
    proof {
        reveal_strlit("s");
    }
    let mut s = String::from_str("s");
    append_dec_digits(&mut s, n);
    proof {
        assert(s@ =~= session_token(n as nat));
    }
    s
}

} // verus!
