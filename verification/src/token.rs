//! Caller bearer tokens.

use crate::text::same_text;
use rand::RngCore;
use vstd::prelude::*;
use vstd::string::StringExecFns;

verus! {

/// Prefix that tells caller tokens from session UUIDs.
pub const CALLER_TOKEN_PREFIX: &'static str = "btcaller_";

/// Random bytes in each caller token: 256 bits of secret.
pub const CALLER_TOKEN_BYTES: usize = 32;

/// Bearer token that identifies one MCP caller.
///
/// The type has no `Debug`: what may be printed of it is [`CallerToken::redacted`].
#[derive(Hash)]
pub struct CallerToken(String);

impl View for CallerToken {
    type V = Seq<char>;

    closed spec fn view(&self) -> Seq<char> {
        self.0@
    }
}

impl CallerToken {
    /// Wraps an already issued token.
    #[must_use]
    pub fn new(raw: &str) -> (r: CallerToken)
        ensures
            r@ == raw@,
    {
        CallerToken(raw.to_owned())
    }

    /// The secret, for Authorization headers and the session environment.
    #[must_use]
    pub fn as_str(&self) -> (r: &str)
        ensures
            r@ == self@,
    {
        self.0.as_str()
    }

    /// What a log or an error message may show of a token: the same text for
    /// every token.
    #[must_use]
    pub fn redacted(&self) -> (r: String)
        ensures
            r@ == "CallerToken(...)"@,
    {
        "CallerToken(...)".to_owned()
    }
}

impl Clone for CallerToken {
    fn clone(&self) -> (r: Self)
        ensures
            r@ == self@,
    {
        CallerToken(self.0.clone())
    }
}

impl vstd::std_specs::cmp::PartialEqSpecImpl for CallerToken {
    open spec fn obeys_eq_spec() -> bool {
        true
    }

    open spec fn eq_spec(&self, other: &CallerToken) -> bool {
        self@ == other@
    }
}

impl PartialEq for CallerToken {
    fn eq(&self, other: &CallerToken) -> (r: bool) {
        same_text(self.0.as_str(), other.0.as_str())
    }
}

impl Eq for CallerToken {

}

/// The lower-case hexadecimal digit for a number below sixteen.
pub open spec fn hex_digit(n: int) -> char {
    "0123456789abcdef"@[n]
}

/// Two hexadecimal digits for each byte, the high half first.
pub open spec fn hex(bytes: Seq<u8>) -> Seq<char> {
    Seq::new(
        2 * bytes.len(),
        |i: int|
            hex_digit(
                if i % 2 == 0 {
                    bytes[i / 2] as int / 16
                } else {
                    bytes[i / 2] as int % 16
                },
            ),
    )
}

/// The token that a secret of random bytes makes.
pub open spec fn token_text(bytes: Seq<u8>) -> Seq<char> {
    CALLER_TOKEN_PREFIX@ + hex(bytes)
}

/// A text that some secret of the right size makes a caller token.
pub open spec fn is_caller_token(token: Seq<char>) -> bool {
    exists|secret: Seq<u8>|
        secret.len() == CALLER_TOKEN_BYTES && token == #[trigger] token_text(secret)
}

fn hex_char(n: u8) -> (r: char)
    requires
        n < 16,
    ensures
        r == hex_digit(n as int),
{
    proof {
        reveal_strlit("0123456789abcdef");
    }
    match n {
        0 => '0',
        1 => '1',
        2 => '2',
        3 => '3',
        4 => '4',
        5 => '5',
        6 => '6',
        7 => '7',
        8 => '8',
        9 => '9',
        10 => 'a',
        11 => 'b',
        12 => 'c',
        13 => 'd',
        14 => 'e',
        _ => 'f',
    }
}

/// The bytes in lower-case hexadecimal.
pub fn encode_hex(bytes: &[u8]) -> (r: String)
    ensures
        r@ == hex(bytes@),
{
    let mut out = String::new();
    let mut i: usize = 0;
    while i < bytes.len()
        invariant
            i <= bytes@.len(),
            out@ == hex(bytes@.take(i as int)),
        decreases bytes.len() - i,
    {
        let byte: u8 = bytes[i];
        out.push(hex_char(byte / 16));
        out.push(hex_char(byte % 16));
        i += 1;
        assert(out@ =~= hex(bytes@.take(i as int)));
    }
    assert(bytes@.take(bytes@.len() as int) =~= bytes@);
    out
}

/// `rand::rng` and `RngCore::fill_bytes`: bytes from the thread's random
/// generator. They rest on chance, so nothing is claimed of their values.
#[verifier::external_body]
fn random_bytes() -> (r: [u8; CALLER_TOKEN_BYTES]) {
    let mut bytes = [0u8; CALLER_TOKEN_BYTES];
    rand::rng().fill_bytes(&mut bytes);
    bytes
}

/// The token that a secret makes.
pub fn caller_token(secret: &[u8]) -> (r: String)
    ensures
        r@ == token_text(secret@),
{
    let mut out = CALLER_TOKEN_PREFIX.to_owned();
    out.append(encode_hex(secret).as_str());
    out
}

/// A token with a fresh random secret.
pub fn generate_caller_token() -> (r: String)
    ensures
        is_caller_token(r@),
{
    let secret = random_bytes();
    let token = caller_token(&secret);
    assert(token@ == token_text(secret@));
    token
}

/// Two tokens are `==` exactly where their secrets are the same text.
pub proof fn tokens_are_equal_by_their_secret(a: CallerToken, b: CallerToken)
    ensures
        vstd::std_specs::cmp::PartialEqSpec::eq_spec(&a, &b) == (a@ == b@),
{
}

/// Every token has the prefix of caller tokens and two digits for each byte of
/// its secret.
pub proof fn tokens_carry_the_prefix(secret: Seq<u8>)
    ensures
        CALLER_TOKEN_PREFIX@.is_prefix_of(token_text(secret)),
        token_text(secret).len() == CALLER_TOKEN_PREFIX@.len() + 2 * secret.len(),
{
    assert(CALLER_TOKEN_PREFIX@ =~= token_text(secret).subrange(
        0,
        CALLER_TOKEN_PREFIX@.len() as int,
    ));
}

/// Different secrets make different tokens.
pub proof fn tokens_keep_the_secret_apart(a: Seq<u8>, b: Seq<u8>)
    requires
        token_text(a) == token_text(b),
    ensures
        a == b,
{
    let n = CALLER_TOKEN_PREFIX@.len() as int;
    assert(token_text(a).subrange(n, token_text(a).len() as int) =~= hex(a));
    assert(token_text(b).subrange(n, token_text(b).len() as int) =~= hex(b));
    assert forall|i: int| 0 <= i < a.len() implies a[i] == b[i] by {
        reveal_strlit("0123456789abcdef");
        assert(hex(a)[2 * i] == hex(b)[2 * i]);
        assert(hex(a)[2 * i + 1] == hex(b)[2 * i + 1]);
        assert((2 * i) / 2 == i && (2 * i) % 2 == 0);
        assert((2 * i + 1) / 2 == i && (2 * i + 1) % 2 == 1);
        lemma_hex_digit_apart(a[i] as int / 16, b[i] as int / 16);
        lemma_hex_digit_apart(a[i] as int % 16, b[i] as int % 16);
    }
    assert(hex(a).len() == hex(b).len());
    assert(a =~= b);
}

proof fn lemma_hex_digit_apart(m: int, n: int)
    requires
        0 <= m < 16,
        0 <= n < 16,
        hex_digit(m) == hex_digit(n),
    ensures
        m == n,
{
    reveal_strlit("0123456789abcdef");
}

/// The number that a lower-case hexadecimal digit stands for.
pub open spec fn digit_value(c: char) -> int {
    if '0' <= c <= '9' {
        c as int - '0' as int
    } else {
        c as int - 'a' as int + 10
    }
}

/// Read back two digits at a time, the hexadecimal text of bytes gives each
/// byte again, in lower case and in their order.
pub proof fn hex_spells_each_byte(bytes: Seq<u8>, i: int)
    requires
        0 <= i < bytes.len(),
    ensures
        hex(bytes).len() == 2 * bytes.len(),
        16 * digit_value(hex(bytes)[2 * i]) + digit_value(hex(bytes)[2 * i + 1]) == bytes[i],
        '0' <= hex(bytes)[2 * i] <= '9' || 'a' <= hex(bytes)[2 * i] <= 'f',
        '0' <= hex(bytes)[2 * i + 1] <= '9' || 'a' <= hex(bytes)[2 * i + 1] <= 'f',
{
    assert((2 * i) / 2 == i && (2 * i) % 2 == 0);
    assert((2 * i + 1) / 2 == i && (2 * i + 1) % 2 == 1);
    lemma_digit(bytes[i] as int / 16);
    lemma_digit(bytes[i] as int % 16);
}

proof fn lemma_digit(n: int)
    requires
        0 <= n < 16,
    ensures
        digit_value(hex_digit(n)) == n,
        '0' <= hex_digit(n) <= '9' || 'a' <= hex_digit(n) <= 'f',
{
    reveal_strlit("0123456789abcdef");
}

/// A token is the prefix of caller tokens and the hexadecimal text of its
/// secret: nothing stands before, between or behind them.
pub proof fn a_token_is_its_prefix_and_its_secret(secret: &[u8], token: String)
    requires
        call_ensures(caller_token, (secret,), token),
    ensures
        token@ == "btcaller_"@ + hex(secret@),
{
}

/// Every generated token is the prefix of caller tokens and sixty-four digits.
pub proof fn generated_tokens_have_their_shape(token: String)
    requires
        call_ensures(generate_caller_token, (), token),
    ensures
        "btcaller_"@.is_prefix_of(token@),
        token@.len() == 9 + 64,
{
    reveal_strlit("btcaller_");
    let secret = choose|secret: Seq<u8>|
        secret.len() == CALLER_TOKEN_BYTES && token@ == #[trigger] token_text(secret);
    tokens_carry_the_prefix(secret);
}

/// A token gives back the secret that it was made of, and what may be printed
/// of it is the same for every token.
pub proof fn a_token_gives_back_its_secret_and_shows_none(
    raw: &str,
    token: CallerToken,
    secret: &str,
    shown: String,
)
    requires
        call_ensures(CallerToken::new, (raw,), token),
        call_ensures(CallerToken::as_str, (&token,), secret),
        call_ensures(CallerToken::redacted, (&token,), shown),
    ensures
        secret@ == raw@,
        shown@ == "CallerToken(...)"@,
{
}

} // verus!
