//! Patterns over the text encoding of a public key: a literal suffix, or a
//! regular expression searched for in the encoded-key token.
//!
//! A public key is rendered as its single-line OpenSSH form
//! `<algorithm> <base64 data>`; matching applies to the base64 token alone,
//! not to the whole line.

use vstd::prelude::*;

use crate::keypair::KeyPair;
use crate::text::{
    char_is_alnum, second_token, second_token_of, seq_ends_with, spec_decimal, str_ends_with,
    u64_to_decimal,
};
use vstd::arithmetic::div_mod::{
    lemma_div_by_multiple, lemma_div_is_ordered, lemma_div_is_ordered_by_denominator,
    lemma_fundamental_div_mod,
};

verus! {

#[verifier::external_type_specification]
#[verifier::external_body]
pub struct ExRegex(regex::Regex);

#[verifier::external_type_specification]
#[verifier::external_body]
pub struct ExRegexError(regex::Error);

/// Whether `source` is valid regular-expression syntax, as regex's
/// `Regex::new` decides it.
pub uninterp spec fn regex_source_ok(source: Seq<char>) -> bool;

/// Whether the regular expression written as `source` matches anywhere in
/// `text`, as regex's `Regex::is_match` decides it.
pub uninterp spec fn regex_found(source: Seq<char>, text: Seq<char>) -> bool;

/// The single-line OpenSSH rendering of a 32-byte Ed25519 public key, as
/// ssh_key encodes it.
pub uninterp spec fn openssh_text(public: Seq<u8>) -> Seq<char>;

/// A compiled regular expression together with the source text it was
/// compiled from.  The fields are private: the only way to obtain one is
/// through compilation, so the compiled form always belongs to the source.
pub struct CompiledRegex {
    source: String,
    inner: regex::Regex,
}

impl View for CompiledRegex {
    type V = Seq<char>;

    closed spec fn view(&self) -> Seq<char> {
        self.source@
    }
}

impl CompiledRegex {
    /// The source text the expression was compiled from.
    pub fn source(&self) -> (r: &str)
        ensures
            r@ == self@,
    {
        self.source.as_str()
    }

    /// Relies on regex's `Regex::is_match`: searches `text` for a match of
    /// the compiled expression.  `inner` is only ever built by
    /// `compile_regex` from `source`, so the result is the match function
    /// of the source text.
    #[verifier::external_body]
    pub(crate) fn is_match(&self, text: &str) -> (r: bool)
        ensures
            r == regex_found(self@, text@),
    {
        self.inner.is_match(text)
    }
}

/// Relies on regex's `Regex::new`: compiles `source`, succeeding exactly
/// when the source is valid regular-expression syntax.
#[verifier::external_body]
fn compile_regex(source: &str) -> (r: Result<CompiledRegex, regex::Error>)
    ensures
        r is Ok <==> regex_source_ok(source@),
        r matches Ok(p) ==> p@ == source@,
{
    match regex::Regex::new(source) {
        Ok(inner) => Ok(CompiledRegex { source: source.to_string(), inner }),
        Err(e) => Err(e),
    }
}

/// Relies on ssh_key's `Ed25519PublicKey::try_from` (succeeds for exactly
/// 32 bytes), `PublicKey::from` and `PublicKey::to_string` (the OpenSSH
/// line `<algorithm> <base64 data>`, with no comment): the rendered line
/// depends on the public bytes alone.
#[verifier::external_body]
fn encode_openssh_public_key(public: &[u8; 32]) -> (r: String)
    ensures
        r@ == openssh_text(public@),
{
    let ed = ssh_key::public::Ed25519PublicKey::try_from(&public[..])
        .expect("a 32-byte Ed25519 public key is always accepted");
    let key = ssh_key::public::PublicKey::from(ed);
    key.to_string()
}

/// The mathematical content of a pattern: the suffix string, or the source
/// text of the regular expression.
pub enum PatternView {
    Suffix(Seq<char>),
    Regex(Seq<char>),
}

/// A match predicate over the encoded-key token: either a literal suffix
/// the token must end with, or a regular expression searched for in it.
pub enum Pattern {
    Suffix(String),
    Regex(CompiledRegex),
}

impl View for Pattern {
    type V = PatternView;

    open spec fn view(&self) -> PatternView {
        match self {
            Pattern::Suffix(s) => PatternView::Suffix(s@),
            Pattern::Regex(r) => PatternView::Regex(r@),
        }
    }
}

/// The error a pattern that is delimited as a regular expression but does
/// not parse as one is rejected with.
#[derive(Clone, Copy, PartialEq, Eq, Structural, Debug)]
pub enum PatternError {
    InvalidPatternSyntax,
}

/// Whether the raw pattern string is written as a delimited regular
/// expression: at least two characters, wrapped in `/.../`.
pub open spec fn is_regex_delimited(s: Seq<char>) -> bool {
    s.len() >= 2 && s[0] == '/' && s[s.len() - 1] == '/'
}

/// The text between the delimiters of a regex-delimited pattern string.
pub open spec fn delimited_inner(s: Seq<char>) -> Seq<char>
    recommends
        is_regex_delimited(s),
{
    s.subrange(1, s.len() - 1)
}

impl Pattern {
    /// Compiles a raw pattern string.  A string wrapped in `/.../` is
    /// compiled as a regular expression and rejected when its syntax is
    /// invalid; any other string is a literal suffix.
    pub fn new(pattern: String) -> (r: Result<Pattern, PatternError>)
        ensures
            match r {
                Ok(p) => if is_regex_delimited(pattern@) {
                    &&& regex_source_ok(delimited_inner(pattern@))
                    &&& p@ == PatternView::Regex(delimited_inner(pattern@))
                } else {
                    p@ == PatternView::Suffix(pattern@)
                },
                Err(e) => {
                    &&& is_regex_delimited(pattern@)
                    &&& !regex_source_ok(delimited_inner(pattern@))
                    &&& e == PatternError::InvalidPatternSyntax
                },
            },
    {
        let s = pattern.as_str();
        let len = s.unicode_len();
        if len >= 2 && s.get_char(0) == '/' && s.get_char(len - 1) == '/' {
            let inner = s.substring_char(1, len - 1);
            match compile_regex(inner) {
                Ok(compiled) => Ok(Pattern::Regex(compiled)),
                Err(_) => Err(PatternError::InvalidPatternSyntax),
            }
        } else {
            Ok(Pattern::Suffix(pattern))
        }
    }
}

impl PartialEq for Pattern {
    /// Structural equality over the underlying source text; the compiled
    /// form of a regular expression is compared by its source.
    fn eq(&self, other: &Self) -> (r: bool) {
        match (self, other) {
            (Pattern::Suffix(a), Pattern::Suffix(b)) => *a == *b,
            (Pattern::Regex(a), Pattern::Regex(b)) => a.source == b.source,
            _ => false,
        }
    }
}

impl vstd::std_specs::cmp::PartialEqSpecImpl for Pattern {
    open spec fn obeys_eq_spec() -> bool {
        true
    }

    open spec fn eq_spec(&self, other: &Self) -> bool {
        self@ == other@
    }
}

/// Whether the encoded-key token satisfies the pattern: for a suffix, the
/// token ends with it; for a regular expression, a match is found in it.
pub open spec fn spec_token_matches(token: Seq<char>, v: PatternView) -> bool {
    match v {
        PatternView::Suffix(s) => seq_ends_with(token, s),
        PatternView::Regex(src) => regex_found(src, token),
    }
}

/// Whether a public key matches the pattern: its OpenSSH line is rendered,
/// the encoded-key token is taken from it, and the token is tested.
pub open spec fn spec_matches(public: Seq<u8>, v: PatternView) -> bool {
    spec_token_matches(second_token(openssh_text(public)), v)
}

/// The encoded-key token of a single-line OpenSSH public key string: the
/// second whitespace-separated token, which excludes the algorithm-name
/// prefix and any comment.  Empty when the line has no second token.
pub fn extract_base64_from_openssh_string(openssh_string: &str) -> (r: &str)
    ensures
        r@ == second_token(openssh_string@),
{
    second_token_of(openssh_string)
}

/// Tests the encoded-key token against the pattern.
pub fn pattern_matches_token(token: &str, pattern: &Pattern) -> (r: bool)
    ensures
        r == spec_token_matches(token@, pattern@),
{
    match pattern {
        Pattern::Suffix(s) => str_ends_with(token, s.as_str()),
        Pattern::Regex(compiled) => compiled.is_match(token),
    }
}

/// Tests whether the keypair's public key matches the pattern.
pub fn public_key_matches_pattern(keypair: &KeyPair, pattern: &Pattern) -> (r: bool)
    ensures
        r == spec_matches(keypair.public_key@, pattern@),
{
    let line = encode_openssh_public_key(&keypair.public_key);
    let token = extract_base64_from_openssh_string(line.as_str());
    pattern_matches_token(token, pattern)
}

/// `64^l`: the number of equally likely values of `l` encoded-key symbols.
pub open spec fn pow64(l: nat) -> nat
    decreases l,
{
    if l == 0 {
        1
    } else {
        64 * pow64((l - 1) as nat)
    }
}

proof fn lemma_pow64_positive(l: nat)
    ensures
        pow64(l) >= 1,
    decreases l,
{
    if l > 0 {
        lemma_pow64_positive((l - 1) as nat);
    }
}

proof fn lemma_pow64_mono(a: nat, b: nat)
    requires
        a <= b,
    ensures
        pow64(a) <= pow64(b),
    decreases b,
{
    if a < b {
        lemma_pow64_mono(a, (b - 1) as nat);
        lemma_pow64_positive((b - 1) as nat);
    }
}

/// `64^l` saturated at `u64::MAX`: what the progress display shows as the
/// expected number of attempts.
pub open spec fn expected_attempts_spec(l: nat) -> nat {
    if pow64(l) > u64::MAX {
        u64::MAX as nat
    } else {
        pow64(l)
    }
}

fn pow64_saturating(l: usize) -> (r: u64)
    ensures
        r as nat == expected_attempts_spec(l as nat),
{
    let cap: u64 = u64::MAX / 64;
    let mut r: u64 = 1;
    let mut i: usize = 0;
    while i < l
        invariant
            i <= l,
            cap == u64::MAX / 64,
            r as nat == expected_attempts_spec(i as nat),
        decreases l - i,
    {
        proof {
            lemma_pow64_positive(i as nat);
            lemma_fundamental_div_mod(u64::MAX as int, 64);
        }
        if r <= cap {
            r = r * 64;
        } else {
            r = u64::MAX;
        }
        i = i + 1;
    }
    r
}

fn pow64_checked(l: usize) -> (r: Option<u128>)
    ensures
        match r {
            Some(v) => v as nat == pow64(l as nat),
            None => pow64(l as nat) > u128::MAX,
        },
{
    let mut acc: u128 = 1;
    let mut i: usize = 0;
    while i < l
        invariant
            i <= l,
            acc as nat == pow64(i as nat),
        decreases l - i,
    {
        match acc.checked_mul(64) {
            Some(next) => {
                acc = next;
            },
            None => {
                proof {
                    lemma_pow64_mono((i + 1) as nat, l as nat);
                }
                return None;
            },
        }
        i = i + 1;
    }
    Some(acc)
}

/// The human-readable rendering of a whole number of seconds, as humantime
/// formats it.
pub uninterp spec fn humantime_text(secs: u64) -> Seq<char>;

/// Relies on humantime's `format_duration`: renders a whole number of
/// seconds as a human-readable duration; the text depends on the seconds
/// alone.
#[verifier::external_body]
fn format_duration_secs(secs: u64) -> (r: String)
    ensures
        r@ == humantime_text(secs),
{
    humantime::format_duration(std::time::Duration::from_secs(secs)).to_string()
}

/// Relies on std's `SystemTime::now` and `duration_since` of the Unix
/// epoch: the wall clock in whole seconds (0 if the clock stands before
/// the epoch).  The result depends on the clock, so nothing is promised
/// of its value.
#[verifier::external_body]
fn unix_time_secs() -> u64 {
    match std::time::SystemTime::now().duration_since(std::time::UNIX_EPOCH) {
        Ok(d) => d.as_secs(),
        Err(_) => 0,
    }
}

/// Whether the expected search time cannot be reported as a finite number
/// of whole seconds: the rate is zero, or the seconds overflow `u64`.
pub open spec fn estimate_is_infinite(len: nat, rate: nat) -> bool {
    rate == 0 || pow64(len) / rate > u64::MAX
}

/// The expected whole seconds until a suffix of length `len` matches at
/// `rate` attempts per second.
pub open spec fn estimate_seconds(len: nat, rate: nat) -> nat
    recommends
        rate > 0,
{
    pow64(len) / rate
}

/// The text `estimate_time` reports for a suffix of length `len` at `rate`
/// attempts per second.
pub open spec fn spec_estimate_text(len: nat, rate: nat) -> Seq<char> {
    if estimate_is_infinite(len, rate) {
        seq!['\u{221e}']
    } else {
        humantime_text(estimate_seconds(len, rate) as u64)
    }
}

fn infinity_string() -> (r: String)
    ensures
        r@ == seq!['\u{221e}'],
{
    let mut r = String::new();
    r.push('\u{221e}');
    proof {
        assert(r@ =~= seq!['\u{221e}']);
    }
    r
}

proof fn lemma_huge_pow_estimate(len: nat, rate: nat)
    requires
        1 <= rate <= u64::MAX,
        pow64(len) > u128::MAX,
    ensures
        pow64(len) / rate > u64::MAX,
{
    let p = pow64(len) as int;
    let r = rate as int;
    let m64 = u64::MAX as int;
    let m128 = u128::MAX as int;
    lemma_div_is_ordered_by_denominator(p, r, m64);
    lemma_div_is_ordered(m128 + 1, p, m64);
    assert((m64 + 2) * m64 == m128) by (nonlinear_arith)
        requires
            m64 == u64::MAX as int && m128 == u128::MAX as int,
    ;
    lemma_div_by_multiple(m64 + 2, m64);
    lemma_div_is_ordered((m64 + 2) * m64, m128 + 1, m64);
}

impl Pattern {
    /// The number of encoded-key symbols a suffix pattern pins down: a
    /// suffix of length `L` matches a uniformly random 64-symbol encoding
    /// with probability `64^-L`, so the probability is determined by this
    /// exponent.  A regular expression has no closed-form probability and
    /// reports none.
    pub fn probability_exponent(&self) -> (r: Option<usize>)
        ensures
            match self@ {
                PatternView::Suffix(s) => r matches Some(e) && e as nat == s.len(),
                PatternView::Regex(_) => r is None,
            },
    {
        match self {
            Pattern::Suffix(s) => Some(s.as_str().unicode_len()),
            Pattern::Regex(_) => None,
        }
    }

    /// The expected number of attempts until a suffix pattern matches:
    /// `64^L`, saturated at `u64::MAX`.  A regular expression reports
    /// none.
    pub fn expected_attempts(&self) -> (r: Option<u64>)
        ensures
            match self@ {
                PatternView::Suffix(s) => r matches Some(n) && n as nat == expected_attempts_spec(
                    s.len(),
                ),
                PatternView::Regex(_) => r is None,
            },
    {
        match self {
            Pattern::Suffix(s) => Some(pow64_saturating(s.as_str().unicode_len())),
            Pattern::Regex(_) => None,
        }
    }

    /// The expected time until a suffix pattern matches at the given rate,
    /// rendered as a human-readable duration; the infinity sign when the
    /// seconds are not representable (a zero rate, or an overflowing
    /// expectation).  A regular expression reports none.
    pub fn estimate_time(&self, keys_per_second: u64) -> (r: Option<String>)
        ensures
            match self@ {
                PatternView::Suffix(s) => r matches Some(t) && t@ == spec_estimate_text(
                    s.len(),
                    keys_per_second as nat,
                ),
                PatternView::Regex(_) => r is None,
            },
    {
        match self {
            Pattern::Regex(_) => None,
            Pattern::Suffix(s) => {
                let len = s.as_str().unicode_len();
                if keys_per_second == 0 {
                    Some(infinity_string())
                } else {
                    match pow64_checked(len) {
                        None => {
                            proof {
                                lemma_huge_pow_estimate(len as nat, keys_per_second as nat);
                            }
                            Some(infinity_string())
                        },
                        Some(p) => {
                            let secs = p / (keys_per_second as u128);
                            if secs > (u64::MAX as u128) {
                                Some(infinity_string())
                            } else {
                                Some(format_duration_secs(secs as u64))
                            }
                        },
                    }
                }
            },
        }
    }
}

/// Higher rates never lengthen the estimate: at a faster rate a finite
/// estimate stays finite, and its expected seconds do not increase.
pub proof fn lemma_estimate_monotonic(len: nat, rate1: u64, rate2: u64)
    requires
        0 < rate1 <= rate2,
    ensures
        !estimate_is_infinite(len, rate1 as nat) ==> !estimate_is_infinite(len, rate2 as nat),
        estimate_seconds(len, rate2 as nat) <= estimate_seconds(len, rate1 as nat),
{
    lemma_div_is_ordered_by_denominator(pow64(len) as int, rate1 as int, rate2 as int);
}

/// The first 20 characters of a regular expression's source, with every
/// character that is not alphanumeric replaced by an underscore; used to
/// derive a filename.
pub open spec fn spec_clean_source(src: Seq<char>) -> Seq<char> {
    let cut = if src.len() > 20 {
        src.take(20)
    } else {
        src
    };
    cut.map(|i: int, c: char| if char_is_alnum(c) { c } else { '_' })
}

/// The filename derived from a pattern at the given Unix timestamp:
/// `<suffix>_<secs>` for a suffix, `regex_<cleaned>_<secs>` for a regular
/// expression.
pub open spec fn spec_filename(v: PatternView, secs: u64) -> Seq<char> {
    match v {
        PatternView::Suffix(s) => s + seq!['_'] + spec_decimal(secs as nat),
        PatternView::Regex(src) => "regex_"@ + spec_clean_source(src) + seq!['_'] + spec_decimal(
            secs as nat,
        ),
    }
}

/// The text the pattern is displayed as: its kind and its source text.
pub open spec fn spec_render(v: PatternView) -> Seq<char> {
    match v {
        PatternView::Suffix(s) => "Suffix: "@ + s,
        PatternView::Regex(src) => "Regex: "@ + src,
    }
}

impl Pattern {
    /// Renders the pattern for display: its kind and its source text.
    pub fn render(&self) -> (r: String)
        ensures
            r@ == spec_render(self@),
    {
        match self {
            Pattern::Suffix(s) => {
                let mut r = String::from_str("Suffix: ");
                r.append(s.as_str());
                r
            },
            Pattern::Regex(compiled) => {
                let mut r = String::from_str("Regex: ");
                r.append(compiled.source());
                r
            },
        }
    }

    /// The filename a match of this pattern is saved under, for the given
    /// Unix timestamp in seconds.
    pub fn to_filename_at(&self, secs: u64) -> (r: String)
        ensures
            r@ == spec_filename(self@, secs),
    {
        match self {
            Pattern::Suffix(s) => {
                let mut r = String::from_str(s.as_str());
                r.push('_');
                let d = u64_to_decimal(secs);
                r.append(d.as_str());
                proof {
                    assert(r@ =~= spec_filename(self@, secs));
                }
                r
            },
            Pattern::Regex(compiled) => {
                let src = compiled.source();
                let len = src.unicode_len();
                let cut = if len > 20 {
                    20
                } else {
                    len
                };
                let mut r = String::from_str("regex_");
                let mut i: usize = 0;
                while i < cut
                    invariant
                        len == src@.len(),
                        cut == (if len > 20 {
                            20int
                        } else {
                            len as int
                        }),
                        i <= cut,
                        r@ == "regex_"@ + spec_clean_source(src@).take(i as int),
                    decreases cut - i,
                {
                    let c = src.get_char(i);
                    if c.is_alphanumeric() {
                        r.push(c);
                    } else {
                        r.push('_');
                    }
                    proof {
                        assert(r@ =~= "regex_"@ + spec_clean_source(src@).take(i + 1));
                    }
                    i = i + 1;
                }
                r.push('_');
                let d = u64_to_decimal(secs);
                r.append(d.as_str());
                proof {
                    assert(spec_clean_source(src@).take(cut as int) =~= spec_clean_source(src@));
                    assert(r@ =~= spec_filename(self@, secs));
                }
                r
            },
        }
    }

    /// The filename a match of this pattern is saved under, stamped with
    /// the current wall-clock time.
    pub fn to_filename(&self) -> (r: String)
        ensures
            exists|secs: u64| r@ == spec_filename(self@, secs),
    {
        let secs = unix_time_secs();
        let r = self.to_filename_at(secs);
        proof {
            assert(r@ == spec_filename(self@, secs));
        }
        r
    }
}

} // verus!
