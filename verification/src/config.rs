//! The pure rules of the configuration collaborator: cleaning raw values,
//! parsing ports, booleans and compression names, reading env-file lines, and
//! assembling a `Config` from the values the environment offered.
//!
//! Reading the environment and the file system is the surrounding
//! application's task; it hands the raw strings to these functions.

use vstd::prelude::*;
use vstd::string::StrSliceExecFns;
use vstd::string::StringExecFns;

verus! {

/// The Unicode white-space code points, the characters `str::trim` removes.
pub open spec fn is_space_char(c: char) -> bool {
    c as u32 == 0x09 || c as u32 == 0x0A || c as u32 == 0x0B || c as u32 == 0x0C || c as u32
        == 0x0D || c as u32 == 0x20 || c as u32 == 0x85 || c as u32 == 0xA0 || c as u32 == 0x1680
        || (0x2000 <= c as u32 && c as u32 <= 0x200A) || c as u32 == 0x2028 || c as u32 == 0x2029
        || c as u32 == 0x202F || c as u32 == 0x205F || c as u32 == 0x3000
}

/// The characters stripped from the ends of a raw configuration value.
pub open spec fn is_quote_char(c: char) -> bool {
    c == '"' || c == '\''
}

/// Drop leading characters satisfying `p`.
pub open spec fn trim_start_spec(s: Seq<char>, p: spec_fn(char) -> bool) -> Seq<char>
    decreases s.len(),
{
    if s.len() > 0 && p(s[0]) {
        trim_start_spec(s.drop_first(), p)
    } else {
        s
    }
}

/// Drop trailing characters satisfying `p`.
pub open spec fn trim_end_spec(s: Seq<char>, p: spec_fn(char) -> bool) -> Seq<char>
    decreases s.len(),
{
    if s.len() > 0 && p(s[s.len() - 1]) {
        trim_end_spec(s.drop_last(), p)
    } else {
        s
    }
}

/// Drop the characters satisfying `p` from both ends.
pub open spec fn trim_spec(s: Seq<char>, p: spec_fn(char) -> bool) -> Seq<char> {
    trim_end_spec(trim_start_spec(s, p), p)
}

/// The predicate a trimming pass uses: quote characters or white space.
pub open spec fn trim_pred(quotes: bool) -> spec_fn(char) -> bool {
    if quotes {
        |c: char| is_quote_char(c)
    } else {
        |c: char| is_space_char(c)
    }
}

/// What `from_raw_string` yields: white space stripped first, then any run of
/// quote characters stripped from either end.
pub open spec fn raw_string_cleaned(s: Seq<char>) -> Seq<char> {
    trim_spec(trim_spec(s, trim_pred(false)), trim_pred(true))
}

fn char_matches(c: char, quotes: bool) -> (r: bool)
    ensures
        r == trim_pred(quotes)(c),
{
    let u = c as u32;
    if quotes {
        u == 0x22 || u == 0x27
    } else {
        u == 0x09 || u == 0x0A || u == 0x0B || u == 0x0C || u == 0x0D || u == 0x20 || u == 0x85
            || u == 0xA0 || u == 0x1680 || (0x2000 <= u && u <= 0x200A) || u == 0x2028 || u
            == 0x2029 || u == 0x202F || u == 0x205F || u == 0x3000
    }
}

proof fn lemma_trim_start_at(s: Seq<char>, p: spec_fn(char) -> bool, i: int)
    requires
        0 <= i <= s.len(),
        forall|k: int| 0 <= k < i ==> p(s[k]),
        i < s.len() ==> !p(s[i]),
    ensures
        trim_start_spec(s, p) == s.subrange(i, s.len() as int),
    decreases i,
{
    if i == 0 {
        assert(s.subrange(0, s.len() as int) =~= s);
    } else {
        let t = s.drop_first();
        assert(t =~= s.subrange(1, s.len() as int));
        assert(forall|k: int| 0 <= k < i - 1 ==> p(#[trigger] t[k]) && t[k] == s[k + 1]);
        lemma_trim_start_at(t, p, i - 1);
        assert(t.subrange(i - 1, t.len() as int) =~= s.subrange(i, s.len() as int));
    }
}

proof fn lemma_trim_end_at(s: Seq<char>, p: spec_fn(char) -> bool, j: int)
    requires
        0 <= j <= s.len(),
        forall|k: int| j <= k < s.len() ==> p(s[k]),
        j > 0 ==> !p(s[j - 1]),
    ensures
        trim_end_spec(s, p) == s.subrange(0, j),
    decreases s.len() - j,
{
    if j == s.len() {
        assert(s.subrange(0, j) =~= s);
    } else {
        let t = s.drop_last();
        assert(t =~= s.subrange(0, s.len() - 1));
        assert(forall|k: int| j <= k < t.len() ==> p(#[trigger] t[k]) && t[k] == s[k]);
        lemma_trim_end_at(t, p, j);
        assert(t.subrange(0, j) =~= s.subrange(0, j));
    }
}

/// Narrow `[lo0, hi0)` to the bounds left after trimming the chosen character
/// class from both ends.
fn trimmed_bounds(s: &str, lo0: usize, hi0: usize, quotes: bool) -> (r: (usize, usize))
    requires
        lo0 <= hi0 <= s@.len(),
    ensures
        lo0 <= r.0 && r.0 <= r.1 && r.1 <= hi0,
        trim_spec(s@.subrange(lo0 as int, hi0 as int), trim_pred(quotes)) == s@.subrange(
            r.0 as int,
            r.1 as int,
        ),
{
    let ghost p = trim_pred(quotes);
    let mut lo: usize = lo0;
    let mut hi: usize = hi0;
    loop
        invariant
            p == trim_pred(quotes),
            lo0 <= lo <= hi == hi0 <= s@.len(),
            forall|k: int| lo0 <= k < lo ==> p(s@[k]),
        ensures
            lo0 <= lo <= hi == hi0 <= s@.len(),
            forall|k: int| lo0 <= k < lo ==> p(s@[k]),
            lo < hi0 ==> !p(s@[lo as int]),
        decreases hi - lo,
    {
        if lo < hi {
            let c = s.get_char(lo);
            if char_matches(c, quotes) {
                proof {
                    assert(p(s@[lo as int]));
                }
                lo = lo + 1;
            } else {
                break ;
            }
        } else {
            break ;
        }
    }
    loop
        invariant
            p == trim_pred(quotes),
            lo0 <= lo <= hi <= hi0 <= s@.len(),
            forall|k: int| lo0 <= k < lo ==> p(s@[k]),
            lo < hi0 ==> !p(s@[lo as int]),
            forall|k: int| hi <= k < hi0 ==> p(s@[k]),
        ensures
            lo0 <= lo <= hi <= hi0 <= s@.len(),
            forall|k: int| hi <= k < hi0 ==> p(s@[k]),
            hi > lo ==> !p(s@[hi - 1]),
        decreases hi,
    {
        if hi > lo {
            let c = s.get_char(hi - 1);
            if char_matches(c, quotes) {
                proof {
                    assert(p(s@[hi - 1]));
                }
                hi = hi - 1;
            } else {
                break ;
            }
        } else {
            break ;
        }
    }
    proof {
        let t = s@.subrange(lo0 as int, hi0 as int);
        assert(forall|k: int| 0 <= k < lo - lo0 ==> p(#[trigger] t[k]) && t[k] == s@[k + lo0]);
        lemma_trim_start_at(t, p, lo - lo0);
        let u = t.subrange(lo - lo0, t.len() as int);
        assert(u =~= s@.subrange(lo as int, hi0 as int));
        assert(forall|k: int| hi - lo <= k < u.len() ==> p(#[trigger] u[k]) && u[k] == s@[k + lo]);
        lemma_trim_end_at(u, p, hi - lo);
        assert(u.subrange(0, hi - lo) =~= s@.subrange(lo as int, hi as int));
    }
    (lo, hi)
}

/// Clean one raw configuration value: strip surrounding white space, then any
/// surrounding run of single or double quotes. Interior characters stay.
pub fn from_raw_string(input: &str) -> (r: String)
    ensures
        r@ == raw_string_cleaned(input@),
{
    let n = input.unicode_len();
    proof {
        assert(input@.subrange(0, n as int) =~= input@);
    }
    let (a, b) = trimmed_bounds(input, 0, n, false);
    let (c, d) = trimmed_bounds(input, a, b, true);
    let out = input.substring_char(c, d);
    out.to_owned()
}

/// ASCII decimal digit.
pub open spec fn is_digit_char(c: char) -> bool {
    0x30 <= c as u32 && c as u32 <= 0x39
}

/// The numeric value of one decimal digit character.
pub open spec fn digit_value(c: char) -> int {
    c as u32 - 0x30
}

/// The number a digit string denotes, most significant digit first.
pub open spec fn digits_value(s: Seq<char>) -> int
    decreases s.len(),
{
    if s.len() == 0 {
        0
    } else {
        digits_value(s.drop_last()) * 10 + digit_value(s[s.len() - 1])
    }
}

pub open spec fn all_digits(s: Seq<char>) -> bool {
    forall|i: int| 0 <= i < s.len() ==> is_digit_char(s[i])
}

/// The digit part of an unsigned decimal text: an optional leading `+` is
/// allowed and ignored, as `u16::from_str` does.
pub open spec fn u16_digits(s: Seq<char>) -> Seq<char> {
    if s.len() > 0 && s[0] == '+' {
        s.drop_first()
    } else {
        s
    }
}

/// The texts `u16::from_str` accepts: an optional `+`, then at least one
/// ASCII digit, denoting a value of at most 65535.
pub open spec fn is_valid_u16_text(s: Seq<char>) -> bool {
    let d = u16_digits(s);
    d.len() > 0 && all_digits(d) && digits_value(d) <= 0xFFFF
}

proof fn lemma_digits_nonneg(s: Seq<char>)
    requires
        all_digits(s),
    ensures
        digits_value(s) >= 0,
    decreases s.len(),
{
    if s.len() > 0 {
        let t = s.drop_last();
        assert(forall|i: int| 0 <= i < t.len() ==> is_digit_char(#[trigger] t[i]) && t[i] == s[i]);
        lemma_digits_nonneg(t);
        assert(is_digit_char(s[s.len() - 1]));
    }
}

proof fn lemma_digits_prefix_le(s: Seq<char>, m: int)
    requires
        all_digits(s),
        0 <= m <= s.len(),
    ensures
        digits_value(s.take(m)) <= digits_value(s),
    decreases s.len() - m,
{
    if m == s.len() {
        assert(s.take(m) =~= s);
    } else {
        let t = s.take(m + 1);
        let u = s.take(m);
        assert(t.drop_last() =~= u);
        assert(forall|i: int| 0 <= i < u.len() ==> is_digit_char(#[trigger] u[i]) && u[i] == s[i]);
        lemma_digits_nonneg(u);
        assert(t[t.len() - 1] == s[m]);
        assert(is_digit_char(s[m]));
        assert(digits_value(t) == digits_value(u) * 10 + digit_value(s[m]));
        assert(digits_value(u) <= digits_value(t));
        lemma_digits_prefix_le(s, m + 1);
    }
}

/// Parse an unsigned 16-bit decimal port number exactly as `u16::from_str`
/// does: an optional `+`, then ASCII digits, rejecting overflow.
pub fn parse_port(s: &str) -> (r: Option<u16>)
    ensures
        r is Some <==> is_valid_u16_text(s@),
        r is Some ==> r->0 as int == digits_value(u16_digits(s@)),
{
    let n = s.unicode_len();
    let mut i: usize = 0;
    if n > 0 && s.get_char(0) == '+' {
        i = 1;
    }
    let ghost d = u16_digits(s@);
    proof {
        assert(d =~= s@.subrange(i as int, n as int));
    }
    if i == n {
        return None;
    }
    let mut val: u32 = 0;
    let mut j: usize = i;
    loop
        invariant
            d == u16_digits(s@),
            d =~= s@.subrange(i as int, n as int),
            i <= j <= n == s@.len(),
            i < n,
            val <= 0xFFFF,
            all_digits(s@.subrange(i as int, j as int)),
            val as int == digits_value(s@.subrange(i as int, j as int)),
        ensures
            j == n,
            val <= 0xFFFF,
            all_digits(d),
            val as int == digits_value(d),
        decreases n - j,
    {
        if j == n {
            proof {
                assert(s@.subrange(i as int, j as int) =~= d);
            }
            break ;
        }
        let c = s.get_char(j);
        let u = c as u32;
        if !(0x30 <= u && u <= 0x39) {
            proof {
                assert(!is_digit_char(s@[j as int]));
                assert(d[j - i] == s@[j as int]);
                assert(!is_valid_u16_text(s@));
            }
            return None;
        }
        let next: u32 = val * 10 + (u - 0x30);
        proof {
            let pre = s@.subrange(i as int, j as int);
            let post = s@.subrange(i as int, j + 1 as int);
            assert(post.drop_last() =~= pre);
            assert(post[post.len() - 1] == s@[j as int]);
            assert(next as int == digits_value(post));
        }
        if next > 0xFFFF {
            proof {
                let post = s@.subrange(i as int, j + 1 as int);
                if all_digits(d) {
                    assert(post =~= d.take(j + 1 - i));
                    lemma_digits_prefix_le(d, j + 1 - i);
                    assert(digits_value(d) > 0xFFFF);
                }
                assert(!is_valid_u16_text(s@));
            }
            return None;
        }
        val = next;
        j = j + 1;
        proof {
            assert(all_digits(s@.subrange(i as int, j as int)));
        }
    }
    proof {
        assert(is_valid_u16_text(s@));
    }
    Some(val as u16)
}

/// Exact string equality, character by character.
fn str_eq(s: &str, lit: &str) -> (r: bool)
    ensures
        r == (s@ == lit@),
{
    let n = s.unicode_len();
    let m = lit.unicode_len();
    if n != m {
        return false;
    }
    let mut k: usize = 0;
    loop
        invariant
            k <= n,
            n == s@.len() == lit@.len(),
            forall|t: int| 0 <= t < k ==> s@[t] == lit@[t],
        ensures
            k == n,
            forall|t: int| 0 <= t < k ==> s@[t] == lit@[t],
        decreases n - k,
    {
        if k == n {
            break ;
        }
        let a = s.get_char(k);
        let b = lit.get_char(k);
        if a != b {
            proof {
                assert(s@[k as int] != lit@[k as int]);
            }
            return false;
        }
        k = k + 1;
    }
    proof {
        assert(s@ =~= lit@);
    }
    true
}

/// Parse a boolean exactly as `bool::from_str` does: only the exact texts
/// `true` and `false` are accepted.
pub fn parse_bool(s: &str) -> (r: Option<bool>)
    ensures
        r == Some(true) <==> s@ == "true"@,
        r == Some(false) <==> s@ == "false"@,
        r is None <==> (s@ != "true"@ && s@ != "false"@),
{
    proof {
        reveal_strlit("true");
        reveal_strlit("false");
        assert("true"@.len() != "false"@.len());
    }
    if str_eq(s, "true") {
        Some(true)
    } else if str_eq(s, "false") {
        Some(false)
    } else {
        None
    }
}

/// One character of a case-insensitive ASCII comparison: `c` matches the
/// lower-case letter `l` as itself or as its upper-case form.
pub open spec fn ascii_ci_eq(c: char, l: char) -> bool {
    c == l || c as u32 + 0x20 == l as u32
}

/// `s` equals `lit` up to ASCII case, where `lit` is all lower case.
pub open spec fn matches_ci(s: Seq<char>, lit: Seq<char>) -> bool {
    s.len() == lit.len() && (forall|i: int| 0 <= i < s.len() ==> ascii_ci_eq(s[i], lit[i]))
}

fn char_ci_eq(c: char, l: char) -> (r: bool)
    ensures
        r == ascii_ci_eq(c, l),
{
    c == l || (c as u32) + 0x20 == (l as u32)
}

fn str_matches_ci(s: &str, lit: &str) -> (r: bool)
    ensures
        r == matches_ci(s@, lit@),
{
    let n = s.unicode_len();
    let m = lit.unicode_len();
    if n != m {
        return false;
    }
    let mut k: usize = 0;
    loop
        invariant
            k <= n,
            n == s@.len() == lit@.len(),
            forall|t: int| 0 <= t < k ==> ascii_ci_eq(s@[t], lit@[t]),
        ensures
            k == n,
            forall|t: int| 0 <= t < k ==> ascii_ci_eq(s@[t], lit@[t]),
        decreases n - k,
    {
        if k == n {
            break ;
        }
        if !char_ci_eq(s.get_char(k), lit.get_char(k)) {
            proof {
                assert(!ascii_ci_eq(s@[k as int], lit@[k as int]));
            }
            return false;
        }
        k = k + 1;
    }
    true
}

/// The compression schemes the configuration may name.
#[derive(Debug, PartialEq, Eq, Structural)]
pub enum CompressionType {
    Zstd,
    Gzip,
    Uncompressed,
}

/// The scheme a raw text selects, ASCII case ignored; anything else is
/// rejected by `parse_compression` and replaced by the default when a
/// configuration is assembled.
pub open spec fn spec_compression(s: Seq<char>) -> Option<CompressionType> {
    if matches_ci(s, "gzip"@) {
        Some(CompressionType::Gzip)
    } else if matches_ci(s, "zstd"@) {
        Some(CompressionType::Zstd)
    } else if matches_ci(s, "none"@) {
        Some(CompressionType::Uncompressed)
    } else {
        Option::None
    }
}

/// Parse a compression scheme name, ASCII case ignored.
pub fn parse_compression(s: &str) -> (r: Result<CompressionType, &'static str>)
    ensures
        r is Ok <==> spec_compression(s@) is Some,
        r is Ok ==> r->Ok_0 == spec_compression(s@)->0,
        r is Err ==> r->Err_0@ == "Invalid compression type."@,
{
    if str_matches_ci(s, "gzip") {
        Ok(CompressionType::Gzip)
    } else if str_matches_ci(s, "zstd") {
        Ok(CompressionType::Zstd)
    } else if str_matches_ci(s, "none") {
        Ok(CompressionType::Uncompressed)
    } else {
        Err("Invalid compression type.")
    }
}

impl core::str::FromStr for CompressionType {
    type Err = &'static str;

    fn from_str(s: &str) -> Result<Self, Self::Err> {
        parse_compression(s)
    }
}

impl Default for CompressionType {
    /// The scheme used when the configuration names none.
    fn default() -> (r: Self)
        ensures
            r == CompressionType::Zstd,
    {
        CompressionType::Zstd
    }
}

/// The assembled configuration value: immutable once constructed; validation
/// of the host as an IP literal is the sourcing collaborator's concern.
#[derive(Debug)]
pub struct Config {
    pub host: String,
    pub port: u16,
    pub compression_type: CompressionType,
    pub reliable: bool,
    pub pem_path: String,
    pub proto_path: String,
}

impl Default for Config {
    fn default() -> (r: Self)
        ensures
            r.host@ == "127.0.0.1"@,
            r.port == 50505,
            r.compression_type == CompressionType::Zstd,
            r.reliable,
            r.pem_path@ == "cert.pem"@,
            r.proto_path@ == "message.proto"@,
    {
        Config {
            host: "127.0.0.1".to_owned(),
            port: 50505,
            compression_type: CompressionType::Zstd,
            reliable: true,
            pem_path: "cert.pem".to_owned(),
            proto_path: "message.proto".to_owned(),
        }
    }
}

/// Why a configuration could not be assembled.
#[derive(Debug, Clone, PartialEq, Eq, Structural)]
pub enum ConfigError {
    MissingProtoPath,
}

/// The port a raw text yields: the denoted value if the text is a valid
/// decimal `u16`, the type's default otherwise.
pub open spec fn spec_port_value(s: Seq<char>) -> int {
    if is_valid_u16_text(s) {
        digits_value(u16_digits(s))
    } else {
        0
    }
}

/// Assemble a configuration from the raw values the environment offered,
/// `None` standing for an unset variable. The host must already be cleaned
/// (`from_raw_string`) and validated by the caller; path values are cleaned
/// here; port, compression scheme and reliability fall back to their types'
/// defaults when unset or unparsable; a missing proto path is the one fatal
/// omission.
pub fn build_config(
    host: Option<String>,
    port_raw: Option<String>,
    compression_raw: Option<String>,
    reliable_raw: Option<String>,
    pem_raw: Option<String>,
    proto_raw: Option<String>,
) -> (r: Result<Config, ConfigError>)
    ensures
        r is Ok <==> proto_raw is Some,
        r is Err ==> r->Err_0 == ConfigError::MissingProtoPath,
        r is Ok ==> r->Ok_0.host@ == (if host is Some {
            host->0@
        } else {
            "127.0.0.1"@
        }),
        r is Ok ==> r->Ok_0.port as int == (if port_raw is Some {
            spec_port_value(port_raw->0@)
        } else {
            0
        }),
        r is Ok ==> r->Ok_0.compression_type == (if compression_raw is Some
            && spec_compression(compression_raw->0@) is Some {
            spec_compression(compression_raw->0@)->0
        } else {
            CompressionType::Zstd
        }),
        r is Ok ==> r->Ok_0.reliable == (reliable_raw is Some && reliable_raw->0@ == "true"@),
        r is Ok ==> r->Ok_0.pem_path@ == (if pem_raw is Some {
            raw_string_cleaned(pem_raw->0@)
        } else {
            Seq::<char>::empty()
        }),
        r is Ok ==> r->Ok_0.proto_path@ == raw_string_cleaned(proto_raw->0@),
{
    let proto_path = match proto_raw {
        Some(v) => from_raw_string(v.as_str()),
        Option::None => {
            return Err(ConfigError::MissingProtoPath);
        },
    };
    let host_val = match host {
        Some(h) => h,
        Option::None => "127.0.0.1".to_owned(),
    };
    let port: u16 = match port_raw {
        Some(v) => match parse_port(v.as_str()) {
            Some(p) => p,
            Option::None => 0,
        },
        Option::None => 0,
    };
    let compression_type = match compression_raw {
        Some(v) => match parse_compression(v.as_str()) {
            Ok(c) => c,
            Err(_) => CompressionType::Zstd,
        },
        Option::None => CompressionType::Zstd,
    };
    let reliable = match reliable_raw {
        Some(v) => match parse_bool(v.as_str()) {
            Some(b) => b,
            Option::None => false,
        },
        Option::None => false,
    };
    let pem_path = match pem_raw {
        Some(v) => from_raw_string(v.as_str()),
        Option::None => String::new(),
    };
    Ok(Config { host: host_val, port, compression_type, reliable, pem_path, proto_path })
}

/// What one line of an env file yields.
#[derive(Debug, PartialEq, Eq)]
pub enum EnvLine {
    /// Blank, or a comment line: passed over silently.
    Skip,
    /// No `=` left outside quotes and comments.
    Malformed,
    /// Key or value empty after trimming.
    Invalid,
    /// An assignment the environment should receive.
    Pair(String, String),
}

/// A line's text with quote characters dropped and everything from the first
/// unquoted `#` on discarded; `in_quotes` is the state the quote characters
/// toggle.
pub open spec fn strip_comment_quotes(s: Seq<char>, in_quotes: bool) -> Seq<char>
    decreases s.len(),
{
    if s.len() == 0 {
        Seq::empty()
    } else if is_quote_char(s[0]) {
        strip_comment_quotes(s.drop_first(), !in_quotes)
    } else if s[0] == '#' && !in_quotes {
        Seq::empty()
    } else {
        seq![s[0]] + strip_comment_quotes(s.drop_first(), in_quotes)
    }
}

/// The index of the first `=`, or the length when there is none.
pub open spec fn eq_index(s: Seq<char>) -> int
    decreases s.len(),
{
    if s.len() == 0 {
        0
    } else if s[0] == '=' {
        0
    } else {
        1 + eq_index(s.drop_first())
    }
}

/// A line is passed over when, after trimming, nothing is left or a comment
/// starts it.
pub open spec fn env_line_skipped(line: Seq<char>) -> bool {
    let t = trim_spec(line, trim_pred(false));
    t.len() == 0 || t[0] == '#'
}

pub open spec fn env_line_stripped(line: Seq<char>) -> Seq<char> {
    strip_comment_quotes(trim_spec(line, trim_pred(false)), false)
}

pub open spec fn env_line_key(line: Seq<char>) -> Seq<char> {
    let st = env_line_stripped(line);
    trim_spec(st.take(eq_index(st)), trim_pred(false))
}

pub open spec fn env_line_value(line: Seq<char>) -> Seq<char> {
    let st = env_line_stripped(line);
    trim_spec(st.skip(eq_index(st) + 1), trim_pred(false))
}

proof fn lemma_eq_index_at(s: Seq<char>, e: int)
    requires
        0 <= e <= s.len(),
        forall|k: int| 0 <= k < e ==> s[k] != '=',
        e < s.len() ==> s[e] == '=',
    ensures
        eq_index(s) == e,
    decreases s.len(),
{
    if s.len() == 0 {
    } else if s[0] == '=' {
        assert(e == 0);
    } else {
        let t = s.drop_first();
        assert(forall|k: int| 0 <= k < e - 1 ==> #[trigger] t[k] == s[k + 1] && t[k] != '=');
        assert(e - 1 < t.len() ==> t[e - 1] == s[e]);
        lemma_eq_index_at(t, e - 1);
    }
}

/// Read one line of an env file: trim it, pass over blanks and comments, drop
/// quote characters, cut an unquoted trailing comment off, and split the rest
/// at the first `=` into a trimmed key and value.
pub fn parse_env_line(line: &str) -> (r: EnvLine)
    ensures
        env_line_skipped(line@) <==> r is Skip,
        !env_line_skipped(line@) ==> {
            let st = env_line_stripped(line@);
            &&& (eq_index(st) == st.len() <==> r is Malformed)
            &&& (eq_index(st) < st.len() && (env_line_key(line@).len() == 0 || env_line_value(
                line@,
            ).len() == 0) <==> r is Invalid)
            &&& (eq_index(st) < st.len() && env_line_key(line@).len() > 0 && env_line_value(
                line@,
            ).len() > 0 ==> r is Pair && r->Pair_0@ == env_line_key(line@) && r->Pair_1@
                == env_line_value(line@))
        },
{
    let n = line.unicode_len();
    proof {
        assert(line@.subrange(0, n as int) =~= line@);
    }
    let (a, b) = trimmed_bounds(line, 0, n, false);
    let ghost t = trim_spec(line@, trim_pred(false));
    if a == b {
        return EnvLine::Skip;
    }
    if line.get_char(a) == '#' {
        proof {
            assert(t[0] == line@[a as int]);
        }
        return EnvLine::Skip;
    }
    proof {
        assert(t[0] == line@[a as int]);
    }
    let mut st = String::new();
    let mut i: usize = a;
    let mut inq = false;
    loop
        invariant
            a <= i <= b && b <= n && n == line@.len(),
            t == line@.subrange(a as int, b as int),
            strip_comment_quotes(t, false) == st@ + strip_comment_quotes(
                line@.subrange(i as int, b as int),
                inq,
            ),
        ensures
            st@ == strip_comment_quotes(t, false),
        decreases b - i,
    {
        let ghost rest = line@.subrange(i as int, b as int);
        if i == b {
            proof {
                assert(rest =~= Seq::<char>::empty());
                assert(st@ + strip_comment_quotes(rest, inq) =~= st@);
            }
            break ;
        }
        let c = line.get_char(i);
        proof {
            assert(rest[0] == line@[i as int]);
            assert(rest.drop_first() =~= line@.subrange(i + 1, b as int));
        }
        if char_matches(c, true) {
            inq = !inq;
            i = i + 1;
        } else if c == '#' && !inq {
            proof {
                assert(strip_comment_quotes(rest, inq) =~= Seq::<char>::empty());
                assert(st@ + strip_comment_quotes(rest, inq) =~= st@);
            }
            break ;
        } else {
            let piece = line.substring_char(i, i + 1);
            proof {
                assert(piece@ =~= seq![line@[i as int]]);
                assert(strip_comment_quotes(rest, inq) =~= seq![rest[0]] + strip_comment_quotes(
                    rest.drop_first(),
                    inq,
                ));
                assert(st@ + strip_comment_quotes(rest, inq) =~= (st@ + piece@)
                    + strip_comment_quotes(rest.drop_first(), inq));
            }
            st.append(piece);
            i = i + 1;
        }
    }
    let sref = st.as_str();
    let m = sref.unicode_len();
    let mut e: usize = 0;
    loop
        invariant
            e <= m && m == sref@.len(),
            forall|k: int| 0 <= k < e ==> sref@[k] != '=',
        ensures
            e <= m == sref@.len(),
            forall|k: int| 0 <= k < e ==> sref@[k] != '=',
            e < m ==> sref@[e as int] == '=',
        decreases m - e,
    {
        if e == m {
            break ;
        }
        if sref.get_char(e) == '=' {
            break ;
        }
        e = e + 1;
    }
    proof {
        lemma_eq_index_at(sref@, e as int);
    }
    if e == m {
        return EnvLine::Malformed;
    }
    let (ka, kb) = trimmed_bounds(sref, 0, e, false);
    let (va, vb) = trimmed_bounds(sref, e + 1, m, false);
    proof {
        assert(sref@.subrange(0, e as int) =~= sref@.take(e as int));
        assert(sref@.subrange(e + 1, m as int) =~= sref@.skip(e + 1));
    }
    if ka == kb || va == vb {
        return EnvLine::Invalid;
    }
    let key = sref.substring_char(ka, kb).to_owned();
    let value = sref.substring_char(va, vb).to_owned();
    EnvLine::Pair(key, value)
}

} // verus!
