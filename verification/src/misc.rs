//! Random identifiers and the date format of loan records.
use vstd::prelude::*;
use argon2::password_hash::rand_core::RngCore;
use sha2::Digest;

verus! {

/// The upper-case hexadecimal digit of `n` (0 to 15).
pub open spec fn upper_hex_char(n: int) -> char {
    if n == 0 { '0' } else if n == 1 { '1' } else if n == 2 { '2' } else if n == 3 { '3' }
    else if n == 4 { '4' } else if n == 5 { '5' } else if n == 6 { '6' } else if n == 7 { '7' }
    else if n == 8 { '8' } else if n == 9 { '9' } else if n == 10 { 'A' } else if n == 11 { 'B' }
    else if n == 12 { 'C' } else if n == 13 { 'D' } else if n == 14 { 'E' } else { 'F' }
}

/// Whether `c` is one of `0-9A-F`.
pub open spec fn is_upper_hex_char(c: char) -> bool {
    ('0' <= c && c <= '9') || ('A' <= c && c <= 'F')
}

/// Each byte written as two upper-case hexadecimal digits, high nibble first.
pub open spec fn hex_upper(data: Seq<u8>) -> Seq<char>
    decreases data.len(),
{
    if data.len() == 0 {
        Seq::empty()
    } else {
        let b = data.last();
        hex_upper(data.drop_last()) + seq![upper_hex_char(b as int / 16), upper_hex_char(b as int % 16)]
    }
}

/// `hex_upper` gives two digits per byte, each one of `0-9A-F`.
pub proof fn lemma_hex_upper_shape(data: Seq<u8>)
    ensures
        hex_upper(data).len() == 2 * data.len(),
        forall|i: int| 0 <= i < hex_upper(data).len() ==> is_upper_hex_char(#[trigger] hex_upper(data)[i]),
    decreases data.len(),
{
    if data.len() > 0 {
        lemma_hex_upper_shape(data.drop_last());
        let b = data.last();
        let prev = hex_upper(data.drop_last());
        let tail = seq![upper_hex_char(b as int / 16), upper_hex_char(b as int % 16)];
        assert(hex_upper(data) == prev + tail);
        assert forall|i: int| 0 <= i < hex_upper(data).len() implies is_upper_hex_char(
            #[trigger] hex_upper(data)[i],
        ) by {
            if i < prev.len() {
                assert(hex_upper(data)[i] == prev[i]);
            } else {
                assert(hex_upper(data)[i] == tail[i - prev.len()]);
            }
        }
    }
}

fn hex_digit(n: u8) -> (s: &'static str)
    requires
        n < 16,
    ensures
        s@ == seq![upper_hex_char(n as int)],
{
    proof {
        reveal_strlit("0"); reveal_strlit("1"); reveal_strlit("2"); reveal_strlit("3");
        reveal_strlit("4"); reveal_strlit("5"); reveal_strlit("6"); reveal_strlit("7");
        reveal_strlit("8"); reveal_strlit("9"); reveal_strlit("A"); reveal_strlit("B");
        reveal_strlit("C"); reveal_strlit("D"); reveal_strlit("E"); reveal_strlit("F");
    }
    if n == 0 { "0" } else if n == 1 { "1" } else if n == 2 { "2" } else if n == 3 { "3" }
    else if n == 4 { "4" } else if n == 5 { "5" } else if n == 6 { "6" } else if n == 7 { "7" }
    else if n == 8 { "8" } else if n == 9 { "9" } else if n == 10 { "A" } else if n == 11 { "B" }
    else if n == 12 { "C" } else if n == 13 { "D" } else if n == 14 { "E" } else { "F" }
}

/// Writes bytes as upper-case hexadecimal, two digits per byte.
pub fn toHexUpper(data: &Vec<u8>) -> (res: String)
    ensures
        res@ == hex_upper(data@),
{
    let mut res = String::new();
    let mut i: usize = 0;
    while i < data.len()
        invariant
            i <= data@.len(),
            res@ == hex_upper(data@.subrange(0, i as int)),
        decreases data@.len() - i,
    {
        let b = data[i];
        res.append(hex_digit(b / 16));
        res.append(hex_digit(b % 16));
        proof {
            assert(data@.subrange(0, i + 1).drop_last() =~= data@.subrange(0, i as int));
            assert(data@.subrange(0, i + 1).last() == b);
        }
        i = i + 1;
    }
    proof {
        assert(data@.subrange(0, data@.len() as int) =~= data@);
    }
    res
}

/// What `sha2::Sha512_224::digest` gives for the bytes.
pub uninterp spec fn sha512_224_digest(data: Seq<u8>) -> Seq<u8>;

/// Calls `sha2::Sha512_224::digest`. The result is `sha512_224_digest` of
/// the bytes; the digest of SHA-512/224 is 28 bytes long.
#[verifier::external_body]
fn sha512_224(data: &Vec<u8>) -> (res: Vec<u8>)
    ensures
        res@ == sha512_224_digest(data@),
        res@.len() == 28,
{
    sha2::Sha512_224::digest(data.as_slice()).to_vec()
}

/// Fills the buffer with bytes from `rand_core::OsRng::fill_bytes`. Nothing is
/// promised of the bytes: they are random; the length stays. (The call panics
/// only where the operating system's generator fails.)
#[verifier::external_body]
fn fill_random(buf: &mut Vec<u8>)
    ensures
        final(buf)@.len() == old(buf)@.len(),
{
    argon2::password_hash::rand_core::OsRng.fill_bytes(buf.as_mut_slice())
}

/// A random identifier: `bits / 8` bytes from the operating system's
/// generator, hashed with SHA-512/224 and written as 56 upper-case
/// hexadecimal digits.
pub fn generateRnd(bits: usize) -> (res: String)
    ensures
        exists|entropy: Seq<u8>|
            entropy.len() == bits / 8 && res@ == hex_upper(#[trigger] sha512_224_digest(entropy)),
        res@.len() == 56,
        forall|i: int| 0 <= i < res@.len() ==> is_upper_hex_char(#[trigger] res@[i]),
        is_random_id(res@),
{
    let n = bits / 8;
    let mut buf: Vec<u8> = Vec::new();
    let mut i: usize = 0;
    while i < n
        invariant
            i <= n,
            buf@.len() == i,
        decreases n - i,
    {
        buf.push(0u8);
        i = i + 1;
    }
    fill_random(&mut buf);
    let digest = sha512_224(&buf);
    let res = toHexUpper(&digest);
    proof {
        lemma_hex_upper_shape(digest@);
    }
    res
}

/// The decimal digits of `n`, most significant first.
pub open spec fn nat_digits(n: nat) -> Seq<char>
    decreases n,
{
    if n < 10 {
        seq![upper_hex_char(n as int)]
    } else {
        nat_digits(n / 10) + seq![upper_hex_char((n % 10) as int)]
    }
}

/// An integer in decimal, with a leading `-` where it is negative.
pub open spec fn int_text(n: int) -> Seq<char> {
    if n < 0 {
        seq!['-'] + nat_digits((-n) as nat)
    } else {
        nat_digits(n as nat)
    }
}

fn unsigned_text(n: u64) -> (res: String)
    ensures
        res@ == nat_digits(n as nat),
    decreases n,
{
    if n < 10 {
        String::from_str(hex_digit(n as u8))
    } else {
        let mut res = unsigned_text(n / 10);
        res.append(hex_digit((n % 10) as u8));
        res
    }
}

/// Writes an integer in decimal, as `Display` does.
pub fn decimalText(n: i64) -> (res: String)
    ensures
        res@ == int_text(n as int),
{
    if n < 0 {
        let m: u64 = if n == i64::MIN { 9223372036854775808u64 } else { (-n) as u64 };
        let mut res = String::from_str("-");
        proof {
            reveal_strlit("-");
        }
        res.append(unsigned_text(m).as_str());
        res
    } else {
        unsigned_text(n as u64)
    }
}

/// Whether a text has the shape of the random ids of `generateRnd`: 56
/// upper-case hexadecimal digits.
pub open spec fn is_random_id(s: Seq<char>) -> bool {
    s.len() == 56 && forall|i: int| 0 <= i < s.len() ==> is_upper_hex_char(#[trigger] s[i])
}

/// Whether a text has the shape of the random ids of `generateRnd`.
pub fn isRandomId(s: &str) -> (res: bool)
    ensures
        res == is_random_id(s@),
{
    let n = s.unicode_len();
    if n != 56 {
        return false;
    }
    let mut i: usize = 0;
    while i < n
        invariant
            n == s@.len(),
            i <= n,
            forall|j: int| 0 <= j < i ==> is_upper_hex_char(#[trigger] s@[j]),
        decreases n - i,
    {
        let c = s.get_char(i);
        if !(('0' <= c && c <= '9') || ('A' <= c && c <= 'F')) {
            return false;
        }
        i = i + 1;
    }
    true
}

/// Whether `s` begins with `prefix`.
pub open spec fn starts_with(s: Seq<char>, prefix: Seq<char>) -> bool {
    prefix.len() <= s.len() && s.subrange(0, prefix.len() as int) == prefix
}

/// Whether `s` begins with `prefix`.
pub fn startsWith(s: &str, prefix: &str) -> (res: bool)
    ensures
        res == starts_with(s@, prefix@),
{
    let n = prefix.unicode_len();
    let m = s.unicode_len();
    if n > m {
        return false;
    }
    let mut i: usize = 0;
    while i < n
        invariant
            n == prefix@.len(),
            m == s@.len(),
            n <= m,
            i <= n,
            forall|j: int| 0 <= j < i ==> s@[j] == prefix@[j],
        decreases n - i,
    {
        if s.get_char(i) != prefix.get_char(i) {
            assert(s@.subrange(0, n as int)[i as int] != prefix@[i as int]);
            return false;
        }
        i = i + 1;
    }
    assert(s@.subrange(0, n as int) =~= prefix@);
    true
}

/// The format of dates in loan records: `%Y-%m-%d %H:%M:%S`.
pub open spec fn date_format() -> Seq<char> {
    seq!['%', 'Y', '-', '%', 'm', '-', '%', 'd', ' ', '%', 'H', ':', '%', 'M', ':', '%', 'S']
}

/// What `chrono::NaiveDateTime::parse_from_str` gives for a text and a
/// format, as seconds since the Unix epoch (`timestamp`), or `None` where
/// the text does not match the format.
pub uninterp spec fn chrono_parse(text: Seq<char>, format: Seq<char>) -> Option<int>;

/// What `chrono::NaiveDateTime::format` writes for the date at `seconds`
/// since the Unix epoch (`DateTime::from_timestamp`), or `None` where no
/// date has that timestamp.
pub uninterp spec fn chrono_format(seconds: int, format: Seq<char>) -> Option<Seq<char>>;

/// Calls `chrono::NaiveDateTime::parse_from_str` and reads the result's
/// `timestamp`. The result is `chrono_parse` of the arguments.
#[verifier::external_body]
fn parse_date(text: &str, format: &str) -> (res: Option<i64>)
    ensures
        match res {
            Some(t) => chrono_parse(text@, format@) == Some(t as int),
            None => chrono_parse(text@, format@) is None,
        },
{
    chrono::NaiveDateTime::parse_from_str(text, format).ok().map(|d| d.and_utc().timestamp())
}

/// Builds the date with `chrono::DateTime::from_timestamp` and writes it with
/// `format`. The result is `chrono_format` of the arguments. Writing with a
/// malformed format panics, so only the loan date format is taken.
#[verifier::external_body]
fn format_date(seconds: i64, format: &str) -> (res: Option<String>)
    requires
        format@ == date_format(),
    ensures
        match res {
            Some(s) => chrono_format(seconds as int, format@) == Some(s@),
            None => chrono_format(seconds as int, format@) is None,
        },
{
    chrono::DateTime::from_timestamp(seconds, 0).map(|d| d.naive_utc().format(format).to_string())
}

fn date_format_str() -> (s: &'static str)
    ensures
        s@ == date_format(),
{
    proof {
        reveal_strlit("%Y-%m-%d %H:%M:%S");
    }
    "%Y-%m-%d %H:%M:%S"
}

/// Reads a loan date written as `%Y-%m-%d %H:%M:%S`, as seconds since the
/// Unix epoch; `None` where the text is not such a date.
pub fn deserializeNaiveDateTime(text: &str) -> (res: Option<i64>)
    ensures
        match res {
            Some(t) => chrono_parse(text@, date_format()) == Some(t as int),
            None => chrono_parse(text@, date_format()) is None,
        },
{
    parse_date(text, date_format_str())
}

/// Writes a loan date, given in seconds since the Unix epoch, as
/// `%Y-%m-%d %H:%M:%S`; `None` where no date has that timestamp.
pub fn serializeNaiveDateTime(seconds: i64) -> (res: Option<String>)
    ensures
        match res {
            Some(s) => chrono_format(seconds as int, date_format()) == Some(s@),
            None => chrono_format(seconds as int, date_format()) is None,
        },
{
    format_date(seconds, date_format_str())
}

/// A point in time as `chrono` keeps it: whole seconds since the Unix epoch
/// and the nanoseconds past them.
#[derive(Debug, Clone, Copy, PartialEq, Eq, Structural)]
pub struct Moment {
    pub secs: i64,
    pub nanos: u32,
}

/// Reads the clock with `chrono::Utc::now` and returns its `timestamp` and
/// `timestamp_subsec_nanos`. Nothing is promised of it: it is the time.
#[verifier::external_body]
pub(crate) fn utc_now() -> Moment {
    let now = chrono::Utc::now();
    Moment { secs: now.timestamp(), nanos: now.timestamp_subsec_nanos() }
}

} // verus!
