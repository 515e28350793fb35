//! Content digests: the `algorithm:hex` text form and the `algorithm-hex`
//! file-system form, and the hexadecimal encoding both rely on.
use vstd::prelude::*;
use vstd::string::*;

verus! {

/// Number of bytes in a SHA-256 digest.
pub const SHA256_LEN: usize = 32;

/// The lower-case hexadecimal digit for a value below 16.
pub open spec fn hex_digit(n: u8) -> char {
    if n < 10 {
        (('0' as u8) + n) as char
    } else {
        (('a' as u8) + (n - 10)) as char
    }
}

/// Whether `c` is a hexadecimal digit, in either case.
pub open spec fn is_hex_char(c: char) -> bool {
    ('0' <= c && c <= '9') || ('a' <= c && c <= 'f') || ('A' <= c && c <= 'F')
}

/// The value of a hexadecimal digit.
pub open spec fn hex_value(c: char) -> u8 {
    if '0' <= c && c <= '9' {
        ((c as u8) - ('0' as u8)) as u8
    } else if 'a' <= c && c <= 'f' {
        ((c as u8) - ('a' as u8) + 10) as u8
    } else {
        ((c as u8) - ('A' as u8) + 10) as u8
    }
}

/// Two lower-case digits for each byte, the high half first.
pub open spec fn hex_encode(b: Seq<u8>) -> Seq<char> {
    Seq::new(
        2 * b.len(),
        |i: int|
            if i % 2 == 0 {
                hex_digit(b[i / 2] / 16)
            } else {
                hex_digit(b[i / 2] % 16)
            },
    )
}

/// Whether `s` is a well-formed hexadecimal text: an even number of digits.
pub open spec fn is_hex_text(s: Seq<char>) -> bool {
    &&& s.len() % 2 == 0
    &&& forall|i: int| 0 <= i < s.len() ==> is_hex_char(#[trigger] s[i])
}

/// The bytes that a well-formed hexadecimal text stands for.
pub open spec fn hex_decode(s: Seq<char>) -> Seq<u8> {
    Seq::new(
        s.len() / 2,
        |i: int| (hex_value(s[2 * i]) * 16 + hex_value(s[2 * i + 1])) as u8,
    )
}

/// Relies on `hex::encode`: two lower-case digits per byte, high half first.
#[verifier::external_body]
fn encode_hex(b: &[u8]) -> (r: String)
    ensures
        r@ == hex_encode(b@),
{
    hex::encode(b)
}

/// Relies on `hex::decode`: it succeeds exactly on an even number of digits
/// of either case, and then yields one byte per pair of digits.
#[verifier::external_body]
fn decode_hex(s: &str) -> (r: Option<Vec<u8>>)
    ensures
        r is Some <==> is_hex_text(s@),
        r matches Some(v) ==> v@ == hex_decode(s@),
{
    hex::decode(s).ok()
}

/// Why a digest text was refused.
#[derive(Clone, Copy, Debug, PartialEq, Eq, Structural)]
pub enum MalformedDigest {
    /// The separator between algorithm and digest is missing.
    NoSeparator,
    /// What follows the separator is not an even number of hexadecimal digits.
    NotHexadecimal,
    /// The algorithm name is not one that is known.
    UnknownAlgorithm,
    /// The digest does not have the algorithm's length.
    WrongLength,
}

/// The description of each refusal.
pub open spec fn malformed_digest_message(e: MalformedDigest) -> Seq<char> {
    match e {
        MalformedDigest::NoSeparator => "invalid format for blob string, no separator found"@,
        MalformedDigest::NotHexadecimal => "invalid blob name sha256 not hexadecimal"@,
        MalformedDigest::UnknownAlgorithm => "invalid blob unknown hash method"@,
        MalformedDigest::WrongLength => "invalid blob name sha256 not 32 bytes"@,
    }
}

impl MalformedDigest {
    /// A short human-readable description.
    pub fn message(&self) -> (r: &'static str)
        ensures
            r@ == malformed_digest_message(*self),
    {
        proof {
            reveal_strlit("invalid format for blob string, no separator found");
            reveal_strlit("invalid blob name sha256 not hexadecimal");
            reveal_strlit("invalid blob unknown hash method");
            reveal_strlit("invalid blob name sha256 not 32 bytes");
        }
        match self {
            MalformedDigest::NoSeparator => "invalid format for blob string, no separator found",
            MalformedDigest::NotHexadecimal => "invalid blob name sha256 not hexadecimal",
            MalformedDigest::UnknownAlgorithm => "invalid blob unknown hash method",
            MalformedDigest::WrongLength => "invalid blob name sha256 not 32 bytes",
        }
    }
}

/// A content identifier: a hash algorithm and the digest it produced.
#[derive(Clone, Copy, Debug)]
pub enum Blob {
    Sha256([u8; 32]),
}

/// The name under which an algorithm appears in digest texts.
pub open spec fn sha256_name() -> Seq<char> {
    seq!['s', 'h', 'a', '2', '5', '6']
}

/// The position of the first `sep` in `s`, if there is one.
pub open spec fn first_index_of(s: Seq<char>, sep: char) -> Option<int> {
    if exists|i: int| 0 <= i < s.len() && s[i] == sep {
        Some(
            choose|i: int|
                0 <= i < s.len() && s[i] == sep && forall|j: int| 0 <= j < i ==> s[j] != sep,
        )
    } else {
        None
    }
}

/// What a digest text stands for: the digest bytes, or why it is refused.
/// The algorithm name comes before the first `sep`, the hexadecimal digest after it.
pub open spec fn parse_digest(s: Seq<char>, sep: char) -> Result<Seq<u8>, MalformedDigest> {
    match first_index_of(s, sep) {
        None => Err(MalformedDigest::NoSeparator),
        Some(i) => {
            let name = s.take(i);
            let hex = s.skip(i + 1);
            if !is_hex_text(hex) {
                Err(MalformedDigest::NotHexadecimal)
            } else if name != sha256_name() {
                Err(MalformedDigest::UnknownAlgorithm)
            } else if hex.len() != 2 * SHA256_LEN {
                Err(MalformedDigest::WrongLength)
            } else {
                Ok(hex_decode(hex))
            }
        },
    }
}

/// The text of a digest with the given separator: `sha256<sep><hex>`.
pub open spec fn render_digest(bytes: Seq<u8>, sep: char) -> Seq<char> {
    sha256_name().push(sep) + hex_encode(bytes)
}

impl Blob {
    /// The digest bytes.
    pub open spec fn bytes(&self) -> Seq<u8> {
        match self {
            Blob::Sha256(h) => h@,
        }
    }

    /// The text form, `sha256:<hex>`.
    pub fn to_text(&self) -> (r: String)
        ensures
            r@ == render_digest(self.bytes(), ':'),
    {
        proof {
            reveal_strlit(":");
        }
        self.render(":")
    }

    /// The file-system form, `sha256-<hex>`.
    pub fn as_path_name(&self) -> (r: String)
        ensures
            r@ == render_digest(self.bytes(), '-'),
    {
        proof {
            reveal_strlit("-");
        }
        self.render("-")
    }

    fn render(&self, sep: &str) -> (r: String)
        requires
            sep@.len() == 1,
        ensures
            r@ == render_digest(self.bytes(), sep@[0]),
    {
        let mut out = String::from_str("sha256");
        out.append(sep);
        let Blob::Sha256(h) = self;
        let hex = encode_hex(h);
        out.append(hex.as_str());
        proof {
            reveal_strlit("sha256");
            assert(sha256_name().push(sep@[0]) =~= "sha256"@ + sep@);
        }
        out
    }
}

impl Blob {
    /// Reads the file-system form, `sha256-<hex>`.
    pub fn from_path_name(s: &str) -> (r: Result<Blob, MalformedDigest>)
        ensures
            match r {
                Ok(b) => parse_digest(s@, '-') == Ok::<Seq<u8>, MalformedDigest>(b.bytes()),
                Err(e) => parse_digest(s@, '-') == Err::<Seq<u8>, MalformedDigest>(e),
            },
    {
        Self::from_str_sep(s, '-')
    }

    /// Reads the text form, `sha256:<hex>`.
    pub fn from_text(s: &str) -> (r: Result<Blob, MalformedDigest>)
        ensures
            match r {
                Ok(b) => parse_digest(s@, ':') == Ok::<Seq<u8>, MalformedDigest>(b.bytes()),
                Err(e) => parse_digest(s@, ':') == Err::<Seq<u8>, MalformedDigest>(e),
            },
    {
        Self::from_str_sep(s, ':')
    }

    fn from_str_sep(s: &str, sep: char) -> (r: Result<Blob, MalformedDigest>)
        ensures
            match r {
                Ok(b) => parse_digest(s@, sep) == Ok::<Seq<u8>, MalformedDigest>(b.bytes()),
                Err(e) => parse_digest(s@, sep) == Err::<Seq<u8>, MalformedDigest>(e),
            },
    {
        let n = s.unicode_len();
        let mut i: usize = 0;
        let mut found = false;
        while i < n && !found
            invariant
                n == s@.len(),
                i <= n,
                found ==> i < n && s@[i as int] == sep,
                forall|j: int| 0 <= j < i ==> s@[j] != sep,
            decreases n - i + (if found { 0int } else { 1int }),
        {
            if s.get_char(i) == sep {
                found = true;
            } else {
                i = i + 1;
            }
        }
        if !found {
            return Err(MalformedDigest::NoSeparator);
        }
        assert(first_index_of(s@, sep) == Some(i as int)) by {
            assert(s@[i as int] == sep);
            let k = choose|k: int|
                0 <= k < s@.len() && s@[k] == sep && forall|j: int| 0 <= j < k ==> s@[j] != sep;
            assert(k == i as int);
        }
        let name = s.substring_char(0, i);
        let hex = s.substring_char(i + 1, n);
        assert(name@ =~= s@.take(i as int));
        assert(hex@ =~= s@.skip(i + 1));
        match decode_hex(hex) {
            None => Err(MalformedDigest::NotHexadecimal),
            Some(v) => {
                if !is_sha256_name(name) {
                    Err(MalformedDigest::UnknownAlgorithm)
                } else if v.len() != SHA256_LEN {
                    Err(MalformedDigest::WrongLength)
                } else {
                    let mut h = [0u8; 32];
                    let mut k: usize = 0;
                    while k < SHA256_LEN
                        invariant
                            v@.len() == SHA256_LEN,
                            k <= SHA256_LEN,
                            forall|j: int| 0 <= j < k ==> h@[j] == v@[j],
                        decreases SHA256_LEN - k,
                    {
                        h[k] = v[k];
                        k = k + 1;
                    }
                    assert(h@ =~= v@);
                    Ok(Blob::Sha256(h))
                }
            },
        }
    }
}

fn is_sha256_name(name: &str) -> (r: bool)
    ensures
        r == (name@ == sha256_name()),
{
    let expected = "sha256";
    proof {
        reveal_strlit("sha256");
    }
    let n = name.unicode_len();
    if n != 6 {
        return false;
    }
    let mut i: usize = 0;
    while i < 6
        invariant
            n == name@.len() == 6,
            expected@ == sha256_name(),
            i <= 6,
            forall|j: int| 0 <= j < i ==> name@[j] == sha256_name()[j],
        decreases 6 - i,
    {
        if name.get_char(i) != expected.get_char(i) {
            return false;
        }
        i = i + 1;
    }
    assert(name@ =~= sha256_name());
    true
}

impl PartialEq for Blob {
    fn eq(&self, other: &Blob) -> (r: bool)
        ensures
            r == (self.bytes() == other.bytes()),
    {
        let Blob::Sha256(a) = self;
        let Blob::Sha256(b) = other;
        assert(self.bytes() == a@ && other.bytes() == b@);
        let mut i: usize = 0;
        while i < SHA256_LEN
            invariant
                self.bytes() == a@,
                other.bytes() == b@,
                a@.len() == SHA256_LEN,
                b@.len() == SHA256_LEN,
                i <= SHA256_LEN,
                forall|j: int| 0 <= j < i ==> a@[j] == b@[j],
            decreases SHA256_LEN - i,
        {
            if a[i] != b[i] {
                assert(a@[i as int] != b@[i as int]);
                assert(self.bytes() != other.bytes());
                return false;
            }
            i = i + 1;
        }
        assert(a@ =~= b@);
        true
    }
}

impl core::str::FromStr for Blob {
    type Err = MalformedDigest;

    fn from_str(s: &str) -> Result<Blob, MalformedDigest> {
        Blob::from_text(s)
    }
}

impl Eq for Blob {
}

impl vstd::std_specs::cmp::PartialEqSpecImpl for Blob {
    open spec fn obeys_eq_spec() -> bool {
        true
    }

    open spec fn eq_spec(&self, other: &Blob) -> bool {
        self.bytes() == other.bytes()
    }
}

proof fn lemma_hex_digit(n: u8)
    requires
        n < 16,
    ensures
        is_hex_char(hex_digit(n)),
        hex_digit(n) != ':',
        hex_digit(n) != '-',
        hex_value(hex_digit(n)) == n,
{
}

proof fn lemma_hex_round_trip(b: Seq<u8>)
    ensures
        is_hex_text(hex_encode(b)),
        hex_decode(hex_encode(b)) == b,
{
    let h = hex_encode(b);
    assert forall|i: int| 0 <= i < h.len() implies is_hex_char(#[trigger] h[i]) by {
        lemma_hex_digit(b[i / 2] / 16);
        lemma_hex_digit(b[i / 2] % 16);
    }
    assert forall|i: int| 0 <= i < b.len() implies #[trigger] hex_decode(h)[i] == b[i] by {
        let x = b[i];
        lemma_hex_digit(x / 16);
        lemma_hex_digit(x % 16);
        assert(h[2 * i] == hex_digit(x / 16));
        assert(h[2 * i + 1] == hex_digit(x % 16));
        assert((x / 16) * 16 + x % 16 == x);
    }
    assert(hex_decode(h) =~= b);
}

proof fn lemma_split_rendered(h: Seq<char>, sep: char)
    requires
        sep == ':' || sep == '-',
    ensures
        first_index_of(sha256_name().push(sep) + h, sep) == Some(6int),
        (sha256_name().push(sep) + h).take(6) == sha256_name(),
        (sha256_name().push(sep) + h).skip(7) == h,
{
    let p = sha256_name().push(sep);
    let s = p + h;
    assert(s[6] == p[6]);
    assert forall|j: int| 0 <= j < 6 implies s[j] != sep by {
        assert(s[j] == p[j]);
    }
    let k = choose|k: int|
        0 <= k < s.len() && s[k] == sep && forall|j: int| 0 <= j < k ==> s[j] != sep;
    assert(exists|i: int| 0 <= i < s.len() && s[i] == sep);
    assert(!(k < 6));
    assert(!(k > 6));
    assert(s.take(6) =~= sha256_name());
    assert(s.skip(7) =~= h);
}

/// Rendering a digest in either form and reading it back in the same form
/// gives the digest back.
pub proof fn lemma_digest_text_round_trip(b: Blob, sep: char)
    requires
        sep == ':' || sep == '-',
    ensures
        parse_digest(render_digest(b.bytes(), sep), sep) == Ok::<Seq<u8>, MalformedDigest>(
            b.bytes(),
        ),
{
    let bytes = b.bytes();
    let h = hex_encode(bytes);
    lemma_hex_round_trip(bytes);
    lemma_split_rendered(h, sep);
    assert(h.len() == 2 * SHA256_LEN);
}

} // verus!
