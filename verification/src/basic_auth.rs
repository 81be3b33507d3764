//! Decoding the payload of an HTTP Basic-Auth header, and the password
//! shapes the command line works with: the base64 text as received, and the
//! cleartext recovered from it.
//!
//! The base64 and UTF-8 steps are trusted calls; splitting the recovered
//! text at the first colon is verified against [`split_colon_spec`].

use vstd::prelude::*;

use base64::Engine;

use vstd::utf8::decode_utf8;
use vstd::utf8::encode_utf8;
use vstd::utf8::encode_utf8_decode_utf8;
use vstd::utf8::valid_utf8;

verus! {

/// What the standard base64 alphabet, with padding, decodes the text to:
/// `None` exactly when the text is not a well-formed encoding.
pub uninterp spec fn base64_decode_spec(s: Seq<char>) -> Option<Seq<u8>>;

/// Relies on base64's `STANDARD` engine: decoding depends on the input text
/// alone, and fails exactly on text that is not a well-formed encoding.
#[verifier::external_body]
fn b64_decode(input: &str) -> (r: Option<Vec<u8>>)
    ensures
        match r {
            Some(v) => base64_decode_spec(input@) == Some(v@),
            None => base64_decode_spec(input@) is None,
        },
{
    base64::engine::general_purpose::STANDARD.decode(input).ok()
}

/// Relies on `String::from_utf8`: it succeeds exactly on valid UTF-8, and
/// the returned string's bytes are the input bytes.
#[verifier::external_body]
fn utf8_to_string(bytes: Vec<u8>) -> (r: Option<String>)
    ensures
        match r {
            Some(s) => valid_utf8(bytes@) && encode_utf8(s@) == bytes@,
            None => !valid_utf8(bytes@),
        },
{
    String::from_utf8(bytes).ok()
}

/// Why a Basic-Auth payload was rejected.
#[derive(Debug, Clone, Copy, PartialEq, Eq, Structural)]
pub enum BasicAuthError {
    /// The payload is not well-formed base64.
    InvalidBase64,
    /// The decoded bytes are not valid UTF-8.
    InvalidUtf8,
}

/// Splitting a text at its first colon: everything before the colon, and
/// everything after it; `None` when no colon occurs.
pub open spec fn split_colon_spec(s: Seq<char>) -> (Seq<char>, Option<Seq<char>>)
    decreases s.len(),
{
    if s.len() == 0 {
        (s, None)
    } else if s[0] == ':' {
        (Seq::empty(), Some(s.drop_first()))
    } else {
        let rest = split_colon_spec(s.drop_first());
        (seq![s[0]] + rest.0, rest.1)
    }
}

proof fn lemma_split_no_colon(s: Seq<char>)
    requires
        forall|j: int| 0 <= j < s.len() ==> s[j] != ':',
    ensures
        split_colon_spec(s) == (s, None::<Seq<char>>),
    decreases s.len(),
{
    if s.len() > 0 {
        lemma_split_no_colon(s.drop_first());
        assert(seq![s[0]] + s.drop_first() =~= s);
    }
}

proof fn lemma_split_first_colon(s: Seq<char>, i: int)
    requires
        0 <= i < s.len(),
        s[i] == ':',
        forall|j: int| 0 <= j < i ==> s[j] != ':',
    ensures
        split_colon_spec(s) == (s.subrange(0, i), Some(s.subrange(i + 1, s.len() as int))),
    decreases s.len(),
{
    if i == 0 {
        assert(s.subrange(0, 0) =~= Seq::<char>::empty());
        assert(s.drop_first() =~= s.subrange(1, s.len() as int));
    } else {
        lemma_split_first_colon(s.drop_first(), i - 1);
        assert(s.drop_first().subrange(0, i - 1) =~= s.subrange(1, i));
        assert(seq![s[0]] + s.subrange(1, i) =~= s.subrange(0, i));
        assert(s.drop_first().subrange(i, s.len() - 1) =~= s.subrange(i + 1, s.len() as int));
    }
}

/// Splits a text at its first colon.
pub fn split_basic(s: &str) -> (r: (String, Option<String>))
    ensures
        split_colon_spec(s@) == (
            r.0@,
            match r.1 {
                Some(p) => Some(p@),
                None => None::<Seq<char>>,
            },
        ),
{
    let n = s.unicode_len();
    let mut i: usize = 0;
    while i < n
        invariant
            i <= n,
            n == s@.len(),
            forall|j: int| 0 <= j < i ==> s@[j] != ':',
        decreases n - i,
    {
        if s.get_char(i) == ':' {
            proof {
                lemma_split_first_colon(s@, i as int);
            }
            let head = String::from_str(s.substring_char(0, i));
            let tail = String::from_str(s.substring_char(i + 1, n));
            return (head, Some(tail));
        }
        i = i + 1;
    }
    proof {
        lemma_split_no_colon(s@);
    }
    (String::from_str(s), None)
}

/// Decodes the two parts of a Basic-Auth payload: base64, then UTF-8, then
/// a split at the first colon; the part after the colon, the password, is
/// absent when the decoded text holds no colon.
pub fn decode(input: &str) -> (r: Result<(String, Option<String>), BasicAuthError>)
    ensures
        match r {
            Ok(parts) => base64_decode_spec(input@) matches Some(bytes) && valid_utf8(bytes)
                && split_colon_spec(decode_utf8(bytes)) == (
                parts.0@,
                match parts.1 {
                    Some(p) => Some(p@),
                    None => None::<Seq<char>>,
                },
            ),
            Err(BasicAuthError::InvalidBase64) => base64_decode_spec(input@) is None,
            Err(BasicAuthError::InvalidUtf8) => base64_decode_spec(input@) matches Some(bytes)
                && !valid_utf8(bytes),
        },
{
    let bytes = match b64_decode(input) {
        Some(b) => b,
        None => {
            return Err(BasicAuthError::InvalidBase64);
        },
    };
    let text = match utf8_to_string(bytes) {
        Some(t) => t,
        None => {
            return Err(BasicAuthError::InvalidUtf8);
        },
    };
    proof {
        encode_utf8_decode_utf8(text@);
    }
    Ok(split_basic(text.as_str()))
}

/// A password as it travels: base64 text, not yet decoded.
#[derive(Debug)]
pub struct PasswordEncoded {
    text: String,
}

impl View for PasswordEncoded {
    type V = Seq<char>;

    closed spec fn view(&self) -> Seq<char> {
        self.text@
    }
}

impl PasswordEncoded {
    /// Wraps base64 text as received.
    pub fn new(text: String) -> (r: PasswordEncoded)
        ensures
            r@ == text@,
    {
        PasswordEncoded { text }
    }

    /// The encoded text.
    pub fn as_str(&self) -> (r: &str)
        ensures
            r@ == self@,
    {
        self.text.as_str()
    }

    /// Recovers the cleartext this encoding carries.
    pub fn decode(&self) -> (r: Result<PasswordDecoded, BasicAuthError>)
        ensures
            match r {
                Ok(d) => base64_decode_spec(self@) matches Some(bytes) && valid_utf8(bytes)
                    && d@ == decode_utf8(bytes),
                Err(BasicAuthError::InvalidBase64) => base64_decode_spec(self@) is None,
                Err(BasicAuthError::InvalidUtf8) => base64_decode_spec(self@) matches Some(bytes)
                    && !valid_utf8(bytes),
            },
    {
        let bytes = match b64_decode(self.text.as_str()) {
            Some(b) => b,
            None => {
                return Err(BasicAuthError::InvalidBase64);
            },
        };
        let text = match utf8_to_string(bytes) {
            Some(t) => t,
            None => {
                return Err(BasicAuthError::InvalidUtf8);
            },
        };
        proof {
            encode_utf8_decode_utf8(text@);
        }
        Ok(PasswordDecoded { text })
    }
}

/// A password recovered into cleartext; rendered masked everywhere, shown
/// in clear only through [`PasswordDecoded::show_sensitive`].
#[derive(Debug)]
pub struct PasswordDecoded {
    text: String,
}

impl View for PasswordDecoded {
    type V = Seq<char>;

    closed spec fn view(&self) -> Seq<char> {
        self.text@
    }
}

impl PasswordDecoded {
    /// Wraps an already decoded cleartext.
    pub fn new(text: String) -> (r: PasswordDecoded)
        ensures
            r@ == text@,
    {
        PasswordDecoded { text }
    }

    /// The cleartext itself; every other rendering is masked.
    pub fn show_sensitive(&self) -> (r: &str)
        ensures
            r@ == self@,
    {
        self.text.as_str()
    }

    /// The fixed placeholder under which this value is rendered.
    pub fn masked(&self) -> (r: &'static str)
        ensures
            r@ == "*******"@,
    {
        "*******"
    }
}

/// Whether a character is one of the ten ASCII digits.
pub open spec fn is_ascii_digit_char(c: char) -> bool {
    0x30 <= c as u32 <= 0x39
}

/// Whether a character is alphabetic, in the Unicode sense of
/// `char::is_alphabetic`.
pub uninterp spec fn is_alphabetic_char(c: char) -> bool;

/// Relies on `char::is_alphabetic`: a property of the character alone.
#[verifier::external_body]
fn char_is_alphabetic(c: char) -> (r: bool)
    ensures
        r == is_alphabetic_char(c),
{
    c.is_alphabetic()
}

/// The rule a prompted password must meet: at least one ASCII digit and at
/// least one alphabetic character.
pub open spec fn password_rule_spec(s: Seq<char>) -> bool {
    (exists|i: int| 0 <= i < s.len() && is_ascii_digit_char(s[i])) && (exists|i: int|
        0 <= i < s.len() && is_alphabetic_char(s[i]))
}

/// Whether the password holds at least one digit and one letter.
pub fn is_valid(password: &str) -> (r: bool)
    ensures
        r == password_rule_spec(password@),
{
    let n = password.unicode_len();
    let mut has_digit = false;
    let mut has_alpha = false;
    let mut i: usize = 0;
    while i < n
        invariant
            i <= n,
            n == password@.len(),
            has_digit == (exists|j: int| 0 <= j < i && is_ascii_digit_char(password@[j])),
            has_alpha == (exists|j: int| 0 <= j < i && is_alphabetic_char(password@[j])),
        decreases n - i,
    {
        let c = password.get_char(i);
        let u = c as u32;
        if 0x30 <= u && u <= 0x39 {
            has_digit = true;
        }
        if char_is_alphabetic(c) {
            has_alpha = true;
        }
        i = i + 1;
    }
    has_digit && has_alpha
}

/// Checks the prompt rule, wording the refusal as the prompt shows it.
pub fn letter_and_numbers(password: &str) -> (r: Result<(), String>)
    ensures
        r is Ok <==> password_rule_spec(password@),
        match r {
            Ok(_) => true,
            Err(m) => m@ == "Password needs to have at least 1 letter and 1 number."@,
        },
{
    if is_valid(password) {
        Ok(())
    } else {
        Err(String::from_str("Password needs to have at least 1 letter and 1 number."))
    }
}

} // verus!
