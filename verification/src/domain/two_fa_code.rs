//! The one-time code of a login challenge.

use crate::domain::error::ValidationError;
use crate::secret::SecretText;
use rand::Rng;
use vstd::prelude::*;
use vstd::string::*;

verus! {

/// The least number that a one-time code may show.
pub const TWO_FA_CODE_MIN: u32 = 100_000;

/// The greatest number that a one-time code may show.
pub const TWO_FA_CODE_MAX: u32 = 999_999;

/// The character of a decimal digit.
pub open spec fn digit_char(d: int) -> char {
    ((48 + d) as u8) as char
}

/// The six decimal digits of `n`, most significant first: each is what is
/// left of `n` after the digits behind it were cut off, taken modulo ten.
pub open spec fn code_text(n: int) -> Seq<char> {
    seq![
        digit_char(n / 10 / 10 / 10 / 10 / 10 % 10),
        digit_char(n / 10 / 10 / 10 / 10 % 10),
        digit_char(n / 10 / 10 / 10 % 10),
        digit_char(n / 10 / 10 % 10),
        digit_char(n / 10 % 10),
        digit_char(n % 10),
    ]
}

/// What a one-time code is: six decimal digits, the first of them not zero,
/// so that it shows a number from 100000 to 999999.
pub open spec fn is_two_fa_code(text: Seq<char>) -> bool {
    &&& text.len() == 6
    &&& forall|i: int| 0 <= i < 6 ==> '0' <= #[trigger] text[i] <= '9'
    &&& text[0] != '0'
}

/// The number that six decimal digits show.
pub open spec fn code_value(text: Seq<char>) -> int {
    (text[0] as int - 48) * 100_000 + (text[1] as int - 48) * 10_000 + (text[2] as int - 48) * 1_000
        + (text[3] as int - 48) * 100 + (text[4] as int - 48) * 10 + (text[5] as int - 48)
}

/// The six digits of a number from 100000 to 999999 are a one-time code,
/// and they show that number.
pub proof fn lemma_code_text_is_code(n: int)
    requires
        TWO_FA_CODE_MIN <= n <= TWO_FA_CODE_MAX,
    ensures
        is_two_fa_code(code_text(n)),
        code_value(code_text(n)) == n,
{
    let n1 = n / 10;
    let n2 = n1 / 10;
    let n3 = n2 / 10;
    let n4 = n3 / 10;
    let n5 = n4 / 10;
    assert(1 <= n5 <= 9);
    let text = code_text(n);
    assert(text[0] as int == 48 + n5 % 10);
    assert(text[1] as int == 48 + n4 % 10);
    assert(text[2] as int == 48 + n3 % 10);
    assert(text[3] as int == 48 + n2 % 10);
    assert(text[4] as int == 48 + n1 % 10);
    assert(text[5] as int == 48 + n % 10);
}

/// A one-time code shows a number from 100000 to 999999, and is the six
/// digits of that number.
pub proof fn lemma_code_shows_number(text: Seq<char>)
    requires
        is_two_fa_code(text),
    ensures
        TWO_FA_CODE_MIN <= code_value(text) <= TWO_FA_CODE_MAX,
        code_text(code_value(text)) == text,
{
    let d0 = text[0] as int - 48;
    let d1 = text[1] as int - 48;
    let d2 = text[2] as int - 48;
    let d3 = text[3] as int - 48;
    let d4 = text[4] as int - 48;
    let d5 = text[5] as int - 48;
    assert(1 <= d0 <= 9);
    assert(0 <= d1 <= 9);
    assert(0 <= d2 <= 9);
    assert(0 <= d3 <= 9);
    assert(0 <= d4 <= 9);
    assert(0 <= d5 <= 9);
    let n = code_value(text);
    let m1 = d0 * 10_000 + d1 * 1_000 + d2 * 100 + d3 * 10 + d4;
    let m2 = d0 * 1_000 + d1 * 100 + d2 * 10 + d3;
    let m3 = d0 * 100 + d1 * 10 + d2;
    let m4 = d0 * 10 + d1;
    assert(n == 10 * m1 + d5);
    assert(n / 10 == m1 && n % 10 == d5);
    assert(m1 / 10 == m2 && m1 % 10 == d4);
    assert(m2 / 10 == m3 && m2 % 10 == d3);
    assert(m3 / 10 == m4 && m3 % 10 == d2);
    assert(m4 / 10 == d0 && m4 % 10 == d1);
    assert(d0 % 10 == d0);
    assert(code_text(n) =~= text);
}

/// `rand::Rng::gen_range` on the thread's generator, for an inclusive range
/// that is not empty: some number of the range.
#[verifier::external_body]
fn random_between(low: u32, high: u32) -> (n: u32)
    requires
        low <= high,
    ensures
        low <= n <= high,
{
    rand::thread_rng().gen_range(low..=high)
}

/// The text of one decimal digit.
fn digit_str(d: u32) -> (s: &'static str)
    requires
        d < 10,
    ensures
        s@ == seq![digit_char(d as int)],
{
    proof {
        reveal_strlit("0");
        reveal_strlit("1");
        reveal_strlit("2");
        reveal_strlit("3");
        reveal_strlit("4");
        reveal_strlit("5");
        reveal_strlit("6");
        reveal_strlit("7");
        reveal_strlit("8");
        reveal_strlit("9");
    }
    let s: &'static str = match d {
        0 => "0",
        1 => "1",
        2 => "2",
        3 => "3",
        4 => "4",
        5 => "5",
        6 => "6",
        7 => "7",
        8 => "8",
        _ => "9",
    };
    assert(s@ =~= seq![digit_char(d as int)]);
    s
}

/// Decides [`is_two_fa_code`].
pub fn has_code_shape(text: &str) -> (ok: bool)
    ensures
        ok == is_two_fa_code(text@),
{
    if text.unicode_len() != 6 {
        return false;
    }
    let mut i: usize = 0;
    while i < 6
        invariant
            text@.len() == 6,
            i <= 6,
            forall|k: int| 0 <= k < i ==> '0' <= #[trigger] text@[k] <= '9',
        decreases 6 - i,
    {
        let c: char = text.get_char(i);
        if c < '0' || c > '9' {
            return false;
        }
        i = i + 1;
    }
    text.get_char(0) != '0'
}

/// A one-time code. It is a secret: the debug print is redacted.
#[derive(Debug)]
pub struct TwoFACode(SecretText);

impl View for TwoFACode {
    type V = Seq<char>;

    closed spec fn view(&self) -> Seq<char> {
        self.0@
    }
}

impl TwoFACode {
    #[verifier::type_invariant]
    spec fn inv(self) -> bool {
        is_two_fa_code(self.0@)
    }

    /// Accepts `code` exactly when it is six decimal digits that show a
    /// number from 100000 to 999999, and keeps it unchanged.
    pub fn parse(code: String) -> (r: Result<TwoFACode, ValidationError>)
        ensures
            r is Ok <==> is_two_fa_code(code@),
            r is Ok ==> r->Ok_0@ == code@,
            r is Err ==> r->Err_0 == ValidationError::InvalidTwoFACode,
    {
        if has_code_shape(code.as_str()) {
            Ok(TwoFACode(SecretText::new(code)))
        } else {
            Err(ValidationError::InvalidTwoFACode)
        }
    }

    /// The code that shows `n`, where `n` is from 100000 to 999999.
    pub fn from_number(n: u32) -> (r: Option<TwoFACode>)
        ensures
            r is Some <==> TWO_FA_CODE_MIN <= n <= TWO_FA_CODE_MAX,
            r is Some ==> r->Some_0@ == code_text(n as int),
    {
        if n < TWO_FA_CODE_MIN || n > TWO_FA_CODE_MAX {
            return None;
        }
        let mut text: String = String::new();
        let n1: u32 = n / 10;
        let n2: u32 = n1 / 10;
        let n3: u32 = n2 / 10;
        let n4: u32 = n3 / 10;
        let n5: u32 = n4 / 10;
        text.append(digit_str(n5 % 10));
        text.append(digit_str(n4 % 10));
        text.append(digit_str(n3 % 10));
        text.append(digit_str(n2 % 10));
        text.append(digit_str(n1 % 10));
        text.append(digit_str(n % 10));
        proof {
            assert(text@ =~= code_text(n as int));
            lemma_code_text_is_code(n as int);
        }
        Some(TwoFACode(SecretText::new(text)))
    }

    /// A fresh code, drawn at random from 100000 to 999999.
    pub fn generate() -> (code: TwoFACode)
        ensures
            exists|n: int| TWO_FA_CODE_MIN <= n <= TWO_FA_CODE_MAX && code@ == code_text(n),
            is_two_fa_code(code@),
    {
        let n: u32 = random_between(TWO_FA_CODE_MIN, TWO_FA_CODE_MAX);
        let code: TwoFACode = TwoFACode::from_number(n).unwrap();
        proof {
            use_type_invariant(&code);
            assert(code@ == code_text(n as int));
        }
        code
    }

    /// The secret that holds the code, which is always six digits.
    pub fn as_ref(&self) -> (s: &SecretText)
        ensures
            s@ == self@,
            is_two_fa_code(self@),
    {
        proof {
            use_type_invariant(self);
        }
        &self.0
    }
}

impl Clone for TwoFACode {
    fn clone(&self) -> (copy: TwoFACode)
        ensures
            copy@ == self@,
    {
        proof {
            use_type_invariant(self);
        }
        TwoFACode(self.0.clone())
    }
}

impl PartialEq for TwoFACode {
    fn eq(&self, other: &TwoFACode) -> (r: bool) {
        self.0.same_text(&other.0)
    }
}

impl vstd::std_specs::cmp::PartialEqSpecImpl for TwoFACode {
    open spec fn obeys_eq_spec() -> bool {
        true
    }

    open spec fn eq_spec(&self, other: &TwoFACode) -> bool {
        self@ == other@
    }
}

} // verus!
