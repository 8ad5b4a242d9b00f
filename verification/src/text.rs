//! Text utilities of the engine: decimal rendering of native codes and
//! decoding of the NUL-terminated byte buffers the backend fills.

use vstd::prelude::*;
use vstd::string::StringExecFns;

verus! {

/// The character for one decimal digit.
pub open spec fn decimal_digit_char(d: nat) -> char {
    if d == 0 {
        '0'
    } else if d == 1 {
        '1'
    } else if d == 2 {
        '2'
    } else if d == 3 {
        '3'
    } else if d == 4 {
        '4'
    } else if d == 5 {
        '5'
    } else if d == 6 {
        '6'
    } else if d == 7 {
        '7'
    } else if d == 8 {
        '8'
    } else {
        '9'
    }
}

/// The decimal rendering of a natural number, most significant digit
/// first, with no leading zeros (a lone zero for 0).
pub open spec fn decimal_digits(n: nat) -> Seq<char>
    decreases n,
{
    if n < 10 {
        seq![decimal_digit_char(n)]
    } else {
        decimal_digits(n / 10).push(decimal_digit_char(n % 10))
    }
}

fn decimal_digit_str(d: u32) -> (r: &'static str)
    requires
        d < 10,
    ensures
        r@ == seq![decimal_digit_char(d as nat)],
{
    proof {
        reveal_strlit("0");
        reveal_strlit("1");
        reveal_strlit("2");
        reveal_strlit("3");
        reveal_strlit("4");
        reveal_strlit("5");
        reveal_strlit("6");
        reveal_strlit("7");
        reveal_strlit("8");
        reveal_strlit("9");
    }
    let r: &'static str = if d == 0 {
        "0"
    } else if d == 1 {
        "1"
    } else if d == 2 {
        "2"
    } else if d == 3 {
        "3"
    } else if d == 4 {
        "4"
    } else if d == 5 {
        "5"
    } else if d == 6 {
        "6"
    } else if d == 7 {
        "7"
    } else if d == 8 {
        "8"
    } else {
        "9"
    };
    proof {
        assert(r@ =~= seq![decimal_digit_char(d as nat)]);
    }
    r
}

/// Renders a native code in decimal.
pub fn u32_to_decimal(n: u32) -> (r: String)
    ensures
        r@ == decimal_digits(n as nat),
    decreases n,
{
    if n < 10 {
        decimal_digit_str(n).to_owned()
    } else {
        proof {
            assert(n / 10 < n) by (nonlinear_arith)
                requires
                    n >= 10,
            ;
        }
        let mut s = u32_to_decimal(n / 10);
        s.append(decimal_digit_str(n % 10));
        proof {
            assert(s@ =~= decimal_digits(n as nat));
        }
        s
    }
}

/// The index of the first NUL byte, or the length when there is none.
pub open spec fn first_nul_index(bytes: Seq<u8>) -> int
    decreases bytes.len(),
{
    if bytes.len() == 0 {
        0
    } else if bytes[0] == 0 {
        0
    } else {
        1 + first_nul_index(bytes.drop_first())
    }
}

/// What a NUL-terminated buffer holds: the bytes before its first NUL.
pub open spec fn clip_at_nul(bytes: Seq<u8>) -> Seq<u8> {
    bytes.take(first_nul_index(bytes))
}

proof fn lemma_first_nul_index_bounds(bytes: Seq<u8>)
    ensures
        0 <= first_nul_index(bytes) <= bytes.len(),
        forall|j: int| 0 <= j < first_nul_index(bytes) ==> bytes[j] != 0,
        first_nul_index(bytes) < bytes.len() ==> bytes[first_nul_index(bytes)] == 0,
    decreases bytes.len(),
{
    if bytes.len() > 0 && bytes[0] != 0 {
        lemma_first_nul_index_bounds(bytes.drop_first());
        assert forall|j: int| 0 <= j < first_nul_index(bytes) implies bytes[j] != 0 by {
            if j > 0 {
                assert(bytes.drop_first()[j - 1] != 0);
            }
        }
    }
}

proof fn lemma_first_nul_index_of_prefix(bytes: Seq<u8>, i: int)
    requires
        0 <= i <= bytes.len(),
        forall|j: int| 0 <= j < i ==> bytes[j] != 0,
        i < bytes.len() ==> bytes[i] == 0,
    ensures
        first_nul_index(bytes) == i,
    decreases bytes.len(),
{
    if bytes.len() > 0 && bytes[0] != 0 {
        assert(forall|j: int| 0 <= j < i - 1 ==> bytes.drop_first()[j] != 0);
        lemma_first_nul_index_of_prefix(bytes.drop_first(), i - 1);
    }
}

/// The characters that `String::from_utf8_lossy` yields for a byte
/// sequence: valid UTF-8 runs decode as themselves, invalid sequences
/// become replacement characters.
pub uninterp spec fn utf8_lossy_of(bytes: Seq<u8>) -> Seq<char>;

/// Relies on `String::from_utf8_lossy`: the result is a function of the
/// bytes alone; an empty input yields an empty string; bytes that are all
/// ASCII are valid UTF-8 and decode to exactly those characters.
#[verifier::external_body]
fn utf8_lossy(bytes: &Vec<u8>) -> (r: String)
    ensures
        r@ == utf8_lossy_of(bytes@),
        bytes@.len() == 0 ==> r@.len() == 0,
        (forall|i: int| 0 <= i < bytes@.len() ==> bytes@[i] < 128) ==> r@ == bytes@.map_values(
            |b: u8| b as char,
        ),
{
    String::from_utf8_lossy(bytes.as_slice()).into_owned()
}

/// Decodes a NUL-terminated native text buffer: the bytes before the
/// first NUL, read as UTF-8, lossily where they are not valid UTF-8.
pub fn decode_text_buffer(bytes: &Vec<u8>) -> (r: String)
    ensures
        r@ == utf8_lossy_of(clip_at_nul(bytes@)),
{
    let mut end: usize = 0;
    while end < bytes.len() && bytes[end] != 0
        invariant
            0 <= end <= bytes@.len(),
            forall|j: int| 0 <= j < end ==> bytes@[j] != 0,
        decreases bytes@.len() - end,
    {
        end = end + 1;
    }
    proof {
        lemma_first_nul_index_of_prefix(bytes@, end as int);
    }
    let mut clipped: Vec<u8> = Vec::new();
    let mut i: usize = 0;
    while i < end
        invariant
            0 <= i <= end <= bytes@.len(),
            clipped@ =~= bytes@.take(i as int),
        decreases end - i,
    {
        clipped.push(bytes[i]);
        proof {
            assert(clipped@ =~= bytes@.take(i + 1 as int));
        }
        i = i + 1;
    }
    utf8_lossy(&clipped)
}

} // verus!
