//! Server join codes: three blocks of six random letters or digits,
//! joined by hyphens (`AbC123-xYz789-Q1w2E3`).

use vstd::prelude::*;
use rand::Rng;
use crate::text::{is_ascii_digit, is_ascii_lower, is_ascii_upper, push_char};

verus! {

/// Characters of one block.
pub const JOIN_CODE_BLOCK_LEN: usize = 6;

/// Blocks in a code.
pub const JOIN_CODE_BLOCK_COUNT: usize = 3;

/// Letters and digits in the join-code alphabet.
pub const JOIN_CODE_ALPHABET_LEN: usize = 62;

/// A character of the join-code alphabet: an ASCII letter or digit.
pub open spec fn is_join_code_char(c: char) -> bool {
    is_ascii_upper(c) || is_ascii_lower(c) || is_ascii_digit(c)
}

/// The `i`-th alphabet character: `A`–`Z`, then `a`–`z`, then `0`–`9`.
pub open spec fn alphabet_at(i: int) -> char {
    if i < 26 {
        (0x41 + i) as char
    } else if i < 52 {
        (0x61 + i - 26) as char
    } else {
        (0x30 + i - 52) as char
    }
}

/// A well-formed join code: twenty characters, hyphens at positions six
/// and thirteen, alphabet characters everywhere else.
pub open spec fn is_valid_join_code_text(s: Seq<char>) -> bool {
    &&& s.len() == 20
    &&& forall|i: int|
        0 <= i < 20 ==> if i == 6 || i == 13 {
            #[trigger] s[i] == '-'
        } else {
            is_join_code_char(s[i])
        }
}

/// Whether a text is a well-formed join code.
pub fn is_valid_join_code(code: &str) -> (r: bool)
    ensures
        r == is_valid_join_code_text(code@),
{
    let n = code.unicode_len();
    if n != 20 {
        return false;
    }
    let mut i: usize = 0;
    while i < 20
        invariant
            i <= 20,
            n == code@.len(),
            n == 20,
            forall|k: int|
                0 <= k < i ==> if k == 6 || k == 13 {
                    #[trigger] code@[k] == '-'
                } else {
                    is_join_code_char(code@[k])
                },
        decreases 20 - i,
    {
        let c = code.get_char(i);
        let u = c as u32;
        if i == 6 || i == 13 {
            if c != '-' {
                return false;
            }
        } else if !((0x41 <= u && u <= 0x5a) || (0x61 <= u && u <= 0x7a) || (0x30 <= u && u <= 0x39)) {
            return false;
        }
        i = i + 1;
    }
    true
}

/// `rand::rng().random_range(0..n)`: a random index below `n`.
#[verifier::external_body]
fn random_below(n: usize) -> (r: usize)
    requires
        n > 0,
    ensures
        r < n,
{
    rand::rng().random_range(0..n)
}

fn alphabet_char(i: usize) -> (c: char)
    requires
        i < JOIN_CODE_ALPHABET_LEN,
    ensures
        c == alphabet_at(i as int),
        is_join_code_char(c),
{
    let b: u8 = if i < 26 {
        (0x41 + i) as u8
    } else if i < 52 {
        (0x61 + i - 26) as u8
    } else {
        (0x30 + i - 52) as u8
    };
    let c = b as char;
    assert(c as u32 == b as u32);
    c
}

/// The drawn index that fills code position `p` (the hyphens at six and
/// thirteen take none).
pub open spec fn index_of_position(p: int) -> int {
    if p < 6 {
        p
    } else if p < 13 {
        p - 1
    } else {
        p - 2
    }
}

/// The join code spelled by eighteen alphabet indices, six per block,
/// blocks joined by hyphens.
pub open spec fn join_code_of(indices: Seq<usize>) -> Seq<char> {
    Seq::new(
        20,
        |p: int|
            if p == 6 || p == 13 {
                '-'
            } else {
                alphabet_at(indices[index_of_position(p)] as int)
            },
    )
}

/// Eighteen indices into the alphabet.
pub open spec fn valid_draws(indices: Seq<usize>) -> bool {
    indices.len() == 18 && forall|k: int| 0 <= k < 18 ==> #[trigger] indices[k] < 62
}

/// Every code spelled from valid draws is a well-formed join code.
pub proof fn lemma_drawn_code_valid(indices: Seq<usize>)
    requires
        valid_draws(indices),
    ensures
        is_valid_join_code_text(join_code_of(indices)),
{
    assert forall|p: int| 0 <= p < 20 implies if p == 6 || p == 13 {
        #[trigger] join_code_of(indices)[p] == '-'
    } else {
        is_join_code_char(join_code_of(indices)[p])
    } by {
        if !(p == 6 || p == 13) {
            let i = indices[index_of_position(p)] as int;
            assert(0 <= i < 62);
        }
    }
}

/// The join code spelled by eighteen drawn alphabet indices.
pub fn join_code_from_indices(indices: &Vec<usize>) -> (code: String)
    requires
        valid_draws(indices@),
    ensures
        code@ == join_code_of(indices@),
{
    let ghost want = join_code_of(indices@);
    let mut code = String::new();
    let mut p: usize = 0;
    while p < 20
        invariant
            p <= 20,
            valid_draws(indices@),
            want == join_code_of(indices@),
            code@ == want.subrange(0, p as int),
        decreases 20 - p,
    {
        let c = if p == 6 || p == 13 {
            '-'
        } else {
            let k: usize = if p < 6 {
                p
            } else if p < 13 {
                p - 1
            } else {
                p - 2
            };
            assert(indices@[k as int] < 62);
            alphabet_char(indices[k])
        };
        push_char(&mut code, c);
        assert(code@ =~= want.subrange(0, p + 1));
        p = p + 1;
    }
    assert(want.subrange(0, 20) =~= want);
    code
}

/// A fresh random join code: eighteen random alphabet indices, spelled
/// out. Every code generated is well formed.
pub fn generate_join_code() -> (code: String)
    ensures
        is_valid_join_code_text(code@),
        exists|indices: Seq<usize>| valid_draws(indices) && code@ == join_code_of(indices),
{
    let mut indices: Vec<usize> = Vec::new();
    while indices.len() < JOIN_CODE_BLOCK_COUNT * JOIN_CODE_BLOCK_LEN
        invariant
            indices@.len() <= 18,
            forall|k: int| 0 <= k < indices@.len() ==> #[trigger] indices@[k] < 62,
        decreases 18 - indices@.len(),
    {
        indices.push(random_below(JOIN_CODE_ALPHABET_LEN));
    }
    let code = join_code_from_indices(&indices);
    proof {
        lemma_drawn_code_valid(indices@);
    }
    code
}

} // verus!
