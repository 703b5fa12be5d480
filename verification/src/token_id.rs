//! Pet token ids: `PET_` followed by the decimal digits of the pet
//! counter. Distinct counter values give distinct ids, which is what makes
//! every minted pet's id fresh.

use vstd::prelude::*;

verus! {

/// The digit character for a value in `0..10`.
pub open spec fn dec_digit(d: int) -> char {
    if d == 0 {
        '0'
    } else if d == 1 {
        '1'
    } else if d == 2 {
        '2'
    } else if d == 3 {
        '3'
    } else if d == 4 {
        '4'
    } else if d == 5 {
        '5'
    } else if d == 6 {
        '6'
    } else if d == 7 {
        '7'
    } else if d == 8 {
        '8'
    } else {
        '9'
    }
}

/// The decimal digit string of `n`, most significant digit first, with no
/// leading zeros (and `0` written as one digit).
pub open spec fn dec_str(n: nat) -> Seq<char>
    decreases n,
{
    if n < 10 {
        seq![dec_digit(n as int)]
    } else {
        dec_str(n / 10).push(dec_digit((n % 10) as int))
    }
}

/// The token id a pet allocated at counter value `n` receives.
pub open spec fn pet_token_id_seq(n: u64) -> Seq<char> {
    "PET_"@ + dec_str(n as nat)
}

/// Formats the token id of the pet allocated at counter value `n`.
///
/// Relies on `format!`'s decimal formatting of `u64`: the digits of `n`,
/// most significant first and without leading zeros, after the fixed
/// `PET_` prefix.
#[verifier::external_body]
pub fn pet_token_id(n: u64) -> (r: String)
    ensures
        r@ == pet_token_id_seq(n),
{
    format!("PET_{}", n)
}

/// Distinct digit values always give distinct digit characters.
proof fn lemma_dec_digit_injective(a: int, b: int)
    requires
        0 <= a < 10,
        0 <= b < 10,
        dec_digit(a) == dec_digit(b),
    ensures
        a == b,
{
}

/// A decimal digit string is never empty.
proof fn lemma_dec_str_len(n: nat)
    ensures
        dec_str(n).len() >= 1,
        n >= 10 ==> dec_str(n).len() >= 2,
    decreases n,
{
    if n >= 10 {
        lemma_dec_str_len(n / 10);
    }
}

/// Distinct numbers have distinct decimal digit strings.
proof fn lemma_dec_str_injective(a: nat, b: nat)
    requires
        dec_str(a) == dec_str(b),
    ensures
        a == b,
    decreases a,
{
    lemma_dec_str_len(a);
    lemma_dec_str_len(b);
    if a < 10 && b < 10 {
        assert(dec_str(a)[0] == dec_digit(a as int));
        assert(dec_str(b)[0] == dec_digit(b as int));
        lemma_dec_digit_injective(a as int, b as int);
    } else if a < 10 {
        assert(dec_str(a).len() == 1);
        assert(dec_str(b).len() >= 2);
    } else if b < 10 {
        assert(dec_str(b).len() == 1);
        assert(dec_str(a).len() >= 2);
    } else {
        assert(dec_str(a) == dec_str(a / 10).push(dec_digit((a % 10) as int)));
        assert(dec_str(b) == dec_str(b / 10).push(dec_digit((b % 10) as int)));
        assert(dec_str(a).last() == dec_digit((a % 10) as int));
        assert(dec_str(b).last() == dec_digit((b % 10) as int));
        lemma_dec_digit_injective((a % 10) as int, (b % 10) as int);
        assert(dec_str(a / 10) =~= dec_str(b / 10)) by {
            assert(dec_str(a / 10).len() == dec_str(a).len() - 1);
            assert(dec_str(b / 10).len() == dec_str(b).len() - 1);
            assert forall|i: int| 0 <= i < dec_str(a / 10).len() implies #[trigger] dec_str(
                a / 10,
            )[i] == dec_str(b / 10)[i] by {
                assert(dec_str(a / 10)[i] == dec_str(a)[i]);
                assert(dec_str(b / 10)[i] == dec_str(b)[i]);
            }
        }
        lemma_dec_str_injective(a / 10, b / 10);
        assert(a == 10 * (a / 10) + a % 10);
        assert(b == 10 * (b / 10) + b % 10);
    }
}

/// Distinct counter values always give distinct token ids.
pub proof fn lemma_pet_token_id_injective(a: u64, b: u64)
    requires
        pet_token_id_seq(a) == pet_token_id_seq(b),
    ensures
        a == b,
{
    reveal_strlit("PET_");
    lemma_dec_str_len(a as nat);
    lemma_dec_str_len(b as nat);
    let p = "PET_"@;
    assert(dec_str(a as nat) =~= dec_str(b as nat)) by {
        assert(p.len() == 4);
        assert((p + dec_str(a as nat)).len() == 4 + dec_str(a as nat).len());
        assert((p + dec_str(b as nat)).len() == 4 + dec_str(b as nat).len());
        assert forall|i: int| 0 <= i < dec_str(a as nat).len() implies dec_str(a as nat)[i]
            == dec_str(b as nat)[i] by {
            assert(dec_str(a as nat)[i] == (p + dec_str(a as nat))[i + 4]);
            assert(dec_str(b as nat)[i] == (p + dec_str(b as nat))[i + 4]);
        }
    }
    lemma_dec_str_injective(a as nat, b as nat);
}

} // verus!
