use vstd::prelude::*;
use vstd::string::StrSliceExecFns;
use vstd::string::StringExecFns;
use crate::state::Coin;

verus! {

/// The role a right-token stands for in a pledge.
#[derive(Debug, Clone, Copy, PartialEq, Eq, Hash)]
pub enum NftType {
    LENDER,
    ORIGINATOR,
}

/// The characters naming a role inside a derived right-token identifier.
pub open spec fn nft_type_label(t: NftType) -> Seq<char> {
    match t {
        NftType::LENDER => "LENDER"@,
        NftType::ORIGINATOR => "ORIGINATOR"@,
    }
}

/// The derived right-token identifier: issuer identity, marker account and
/// role, joined by dots. A pure function of its arguments, so ownership
/// queries and mint instructions agree on the same identifier.
pub open spec fn nft_id(contract_address: Seq<char>, marker_address: Seq<char>, t: NftType) -> Seq<
    char,
> {
    contract_address + "."@ + marker_address + "."@ + nft_type_label(t)
}

/// Derives the identifier of the right-token for `nft_type` in a pledge over
/// `marker_address`, issued by `contract_address`.
pub fn get_nft_id(contract_address: &str, marker_address: &str, nft_type: &NftType) -> (r: String)
    ensures
        r@ == nft_id(contract_address@, marker_address@, *nft_type),
{
    let mut s = String::from_str(contract_address);
    s.append(".");
    s.append(marker_address);
    s.append(".");
    match nft_type {
        NftType::LENDER => s.append("LENDER"),
        NftType::ORIGINATOR => s.append("ORIGINATOR"),
    }
    proof {
        assert(s@ =~= nft_id(contract_address@, marker_address@, *nft_type));
    }
    s
}

/// Whether `needle` occurs as a contiguous run of characters inside
/// `haystack`.
pub open spec fn contains_seq(haystack: Seq<char>, needle: Seq<char>) -> bool {
    exists|i: int|
        0 <= i && i + needle.len() <= haystack.len() && #[trigger] haystack.subrange(
            i,
            i + needle.len(),
        ) == needle
}

/// Whether `needle` occurs as a substring of `haystack`, by characters.
pub fn contains_substring(haystack: &str, needle: &str) -> (r: bool)
    ensures
        r == contains_seq(haystack@, needle@),
{
    let h_len: usize = haystack.unicode_len();
    let n_len: usize = needle.unicode_len();
    if n_len > h_len {
        return false;
    }
    if n_len == 0 {
        proof {
            assert(haystack@.subrange(0, 0 + needle@.len() as int) =~= needle@);
        }
        return true;
    }
    let mut i: usize = 0;
    while i <= h_len - n_len
        invariant
            1 <= n_len <= h_len,
            h_len == haystack@.len(),
            n_len == needle@.len(),
            i <= h_len - n_len + 1,
            forall|k: int|
                0 <= k < i ==> #[trigger] haystack@.subrange(k, k + needle@.len()) != needle@,
        decreases h_len + 1 - n_len - i,
    {
        let mut j: usize = 0;
        let mut is_match: bool = true;
        while j < n_len
            invariant
                n_len <= h_len,
                h_len == haystack@.len(),
                n_len == needle@.len(),
                i + n_len <= h_len,
                j <= n_len,
                is_match ==> forall|t: int| 0 <= t < j ==> haystack@[i + t] == needle@[t],
                !is_match ==> haystack@.subrange(i as int, i + needle@.len()) != needle@,
            decreases n_len - j,
        {
            if haystack.get_char(i + j) != needle.get_char(j) {
                proof {
                    assert(haystack@.subrange(i as int, i + needle@.len())[j as int] == haystack@[i
                        + j]);
                }
                is_match = false;
            }
            j += 1;
        }
        if is_match {
            proof {
                assert(haystack@.subrange(i as int, i + needle@.len()) =~= needle@);
            }
            return true;
        }
        i += 1;
    }
    proof {
        assert forall|k: int| !(0 <= k && k + needle@.len() <= haystack@.len()
            && #[trigger] haystack@.subrange(k, k + needle@.len()) == needle@) by {
            if 0 <= k && k + needle@.len() <= haystack@.len() {
                assert(k < i);
            }
        }
    }
    false
}

/// The character standing for one decimal digit.
pub open spec fn dec_digit(d: int) -> char {
    if d == 0 {
        '0'
    } else if d == 1 {
        '1'
    } else if d == 2 {
        '2'
    } else if d == 3 {
        '3'
    } else if d == 4 {
        '4'
    } else if d == 5 {
        '5'
    } else if d == 6 {
        '6'
    } else if d == 7 {
        '7'
    } else if d == 8 {
        '8'
    } else {
        '9'
    }
}

/// The decimal digits of `n`, most significant first, with no leading zeros
/// (a single zero for `n == 0`).
pub open spec fn dec_seq(n: nat) -> Seq<char>
    decreases n,
{
    if n < 10 {
        seq![dec_digit(n as int)]
    } else {
        dec_seq(n / 10).push(dec_digit((n % 10) as int))
    }
}

fn digit_str(d: u128) -> (s: &'static str)
    requires
        d < 10,
    ensures
        s@ == seq![dec_digit(d as int)],
{
    if d == 0 {
        proof {
            reveal_strlit("0");
            assert("0"@ =~= seq![dec_digit(0)]);
        }
        "0"
    } else if d == 1 {
        proof {
            reveal_strlit("1");
            assert("1"@ =~= seq![dec_digit(1)]);
        }
        "1"
    } else if d == 2 {
        proof {
            reveal_strlit("2");
            assert("2"@ =~= seq![dec_digit(2)]);
        }
        "2"
    } else if d == 3 {
        proof {
            reveal_strlit("3");
            assert("3"@ =~= seq![dec_digit(3)]);
        }
        "3"
    } else if d == 4 {
        proof {
            reveal_strlit("4");
            assert("4"@ =~= seq![dec_digit(4)]);
        }
        "4"
    } else if d == 5 {
        proof {
            reveal_strlit("5");
            assert("5"@ =~= seq![dec_digit(5)]);
        }
        "5"
    } else if d == 6 {
        proof {
            reveal_strlit("6");
            assert("6"@ =~= seq![dec_digit(6)]);
        }
        "6"
    } else if d == 7 {
        proof {
            reveal_strlit("7");
            assert("7"@ =~= seq![dec_digit(7)]);
        }
        "7"
    } else if d == 8 {
        proof {
            reveal_strlit("8");
            assert("8"@ =~= seq![dec_digit(8)]);
        }
        "8"
    } else {
        proof {
            reveal_strlit("9");
            assert("9"@ =~= seq![dec_digit(9)]);
        }
        "9"
    }
}

/// Writes `n` in decimal.
pub fn u128_to_decimal(n: u128) -> (s: String)
    ensures
        s@ == dec_seq(n as nat),
    decreases n,
{
    if n < 10 {
        let s = String::from_str(digit_str(n));
        return s;
    }
    let mut s = u128_to_decimal(n / 10);
    let d = digit_str(n % 10);
    s.append(d);
    proof {
        assert(s@ =~= dec_seq(n as nat));
    }
    s
}

/// Writes a coin the way the hosting ledger displays one: the decimal
/// quantity followed directly by the denomination.
pub fn coin_string(c: &Coin) -> (s: String)
    ensures
        s@ == dec_seq(c.amount as nat) + c.denom@,
{
    let mut s = u128_to_decimal(c.amount);
    s.append(c.denom.as_str());
    s
}

} // verus!
