//! Steam identities: the 64-bit id, its textual `STEAM_0:Y:Z` form, and the
//! connect strings built from stored identities.

use vstd::prelude::*;

use crate::text::{dec_nat, digit_char, u64_string};
use crate::types::str_eq;
use vstd::string::StrSliceExecFns;

verus! {

/// The base of an individual, public-universe, desktop-instance 64-bit id:
/// universe one and account type one in the high bits, instance one above
/// the account number.
pub const STEAM64_BASE: u64 = 0x0110000100000000;

/// Relies on `steamid::SteamId::get_account_id`: the low 32 bits of the id.
#[verifier::external_body]
fn account_id_of(id: u64) -> (r: u32)
    ensures
        r as u64 == id & 0xFFFFFFFFu64,
{
    steamid::SteamId::from_u64(id).get_account_id()
}

/// Whether a character is a decimal digit.
pub open spec fn is_digit(c: char) -> bool {
    '0' <= c && c <= '9'
}

/// The value of a decimal digit character.
pub open spec fn digit_val(c: char) -> int {
    c as int - '0' as int
}

/// The number a digit string denotes, most significant digit first.
pub open spec fn dec_value(s: Seq<char>) -> int
    decreases s.len(),
{
    if s.len() == 0 {
        0
    } else {
        dec_value(s.drop_last()) * 10 + digit_val(s.last())
    }
}

/// Every character of a decimal rendering is a digit.
pub proof fn lemma_dec_nat_digits(n: nat)
    ensures
        forall|i: int| 0 <= i < dec_nat(n).len() ==> is_digit(#[trigger] dec_nat(n)[i]),
    decreases n,
{
    if n >= 10 {
        lemma_dec_nat_digits(n / 10);
        assert forall|i: int| 0 <= i < dec_nat(n).len() implies is_digit(
            #[trigger] dec_nat(n)[i],
        ) by {
            if i < dec_nat(n / 10).len() {
                assert(dec_nat(n)[i] == dec_nat(n / 10)[i]);
            }
        }
    }
}

/// A decimal rendering denotes the number it was made from.
pub proof fn lemma_dec_nat_value(n: nat)
    ensures
        dec_value(dec_nat(n)) == n,
    decreases n,
{
    assert(digit_val('0') == 0 && digit_val('1') == 1 && digit_val('2') == 2 && digit_val('3') == 3
        && digit_val('4') == 4 && digit_val('5') == 5 && digit_val('6') == 6 && digit_val('7') == 7
        && digit_val('8') == 8 && digit_val('9') == 9);
    if n < 10 {
        assert(dec_nat(n).drop_last() =~= Seq::<char>::empty());
        assert(dec_nat(n).last() == digit_char(n as int));
        assert(dec_value(dec_nat(n).drop_last()) == 0);
        assert(digit_val(digit_char(n as int)) == n);
    } else {
        lemma_dec_nat_value(n / 10);
        assert(dec_nat(n).drop_last() =~= dec_nat(n / 10));
        assert(dec_nat(n).last() == digit_char((n % 10) as int));
        assert(digit_val(digit_char((n % 10) as int)) == n % 10);
        assert(dec_value(dec_nat(n)) == dec_value(dec_nat(n / 10)) * 10 + digit_val(
            digit_char((n % 10) as int),
        ));
    }
}

/// Ten to the `k`.
pub open spec fn pow10(k: nat) -> nat
    decreases k,
{
    if k == 0 {
        1
    } else {
        10 * pow10((k - 1) as nat)
    }
}

/// A number below `10^k` renders in at most `k` digits.
pub proof fn lemma_dec_nat_len(n: nat, k: nat)
    requires
        k >= 1,
        n < pow10(k),
    ensures
        dec_nat(n).len() <= k,
    decreases k,
{
    if n >= 10 {
        assert(pow10(k) == 10 * pow10((k - 1) as nat));
        assert(k >= 2) by {
            reveal_with_fuel(pow10, 2);
        }
        assert(n / 10 < pow10((k - 1) as nat)) by (nonlinear_arith)
            requires
                n < 10 * pow10((k - 1) as nat),
        ;
        lemma_dec_nat_len(n / 10, (k - 1) as nat);
    }
}

/// The textual `STEAM_0:Y:Z` form of an account number: `Y` its parity, `Z`
/// the remaining bits.
pub open spec fn steam2id_text(acc: nat) -> Seq<char> {
    "STEAM_0:"@ + dec_nat(acc % 2) + ":"@ + dec_nat(acc / 2)
}

/// Renders a 64-bit id in `STEAM_0:Y:Z` form from its account number.
pub fn steam2id_string(id: u64) -> (r: String)
    ensures
        r@ == steam2id_text((id % 0x100000000u64) as nat),
{
    let account = account_id_of(id);
    proof {
        assert(id & 0xFFFFFFFFu64 == id % 0x100000000u64) by (bit_vector);
    }
    let y: u32 = account % 2;
    let z: u32 = account / 2;
    let mut s = String::from_str("STEAM_0:");
    s.append(u64_string(y as u64).as_str());
    s.append(":");
    s.append(u64_string(z as u64).as_str());
    proof {
        assert(s@ =~= steam2id_text((id % 0x100000000u64) as nat));
    }
    s
}

/// Parses the `STEAM_0:Y:Z` form: the result is the 64-bit id whose account
/// number renders back to exactly the given string, and `None` precisely
/// when no account number does.
pub fn parse_steam2id(s: &str) -> (r: Option<u64>)
    ensures
        r matches Some(id) ==> (id & 0xFFFFFFFFu64) as nat <= 0xFFFFFFFF && id == STEAM64_BASE + (
        id & 0xFFFFFFFFu64) && s@ == steam2id_text((id & 0xFFFFFFFFu64) as nat),
        r is None ==> forall|acc: u64| acc <= 0xFFFFFFFFu64 ==> s@ != steam2id_text(acc as nat),
{
    let n = s.unicode_len();
    proof {
        reveal_strlit("STEAM_0:");
        assert("STEAM_0:"@.len() == 8);
    }
    if n < 11 {
        proof {
            lemma_reject_short(s@, n as int);
        }
        return None;
    }
    let mut k: usize = 0;
    while k < 8
        invariant
            0 <= k <= 8,
            n == s@.len(),
            n >= 11,
            forall|i: int| 0 <= i < k ==> s@[i] == "STEAM_0:"@[i],
        decreases 8 - k,
    {
        let expected: char = match k {
            0 => 'S',
            1 => 'T',
            2 => 'E',
            3 => 'A',
            4 => 'M',
            5 => '_',
            6 => '0',
            _ => ':',
        };
        proof {
            reveal_strlit("STEAM_0:");
        }
        if s.get_char(k) != expected {
            proof {
                lemma_reject_prefix(s@, k as int);
            }
            return None;
        }
        k = k + 1;
    }
    let y_char = s.get_char(8);
    let y: u64 = if y_char == '0' {
        0
    } else if y_char == '1' {
        1
    } else {
        proof {
            lemma_reject_parity(s@, y_char);
        }
        return None;
    };
    if s.get_char(9) != ':' {
        proof {
            reveal_strlit(":");
            lemma_reject_colon(s@);
        }
        return None;
    }
    if n - 10 > 10 {
        proof {
            lemma_reject_long(s@, n as int);
        }
        return None;
    }
    let mut z: u64 = 0;
    let mut j: usize = 10;
    while j < n
        invariant
            10 <= j <= n,
            n == s@.len(),
            11 <= n <= 20,
            forall|i: int| 10 <= i < j ==> is_digit(#[trigger] s@[i]),
            z == dec_value(s@.subrange(10, j as int)),
            z <= 0xFFFFFFFFu64,
        decreases n - j,
    {
        let c = s.get_char(j);
        if !(c >= '0' && c <= '9') {
            proof {
                lemma_reject_nondigit(s@, j as int);
            }
            return None;
        }
        proof {
            assert(s@.subrange(10, (j + 1) as int).drop_last() =~= s@.subrange(10, j as int));
        }
        let d: u64 = (c as u32 as u64) - ('0' as u32 as u64);
        z = z * 10 + d;
        j = j + 1;
        if z > 0xFFFFFFFFu64 {
            proof {
                lemma_reject_value(s@, j as int, z);
            }
            return None;
        }
    }
    let acc: u64 = 2 * z + y;
    if acc > 0xFFFFFFFFu64 {
        proof {
            lemma_reject_account(s@, y, z);
        }
        return None;
    }
    let id: u64 = STEAM64_BASE + acc;
    let rendered = steam2id_string(id);
    proof {
        let idg = id;
        vstd::arithmetic::div_mod::lemma_fundamental_div_mod_converse(
            id as int,
            0x100000000,
            0x01100001,
            acc as int,
        );
        assert(idg & 0xFFFFFFFFu64 == idg % 0x100000000u64) by (bit_vector);
    }
    if str_eq(s, rendered.as_str()) {
        Some(id)
    } else {
        proof {
            lemma_reject_mismatch(s@, y, z);
        }
        None
    }
}

/// The value a digit string denotes is not negative.
proof fn lemma_dec_value_nonneg(s: Seq<char>)
    requires
        forall|i: int| 0 <= i < s.len() ==> is_digit(#[trigger] s[i]),
    ensures
        dec_value(s) >= 0,
    decreases s.len(),
{
    if s.len() > 0 {
        assert(forall|i: int| 0 <= i < s.drop_last().len() ==> is_digit(
            #[trigger] s.drop_last()[i],
        ));
        lemma_dec_value_nonneg(s.drop_last());
    }
}

/// Shared facts about any string in `STEAM_0:Y:Z` form: its shape and the
/// positions of its parts.
proof fn lemma_text_shape(acc: u64)
    requires
        acc <= 0xFFFFFFFFu64,
    ensures
        steam2id_text(acc as nat).len() == 10 + dec_nat((acc as nat) / 2).len(),
        11 <= steam2id_text(acc as nat).len() <= 20,
        forall|i: int| 0 <= i < 8 ==> steam2id_text(acc as nat)[i] == "STEAM_0:"@[i],
        steam2id_text(acc as nat)[8] == digit_char(((acc as nat) % 2) as int),
        steam2id_text(acc as nat)[9] == ':',
        forall|i: int| 10 <= i < steam2id_text(acc as nat).len() ==> is_digit(
            #[trigger] steam2id_text(acc as nat)[i],
        ),
        steam2id_text(acc as nat).subrange(10, steam2id_text(acc as nat).len() as int) =~= dec_nat(
            (acc as nat) / 2,
        ),
{
    reveal_strlit("STEAM_0:");
    reveal_strlit(":");
    let t = steam2id_text(acc as nat);
    let zpart = dec_nat((acc as nat) / 2);
    lemma_dec_nat_digits((acc as nat) / 2);
    lemma_dec_nat_digits((acc as nat) % 2);
    assert(pow10(10) == 10000000000) by {
        reveal_with_fuel(pow10, 11);
    }
    lemma_dec_nat_len((acc as nat) / 2, 10);
    assert(t.len() == 10 + zpart.len());
    assert forall|i: int| 10 <= i < t.len() implies is_digit(#[trigger] t[i]) by {
        assert(t[i] == zpart[i - 10]);
    }
}

proof fn lemma_reject_short(s: Seq<char>, n: int)
    requires
        s.len() == n,
        n < 11,
    ensures
        forall|acc: u64| acc <= 0xFFFFFFFFu64 ==> s != steam2id_text(acc as nat),
{
    assert forall|acc: u64| acc <= 0xFFFFFFFFu64 implies s != steam2id_text(acc as nat) by {
        lemma_text_shape(acc);
    }
}

proof fn lemma_reject_long(s: Seq<char>, n: int)
    requires
        s.len() == n,
        n - 10 > 10,
    ensures
        forall|acc: u64| acc <= 0xFFFFFFFFu64 ==> s != steam2id_text(acc as nat),
{
    assert forall|acc: u64| acc <= 0xFFFFFFFFu64 implies s != steam2id_text(acc as nat) by {
        lemma_text_shape(acc);
    }
}

proof fn lemma_reject_prefix(s: Seq<char>, k: int)
    requires
        0 <= k < 8,
        s.len() >= 11,
        s[k] != "STEAM_0:"@[k],
    ensures
        forall|acc: u64| acc <= 0xFFFFFFFFu64 ==> s != steam2id_text(acc as nat),
{
    assert forall|acc: u64| acc <= 0xFFFFFFFFu64 implies s != steam2id_text(acc as nat) by {
        lemma_text_shape(acc);
    }
}

proof fn lemma_reject_parity(s: Seq<char>, c: char)
    requires
        s.len() >= 11,
        s[8] == c,
        c != '0',
        c != '1',
    ensures
        forall|acc: u64| acc <= 0xFFFFFFFFu64 ==> s != steam2id_text(acc as nat),
{
    assert forall|acc: u64| acc <= 0xFFFFFFFFu64 implies s != steam2id_text(acc as nat) by {
        lemma_text_shape(acc);
    }
}

proof fn lemma_reject_colon(s: Seq<char>)
    requires
        s.len() >= 11,
        s[9] != ':',
    ensures
        forall|acc: u64| acc <= 0xFFFFFFFFu64 ==> s != steam2id_text(acc as nat),
{
    assert forall|acc: u64| acc <= 0xFFFFFFFFu64 implies s != steam2id_text(acc as nat) by {
        lemma_text_shape(acc);
    }
}

proof fn lemma_reject_nondigit(s: Seq<char>, j: int)
    requires
        10 <= j < s.len(),
        !is_digit(s[j]),
    ensures
        forall|acc: u64| acc <= 0xFFFFFFFFu64 ==> s != steam2id_text(acc as nat),
{
    assert forall|acc: u64| acc <= 0xFFFFFFFFu64 implies s != steam2id_text(acc as nat) by {
        lemma_text_shape(acc);
    }
}

/// When the digits scanned so far already exceed any 32-bit account's upper
/// half, no account renders to this string.
proof fn lemma_reject_value(s: Seq<char>, j: int, z: u64)
    requires
        10 <= j <= s.len(),
        s.len() >= 11,
        z == dec_value(s.subrange(10, j)),
        z > 0xFFFFFFFFu64,
    ensures
        forall|acc: u64| acc <= 0xFFFFFFFFu64 ==> s != steam2id_text(acc as nat),
{
    assert forall|acc: u64| acc <= 0xFFFFFFFFu64 implies s != steam2id_text(acc as nat) by {
        lemma_text_shape(acc);
        if s == steam2id_text(acc as nat) {
            let full = s.subrange(10, s.len() as int);
            assert(full =~= dec_nat((acc as nat) / 2));
            lemma_dec_nat_value((acc as nat) / 2);
            lemma_dec_nat_digits((acc as nat) / 2);
            lemma_dec_value_prefix_le(full, j - 10);
            assert(s.subrange(10, j) =~= full.subrange(0, j - 10));
        }
    }
}

proof fn lemma_reject_account(s: Seq<char>, y: u64, z: u64)
    requires
        s.len() >= 11,
        is_digit(s[8]),
        y == digit_val(s[8]),
        y <= 1,
        z == dec_value(s.subrange(10, s.len() as int)),
        2 * z + y > 0xFFFFFFFFu64,
    ensures
        forall|acc: u64| acc <= 0xFFFFFFFFu64 ==> s != steam2id_text(acc as nat),
{
    assert forall|acc: u64| acc <= 0xFFFFFFFFu64 implies s != steam2id_text(acc as nat) by {
        lemma_text_shape(acc);
        if s == steam2id_text(acc as nat) {
            assert(s.subrange(10, s.len() as int) =~= dec_nat((acc as nat) / 2));
            lemma_dec_nat_value((acc as nat) / 2);
            assert(z == (acc as nat) / 2);
            assert(s[8] == digit_char(((acc as nat) % 2) as int));
            assert(y == (acc as nat) % 2);
        }
    }
}

proof fn lemma_reject_mismatch(s: Seq<char>, y: u64, z: u64)
    requires
        s.len() >= 11,
        is_digit(s[8]),
        y == digit_val(s[8]),
        y <= 1,
        z == dec_value(s.subrange(10, s.len() as int)),
        2 * z + y <= 0xFFFFFFFFu64,
        s != steam2id_text((2 * z + y) as nat),
    ensures
        forall|acc: u64| acc <= 0xFFFFFFFFu64 ==> s != steam2id_text(acc as nat),
{
    assert forall|acc: u64| acc <= 0xFFFFFFFFu64 implies s != steam2id_text(acc as nat) by {
        lemma_text_shape(acc);
        if s == steam2id_text(acc as nat) {
            assert(s.subrange(10, s.len() as int) =~= dec_nat((acc as nat) / 2));
            lemma_dec_nat_value((acc as nat) / 2);
            assert(z == (acc as nat) / 2);
            assert(s[8] == digit_char(((acc as nat) % 2) as int));
            assert(y == (acc as nat) % 2);
            assert(2 * z + y == acc as nat);
        }
    }
}

/// The value of a prefix of a digit string is at most the whole string's.
proof fn lemma_dec_value_prefix_le(s: Seq<char>, k: int)
    requires
        0 <= k <= s.len(),
        forall|i: int| 0 <= i < s.len() ==> is_digit(#[trigger] s[i]),
    ensures
        dec_value(s.subrange(0, k)) <= dec_value(s),
    decreases s.len() - k,
{
    if k < s.len() {
        lemma_dec_value_prefix_le(s, k + 1);
        assert(s.subrange(0, k + 1).drop_last() =~= s.subrange(0, k));
        assert(s.subrange(0, k + 1).last() == s[k]);
        lemma_dec_value_nonneg_sub(s, k);
        assert(dec_value(s.subrange(0, k)) <= dec_value(s.subrange(0, k + 1)));
    } else {
        assert(s.subrange(0, k) =~= s);
    }
}

proof fn lemma_dec_value_nonneg_sub(s: Seq<char>, k: int)
    requires
        0 <= k <= s.len(),
        forall|i: int| 0 <= i < s.len() ==> is_digit(#[trigger] s[i]),
    ensures
        dec_value(s.subrange(0, k)) >= 0,
{
    assert(forall|i: int| 0 <= i < s.subrange(0, k).len() ==> is_digit(
        #[trigger] s.subrange(0, k)[i],
    ));
    lemma_dec_value_nonneg(s.subrange(0, k));
}

/// The comma-joined connect string of a list of 64-bit ids, each in
/// `STEAM_0:Y:Z` form.
pub open spec fn conn_text(ids: Seq<u64>) -> Seq<char>
    decreases ids.len(),
{
    if ids.len() == 0 {
        Seq::empty()
    } else if ids.len() == 1 {
        steam2id_text((ids[0] % 0x100000000u64) as nat)
    } else {
        conn_text(ids.drop_last()) + ","@ + steam2id_text((ids.last() % 0x100000000u64) as nat)
    }
}

/// Renders the connect string of a team: the stored ids in `STEAM_0:Y:Z`
/// form, joined with commas.
pub fn steam_conn_string(ids: &Vec<u64>) -> (r: String)
    ensures
        r@ == conn_text(ids@),
{
    let mut s = String::new();
    let mut k: usize = 0;
    while k < ids.len()
        invariant
            0 <= k <= ids.len(),
            s@ == conn_text(ids@.subrange(0, k as int)),
        decreases ids.len() - k,
    {
        if k > 0 {
            s.append(",");
        }
        s.append(steam2id_string(ids[k]).as_str());
        k = k + 1;
        proof {
            assert(ids@.subrange(0, k as int).drop_last() =~= ids@.subrange(0, (k - 1) as int));
            assert(s@ =~= conn_text(ids@.subrange(0, k as int)));
        }
    }
    proof {
        assert(ids@.subrange(0, ids@.len() as int) =~= ids@);
    }
    s
}

/// The community-profile address of a 64-bit id.
pub open spec fn profile_url_text(id: u64) -> Seq<char> {
    "https://steamcommunity.com/profiles/"@ + dec_nat(id as nat)
}

/// Renders the community-profile address shown after a stored identity.
pub fn steam_profile_url(id: u64) -> (r: String)
    ensures
        r@ == profile_url_text(id),
{
    let mut s = String::from_str("https://steamcommunity.com/profiles/");
    s.append(u64_string(id).as_str());
    proof {
        assert(s@ =~= profile_url_text(id));
    }
    s
}

} // verus!
