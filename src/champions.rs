//! Champion records and the values derived from a champion's catalog entry.
use vstd::prelude::*;
use vstd::string::*;

use rand::Rng;

verus! {

/// A champion as the drafting screen shows it.
pub struct ChampionShort {
    pub name: String,
    pub id: String,
    pub numeric_id: i32,
    pub icon: String,
    pub splash: String,
}

/// The five players of a team, by role.
pub struct TeamPlayers {
    pub team: String,
    pub top: String,
    pub jungle: String,
    pub mid: String,
    pub adc: String,
    pub utility: String,
}

/// The address of a champion's square icon.
pub open spec fn icon_url(id: Seq<char>) -> Seq<char> {
    "https://cdn.communitydragon.org/latest/champion/"@ + id + "/square"@
}

/// The address of a champion's splash art.
pub open spec fn splash_url(id: Seq<char>) -> Seq<char> {
    "https://cdn.communitydragon.org/latest/champion/"@ + id + "/splash-art"@
}

pub fn get_champion_icon(id: String) -> (r: String)
    ensures
        r@ == icon_url(id@),
{
    let mut url = String::from_str("https://cdn.communitydragon.org/latest/champion/");
    url.append(id.as_str());
    url.append("/square");
    url
}

pub fn get_champion_splash(id: String) -> (r: String)
    ensures
        r@ == splash_url(id@),
{
    let mut url = String::from_str("https://cdn.communitydragon.org/latest/champion/");
    url.append(id.as_str());
    url.append("/splash-art");
    url
}

pub open spec fn is_digit(c: char) -> bool {
    '0' <= c <= '9'
}

/// The value of a string of decimal digits.
pub open spec fn digits_value(s: Seq<char>) -> int
    decreases s.len(),
{
    if s.len() == 0 {
        0
    } else {
        digits_value(s.drop_last()) * 10 + (s.last() as int - '0' as int)
    }
}

/// The text holds decimal digits only.
pub open spec fn all_digits(d: Seq<char>) -> bool {
    forall|i: int| 0 <= i < d.len() ==> is_digit(#[trigger] d[i])
}

/// The text starts with a sign.
pub open spec fn has_sign(s: Seq<char>) -> bool {
    s.len() > 0 && (s[0] == '-' || s[0] == '+')
}

/// The text after its sign, if it has one.
pub open spec fn unsigned_part(s: Seq<char>) -> Seq<char> {
    if has_sign(s) {
        s.drop_first()
    } else {
        s
    }
}

/// The `i32` that a text writes in decimal: an optional `+` or `-`, then one
/// or more digits, within the range of `i32`.
pub open spec fn decimal_i32(s: Seq<char>) -> Option<i32> {
    let magnitude = digits_value(unsigned_part(s));
    let value = if has_sign(s) && s[0] == '-' {
        -magnitude
    } else {
        magnitude
    };
    if unsigned_part(s).len() == 0 || !all_digits(unsigned_part(s)) || !(i32::MIN <= value
        <= i32::MAX) {
        None
    } else {
        Some(value as i32)
    }
}

proof fn lemma_digits_value_nonneg(s: Seq<char>)
    requires
        all_digits(s),
    ensures
        digits_value(s) >= 0,
    decreases s.len(),
{
    if s.len() > 0 {
        lemma_digits_value_nonneg(s.drop_last());
    }
}

proof fn lemma_digits_value_grows(s: Seq<char>, i: int, j: int)
    requires
        0 <= i <= j <= s.len(),
        all_digits(s),
    ensures
        digits_value(s.take(i)) <= digits_value(s.take(j)),
    decreases j - i,
{
    if i < j {
        lemma_digits_value_grows(s, i, j - 1);
        assert(s.take(j).drop_last() =~= s.take(j - 1));
        lemma_digits_value_nonneg(s.take(j - 1));
    }
}

/// Reads a decimal `i32` as `str::parse` does.
pub fn parse_decimal_i32(s: &str) -> (r: Option<i32>)
    ensures
        r == decimal_i32(s@),
{
    let n = s.unicode_len();
    let signed = n > 0 && (s.get_char(0) == '-' || s.get_char(0) == '+');
    let negative = signed && s.get_char(0) == '-';
    let start: usize = if signed {
        1
    } else {
        0
    };
    let ghost digits = unsigned_part(s@);
    proof {
        assert(digits =~= s@.subrange(start as int, n as int));
    }
    if start == n {
        return None;
    }
    let bound: u64 = 2147483648;
    let mut acc: u64 = 0;
    let mut i: usize = start;
    while i < n
        invariant
            n == s@.len(),
            start <= i <= n,
            digits == s@.subrange(start as int, n as int),
            digits == unsigned_part(s@),
            start == if signed { 1usize } else { 0usize },
            signed == has_sign(s@),
            negative == (signed && s@[0] == '-'),
            forall|k: int| 0 <= k < i - start ==> is_digit(#[trigger] digits[k]),
            acc as int == digits_value(digits.take(i - start)),
            bound == 2147483648,
            acc <= bound,
        decreases n - i,
    {
        let c = s.get_char(i);
        if !('0' <= c && c <= '9') {
            proof {
                assert(!is_digit(digits[i - start]));
                assert(!all_digits(digits));
            }
            return None;
        }
        let d = (c as u32 - '0' as u32) as u64;
        proof {
            assert(digits.take(i - start + 1).drop_last() =~= digits.take(i - start));
        }
        acc = acc * 10 + d;
        assert(acc as int == digits_value(digits.take(i - start + 1)));
        if acc > bound {
            proof {
                if all_digits(digits) {
                    lemma_digits_value_grows(digits, i - start + 1, digits.len() as int);
                    assert(digits.take(digits.len() as int) =~= digits);
                }
            }
            return None;
        }
        i = i + 1;
    }
    proof {
        assert(digits.take(n - start) =~= digits);
    }
    if negative {
        Some((0 - acc as i64) as i32)
    } else if acc < bound {
        Some(acc as i32)
    } else {
        None
    }
}

/// The drafting screen's record of a catalog entry: a key that is not a
/// decimal `i32` gives the numeric id 0.
pub fn champion_short(name: String, id: String, key: &str) -> (c: ChampionShort)
    ensures
        c.name == name,
        c.id == id,
        c.numeric_id == match decimal_i32(key@) {
            Some(v) => v,
            None => 0i32,
        },
        c.icon@ == icon_url(id@),
        c.splash@ == splash_url(id@),
{
    let numeric_id = match parse_decimal_i32(key) {
        Some(v) => v,
        None => 0,
    };
    let icon = get_champion_icon(id.clone());
    let splash = get_champion_splash(id.clone());
    ChampionShort { name, id, numeric_id, icon, splash }
}

/// The champions that a random pick draws from.
pub open spec fn champion_pool() -> Seq<i32> {
    seq![1, 51, 53, 64, 89, 92, 103, 157, 202, 221, 238, 350, 555, 777, 876]
}

pub fn champion_ids() -> (r: Vec<i32>)
    ensures
        r@ == champion_pool(),
{
    let r = vec![1, 51, 53, 64, 89, 92, 103, 157, 202, 221, 238, 350, 555, 777, 876];
    assert(r@ =~= champion_pool());
    r
}

/// Relies on `rand::Rng::gen_range` over `rand::thread_rng`: a value of the
/// half-open range `0..n`, which must not be empty.
#[verifier::external_body]
fn random_below(n: usize) -> (r: usize)
    requires
        n > 0,
    ensures
        r < n,
{
    rand::thread_rng().gen_range(0..n)
}

/// The champion at position `i` of the pool.
pub fn champion_at(i: usize) -> (r: i32)
    requires
        i < 15,
    ensures
        r == champion_pool()[i as int],
{
    let ids = champion_ids();
    ids[i]
}

/// A champion of the pool, drawn at random: the one at a position drawn
/// uniformly from the pool's positions.
pub fn get_random_champion() -> (r: Result<i32, String>)
    ensures
        r matches Ok(c) && champion_pool().contains(c),
{
    let i = random_below(15);
    let c = champion_at(i);
    assert(champion_pool()[i as int] == c);
    Ok(c)
}

} // verus!
