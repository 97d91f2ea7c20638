//! Startup configuration: the directory's connection string, the token
//! signing secret and the hashing cost, gathered once at process start
//! into one immutable value. The cost is validated here — an out-of-range
//! or non-numeric cost is a fatal startup error, never a runtime one.

use vstd::prelude::*;

use crate::errors::ConfigError;

verus! {

/// Least cost the configuration accepts.
pub const MIN_ENCRYPT_COST: u32 = 4;

/// Greatest cost the configuration accepts. The hasher itself takes
/// costs up to 31 only, so a configured 32 lets the process start but
/// makes every hash attempt fail closed with the storage error kind.
pub const MAX_ENCRYPT_COST: u32 = 32;

pub open spec fn is_decimal_digit(c: char) -> bool {
    '0' <= c && c <= '9'
}

pub open spec fn all_decimal_digits(s: Seq<char>) -> bool {
    forall|i: int| 0 <= i < s.len() ==> is_decimal_digit(#[trigger] s[i])
}

/// The number a sequence of decimal digits denotes.
pub open spec fn decimal_value(s: Seq<char>) -> int
    decreases s.len(),
{
    if s.len() == 0 {
        0
    } else {
        decimal_value(s.drop_last()) * 10 + (s.last() as int - '0' as int)
    }
}

proof fn lemma_decimal_value_nonneg(s: Seq<char>)
    requires
        all_decimal_digits(s),
    ensures
        decimal_value(s) >= 0,
    decreases s.len(),
{
    if s.len() > 0 {
        assert(all_decimal_digits(s.drop_last())) by {
            assert(forall|i: int|
                0 <= i < s.len() - 1 ==> s.drop_last()[i] == #[trigger] s[i]);
        }
        lemma_decimal_value_nonneg(s.drop_last());
        assert(is_decimal_digit(s.last()));
    }
}

/// A digit string denotes at least what any of its prefixes denotes.
proof fn lemma_decimal_value_prefix_le(s: Seq<char>, i: int)
    requires
        all_decimal_digits(s),
        0 <= i <= s.len(),
    ensures
        decimal_value(s.subrange(0, i)) <= decimal_value(s),
    decreases s.len() - i,
{
    if i == s.len() {
        assert(s.subrange(0, i) =~= s);
    } else {
        let shorter = s.subrange(0, i);
        let longer = s.subrange(0, i + 1);
        assert(longer.drop_last() =~= shorter);
        assert(is_decimal_digit(s[i]));
        assert(decimal_value(longer) == decimal_value(shorter) * 10 + (s[i] as int - '0' as int));
        assert(all_decimal_digits(shorter));
        lemma_decimal_value_nonneg(shorter);
        assert(decimal_value(shorter) * 10 >= decimal_value(shorter));
        lemma_decimal_value_prefix_le(s, i + 1);
    }
}

/// `s` denotes a number that fits in `u32`: nonempty, digits only, value
/// within range.
pub open spec fn parses_as_u32(s: Seq<char>) -> bool {
    s.len() > 0 && all_decimal_digits(s) && decimal_value(s) <= u32::MAX
}

/// Decimal parser for `u32`: succeeds exactly on nonempty all-digit
/// strings whose value fits, and then returns that value.
pub fn parse_u32(s: &str) -> (r: Option<u32>)
    ensures
        r matches Some(value) ==> parses_as_u32(s@) && value == decimal_value(s@),
        r is None ==> !parses_as_u32(s@),
{
    let length = s.unicode_len();
    if length == 0 {
        return None;
    }
    let mut value: u32 = 0;
    let mut i: usize = 0;
    while i < length
        invariant
            0 <= i <= length,
            length == s@.len(),
            all_decimal_digits(s@.subrange(0, i as int)),
            value == decimal_value(s@.subrange(0, i as int)),
        decreases length - i,
    {
        let c = s.get_char(i);
        if c < '0' || c > '9' {
            assert(!all_decimal_digits(s@));
            return None;
        }
        let digit: u32 = (c as u32) - 48;
        proof {
            assert(s@.subrange(0, i + 1).drop_last() =~= s@.subrange(0, i as int));
        }
        if value > (u32::MAX - digit) / 10 {
            proof {
                if all_decimal_digits(s@) {
                    lemma_decimal_value_prefix_le(s@, i + 1);
                    assert(decimal_value(s@.subrange(0, i + 1)) == value * 10 + digit);
                    assert(value * 10 + digit > u32::MAX) by (nonlinear_arith)
                        requires
                            value > (u32::MAX - digit) / 10,
                            digit <= 9,
                    ;
                }
            }
            return None;
        }
        proof {
            assert(value * 10 + digit <= u32::MAX) by (nonlinear_arith)
                requires
                    value <= (u32::MAX - digit) / 10,
                    digit <= 9,
            ;
        }
        value = value * 10 + digit;
        i += 1;
    }
    proof {
        assert(s@.subrange(0, length as int) =~= s@);
    }
    Some(value)
}

/// The immutable process-wide configuration: constructed once at startup,
/// then only read.
pub struct Config {
    database_url: String,
    jwt_secret: String,
    cost: u32,
}

impl Config {
    pub closed spec fn spec_database_url(&self) -> Seq<char> {
        self.database_url@
    }

    pub closed spec fn spec_jwt_secret(&self) -> Seq<char> {
        self.jwt_secret@
    }

    pub closed spec fn spec_cost(&self) -> u32 {
        self.cost
    }

    /// The cost lies in the accepted range; established at construction
    /// and never mutated afterwards.
    pub open spec fn well_formed(&self) -> bool {
        MIN_ENCRYPT_COST <= self.spec_cost() <= MAX_ENCRYPT_COST
    }

    /// Validates the configured values. The cost text must be a decimal
    /// number in the accepted range; anything else refuses the whole
    /// configuration, so the process cannot start with an undefined cost.
    pub fn load(database_url: String, jwt_secret: String, cost_text: &str) -> (r: Result<
        Config,
        ConfigError,
    >)
        ensures
            match r {
                Ok(config) => parses_as_u32(cost_text@) && config.well_formed()
                    && config.spec_database_url() == database_url@ && config.spec_jwt_secret()
                    == jwt_secret@ && config.spec_cost() == decimal_value(cost_text@),
                Err(ConfigError::CostNotNumericError) => !parses_as_u32(cost_text@),
                Err(ConfigError::CostOutOfRangeError) => parses_as_u32(cost_text@) && (
                decimal_value(cost_text@) < MIN_ENCRYPT_COST || decimal_value(cost_text@)
                    > MAX_ENCRYPT_COST),
            },
    {
        match parse_u32(cost_text) {
            None => Err(ConfigError::CostNotNumericError),
            Some(cost) => {
                if cost < MIN_ENCRYPT_COST || cost > MAX_ENCRYPT_COST {
                    Err(ConfigError::CostOutOfRangeError)
                } else {
                    Ok(Config { database_url, jwt_secret, cost })
                }
            },
        }
    }

    pub fn get_database_url(&self) -> (r: &str)
        ensures
            r@ == self.spec_database_url(),
    {
        self.database_url.as_str()
    }

    pub fn get_jwt_secret(&self) -> (r: &str)
        ensures
            r@ == self.spec_jwt_secret(),
    {
        self.jwt_secret.as_str()
    }

    pub fn get_cost(&self) -> (r: u32)
        ensures
            r == self.spec_cost(),
    {
        self.cost
    }
}

} // verus!
