//! Reading the crypto settings that the process is given at start: the
//! Argon2 cost profile for new digests and the AES-256 key.
use vstd::prelude::*;
use vstd::slice::slice_subrange;
use vstd::string::*;
use vstd::utf8::encode_utf8;

use crate::cipher::EncryptionParameter;
use crate::credential::HashingParameter;

verus! {

/// A setting the process reads at start.
#[derive(Debug, Clone, Copy, PartialEq, Eq, Structural)]
pub enum Setting {
    Variant,
    Version,
    TimeCost,
    MemoryCost,
    ParallelismCost,
    Key,
}

impl Setting {
    pub open spec fn spec_name(self) -> Seq<char> {
        match self {
            Setting::Variant => "ARGON2_PHC_VARIANT"@,
            Setting::Version => "ARGON2_PHC_VERSION"@,
            Setting::TimeCost => "ARGON2_PHC_TIME_COST"@,
            Setting::MemoryCost => "ARGON2_PHC_MEMORY_COST"@,
            Setting::ParallelismCost => "ARGON2_PHC_PARALLELISM_COST"@,
            Setting::Key => "AES_GCM_KEY"@,
        }
    }

    /// The name of the environment variable that holds the setting.
    pub fn name(&self) -> (r: String)
        ensures
            r@ == self.spec_name(),
    {
        match self {
            Setting::Variant => "ARGON2_PHC_VARIANT".to_owned(),
            Setting::Version => "ARGON2_PHC_VERSION".to_owned(),
            Setting::TimeCost => "ARGON2_PHC_TIME_COST".to_owned(),
            Setting::MemoryCost => "ARGON2_PHC_MEMORY_COST".to_owned(),
            Setting::ParallelismCost => "ARGON2_PHC_PARALLELISM_COST".to_owned(),
            Setting::Key => "AES_GCM_KEY".to_owned(),
        }
    }
}

/// A setting that is absent or does not hold a usable value.
#[derive(Debug, Clone, Copy, PartialEq, Eq, Structural)]
pub enum ConfigError {
    Undefined(Setting),
    Invalid(Setting),
}

/// The message for a setting that is absent.
pub fn undefined_msg(subject: &str) -> (r: String)
    ensures
        r@ == subject@ + " is undefined."@,
{
    subject.to_owned().concat(" is undefined.")
}

/// The message for a setting whose value cannot be used.
pub fn invalid_msg(subject: &str) -> (r: String)
    ensures
        r@ == subject@ + " is invalid value."@,
{
    subject.to_owned().concat(" is invalid value.")
}

impl ConfigError {
    pub fn message(&self) -> (r: String)
        ensures
            self matches ConfigError::Undefined(s) ==> r@ == s.spec_name() + " is undefined."@,
            self matches ConfigError::Invalid(s) ==> r@ == s.spec_name() + " is invalid value."@,
    {
        match self {
            ConfigError::Undefined(s) => undefined_msg(s.name().as_str()),
            ConfigError::Invalid(s) => invalid_msg(s.name().as_str()),
        }
    }
}

pub open spec fn is_digit(c: u8) -> bool {
    48 <= c <= 57
}

pub open spec fn all_digits(b: Seq<u8>) -> bool {
    forall|i: int| 0 <= i < b.len() ==> is_digit(#[trigger] b[i])
}

/// The number that a string of decimal digits writes.
pub open spec fn digits_value(b: Seq<u8>) -> int
    decreases b.len(),
{
    if b.len() == 0 {
        0
    } else {
        10 * digits_value(b.drop_last()) + (b.last() - 48)
    }
}

/// The `u32` that one or more decimal digits write, if any.
pub open spec fn digits_u32(b: Seq<u8>) -> Option<u32> {
    if b.len() > 0 && all_digits(b) && digits_value(b) <= u32::MAX {
        Some(digits_value(b) as u32)
    } else {
        None
    }
}

/// The `u32` that the text writes in decimal, after at most one leading `+`.
pub open spec fn decimal_u32(b: Seq<u8>) -> Option<u32> {
    if b.len() > 0 && b[0] == 43 {
        digits_u32(b.drop_first())
    } else {
        digits_u32(b)
    }
}

proof fn lemma_prefix_value_grows(b: Seq<u8>, i: int)
    requires
        0 <= i <= b.len(),
        all_digits(b),
    ensures
        0 <= digits_value(b.take(i)) <= digits_value(b),
    decreases b.len(),
{
    if b.len() > 0 {
        if i == b.len() {
            assert(b.take(i) =~= b);
            lemma_prefix_value_grows(b.drop_last(), b.len() - 1);
        } else {
            lemma_prefix_value_grows(b.drop_last(), i);
            assert(b.drop_last().take(i) =~= b.take(i));
        }
    }
}

/// Reads a decimal number: an optional `+`, then one or more ASCII digits and
/// nothing else, at most `u32::MAX`.
pub fn parse_u32(s: &str) -> (r: Option<u32>)
    ensures
        r == decimal_u32(s.spec_bytes()),
{
    let b = s.as_bytes();
    if b.len() > 0 && b[0] == 43 {
        let rest = slice_subrange(b, 1, b.len());
        assert(rest@ =~= b@.drop_first());
        parse_digits(rest)
    } else {
        parse_digits(b)
    }
}

fn parse_digits(b: &[u8]) -> (r: Option<u32>)
    ensures
        r == digits_u32(b@),
{
    let ghost bs = b@;
    if b.len() == 0 {
        return None;
    }
    let mut acc: u64 = 0;
    let mut i: usize = 0;
    while i < b.len()
        invariant
            bs == b@,
            bs.len() > 0,
            i <= bs.len(),
            all_digits(bs.take(i as int)),
            acc == digits_value(bs.take(i as int)),
            acc <= u32::MAX,
        decreases bs.len() - i,
    {
        let c = b[i];
        if c < 48 || c > 57 {
            assert(!is_digit(bs[i as int]));
            return None;
        }
        assert(bs.take(i + 1).drop_last() =~= bs.take(i as int));
        assert(bs.take(i + 1).last() == c);
        assert(digits_value(bs.take(i + 1)) == 10 * digits_value(bs.take(i as int)) + (c - 48));
        acc = acc * 10 + (c - 48) as u64;
        i = i + 1;
        assert forall|k: int| 0 <= k < i implies is_digit(#[trigger] bs.take(i as int)[k]) by {
            if k < i - 1 {
                assert(bs.take(i as int)[k] == bs.take(i - 1)[k]);
            }
        }
        if acc > u32::MAX as u64 {
            proof {
                if all_digits(bs) {
                    lemma_prefix_value_grows(bs, i as int);
                }
            }
            return None;
        }
    }
    assert(bs.take(i as int) =~= bs);
    Some(acc as u32)
}

/// The problem with one setting, if any; a numeric setting must be a
/// decimal number.
pub open spec fn problem(setting: Setting, value: Option<String>, numeric: bool) -> Option<ConfigError> {
    match value {
        None => Some(ConfigError::Undefined(setting)),
        Some(v) => if numeric && decimal_u32(encode_utf8(v@)) is None {
            Some(ConfigError::Invalid(setting))
        } else {
            None
        },
    }
}

/// The first problem among the hashing settings, in the order they are read.
pub open spec fn hashing_problem(
    variant: Option<String>,
    version: Option<String>,
    time_cost: Option<String>,
    memory_cost: Option<String>,
    parallelism_cost: Option<String>,
) -> Option<ConfigError> {
    if problem(Setting::Variant, variant, false) is Some {
        problem(Setting::Variant, variant, false)
    } else if problem(Setting::Version, version, true) is Some {
        problem(Setting::Version, version, true)
    } else if problem(Setting::TimeCost, time_cost, true) is Some {
        problem(Setting::TimeCost, time_cost, true)
    } else if problem(Setting::MemoryCost, memory_cost, true) is Some {
        problem(Setting::MemoryCost, memory_cost, true)
    } else {
        problem(Setting::ParallelismCost, parallelism_cost, true)
    }
}

/// The number a present numeric setting holds.
pub open spec fn number_of(value: Option<String>) -> u32 {
    decimal_u32(encode_utf8(value.unwrap()@)).unwrap()
}

fn read_number(setting: Setting, value: Option<String>) -> (r: Result<u32, ConfigError>)
    ensures
        problem(setting, value, true) is None <==> r is Ok,
        r matches Ok(n) ==> n == number_of(value),
        r matches Err(e) ==> problem(setting, value, true) == Some(e),
{
    match value {
        None => Err(ConfigError::Undefined(setting)),
        Some(v) => match parse_u32(v.as_str()) {
            Some(n) => Ok(n),
            None => Err(ConfigError::Invalid(setting)),
        },
    }
}

/// Builds the hashing profile from the settings' raw values: the algorithm
/// name as given, the numbers in decimal. The first absent or non-numeric
/// setting is reported; whether the costs suit Argon2 is decided when hashing.
pub fn init_hashing_parameter(
    variant: Option<String>,
    version: Option<String>,
    time_cost: Option<String>,
    memory_cost: Option<String>,
    parallelism_cost: Option<String>,
) -> (r: Result<HashingParameter, ConfigError>)
    ensures
        r matches Err(e) ==> hashing_problem(variant, version, time_cost, memory_cost, parallelism_cost) == Some(e),
        r is Ok <==> hashing_problem(variant, version, time_cost, memory_cost, parallelism_cost) is None,
        r matches Ok(p) ==> {
            &&& p.variant@ == variant.unwrap()@
            &&& p.version == number_of(version)
            &&& p.time_cost == number_of(time_cost)
            &&& p.memory_cost == number_of(memory_cost)
            &&& p.parallelism_cost == number_of(parallelism_cost)
        },
{
    let variant = match variant {
        Some(v) => v,
        None => {
            return Err(ConfigError::Undefined(Setting::Variant));
        },
    };
    let version = match read_number(Setting::Version, version) {
        Ok(n) => n,
        Err(e) => {
            return Err(e);
        },
    };
    let time_cost = match read_number(Setting::TimeCost, time_cost) {
        Ok(n) => n,
        Err(e) => {
            return Err(e);
        },
    };
    let memory_cost = match read_number(Setting::MemoryCost, memory_cost) {
        Ok(n) => n,
        Err(e) => {
            return Err(e);
        },
    };
    let parallelism_cost = match read_number(Setting::ParallelismCost, parallelism_cost) {
        Ok(n) => n,
        Err(e) => {
            return Err(e);
        },
    };
    Ok(HashingParameter::new(variant, version, time_cost, memory_cost, parallelism_cost))
}

/// Builds the encryption key from the setting's raw value, whose UTF-8 bytes
/// are the key: absent, or not `KEY_LEN` bytes long, is a configuration error.
pub fn init_encryption_parameter(key: Option<String>) -> (r: Result<EncryptionParameter, ConfigError>)
    ensures
        key is None ==> r == Err::<EncryptionParameter, ConfigError>(ConfigError::Undefined(Setting::Key)),
        key matches Some(k) ==> (r is Ok <==> encode_utf8(k@).len() == crate::cipher::KEY_LEN),
        r matches Ok(p) ==> p.key() == encode_utf8(key.unwrap()@),
        key is Some && r is Err ==> r == Err::<EncryptionParameter, ConfigError>(ConfigError::Invalid(Setting::Key)),
{
    match key {
        None => Err(ConfigError::Undefined(Setting::Key)),
        Some(k) => match EncryptionParameter::new(k.as_str().as_bytes()) {
            Ok(p) => Ok(p),
            Err(_) => Err(ConfigError::Invalid(Setting::Key)),
        },
    }
}

} // verus!
