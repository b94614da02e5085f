//! Connection settings for the backing store, each with its documented
//! default, and the parsing of a port number from a textual setting.

use vstd::prelude::*;

verus! {

/// Whether `s` is a non-empty sequence of decimal digits.
pub open spec fn all_digits(s: Seq<char>) -> bool {
    s.len() > 0 && forall|i: int| 0 <= i < s.len() ==> 48 <= #[trigger] s[i] as int <= 57
}

/// The numeric value of a sequence of decimal digits.
pub open spec fn dec_value(s: Seq<char>) -> int
    decreases s.len(),
{
    if s.len() == 0 {
        0
    } else {
        dec_value(s.drop_last()) * 10 + (s.last() as int - 48)
    }
}

proof fn lemma_dec_value_nonneg(s: Seq<char>)
    requires
        forall|i: int| 0 <= i < s.len() ==> 48 <= #[trigger] s[i] as int <= 57,
    ensures
        dec_value(s) >= 0,
    decreases s.len(),
{
    if s.len() > 0 {
        assert(forall|i: int|
            0 <= i < s.drop_last().len() ==> 48 <= #[trigger] s.drop_last()[i] as int <= 57);
        lemma_dec_value_nonneg(s.drop_last());
    }
}

/// The value of a digit string never falls when more digits follow: the
/// value of a prefix bounds the value of the whole from below.
proof fn lemma_dec_value_prefix_le(s: Seq<char>, i: int, j: int)
    requires
        0 <= i <= j <= s.len(),
        forall|k: int| 0 <= k < s.len() ==> 48 <= #[trigger] s[k] as int <= 57,
    ensures
        dec_value(s.subrange(0, i)) <= dec_value(s.subrange(0, j)),
    decreases j - i,
{
    if i < j {
        lemma_dec_value_prefix_le(s, i, j - 1);
        let prev = s.subrange(0, j - 1);
        let cur = s.subrange(0, j);
        assert(cur.drop_last() =~= prev);
        assert(forall|k: int| 0 <= k < prev.len() ==> 48 <= #[trigger] prev[k] as int <= 57);
        lemma_dec_value_nonneg(prev);
        assert(cur.last() as int >= 48);
        assert(dec_value(cur) == dec_value(prev) * 10 + (cur.last() as int - 48));
    }
}

/// The digits of a port setting: what follows one optional leading plus
/// sign, as the standard number parsing for an unsigned type reads it.
pub open spec fn digits_part(s: Seq<char>) -> Seq<char> {
    if s.len() > 0 && s[0] == '+' {
        s.drop_first()
    } else {
        s
    }
}

/// Parses a port number: the value of a setting made of an optional leading
/// plus sign and decimal digits, fitting in sixteen bits, and nothing else.
pub fn parse_u16(s: &str) -> (r: Option<u16>)
    ensures
        match r {
            Some(v) => all_digits(digits_part(s@)) && dec_value(digits_part(s@)) <= u16::MAX
                && v as int == dec_value(digits_part(s@)),
            None => !(all_digits(digits_part(s@)) && dec_value(digits_part(s@)) <= u16::MAX),
        },
{
    let n = s.unicode_len();
    if n == 0 {
        return None;
    }
    let start: usize = if s.get_char(0) == '+' {
        1
    } else {
        0
    };
    let ghost t = digits_part(s@);
    proof {
        if start == 1 {
            assert(t =~= s@.subrange(1, n as int));
        } else {
            assert(t =~= s@);
        }
        assert(t.len() == n - start);
        assert(forall|j: int| 0 <= j < t.len() ==> t[j] == s@[j + start]);
    }
    if start == n {
        return None;
    }
    let mut i: usize = start;
    let mut acc: u32 = 0;
    while i < n
        invariant
            n == s@.len(),
            start <= i <= n,
            start < n,
            t == digits_part(s@),
            t.len() == n - start,
            forall|j: int| 0 <= j < t.len() ==> t[j] == s@[j + start],
            forall|j: int| 0 <= j < i - start ==> 48 <= #[trigger] t[j] as int <= 57,
            acc as int == dec_value(t.subrange(0, i - start)),
            acc <= 0xFFFF,
        decreases n - i,
    {
        let c = s.get_char(i);
        let cv = c as u32;
        proof {
            assert(t[i - start] == s@[i as int]);
            let pre = t.subrange(0, i - start);
            let post = t.subrange(0, i - start + 1);
            assert(post.drop_last() =~= pre);
            assert(post.last() == t[i - start]);
        }
        if cv < 48 || cv > 57 {
            proof {
                assert(!(48 <= t[i - start] as int <= 57));
            }
            return None;
        }
        let next = acc * 10 + (cv - 48);
        if next > 0xFFFF {
            proof {
                if all_digits(t) {
                    lemma_dec_value_prefix_le(t, i - start + 1, t.len() as int);
                    assert(t.subrange(0, t.len() as int) =~= t);
                }
            }
            return None;
        }
        acc = next;
        i += 1;
    }
    proof {
        assert(t.subrange(0, t.len() as int) =~= t);
    }
    Some(acc as u16)
}

/// The port a textual setting denotes: the parsed value when the setting is
/// present and well formed, else the given default.
pub fn port_or_default(setting: Option<&str>, default: u16) -> (p: u16)
    ensures
        match setting {
            Some(s) => {
                if all_digits(digits_part(s@)) && dec_value(digits_part(s@)) <= u16::MAX {
                    p as int == dec_value(digits_part(s@))
                } else {
                    p == default
                }
            },
            None => p == default,
        },
{
    match setting {
        Some(s) => match parse_u16(s) {
            Some(v) => v,
            None => default,
        },
        None => default,
    }
}

/// The settings a connection pool to the backing store is made from.
pub struct PoolConfig {
    pub host: String,
    pub port: u16,
    pub dbname: String,
    pub user: String,
    pub password: String,
}

impl PoolConfig {
    /// Builds the settings from what the environment provides, filling each
    /// absent one with its default for local development: host "localhost",
    /// port 5432, database "greedy", user "postgres", password "postgres".
    pub fn from_settings(
        host: Option<String>,
        port: Option<&str>,
        dbname: Option<String>,
        user: Option<String>,
        password: Option<String>,
    ) -> (c: PoolConfig)
        ensures
            match host {
                Some(h) => c.host == h,
                None => c.host@ == "localhost"@,
            },
            match port {
                Some(s) => {
                    if all_digits(digits_part(s@)) && dec_value(digits_part(s@)) <= u16::MAX {
                        c.port as int == dec_value(digits_part(s@))
                    } else {
                        c.port == 5432u16
                    }
                },
                None => c.port == 5432u16,
            },
            match dbname {
                Some(d) => c.dbname == d,
                None => c.dbname@ == "greedy"@,
            },
            match user {
                Some(u) => c.user == u,
                None => c.user@ == "postgres"@,
            },
            match password {
                Some(w) => c.password == w,
                None => c.password@ == "postgres"@,
            },
    {
        PoolConfig {
            host: match host {
                Some(h) => h,
                None => String::from_str("localhost"),
            },
            port: port_or_default(port, 5432),
            dbname: match dbname {
                Some(d) => d,
                None => String::from_str("greedy"),
            },
            user: match user {
                Some(u) => u,
                None => String::from_str("postgres"),
            },
            password: match password {
                Some(w) => w,
                None => String::from_str("postgres"),
            },
        }
    }
}

} // verus!
