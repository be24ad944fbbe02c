//! Server configuration parsed from command-line arguments.
//!
//! Each argument after the program name has the form `key=value`, where the
//! key is one of `ip`, `port`, `limit` or `pool` and the value runs from the
//! first `=` to the next `=` or to the end. When a key occurs more than once,
//! the earliest occurrence wins. `limit` and `pool` take decimal numbers;
//! a limit of zero means no limit.

use vstd::prelude::*;
use vstd::string::StrSliceExecFns;

verus! {

/// A cap on how many connections the server accepts before it stops.
#[derive(Clone, Copy, Debug, PartialEq, Eq, Structural)]
pub enum Limit {
    /// Stop after this many connections.
    Of(usize),
    /// Keep accepting connections for as long as the process runs.
    Unbounded,
}

/// The server's run-time configuration.
#[derive(Debug)]
pub struct Config {
    /// Address to bind the listener to.
    pub ip: String,
    /// Port to bind the listener to.
    pub port: String,
    /// How many connections to accept before shutting down.
    pub requests_limit: Limit,
    /// How many worker threads the pool is built with.
    pub thread_pool_size: usize,
}

impl Default for Config {
    /// The configuration used when an argument does not override it:
    /// listen on 127.0.0.1:7878, accept connections without limit, and run
    /// four workers.
    fn default() -> (c: Config)
        ensures
            c.ip@ == "127.0.0.1"@,
            c.port@ == "7878"@,
            c.requests_limit == Limit::Unbounded,
            c.thread_pool_size == 4,
    {
        Config {
            ip: "127.0.0.1".to_owned(),
            port: "7878".to_owned(),
            requests_limit: Limit::Unbounded,
            thread_pool_size: 4,
        }
    }
}

/// The position of the first `=` at or after position `i`, if any.
pub open spec fn find_eq(a: Seq<char>, i: int) -> Option<int>
    decreases a.len() - i,
{
    if i < 0 || i >= a.len() {
        None
    } else if a[i] == '=' {
        Some(i)
    } else {
        find_eq(a, i + 1)
    }
}

/// The key of an argument: everything before its first `=`.
pub open spec fn key_of(a: Seq<char>) -> Seq<char> {
    a.take(find_eq(a, 0)->0)
}

/// The value of an argument: everything between its first `=` and the next
/// `=` or the end.
pub open spec fn val_of(a: Seq<char>) -> Seq<char> {
    let e1 = find_eq(a, 0)->0;
    match find_eq(a, e1 + 1) {
        Some(e2) => a.subrange(e1 + 1, e2),
        None => a.subrange(e1 + 1, a.len() as int),
    }
}

/// A decimal digit.
pub open spec fn is_digit(c: char) -> bool {
    48 <= c as int <= 57
}

/// The numeric value of a decimal digit.
pub open spec fn digit_val(c: char) -> int {
    c as int - 48
}

/// Every character is a decimal digit.
pub open spec fn all_digits(s: Seq<char>) -> bool {
    forall|i: int| 0 <= i < s.len() ==> is_digit(s[i])
}

/// A non-empty run of decimal digits.
pub open spec fn is_dec_digits(s: Seq<char>) -> bool {
    s.len() > 0 && all_digits(s)
}

/// The number that a run of decimal digits denotes.
pub open spec fn dec_val(s: Seq<char>) -> int
    decreases s.len(),
{
    if s.len() == 0 {
        0
    } else {
        dec_val(s.drop_last()) * 10 + digit_val(s.last())
    }
}

/// A key that the parser understands.
pub open spec fn known_key(k: Seq<char>) -> bool {
    k == "ip"@ || k == "port"@ || k == "limit"@ || k == "pool"@
}

/// An argument the parser accepts: it has an `=`, its key is known, and a
/// numeric key carries a decimal value that fits in `usize`.
pub open spec fn arg_wf(a: Seq<char>) -> bool {
    &&& find_eq(a, 0) is Some
    &&& known_key(key_of(a))
    &&& (key_of(a) == "limit"@ || key_of(a) == "pool"@ ==> is_dec_digits(val_of(a))
        && dec_val(val_of(a)) <= usize::MAX)
}

/// The first index in `lo..hi` whose argument has the given key, if any.
pub open spec fn first_key_in(args: Seq<String>, key: Seq<char>, lo: int, hi: int) -> Option<int>
    decreases hi - lo,
{
    if lo < 0 || lo >= hi {
        None
    } else if key_of(args[lo]@) == key {
        Some(lo)
    } else {
        first_key_in(args, key, lo + 1, hi)
    }
}

/// The ip that the arguments before `hi` select.
pub open spec fn spec_ip(args: Seq<String>, hi: int) -> Seq<char> {
    match first_key_in(args, "ip"@, 1, hi) {
        Some(i) => val_of(args[i]@),
        None => "127.0.0.1"@,
    }
}

/// The port that the arguments before `hi` select.
pub open spec fn spec_port(args: Seq<String>, hi: int) -> Seq<char> {
    match first_key_in(args, "port"@, 1, hi) {
        Some(i) => val_of(args[i]@),
        None => "7878"@,
    }
}

/// The request limit that the arguments before `hi` select.
pub open spec fn spec_limit(args: Seq<String>, hi: int) -> Limit {
    match first_key_in(args, "limit"@, 1, hi) {
        Some(i) => if dec_val(val_of(args[i]@)) == 0 {
            Limit::Unbounded
        } else {
            Limit::Of(dec_val(val_of(args[i]@)) as usize)
        },
        None => Limit::Unbounded,
    }
}

/// The pool size that the arguments before `hi` select.
pub open spec fn spec_pool(args: Seq<String>, hi: int) -> int {
    match first_key_in(args, "pool"@, 1, hi) {
        Some(i) => dec_val(val_of(args[i]@)),
        None => 4,
    }
}

/// Extending the scanned range by one argument keeps an already found key and
/// otherwise finds the new argument exactly when its key matches.
proof fn lemma_first_key_extend(args: Seq<String>, key: Seq<char>, lo: int, hi: int)
    requires
        0 <= lo <= hi,
    ensures
        first_key_in(args, key, lo, hi + 1) == (if first_key_in(args, key, lo, hi) is Some {
            first_key_in(args, key, lo, hi)
        } else if key_of(args[hi]@) == key {
            Some(hi)
        } else {
            None::<int>
        }),
    decreases hi - lo,
{
    if lo < hi {
        lemma_first_key_extend(args, key, lo + 1, hi);
    } else {
        assert(first_key_in(args, key, lo, hi) is None);
        assert(first_key_in(args, key, lo + 1, hi + 1) is None);
    }
}

/// A run of digits denotes a non-negative number.
proof fn lemma_dec_val_nonneg(s: Seq<char>)
    requires
        all_digits(s),
    ensures
        dec_val(s) >= 0,
    decreases s.len(),
{
    if s.len() > 0 {
        assert(all_digits(s.drop_last()));
        lemma_dec_val_nonneg(s.drop_last());
    }
}

/// Reading one more digit multiplies the prefix value by ten and adds it.
proof fn lemma_dec_val_take_succ(s: Seq<char>, i: int)
    requires
        0 <= i < s.len(),
    ensures
        dec_val(s.take(i + 1)) == dec_val(s.take(i)) * 10 + digit_val(s[i]),
{
    assert(s.take(i + 1).drop_last() =~= s.take(i));
    assert(s.take(i + 1).last() == s[i]);
}

/// A prefix of a digit run never denotes more than the whole run.
proof fn lemma_dec_val_prefix_le(s: Seq<char>, i: int)
    requires
        all_digits(s),
        0 <= i <= s.len(),
    ensures
        dec_val(s.take(i)) <= dec_val(s),
    decreases s.len() - i,
{
    if i == s.len() {
        assert(s.take(i) =~= s);
    } else {
        assert(all_digits(s.take(i)));
        lemma_dec_val_nonneg(s.take(i));
        lemma_dec_val_take_succ(s, i);
        lemma_dec_val_prefix_le(s, i + 1);
    }
}

/// Whether two string slices hold the same characters.
fn eq_chars(s: &str, t: &str) -> (r: bool)
    ensures
        r == (s@ == t@),
{
    let n = s.unicode_len();
    let m = t.unicode_len();
    if n != m {
        return false;
    }
    let mut i: usize = 0;
    while i < n
        invariant
            i <= n,
            n == s@.len(),
            n == t@.len(),
            forall|j: int| 0 <= j < i ==> s@[j] == t@[j],
        decreases n - i,
    {
        if s.get_char(i) != t.get_char(i) {
            return false;
        }
        i = i + 1;
    }
    proof {
        assert(s@ =~= t@);
    }
    true
}

/// The position of the first `=` at or after `i`, scanning forward.
fn find_eq_from(s: &str, i: usize) -> (r: Option<usize>)
    requires
        i <= s@.len(),
    ensures
        match r {
            Some(j) => find_eq(s@, i as int) == Some(j as int) && i <= j < s@.len(),
            None => find_eq(s@, i as int) is None,
        },
    decreases s@.len() - i,
{
    let n = s.unicode_len();
    if i == n {
        None
    } else if s.get_char(i) == '=' {
        Some(i)
    } else {
        find_eq_from(s, i + 1)
    }
}

/// Splits an argument into its key and its value.
fn split_arg<'a>(s: &'a str) -> (kv: (&'a str, &'a str))
    requires
        find_eq(s@, 0) is Some,
    ensures
        kv.0@ == key_of(s@),
        kv.1@ == val_of(s@),
{
    let n = s.unicode_len();
    let e1 = match find_eq_from(s, 0) {
        Some(j) => j,
        None => 0,
    };
    let key = s.substring_char(0, e1);
    let value = match find_eq_from(s, e1 + 1) {
        Some(e2) => s.substring_char(e1 + 1, e2),
        None => s.substring_char(e1 + 1, n),
    };
    (key, value)
}

/// Reads the number that a run of decimal digits denotes.
fn parse_usize(s: &str) -> (r: usize)
    requires
        is_dec_digits(s@),
        dec_val(s@) <= usize::MAX,
    ensures
        r as int == dec_val(s@),
{
    let n = s.unicode_len();
    let mut r: usize = 0;
    let mut i: usize = 0;
    while i < n
        invariant
            is_dec_digits(s@),
            dec_val(s@) <= usize::MAX,
            n == s@.len(),
            i <= n,
            r as int == dec_val(s@.take(i as int)),
        decreases n - i,
    {
        let c = s.get_char(i);
        let d: u32 = (c as u32) - 48;
        proof {
            lemma_dec_val_take_succ(s@, i as int);
            lemma_dec_val_prefix_le(s@, i + 1 as int);
        }
        r = r * 10 + (d as usize);
        i = i + 1;
    }
    proof {
        assert(s@.take(n as int) =~= s@);
    }
    r
}

/// Builds the configuration that the command-line arguments select.
///
/// `args[0]` is the program name and is ignored. Every later argument must be
/// well formed in the sense of [`arg_wf`]; when a key occurs more than once,
/// the earliest occurrence wins.
pub fn parse_config(args: Vec<String>) -> (c: Config)
    requires
        forall|i: int| 1 <= i < args@.len() ==> #[trigger] arg_wf(args@[i]@),
    ensures
        c.ip@ == spec_ip(args@, args@.len() as int),
        c.port@ == spec_port(args@, args@.len() as int),
        c.requests_limit == spec_limit(args@, args@.len() as int),
        c.thread_pool_size as int == spec_pool(args@, args@.len() as int),
{
    let mut c = Config::default();
    let mut ip_set = false;
    let mut port_set = false;
    let mut limit_set = false;
    let mut pool_set = false;
    let mut i: usize = 1;
    while i < args.len()
        invariant
            forall|k: int| 1 <= k < args@.len() ==> #[trigger] arg_wf(args@[k]@),
            1 <= i,
            i <= args@.len() || i == 1,
            ip_set == (first_key_in(args@, "ip"@, 1, i as int) is Some),
            port_set == (first_key_in(args@, "port"@, 1, i as int) is Some),
            limit_set == (first_key_in(args@, "limit"@, 1, i as int) is Some),
            pool_set == (first_key_in(args@, "pool"@, 1, i as int) is Some),
            c.ip@ == spec_ip(args@, i as int),
            c.port@ == spec_port(args@, i as int),
            c.requests_limit == spec_limit(args@, i as int),
            c.thread_pool_size as int == spec_pool(args@, i as int),
        decreases args@.len() - i,
    {
        let s = args[i].as_str();
        proof {
            assert(arg_wf(args@[i as int]@));
            assert(s@ == args@[i as int]@);
        }
        let (key, value) = split_arg(s);
        proof {
            reveal_strlit("ip");
            reveal_strlit("port");
            reveal_strlit("limit");
            reveal_strlit("pool");
            assert("ip"@ =~= seq!['i', 'p']);
            assert("port"@ =~= seq!['p', 'o', 'r', 't']);
            assert("limit"@ =~= seq!['l', 'i', 'm', 'i', 't']);
            assert("pool"@ =~= seq!['p', 'o', 'o', 'l']);
            assert("ip"@ != "port"@);
            assert("ip"@ != "limit"@);
            assert("ip"@ != "pool"@);
            assert("port"@ != "limit"@);
            assert("port"@ != "pool"@);
            assert("limit"@ != "pool"@);
            lemma_first_key_extend(args@, "ip"@, 1, i as int);
            lemma_first_key_extend(args@, "port"@, 1, i as int);
            lemma_first_key_extend(args@, "limit"@, 1, i as int);
            lemma_first_key_extend(args@, "pool"@, 1, i as int);
        }
        if eq_chars(key, "ip") {
            if !ip_set {
                c.ip = value.to_owned();
                ip_set = true;
            }
        } else if eq_chars(key, "port") {
            if !port_set {
                c.port = value.to_owned();
                port_set = true;
            }
        } else if eq_chars(key, "limit") {
            if !limit_set {
                let v = parse_usize(value);
                c.requests_limit = if v == 0 {
                    Limit::Unbounded
                } else {
                    Limit::Of(v)
                };
                limit_set = true;
            }
        } else if eq_chars(key, "pool") {
            if !pool_set {
                c.thread_pool_size = parse_usize(value);
                pool_set = true;
            }
        } else {
            proof {
                assert(false);
            }
        }
        i = i + 1;
    }
    proof {
        if args@.len() < 1 {
            assert(first_key_in(args@, "ip"@, 1, 1) is None);
            assert(first_key_in(args@, "ip"@, 1, 0) is None);
            assert(first_key_in(args@, "port"@, 1, 1) is None);
            assert(first_key_in(args@, "port"@, 1, 0) is None);
            assert(first_key_in(args@, "limit"@, 1, 1) is None);
            assert(first_key_in(args@, "limit"@, 1, 0) is None);
            assert(first_key_in(args@, "pool"@, 1, 1) is None);
            assert(first_key_in(args@, "pool"@, 1, 0) is None);
        }
    }
    c
}

} // verus!
