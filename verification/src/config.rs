//! Resolution of configuration values.
//!
//! Every configured value reaches the library as the raw string the
//! surrounding application read for the value's key (`None` when the key was
//! absent), together with the documented default. Malformed values never
//! raise an error: they silently fall back to the default. Values are
//! re-resolved on every call, so behaviour can change at runtime, while the
//! registry's slot count and baseline are fixed when the registry is built —
//! a deliberate, documented divergence.

use vstd::prelude::*;
use vstd::string::StrSliceExecFns;

verus! {

/// `c` is an ASCII decimal digit.
pub open spec fn is_dec_digit(c: char) -> bool {
    48 <= c as u32 && c as u32 <= 57
}

/// Numeric value of a decimal digit.
pub open spec fn digit_val(c: char) -> int {
    c as u32 - 48
}

/// Every character of `s` is a decimal digit.
pub open spec fn all_dec_digits(s: Seq<char>) -> bool {
    forall|i: int| 0 <= i < s.len() ==> is_dec_digit(#[trigger] s[i])
}

/// The value of a digit string read in base ten.
pub open spec fn dec_val(s: Seq<char>) -> int
    decreases s.len(),
{
    if s.len() == 0 {
        0
    } else {
        dec_val(s.drop_last()) * 10 + digit_val(s.last())
    }
}

/// What parsing an unsigned decimal integer from `s` yields: after an
/// optional leading `+`, at least one digit and nothing else, with the value
/// in range; anything else fails.
pub open spec fn parse_usize_spec(s: Seq<char>) -> Option<usize> {
    let body = if s.len() > 0 && s[0] == '+' {
        s.skip(1)
    } else {
        s
    };
    if body.len() > 0 && all_dec_digits(body) && dec_val(body) <= usize::MAX {
        Some(dec_val(body) as usize)
    } else {
        None
    }
}

proof fn lemma_dec_val_nonneg(s: Seq<char>)
    requires
        all_dec_digits(s),
    ensures
        dec_val(s) >= 0,
    decreases s.len(),
{
    if s.len() > 0 {
        assert forall|i: int| 0 <= i < s.drop_last().len() implies is_dec_digit(
            #[trigger] s.drop_last()[i],
        ) by {
            assert(s.drop_last()[i] == s[i]);
        }
        lemma_dec_val_nonneg(s.drop_last());
    }
}

proof fn lemma_dec_val_prefix_le(s: Seq<char>, k: int)
    requires
        all_dec_digits(s),
        0 <= k <= s.len(),
    ensures
        dec_val(s.take(k)) <= dec_val(s),
    decreases s.len(),
{
    if k == s.len() {
        assert(s.take(k) =~= s);
    } else {
        let t = s.drop_last();
        assert forall|i: int| 0 <= i < t.len() implies is_dec_digit(#[trigger] t[i]) by {
            assert(t[i] == s[i]);
        }
        assert(s.take(k) =~= t.take(k));
        lemma_dec_val_prefix_le(t, k);
        lemma_dec_val_nonneg(t);
        assert(is_dec_digit(s.last()));
    }
}

proof fn lemma_dec_val_step(s: Seq<char>, k: int)
    requires
        0 <= k < s.len(),
    ensures
        dec_val(s.take(k + 1)) == dec_val(s.take(k)) * 10 + digit_val(s[k]),
{
    assert(s.take(k + 1).drop_last() =~= s.take(k));
    assert(s.take(k + 1).last() == s[k]);
}

/// Parse an unsigned decimal integer, exactly as `parse_usize_spec` states:
/// an optional leading `+`, then one or more digits; `None` on an empty
/// body, a stray character, or a value out of range.
pub fn parse_usize(s: &str) -> (res: Option<usize>)
    ensures
        res == parse_usize_spec(s@),
{
    let n = s.unicode_len();
    let has_sign = n > 0 && s.get_char(0) == '+';
    let start: usize = if has_sign {
        1
    } else {
        0
    };
    let ghost body: Seq<char> = if has_sign {
        s@.skip(1)
    } else {
        s@
    };
    if start >= n {
        return None;
    }
    let mut acc: usize = 0;
    let mut i: usize = start;
    while i < n
        invariant
            n == s@.len(),
            has_sign == (s@.len() > 0 && s@[0] == '+'),
            start == (if has_sign {
                1int
            } else {
                0int
            }),
            body == (if has_sign {
                s@.skip(1)
            } else {
                s@
            }),
            body.len() == n - start,
            start <= i <= n,
            forall|j: int| 0 <= j < body.len() ==> #[trigger] body[j] == s@[j + start],
            forall|j: int| 0 <= j < i - start ==> is_dec_digit(#[trigger] body[j]),
            acc == dec_val(body.take(i - start)),
        decreases n - i,
    {
        let c = s.get_char(i);
        let u = c as u32;
        proof {
            assert(body[i - start] == s@[i as int]);
        }
        if u < 48 || u > 57 {
            proof {
                assert(!is_dec_digit(body[i - start]));
            }
            return None;
        }
        let d: usize = (u - 48) as usize;
        let next = match acc.checked_mul(10) {
            Some(m) => m.checked_add(d),
            None => None,
        };
        proof {
            lemma_dec_val_step(body, i - start);
            assert(digit_val(body[i - start]) == d);
        }
        match next {
            Some(v) => {
                acc = v;
            },
            None => {
                proof {
                    if all_dec_digits(body) {
                        lemma_dec_val_prefix_le(body, i - start + 1);
                    }
                }
                return None;
            },
        }
        i += 1;
    }
    proof {
        assert(body.take(n - start) =~= body);
    }
    Some(acc)
}

/// Character-wise string equality over the unicode views.
pub fn str_eq(a: &str, b: &str) -> (res: bool)
    ensures
        res == (a@ == b@),
{
    let na = a.unicode_len();
    let nb = b.unicode_len();
    if na != nb {
        return false;
    }
    let mut i: usize = 0;
    while i < na
        invariant
            na == a@.len(),
            na == b@.len(),
            i <= na,
            forall|j: int| 0 <= j < i ==> a@[j] == b@[j],
        decreases na - i,
    {
        if a.get_char(i) != b.get_char(i) {
            return false;
        }
        i += 1;
    }
    proof {
        assert(a@ =~= b@);
    }
    true
}

/// What a boolean feature switch resolves to: the strings `true` and `false`
/// select the corresponding value; an absent or malformed value falls back to
/// the default.
pub open spec fn switch_value(value: Option<&str>, def: bool) -> bool {
    match value {
        Some(s) => if s@ == "true"@ {
            true
        } else if s@ == "false"@ {
            false
        } else {
            def
        },
        None => def,
    }
}

/// Resolve a boolean feature switch from its raw configured string.
pub fn get_env_swicher(value: Option<&str>, def: bool) -> (res: bool)
    ensures
        res == switch_value(value, def),
{
    match value {
        Some(s) => {
            if str_eq(s, "true") {
                true
            } else if str_eq(s, "false") {
                false
            } else {
                def
            }
        },
        None => def,
    }
}

/// What a numeric configuration value resolves to: the parsed decimal value,
/// or the default when the value is absent or does not parse.
pub open spec fn numeric_value(value: Option<&str>, def: usize) -> usize {
    match value {
        Some(s) => match parse_usize_spec(s@) {
            Some(n) => n,
            None => def,
        },
        None => def,
    }
}

/// Resolve a numeric configuration value from its raw configured string.
pub fn get_numeric_env(value: Option<&str>, def: usize) -> (res: usize)
    ensures
        res == numeric_value(value, def),
{
    match value {
        Some(s) => match parse_usize(s) {
            Some(n) => n,
            None => def,
        },
        None => def,
    }
}

/// What deserializing a JSON array of device identifiers from a string
/// yields; the outcome is a function of the string alone.
pub uninterp spec fn json_usize_list(s: Seq<char>) -> Option<Seq<usize>>;

/// Relies on `serde_json::from_str::<Vec<usize>>`: deserializes a JSON array
/// of non-negative integers from the string, or fails.
#[verifier::external_body]
fn get_list_from_string(value: &str) -> (res: Option<Vec<usize>>)
    ensures
        match res {
            Some(list) => json_usize_list(value@) == Some(list@),
            None => json_usize_list(value@) is None,
        },
{
    match serde_json::from_str::<Vec<usize>>(value) {
        Ok(list) => Some(list),
        Err(_) => None,
    }
}

/// The device list used when none is configured.
pub open spec fn default_gpu_list() -> Seq<usize> {
    seq![0usize, 1usize, 2usize, 3usize]
}

fn default_gpus() -> (res: Vec<usize>)
    ensures
        res@ == default_gpu_list(),
{
    let mut res: Vec<usize> = Vec::new();
    res.push(0);
    res.push(1);
    res.push(2);
    res.push(3);
    proof {
        assert(res@ =~= default_gpu_list());
    }
    res
}

/// What the configured device list resolves to: the JSON-decoded list, or
/// the default list when the value is absent or does not decode.
pub open spec fn gpu_list_value(value: Option<&str>) -> Seq<usize> {
    match value {
        Some(s) => match json_usize_list(s@) {
            Some(list) => list,
            None => default_gpu_list(),
        },
        None => default_gpu_list(),
    }
}

/// Resolve the ordered list of device identifiers from its raw configured
/// string (a JSON-like array).
pub fn get_gpu_list(value: Option<&str>) -> (res: Vec<usize>)
    ensures
        res@ == gpu_list_value(value),
{
    match value {
        Some(s) => match get_list_from_string(s) {
            Some(list) => list,
            None => default_gpus(),
        },
        None => default_gpus(),
    }
}

/// Whether Hash-class work may use an accelerator: forced off when custom
/// devices are disabled, otherwise a switch that defaults to on.
pub fn get_gpu_hash(no_custom: bool, value: Option<&str>) -> (res: bool)
    ensures
        res == (!no_custom && switch_value(value, true)),
{
    if no_custom {
        false
    } else {
        get_env_swicher(value, true)
    }
}

/// Whether Bell-class work may use an accelerator: forced off when custom
/// devices are disabled, otherwise a switch that defaults to on.
pub fn get_gpu_bell(no_custom: bool, value: Option<&str>) -> (res: bool)
    ensures
        res == (!no_custom && switch_value(value, true)),
{
    if no_custom {
        false
    } else {
        get_env_swicher(value, true)
    }
}

/// Most Bell-class accelerator threads to run at once: configured value, or
/// a third of the proving thread count by default.
pub fn get_max_bell_gpu_thread_num(value: Option<&str>, num_proving_thread: usize) -> (res: usize)
    ensures
        res == numeric_value(value, (num_proving_thread / 3) as usize),
{
    let def = num_proving_thread / 3;
    get_numeric_env(value, def)
}

/// Most verification threads to run at once: configured value, or four.
pub fn get_max_verify_thread_num(value: Option<&str>) -> (res: usize)
    ensures
        res == numeric_value(value, 4),
{
    get_numeric_env(value, 4)
}

/// Proving thread count; defaults to five.
#[allow(non_snake_case)]
pub fn NUM_PROVING_THREAD(value: Option<&str>) -> (res: usize)
    ensures
        res == numeric_value(value, 5),
{
    get_numeric_env(value, 5)
}

/// Hash-class accelerator switch; see `get_gpu_hash`.
#[allow(non_snake_case)]
pub fn GPU_HASH(no_custom: bool, value: Option<&str>) -> (res: bool)
    ensures
        res == (!no_custom && switch_value(value, true)),
{
    get_gpu_hash(no_custom, value)
}

/// Bell-class accelerator switch; see `get_gpu_bell`.
#[allow(non_snake_case)]
pub fn GPU_BELL(no_custom: bool, value: Option<&str>) -> (res: bool)
    ensures
        res == (!no_custom && switch_value(value, true)),
{
    get_gpu_bell(no_custom, value)
}

/// Ordered device identifier list; defaults to `[0, 1, 2, 3]`.
#[allow(non_snake_case)]
pub fn GPU_LIST(value: Option<&str>) -> (res: Vec<usize>)
    ensures
        res@ == gpu_list_value(value),
{
    get_gpu_list(value)
}

/// Per-device memory capacity, shared by all slots; defaults to 10500.
#[allow(non_snake_case)]
pub fn GPU_MEM(value: Option<&str>) -> (res: usize)
    ensures
        res == numeric_value(value, 10500),
{
    get_numeric_env(value, 10500)
}

/// Whether Bell-class work runs in parallel across devices: fixed off.
#[allow(non_snake_case)]
pub fn PAR_BELL() -> (res: bool)
    ensures
        res == false,
{
    false
}

/// Hash-first threshold; zero disables the hash-busy check. Defaults to one.
#[allow(non_snake_case)]
pub fn HASH_FIRST(value: Option<&str>) -> (res: usize)
    ensures
        res == numeric_value(value, 1),
{
    get_numeric_env(value, 1)
}

/// CPU-offload threshold; zero disables routing to the CPU path. Defaults to
/// zero.
#[allow(non_snake_case)]
pub fn OPT_CPU(value: Option<&str>) -> (res: usize)
    ensures
        res == numeric_value(value, 0),
{
    get_numeric_env(value, 0)
}

/// Whether custom accelerator devices are disabled; defaults to off.
#[allow(non_snake_case)]
pub fn NO_CUSTOM(value: Option<&str>) -> (res: bool)
    ensures
        res == switch_value(value, false),
{
    get_env_swicher(value, false)
}

/// CPU-busy minimum: the CPU class counts as busy at or above this many
/// running tasks. Defaults to ten.
#[allow(non_snake_case)]
pub fn MIN_CPU_NUM(value: Option<&str>) -> (res: usize)
    ensures
        res == numeric_value(value, 10),
{
    get_numeric_env(value, 10)
}

/// Most Bell-class accelerator threads; see `get_max_bell_gpu_thread_num`.
#[allow(non_snake_case)]
pub fn MAX_BELL_GPU_THREAD_NUM(value: Option<&str>, num_proving_thread: usize) -> (res: usize)
    ensures
        res == numeric_value(value, (num_proving_thread / 3) as usize),
{
    get_max_bell_gpu_thread_num(value, num_proving_thread)
}

/// Most verification threads; see `get_max_verify_thread_num`.
#[allow(non_snake_case)]
pub fn VERIFY_THREAD_NUM(value: Option<&str>) -> (res: usize)
    ensures
        res == numeric_value(value, 4),
{
    get_max_verify_thread_num(value)
}

/// Random-sleep bound for synthesis work, in milliseconds; defaults to a
/// minute.
#[allow(non_snake_case)]
pub fn SYNTHESIZE_SLEEP_TIME(value: Option<&str>) -> (res: usize)
    ensures
        res == numeric_value(value, 60000),
{
    get_numeric_env(value, 60000)
}

} // verus!
