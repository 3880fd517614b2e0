//! Option values read from the environment, retry policies and the options
//! handed to the native client after it is created.
use crate::message::{contains_nul, has_nul, opt_text, MessageError};
use vstd::prelude::*;

verus! {

/// Default polling ("do work") frequency of the native client, in milliseconds.
pub const DO_WORK_FREQUENCY_DEFAULT_IN_MS: u64 = 100;

/// Largest accepted polling frequency, in milliseconds (the smallest is 0).
pub const DO_WORK_FREQUENCY_MAX_IN_MS: u64 = 100;

/// Default time a delivery confirmation is waited for, in seconds.
pub const CONFIRMATION_TIMEOUT_DEFAULT_IN_SECS: u64 = 30;

/// Default time shutdown waits for pending confirmations before it aborts
/// them, in seconds; a bound of its own, larger than the default
/// confirmation timeout.
pub const SHUTDOWN_DRAIN_TIMEOUT_DEFAULT_IN_SECS: u64 = 60;

/// True when `c` is an ASCII decimal digit.
pub open spec fn is_digit(c: char) -> bool {
    '0' <= c && c <= '9'
}

/// The number written by the decimal digits `s` (most significant first).
pub open spec fn digits_value(s: Seq<char>) -> nat
    decreases s.len(),
{
    if s.len() == 0 {
        0
    } else {
        digits_value(s.drop_last()) * 10 + ((s.last() as nat) - ('0' as nat)) as nat
    }
}

/// The digits of a decimal number: `s` without one leading `+`.
pub open spec fn unsigned_digits(s: Seq<char>) -> Seq<char> {
    if s.len() > 0 && s[0] == '+' {
        s.drop_first()
    } else {
        s
    }
}

/// True when every character of `d` is an ASCII digit.
pub open spec fn all_digits(d: Seq<char>) -> bool {
    forall|i: int| 0 <= i < d.len() ==> is_digit(#[trigger] d[i])
}

/// The standard library's decimal reading of an unsigned 64-bit integer:
/// an optional `+`, then one or more ASCII digits, whose value must fit in
/// 64 bits.
pub open spec fn parsed_u64(s: Seq<char>) -> Option<u64> {
    let d = unsigned_digits(s);
    if d.len() > 0 && all_digits(d) && digits_value(d) <= u64::MAX {
        Some(digits_value(d) as u64)
    } else {
        None
    }
}

/// Reads an unsigned decimal number (see `parsed_u64`).
pub fn parse_u64(s: &str) -> (r: Option<u64>)
    ensures
        r == parsed_u64(s@),
{
    let n = s.unicode_len();
    let start: usize = if n > 0 && s.get_char(0) == '+' {
        1
    } else {
        0
    };
    let ghost d = s@.subrange(start as int, n as int);
    proof {
        if s@.len() > 0 && s@[0] == '+' {
            assert(d =~= s@.drop_first());
        } else {
            assert(d =~= s@);
        }
    }
    if start == n {
        return None;
    }
    let mut acc: u64 = 0;
    let mut overflow = false;
    let mut i: usize = start;
    proof {
        assert(s@.subrange(start as int, start as int) =~= Seq::<char>::empty());
    }
    while i < n
        invariant
            start <= i <= n,
            n == s@.len(),
            d == s@.subrange(start as int, n as int),
            d == unsigned_digits(s@),
            forall|k: int| start <= k < i ==> is_digit(#[trigger] s@[k]),
            !overflow ==> acc == digits_value(s@.subrange(start as int, i as int)),
            overflow ==> digits_value(s@.subrange(start as int, i as int)) > u64::MAX,
        decreases n - i,
    {
        let c = s.get_char(i);
        if !('0' <= c && c <= '9') {
            proof {
                assert(d[i - start] == c);
                assert(!is_digit(d[i - start]));
                assert(!all_digits(d));
            }
            return None;
        }
        let digit = (c as u32 - '0' as u32) as u64;
        let ghost before = digits_value(s@.subrange(start as int, i as int));
        proof {
            let p = s@.subrange(start as int, i + 1);
            assert(p.drop_last() =~= s@.subrange(start as int, i as int));
            assert(p.last() == c);
            assert(digits_value(p) == before * 10 + digit);
        }
        if !overflow {
            match acc.checked_mul(10) {
                Some(m) => match m.checked_add(digit) {
                    Some(v) => {
                        acc = v;
                    },
                    None => {
                        overflow = true;
                    },
                },
                None => {
                    overflow = true;
                    assert(before * 10 + digit > u64::MAX) by (nonlinear_arith)
                        requires before * 10 > u64::MAX, digit >= 0;
                },
            }
        } else {
            assert(before * 10 + digit > u64::MAX) by (nonlinear_arith)
                requires before > u64::MAX, digit >= 0;
        }
        i = i + 1;
    }
    proof {
        assert(s@.subrange(start as int, n as int) == d);
        assert forall|k: int| 0 <= k < d.len() implies is_digit(#[trigger] d[k]) by {
            assert(d[k] == s@[start + k]);
        }
        assert(all_digits(d));
    }
    if overflow {
        None
    } else {
        Some(acc)
    }
}

/// The polling frequency chosen for an optional configured value.
pub open spec fn spec_do_work_frequency(raw: Option<Seq<char>>) -> u64 {
    match raw {
        Some(s) => match parsed_u64(s) {
            Some(v) => if v <= DO_WORK_FREQUENCY_MAX_IN_MS {
                v
            } else {
                DO_WORK_FREQUENCY_DEFAULT_IN_MS
            },
            None => DO_WORK_FREQUENCY_DEFAULT_IN_MS,
        },
        None => DO_WORK_FREQUENCY_DEFAULT_IN_MS,
    }
}

/// The confirmation timeout chosen for an optional configured value.
pub open spec fn spec_confirmation_timeout(raw: Option<Seq<char>>) -> u64 {
    match raw {
        Some(s) => match parsed_u64(s) {
            Some(v) => v,
            None => CONFIRMATION_TIMEOUT_DEFAULT_IN_SECS,
        },
        None => CONFIRMATION_TIMEOUT_DEFAULT_IN_SECS,
    }
}

/// The view of an optional text.
pub open spec fn opt_view(raw: Option<&str>) -> Option<Seq<char>> {
    match raw {
        Some(s) => Some(s@),
        None => None,
    }
}

/// Chooses the polling frequency: a configured value in `0..=100` is taken,
/// anything else (absent, not a number, out of range) gives the default.
pub fn do_work_frequency(raw: Option<&str>) -> (r: u64)
    ensures
        r == spec_do_work_frequency(opt_view(raw)),
        r <= DO_WORK_FREQUENCY_MAX_IN_MS,
{
    match raw {
        Some(s) => match parse_u64(s) {
            Some(v) => if v <= DO_WORK_FREQUENCY_MAX_IN_MS {
                v
            } else {
                DO_WORK_FREQUENCY_DEFAULT_IN_MS
            },
            None => DO_WORK_FREQUENCY_DEFAULT_IN_MS,
        },
        None => DO_WORK_FREQUENCY_DEFAULT_IN_MS,
    }
}

/// Chooses the confirmation timeout in seconds: a configured decimal value is
/// taken, anything else gives the default.
pub fn confirmation_timeout(raw: Option<&str>) -> (r: u64)
    ensures
        r == spec_confirmation_timeout(opt_view(raw)),
{
    match raw {
        Some(s) => match parse_u64(s) {
            Some(v) => v,
            None => CONFIRMATION_TIMEOUT_DEFAULT_IN_SECS,
        },
        None => CONFIRMATION_TIMEOUT_DEFAULT_IN_SECS,
    }
}

/// Connection retry policy of the native client.
#[derive(Clone, Copy, Debug, PartialEq, Eq, Structural)]
pub enum RetryPolicy {
    /// no retries
    NoRetry,
    /// retry immediately
    Immediate,
    /// retry at a fixed interval
    Interval,
    /// linear backoff
    LinearBackoff,
    /// exponential backoff
    ExponentialBackoff,
    /// exponential backoff with jitter
    ExponentialBackoffWithJitter,
    /// random wait
    Random,
}

/// The native code of a retry policy.
pub open spec fn spec_retry_code(p: RetryPolicy) -> u32 {
    match p {
        RetryPolicy::NoRetry => 0,
        RetryPolicy::Immediate => 1,
        RetryPolicy::Interval => 2,
        RetryPolicy::LinearBackoff => 3,
        RetryPolicy::ExponentialBackoff => 4,
        RetryPolicy::ExponentialBackoffWithJitter => 5,
        RetryPolicy::Random => 6,
    }
}

impl RetryPolicy {
    /// The native code of this policy (one to one, in declaration order from 0).
    pub fn native_code(&self) -> (r: u32)
        ensures
            r == spec_retry_code(*self),
    {
        match self {
            RetryPolicy::NoRetry => 0,
            RetryPolicy::Immediate => 1,
            RetryPolicy::Interval => 2,
            RetryPolicy::LinearBackoff => 3,
            RetryPolicy::ExponentialBackoff => 4,
            RetryPolicy::ExponentialBackoffWithJitter => 5,
            RetryPolicy::Random => 6,
        }
    }
}

/// A retry policy with its timeout.
#[derive(Clone, Copy, Debug, PartialEq, Eq, Structural)]
pub struct RetrySetting {
    /// the policy
    pub policy: RetryPolicy,
    /// give up retrying after this many seconds
    pub timeout_secs: u32,
}

/// The kind of client, decided when the library is deployed.
#[derive(Clone, Copy, Debug, PartialEq, Eq, Structural)]
pub enum ClientType {
    /// edge module client
    Edge,
    /// module client
    Module,
    /// device client
    Device,
}

/// An option handed to the native client after it is created.
#[derive(Debug)]
pub enum ClientOption {
    /// the polling frequency in milliseconds
    DoWorkFrequency(u64),
    /// verbose native logging on
    LogTrace,
    /// the plug-and-play model id
    ModelId(String),
    /// the connection retry policy
    Retry(RetrySetting),
}

/// The abstract client option.
pub ghost enum OptionView {
    DoWorkFrequency(u64),
    LogTrace,
    ModelId(Seq<char>),
    Retry(RetrySetting),
}

impl View for ClientOption {
    type V = OptionView;

    open spec fn view(&self) -> OptionView {
        match self {
            ClientOption::DoWorkFrequency(f) => OptionView::DoWorkFrequency(*f),
            ClientOption::LogTrace => OptionView::LogTrace,
            ClientOption::ModelId(m) => OptionView::ModelId(m@),
            ClientOption::Retry(r) => OptionView::Retry(*r),
        }
    }
}

/// The options, in the order they are set: the polling frequency always;
/// verbose logging when asked for; the model id when given; the retry
/// policy when given.
pub open spec fn spec_client_options(
    do_work_raw: Option<Seq<char>>,
    log_trace: bool,
    model_id: Option<Seq<char>>,
    retry: Option<RetrySetting>,
) -> Seq<OptionView> {
    seq![OptionView::DoWorkFrequency(spec_do_work_frequency(do_work_raw))] + (if log_trace {
        seq![OptionView::LogTrace]
    } else {
        seq![]
    }) + match model_id {
        Some(m) => seq![OptionView::ModelId(m)],
        None => seq![],
    } + match retry {
        Some(r) => seq![OptionView::Retry(r)],
        None => seq![],
    }
}

/// The options handed to a newly created native client (see
/// `spec_client_options`). Fails when the model id holds a NUL character,
/// which the native layer cannot carry.
pub fn client_options(
    do_work_raw: Option<&str>,
    log_trace: bool,
    model_id: Option<String>,
    retry: Option<RetrySetting>,
) -> (r: Result<Vec<ClientOption>, MessageError>)
    ensures
        r is Err <==> (model_id matches Some(m) && has_nul(m@)),
        r matches Ok(v) ==> v@.map_values(|o: ClientOption| o@) == spec_client_options(
            opt_view(do_work_raw),
            log_trace,
            opt_text(model_id),
            retry,
        ),
{
    let mut v: Vec<ClientOption> = Vec::new();
    v.push(ClientOption::DoWorkFrequency(do_work_frequency(do_work_raw)));
    if log_trace {
        v.push(ClientOption::LogTrace);
    }
    match model_id {
        Some(m) => {
            if contains_nul(m.as_str()) {
                return Err(MessageError::NulInText);
            }
            v.push(ClientOption::ModelId(m));
        },
        None => {},
    }
    match retry {
        Some(r) => v.push(ClientOption::Retry(r)),
        None => {},
    }
    proof {
        assert(v@.map_values(|o: ClientOption| o@) =~= spec_client_options(
            opt_view(do_work_raw),
            log_trace,
            opt_text(model_id),
            retry,
        ));
    }
    Ok(v)
}

} // verus!
