//! Settings of the two processes, built from the values of their named
//! settings (absent when unset), with a default for each.
use vstd::prelude::*;

verus! {

/// Whether `c` is an ASCII decimal digit.
pub open spec fn is_digit(c: char) -> bool {
    '0' <= c && c <= '9'
}

/// The value of the decimal digits `s`, most significant first.
pub open spec fn digits_value(s: Seq<char>) -> int
    decreases s.len(),
{
    if s.len() == 0 {
        0
    } else {
        digits_value(s.drop_last()) * 10 + (s.last() as int - '0' as int)
    }
}

/// The digits of `s` without one leading `+`.
pub open spec fn unsigned_digits(s: Seq<char>) -> Seq<char> {
    if s.len() > 0 && s[0] == '+' {
        s.drop_first()
    } else {
        s
    }
}

/// Whether `s` is one or more decimal digits.
pub open spec fn all_digits(s: Seq<char>) -> bool {
    s.len() > 0 && forall|i: int| 0 <= i < s.len() ==> is_digit(#[trigger] s[i])
}

/// The unsigned integer that `s` writes, when it is at most `max`: an
/// optional `+` and then one or more decimal digits.
pub open spec fn parse_unsigned(s: Seq<char>, max: int) -> Option<int> {
    let d = unsigned_digits(s);
    if all_digits(d) && digits_value(d) <= max {
        Some(digits_value(d))
    } else {
        None
    }
}

proof fn lemma_digits_value_nonneg(s: Seq<char>)
    requires
        forall|i: int| 0 <= i < s.len() ==> is_digit(#[trigger] s[i]),
    ensures
        digits_value(s) >= 0,
    decreases s.len(),
{
    if s.len() > 0 {
        lemma_digits_value_nonneg(s.drop_last());
    }
}

/// Reads the unsigned integer written in `s`, when it is at most `max`.
pub fn parse_unsigned_text(s: &str, max: u64) -> (r: Option<u64>)
    ensures
        (r is Some) == (parse_unsigned(s@, max as int) is Some),
        r is Some ==> r.unwrap() as int == parse_unsigned(s@, max as int).unwrap(),
{
    let n = s.unicode_len();
    let mut start: usize = 0;
    if n > 0 && s.get_char(0) == '+' {
        start = 1;
    }
    let ghost d = unsigned_digits(s@);
    proof {
        assert(d =~= s@.subrange(start as int, n as int));
    }
    if start == n {
        return None;
    }
    let mut i: usize = start;
    let mut acc: u64 = 0;
    let mut over = false;
    while i < n
        invariant
            start <= i <= n,
            n == s@.len(),
            d == s@.subrange(start as int, n as int),
            d == unsigned_digits(s@),
            forall|j: int| 0 <= j < i - start ==> is_digit(#[trigger] d[j]),
            !over ==> acc as int == digits_value(d.take(i - start)) && acc <= max,
            over ==> digits_value(d.take(i - start)) > max,
        decreases n - i,
    {
        let c = s.get_char(i);
        proof {
            assert(d[i - start] == s@[i as int]);
        }
        if c < '0' || c > '9' {
            proof {
                assert(d[i - start] == c);
                assert(!is_digit(d[i - start]));
                assert(!all_digits(d));
            }
            return None;
        }
        let ghost k = i - start;
        proof {
            assert(d.take(k + 1).drop_last() =~= d.take(k));
            assert(d[k] == c);
            lemma_digits_value_nonneg(d.take(k));
        }
        let digit = (c as u32 - '0' as u32) as u64;
        if !over {
            if digit > max || acc > (max - digit) / 10 {
                over = true;
                proof {
                    assert(digits_value(d.take(k + 1)) > max) by (nonlinear_arith)
                        requires
                            digits_value(d.take(k + 1)) == acc * 10 + digit,
                            digit > max || acc > (max - digit) / 10,
                            acc >= 0,
                    ;
                }
            } else {
                proof {
                    assert(acc * 10 + digit <= max) by (nonlinear_arith)
                        requires
                            digit <= max,
                            acc <= (max - digit) / 10,
                    ;
                }
                acc = acc * 10 + digit;
            }
        } else {
            proof {
                assert(digits_value(d.take(k + 1)) > max) by (nonlinear_arith)
                    requires
                        digits_value(d.take(k + 1)) == digits_value(d.take(k)) * 10 + digit,
                        digits_value(d.take(k)) > max,
                        max >= 0,
                        digit >= 0,
                ;
            }
        }
        i = i + 1;
    }
    proof {
        assert(d.take(n - start) =~= d);
    }
    if over {
        None
    } else {
        Some(acc)
    }
}

/// The value of a text setting, or `default` when it is unset.
pub open spec fn text_or(value: Option<String>, default: Seq<char>) -> Seq<char> {
    match value {
        Some(v) => v@,
        None => default,
    }
}

/// The value of a numeric setting: the number it writes when that is at
/// most `max`, else `default`; `default` too when it is unset.
pub open spec fn number_or(value: Option<String>, max: int, default: int) -> int {
    match value {
        Some(v) => match parse_unsigned(v@, max) {
            Some(n) => n,
            None => default,
        },
        None => default,
    }
}

fn text_setting(value: Option<String>, default: &str) -> (r: String)
    ensures
        r@ == text_or(value, default@),
{
    match value {
        Some(v) => v,
        None => String::from_str(default),
    }
}

fn number_setting(value: Option<String>, max: u64, default: u64) -> (r: u64)
    requires
        default <= max,
    ensures
        r as int == number_or(value, max as int, default as int),
        r <= max,
{
    match value {
        Some(v) => match parse_unsigned_text(v.as_str(), max) {
            Some(n) => n,
            None => default,
        },
        None => default,
    }
}

/// Broker and timing settings shared by both processes.
#[derive(Debug, Clone)]
pub struct Config {
    pub kafka_brokers: String,
    pub kafka_request_topic: String,
    pub kafka_response_topic: String,
    /// Seconds allowed for a publish to be acknowledged.
    pub kafka_timeout: u64,
    /// Seconds a caller waits for its response.
    pub request_timeout: u64,
}

impl Config {
    /// The settings from the values of `KAFKA_BROKERS`,
    /// `KAFKA_REQUEST_TOPIC`, `KAFKA_RESPONSE_TOPIC`, `KAFKA_TIMEOUT` and
    /// `REQUEST_TIMEOUT`, with the defaults `localhost:9092`, `hash_requests`,
    /// `hash_responses`, 5 and 10.
    pub fn from_settings(
        brokers: Option<String>,
        request_topic: Option<String>,
        response_topic: Option<String>,
        kafka_timeout: Option<String>,
        request_timeout: Option<String>,
    ) -> (r: Config)
        ensures
            r.kafka_brokers@ == text_or(brokers, "localhost:9092"@),
            r.kafka_request_topic@ == text_or(request_topic, "hash_requests"@),
            r.kafka_response_topic@ == text_or(response_topic, "hash_responses"@),
            r.kafka_timeout as int == number_or(kafka_timeout, u64::MAX as int, 5),
            r.request_timeout as int == number_or(request_timeout, u64::MAX as int, 10),
    {
        Config {
            kafka_brokers: text_setting(brokers, "localhost:9092"),
            kafka_request_topic: text_setting(request_topic, "hash_requests"),
            kafka_response_topic: text_setting(response_topic, "hash_responses"),
            kafka_timeout: number_setting(kafka_timeout, u64::MAX, 5),
            request_timeout: number_setting(request_timeout, u64::MAX, 10),
        }
    }
}

/// Settings of the gateway process.
#[derive(Debug, Clone)]
pub struct Service1Config {
    pub host: String,
    pub port: u16,
    pub group_id: String,
    pub config: Config,
}

impl Service1Config {
    /// The settings from the values of `SERVICE_1_HOST`, `SERVICE_1_PORT` and
    /// `SERVICE_1_GROUP_ID`, with the defaults `0.0.0.0`, 3001 and
    /// `service_1`, and the shared `config`.
    pub fn from_settings(host: Option<String>, port: Option<String>, group_id: Option<String>, config: Config) -> (r: Service1Config)
        ensures
            r.host@ == text_or(host, "0.0.0.0"@),
            r.port as int == number_or(port, u16::MAX as int, 3001),
            r.group_id@ == text_or(group_id, "service_1"@),
            r.config == config,
    {
        let port = number_setting(port, u16::MAX as u64, 3001);
        Service1Config {
            host: text_setting(host, "0.0.0.0"),
            port: port as u16,
            group_id: text_setting(group_id, "service_1"),
            config,
        }
    }
}

/// Settings of the worker process.
#[derive(Debug, Clone)]
pub struct Service2Config {
    pub group_id: String,
    pub config: Config,
}

impl Service2Config {
    /// The settings from the value of `SERVICE_2_GROUP_ID`, with the default
    /// `service_2`, and the shared `config`.
    pub fn from_settings(group_id: Option<String>, config: Config) -> (r: Service2Config)
        ensures
            r.group_id@ == text_or(group_id, "service_2"@),
            r.config == config,
    {
        Service2Config { group_id: text_setting(group_id, "service_2"), config }
    }
}

} // verus!
