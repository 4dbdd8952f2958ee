use vstd::prelude::*;
use crate::response::ErrorKind;
use crate::response::response_text;
use crate::response::text_of;
use crate::response::well_formed_response;

verus! {

/// Seconds between automatic logging of readings.
#[derive(Debug, Copy, Clone, PartialEq, Eq, Structural)]
pub struct DataLoggerStorageIntervalSeconds(pub u32);

/// Response from the "D,?" command to query the data logger's storage
/// interval.
#[derive(Debug, Copy, Clone, PartialEq, Eq, Structural)]
pub struct DataLoggerStorageIntervalResponse(pub DataLoggerStorageIntervalSeconds);

/// An ASCII decimal digit, '0' through '9'.
pub open spec fn is_digit(b: u8) -> bool {
    0x30 <= b && b <= 0x39
}

/// Every byte of the text is a decimal digit.
pub open spec fn all_digits(t: Seq<u8>) -> bool {
    forall|i: int| 0 <= i < t.len() ==> is_digit(t[i])
}

/// The number a digit string denotes, most significant digit first.
pub open spec fn decimal_value(t: Seq<u8>) -> int
    decreases t.len(),
{
    if t.len() == 0 {
        0
    } else {
        decimal_value(t.drop_last()) * 10 + (t.last() - 0x30)
    }
}

/// The prefix of an interval response text: "?D," as ASCII bytes.
pub open spec fn interval_prefix() -> Seq<u8> {
    seq![0x3Fu8, 0x44u8, 0x2Cu8]
}

/// The interval a response text denotes, if any: the "?D," prefix followed
/// by one or more decimal digits whose value fits in 32 bits. A sign, an
/// empty numeral, any other stray character or an overflowing value yields
/// nothing.
pub open spec fn interval_of_text(t: Seq<u8>) -> Option<u32> {
    if t.len() > 3 && t.take(3) == interval_prefix() && all_digits(t.skip(3))
        && decimal_value(t.skip(3)) <= u32::MAX {
        Some(decimal_value(t.skip(3)) as u32)
    } else {
        None
    }
}

/// The whole outcome of an interval query on a raw buffer.
pub open spec fn interval_parse_result(s: Seq<u8>) -> Result<
    DataLoggerStorageIntervalResponse,
    ErrorKind,
> {
    if !well_formed_response(s) {
        Err(ErrorKind::MalformedResponse)
    } else {
        match interval_of_text(text_of(s)) {
            Some(seconds) => Ok(
                DataLoggerStorageIntervalResponse(DataLoggerStorageIntervalSeconds(seconds)),
            ),
            None => Err(ErrorKind::ResponseParse),
        }
    }
}

/// Once some prefix of a digit string already denotes more than 5, every
/// longer prefix denotes at least as much: appending a byte multiplies the
/// value by ten and subtracts at most 48.
proof fn lemma_decimal_value_grows(t: Seq<u8>, k: int)
    requires
        0 <= k <= t.len(),
        decimal_value(t.take(k)) > 5,
    ensures
        decimal_value(t) >= decimal_value(t.take(k)),
    decreases t.len() - k,
{
    if k == t.len() {
        assert(t.take(k) =~= t);
    } else {
        assert(t.take(k + 1).drop_last() =~= t.take(k));
        assert(t.take(k + 1).last() == t[k]);
        assert(decimal_value(t.take(k + 1)) == decimal_value(t.take(k)) * 10 + (t[k] - 0x30));
        lemma_decimal_value_grows(t, k + 1);
    }
}

impl DataLoggerStorageIntervalResponse {
    /// Parses the result of the "D,?" command to query the data logger's
    /// storage interval. Returns the number of seconds between readings.
    pub fn parse(response: &[u8]) -> (r: Result<DataLoggerStorageIntervalResponse, ErrorKind>)
        ensures
            r == interval_parse_result(response@),
    {
        let text = match response_text(response) {
            Ok(t) => t,
            Err(e) => {
                return Err(e);
            },
        };
        let n = text.len();
        if n <= 3 {
            return Err(ErrorKind::ResponseParse);
        }
        if text[0] != 0x3F || text[1] != 0x44 || text[2] != 0x2C {
            proof {
                assert(text@.take(3) != interval_prefix());
            }
            return Err(ErrorKind::ResponseParse);
        }
        proof {
            assert(text@.take(3) =~= interval_prefix());
        }
        let ghost digits = text@.skip(3);
        let mut seconds: u32 = 0;
        let mut i: usize = 3;
        proof {
            assert(digits.take(0) =~= Seq::<u8>::empty());
        }
        while i < n
            invariant
                well_formed_response(response@),
                text@ == text_of(response@),
                3 < n == text@.len(),
                text@.take(3) == interval_prefix(),
                3 <= i <= n,
                digits == text@.skip(3),
                all_digits(digits.take(i - 3)),
                seconds == decimal_value(digits.take(i - 3)),
            decreases n - i,
        {
            let b = text[i];
            proof {
                assert(digits[i - 3] == text@[i as int]);
            }
            if b < 0x30 || b > 0x39 {
                proof {
                    assert(!is_digit(digits[i - 3]));
                }
                return Err(ErrorKind::ResponseParse);
            }
            let d = (b - 0x30) as u32;
            let wide = seconds as u64 * 10 + d as u64;
            proof {
                assert(digits.take(i - 3 + 1).drop_last() =~= digits.take(i - 3));
                assert(digits.take(i - 3 + 1).last() == digits[i - 3]);
                assert(decimal_value(digits.take(i - 3 + 1)) == seconds * 10 + d);
            }
            if wide > u32::MAX as u64 {
                proof {
                    lemma_decimal_value_grows(digits, i - 3 + 1);
                }
                return Err(ErrorKind::ResponseParse);
            }
            seconds = wide as u32;
            i = i + 1;
        }
        proof {
            assert(digits.take(n - 3) =~= digits);
        }
        Ok(DataLoggerStorageIntervalResponse(DataLoggerStorageIntervalSeconds(seconds)))
    }
}

} // verus!
