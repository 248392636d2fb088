use vstd::prelude::*;

use crate::text::is_substring_of;

verus! {

/// The hexadecimal digit for one value below sixteen, lower case.
pub open spec fn hex_digit_char(d: int) -> char
    recommends
        0 <= d < 16,
{
    if d < 10 {
        crate::numfmt::digit_char(d)
    } else if d == 10 {
        'a'
    } else if d == 11 {
        'b'
    } else if d == 12 {
        'c'
    } else if d == 13 {
        'd'
    } else if d == 14 {
        'e'
    } else {
        'f'
    }
}

/// How one character is written inside a JSON string literal: quotes,
/// backslashes and the named control characters get a short escape, the
/// remaining control characters a `\u00..` escape, everything else stands
/// as itself.
pub open spec fn json_escape_char(c: char) -> Seq<char> {
    if c == '"' {
        seq!['\\', '"']
    } else if c == '\\' {
        seq!['\\', '\\']
    } else if c == '\n' {
        seq!['\\', 'n']
    } else if c == '\r' {
        seq!['\\', 'r']
    } else if c == '\t' {
        seq!['\\', 't']
    } else if c == '\u{8}' {
        seq!['\\', 'b']
    } else if c == '\u{c}' {
        seq!['\\', 'f']
    } else if (c as u32) < 0x20 {
        seq!['\\', 'u', '0', '0', hex_digit_char(((c as u32) / 16) as int), hex_digit_char(
            ((c as u32) % 16) as int,
        )]
    } else {
        seq![c]
    }
}

/// A string escaped for use inside a JSON string literal.
pub open spec fn json_escape(s: Seq<char>) -> Seq<char>
    decreases s.len(),
{
    if s.len() == 0 {
        Seq::empty()
    } else {
        json_escape(s.drop_last()) + json_escape_char(s.last())
    }
}

fn hex_digit_str(d: u32) -> (r: &'static str)
    requires
        d < 16,
    ensures
        r@ == seq![hex_digit_char(d as int)],
{
    if d < 10 {
        crate::numfmt::digit_str(d as u64)
    } else {
        match d {
            10 => {
                proof {
                    reveal_strlit("a");
                    assert("a"@ =~= seq![hex_digit_char(10int)]);
                }
                "a"
            },
            11 => {
                proof {
                    reveal_strlit("b");
                    assert("b"@ =~= seq![hex_digit_char(11int)]);
                }
                "b"
            },
            12 => {
                proof {
                    reveal_strlit("c");
                    assert("c"@ =~= seq![hex_digit_char(12int)]);
                }
                "c"
            },
            13 => {
                proof {
                    reveal_strlit("d");
                    assert("d"@ =~= seq![hex_digit_char(13int)]);
                }
                "d"
            },
            14 => {
                proof {
                    reveal_strlit("e");
                    assert("e"@ =~= seq![hex_digit_char(14int)]);
                }
                "e"
            },
            _ => {
                proof {
                    reveal_strlit("f");
                    assert("f"@ =~= seq![hex_digit_char(15int)]);
                }
                "f"
            },
        }
    }
}

/// Appends `s`, escaped for a JSON string literal, to `out`.
fn append_json_escaped(out: &mut String, s: &str)
    ensures
        final(out)@ == old(out)@ + json_escape(s@),
{
    let n = s.unicode_len();
    let mut i: usize = 0;
    proof {
        assert(s@.take(0) =~= Seq::<char>::empty());
        assert(old(out)@ + json_escape(s@.take(0)) =~= old(out)@);
    }
    while i < n
        invariant
            n == s@.len(),
            0 <= i <= n,
            out@ == old(out)@ + json_escape(s@.take(i as int)),
        decreases n - i,
    {
        let ghost pre = out@;
        let c = s.get_char(i);
        if c == '"' {
            out.append("\\\"");
            proof {
                reveal_strlit("\\\"");
                assert(out@ =~= pre + json_escape_char(c));
            }
        } else if c == '\\' {
            out.append("\\\\");
            proof {
                reveal_strlit("\\\\");
                assert(out@ =~= pre + json_escape_char(c));
            }
        } else if c == '\n' {
            out.append("\\n");
            proof {
                reveal_strlit("\\n");
                assert(out@ =~= pre + json_escape_char(c));
            }
        } else if c == '\r' {
            out.append("\\r");
            proof {
                reveal_strlit("\\r");
                assert(out@ =~= pre + json_escape_char(c));
            }
        } else if c == '\t' {
            out.append("\\t");
            proof {
                reveal_strlit("\\t");
                assert(out@ =~= pre + json_escape_char(c));
            }
        } else if c == '\u{8}' {
            out.append("\\b");
            proof {
                reveal_strlit("\\b");
                assert(out@ =~= pre + json_escape_char(c));
            }
        } else if c == '\u{c}' {
            out.append("\\f");
            proof {
                reveal_strlit("\\f");
                assert(out@ =~= pre + json_escape_char(c));
            }
        } else if (c as u32) < 0x20 {
            let v = c as u32;
            out.append("\\u00");
            out.append(hex_digit_str(v / 16));
            out.append(hex_digit_str(v % 16));
            proof {
                reveal_strlit("\\u00");
                assert(out@ =~= pre + json_escape_char(c));
            }
        } else {
            let piece = s.substring_char(i, i + 1);
            out.append(piece);
            proof {
                assert(piece@ =~= seq![c]);
                assert(out@ =~= pre + json_escape_char(c));
            }
        }
        proof {
            assert(s@.take(i as int + 1).drop_last() =~= s@.take(i as int));
            assert(s@.take(i as int + 1).last() == s@[i as int]);
            assert(pre + json_escape_char(s@[i as int]) =~= old(out)@ + json_escape(
                s@.take(i as int + 1),
            ));
        }
        i += 1;
    }
    proof {
        assert(s@.take(n as int) =~= s@);
    }
}

/// The conflict notification payload: a JSON object whose keys, in the
/// serializer's alphabetical order, are booking_id, message, original_date,
/// student_name and type, the last fixed to WEATHER_CONFLICT.
pub open spec fn conflict_notification_spec(
    booking_id: Seq<char>,
    message: Seq<char>,
    original_date: Seq<char>,
    student_name: Seq<char>,
) -> Seq<char> {
    "{\"booking_id\":\""@ + json_escape(booking_id) + "\",\"message\":\""@ + json_escape(message)
        + "\",\"original_date\":\""@ + json_escape(original_date) + "\",\"student_name\":\""@
        + json_escape(student_name) + "\",\"type\":\"WEATHER_CONFLICT\"}"@
}

/// Builds the weather-conflict notification payload.
pub fn conflict_notification(
    booking_id: &str,
    message: &str,
    original_date: &str,
    student_name: &str,
) -> (r: String)
    ensures
        r@ == conflict_notification_spec(booking_id@, message@, original_date@, student_name@),
{
    let mut out = String::from_str("{\"booking_id\":\"");
    append_json_escaped(&mut out, booking_id);
    out.append("\",\"message\":\"");
    append_json_escaped(&mut out, message);
    out.append("\",\"original_date\":\"");
    append_json_escaped(&mut out, original_date);
    out.append("\",\"student_name\":\"");
    append_json_escaped(&mut out, student_name);
    out.append("\",\"type\":\"WEATHER_CONFLICT\"}");
    out
}

/// The weather-alert notification payload: a JSON object whose keys, in the
/// serializer's alphabetical order, are booking_id, id, location, message,
/// original_date, severity, student_name, timestamp and type, the last
/// fixed to weather_alert.
pub open spec fn alert_notification_spec(
    alert_id: Seq<char>,
    booking_id: Seq<char>,
    location: Seq<char>,
    message: Seq<char>,
    original_date: Seq<char>,
    severity: Seq<char>,
    student_name: Seq<char>,
    timestamp: Seq<char>,
) -> Seq<char> {
    "{\"booking_id\":\""@ + json_escape(booking_id) + "\",\"id\":\""@ + json_escape(alert_id)
        + "\",\"location\":\""@ + json_escape(location) + "\",\"message\":\""@ + json_escape(
        message,
    ) + "\",\"original_date\":\""@ + json_escape(original_date) + "\",\"severity\":\""@
        + json_escape(severity) + "\",\"student_name\":\""@ + json_escape(student_name)
        + "\",\"timestamp\":\""@ + json_escape(timestamp) + "\",\"type\":\"weather_alert\"}"@
}

/// Builds the weather-alert notification payload.
pub fn alert_notification(
    alert_id: &str,
    booking_id: &str,
    location: &str,
    message: &str,
    original_date: &str,
    severity: &str,
    student_name: &str,
    timestamp: &str,
) -> (r: String)
    ensures
        r@ == alert_notification_spec(
            alert_id@,
            booking_id@,
            location@,
            message@,
            original_date@,
            severity@,
            student_name@,
            timestamp@,
        ),
{
    let mut out = String::from_str("{\"booking_id\":\"");
    append_json_escaped(&mut out, booking_id);
    out.append("\",\"id\":\"");
    append_json_escaped(&mut out, alert_id);
    out.append("\",\"location\":\"");
    append_json_escaped(&mut out, location);
    out.append("\",\"message\":\"");
    append_json_escaped(&mut out, message);
    out.append("\",\"original_date\":\"");
    append_json_escaped(&mut out, original_date);
    out.append("\",\"severity\":\"");
    append_json_escaped(&mut out, severity);
    out.append("\",\"student_name\":\"");
    append_json_escaped(&mut out, student_name);
    out.append("\",\"timestamp\":\"");
    append_json_escaped(&mut out, timestamp);
    out.append("\",\"type\":\"weather_alert\"}");
    out
}

/// The text message sent for a weather cancellation.
pub fn format_conflict_sms(student_name: &str, original_date: &str) -> (r: String)
    ensures
        r@ == "Hi "@ + student_name@ + ", your flight lesson on "@ + original_date@
            + " has been cancelled due to weather. Check your email for reschedule options. - Flight Schedule Pro"@,
        is_substring_of(student_name@, r@),
        is_substring_of(original_date@, r@),
{
    let mut m = String::from_str("Hi ");
    m.append(student_name);
    m.append(", your flight lesson on ");
    m.append(original_date);
    m.append(
        " has been cancelled due to weather. Check your email for reschedule options. - Flight Schedule Pro",
    );
    proof {
        crate::text::lemma_append_makes_substring("Hi "@, student_name@);
        crate::text::lemma_substring_extend(student_name@, "Hi "@ + student_name@,
            ", your flight lesson on "@);
        crate::text::lemma_append_makes_substring(
            "Hi "@ + student_name@ + ", your flight lesson on "@,
            original_date@,
        );
        crate::text::lemma_substring_extend(
            student_name@,
            "Hi "@ + student_name@ + ", your flight lesson on "@,
            original_date@,
        );
        crate::text::lemma_substring_extend(
            student_name@,
            "Hi "@ + student_name@ + ", your flight lesson on "@ + original_date@,
            " has been cancelled due to weather. Check your email for reschedule options. - Flight Schedule Pro"@,
        );
        crate::text::lemma_substring_extend(
            original_date@,
            "Hi "@ + student_name@ + ", your flight lesson on "@ + original_date@,
            " has been cancelled due to weather. Check your email for reschedule options. - Flight Schedule Pro"@,
        );
    }
    m
}

} // verus!
