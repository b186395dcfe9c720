//! Records as lines of comma-separated values.

use crate::model::{or_zero, Record, RecordView};
use crate::text::join_with;
use vstd::prelude::*;
use vstd::string::*;

verus! {

/// The character of a decimal digit.
pub open spec fn digit(d: nat) -> char
    recommends
        d < 10,
{
    if d == 0 {
        '0'
    } else if d == 1 {
        '1'
    } else if d == 2 {
        '2'
    } else if d == 3 {
        '3'
    } else if d == 4 {
        '4'
    } else if d == 5 {
        '5'
    } else if d == 6 {
        '6'
    } else if d == 7 {
        '7'
    } else if d == 8 {
        '8'
    } else {
        '9'
    }
}

/// A natural number in decimal, without leading zeros.
pub open spec fn decimal(n: nat) -> Seq<char>
    decreases n,
{
    if n < 10 {
        seq![digit(n)]
    } else {
        decimal(n / 10).push(digit(n % 10))
    }
}

/// An integer in decimal, with a minus sign where negative.
pub open spec fn signed_decimal(n: int) -> Seq<char> {
    if n < 0 {
        seq!['-'] + decimal((-n) as nat)
    } else {
        decimal(n as nat)
    }
}

/// The fields of the line of a record, in order. The two figures that are
/// evaluated in floating point come rendered: `cpu_percent` and
/// `cpu_energy`. A count that was not reported is written as zero.
pub open spec fn csv_fields(record: RecordView, cpu_percent: Seq<char>, cpu_energy: Seq<char>) -> Seq<
    Seq<char>,
> {
    seq![
        record.container_id,
        record.container_name,
        signed_decimal(record.ts as int),
        decimal(or_zero(record.pid_count) as nat),
        decimal(or_zero(record.pid_limit) as nat),
        decimal(or_zero(record.memory_usage) as nat),
        decimal(or_zero(record.memory_limit) as nat),
        cpu_percent,
        decimal(record.cpu_count as nat),
        cpu_energy,
    ]
}

fn digit_text(d: u64) -> (text: &'static str)
    requires
        d < 10,
    ensures
        text@ == seq![digit(d as nat)],
{
    proof {
        reveal_strlit("0");
        reveal_strlit("1");
        reveal_strlit("2");
        reveal_strlit("3");
        reveal_strlit("4");
        reveal_strlit("5");
        reveal_strlit("6");
        reveal_strlit("7");
        reveal_strlit("8");
        reveal_strlit("9");
    }
    let text = if d == 0 {
        "0"
    } else if d == 1 {
        "1"
    } else if d == 2 {
        "2"
    } else if d == 3 {
        "3"
    } else if d == 4 {
        "4"
    } else if d == 5 {
        "5"
    } else if d == 6 {
        "6"
    } else if d == 7 {
        "7"
    } else if d == 8 {
        "8"
    } else {
        "9"
    };
    proof {
        assert(text@ =~= seq![digit(d as nat)]);
    }
    text
}

/// Appends `n` in decimal to `out`.
pub fn push_decimal(out: &mut String, n: u64)
    ensures
        final(out)@ == old(out)@ + decimal(n as nat),
    decreases n,
{
    if n >= 10 {
        push_decimal(out, n / 10);
    }
    let ghost before = out@;
    out.append(digit_text(n % 10));
    proof {
        if n >= 10 {
            assert(out@ =~= old(out)@ + decimal((n / 10) as nat).push(digit((n % 10) as nat)));
        } else {
            assert(out@ =~= old(out)@ + seq![digit(n as nat)]);
        }
    }
}

/// Appends `n` in decimal to `out`, with a minus sign where negative.
pub fn push_signed_decimal(out: &mut String, n: i64)
    ensures
        final(out)@ == old(out)@ + signed_decimal(n as int),
{
    if n < 0 {
        proof {
            reveal_strlit("-");
            assert("-"@ =~= seq!['-']);
        }
        out.append("-");
        let magnitude: u64 = if n == i64::MIN {
            9223372036854775808u64
        } else {
            (-n) as u64
        };
        push_decimal(out, magnitude);
        proof {
            assert(out@ =~= old(out)@ + (seq!['-'] + decimal((-n) as nat)));
        }
    } else {
        push_decimal(out, n as u64);
    }
}

fn push_count(out: &mut String, count: Option<u64>)
    ensures
        final(out)@ == old(out)@ + seq![','] + decimal(or_zero(count) as nat),
{
    proof {
        reveal_strlit(",");
        assert(","@ =~= seq![',']);
    }
    out.append(",");
    match count {
        Some(value) => push_decimal(out, value),
        None => push_decimal(out, 0),
    }
}

fn push_instant(out: &mut String, instant: i64)
    ensures
        final(out)@ == old(out)@ + seq![','] + signed_decimal(instant as int),
{
    proof {
        reveal_strlit(",");
        assert(","@ =~= seq![',']);
    }
    out.append(",");
    push_signed_decimal(out, instant);
}

fn push_text(out: &mut String, text: &str)
    ensures
        final(out)@ == old(out)@ + seq![','] + text@,
{
    proof {
        reveal_strlit(",");
        assert(","@ =~= seq![',']);
    }
    out.append(",");
    out.append(text);
}

/// Writes records as comma-separated values.
#[derive(Debug, Clone, Copy)]
pub struct CsvFormatter;

impl CsvFormatter {
    /// The line of a record, without a line ending: its fields, joined by
    /// commas. Nothing is quoted or escaped. Always succeeds.
    pub fn format(&self, event: &Record, cpu_percent: &str, cpu_energy: &str) -> (line: Result<
        String,
        String,
    >)
        ensures
            line is Ok,
            line->Ok_0@ == join_with(csv_fields(event@, cpu_percent@, cpu_energy@), ','),
    {
        let ghost fields = csv_fields(event@, cpu_percent@, cpu_energy@);
        let mut out = String::new();
        out.append(event.container_id.as_str());
        proof {
            assert(out@ =~= join_with(fields.take(1), ',')) by {
                assert(fields.take(1)[0] == fields[0]);
            }
        }
        push_text(&mut out, event.container_name.as_str());
        proof {
            lemma_join_next(fields, 1);
        }
        push_instant(&mut out, event.ts);
        proof {
            lemma_join_next(fields, 2);
        }
        push_count(&mut out, event.pid_count);
        proof {
            lemma_join_next(fields, 3);
        }
        push_count(&mut out, event.pid_limit);
        proof {
            lemma_join_next(fields, 4);
        }
        push_count(&mut out, event.memory_usage);
        proof {
            lemma_join_next(fields, 5);
        }
        push_count(&mut out, event.memory_limit);
        proof {
            lemma_join_next(fields, 6);
        }
        push_text(&mut out, cpu_percent);
        proof {
            lemma_join_next(fields, 7);
        }
        push_count(&mut out, Some(event.cpu_count));
        proof {
            lemma_join_next(fields, 8);
        }
        push_text(&mut out, cpu_energy);
        proof {
            lemma_join_next(fields, 9);
            assert(fields.take(10) =~= fields);
        }
        Ok(out)
    }
}

/// Joining one more field appends a comma and the field.
pub proof fn lemma_join_next(fields: Seq<Seq<char>>, done: int)
    requires
        1 <= done < fields.len(),
    ensures
        join_with(fields.take(done + 1), ',') == join_with(fields.take(done), ',') + seq![',']
            + fields[done],
{
    assert(fields.take(done + 1).drop_last() =~= fields.take(done));
    assert(fields.take(done + 1).last() == fields[done]);
}

} // verus!
