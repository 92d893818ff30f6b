//! The snapshot as text: numbers in decimal notation, fractions as
//! percentages with two decimal places, the uptime in days, hours, minutes
//! and seconds, and the lines of the report.

use crate::error::{CollectorError, Failure};
use crate::ratio::hundredths_of_percent;
use crate::snapshot::{SnapshotModel, SystemSnapshot};
use vstd::prelude::*;
use vstd::string::*;

verus! {

/// The character of a decimal digit.
pub open spec fn digit(value: nat) -> char
    recommends
        value < 10,
{
    if value == 0 {
        '0'
    } else if value == 1 {
        '1'
    } else if value == 2 {
        '2'
    } else if value == 3 {
        '3'
    } else if value == 4 {
        '4'
    } else if value == 5 {
        '5'
    } else if value == 6 {
        '6'
    } else if value == 7 {
        '7'
    } else if value == 8 {
        '8'
    } else {
        '9'
    }
}

/// A number in decimal notation, without sign, separators or leading zeros.
pub open spec fn decimal(value: nat) -> Seq<char>
    decreases value,
{
    if value < 10 {
        seq![digit(value)]
    } else {
        decimal(value / 10).push(digit(value % 10))
    }
}

/// A number of hundredths as a decimal fraction with two decimal places:
/// 1250 hundredths read `12.50`.
pub open spec fn two_decimals(hundredths: nat) -> Seq<char> {
    decimal(hundredths / 100) + seq!['.', digit(hundredths % 100 / 10), digit(hundredths % 10)]
}

/// A number of hundredths of a percent as a percentage: 1250 reads `12.50%`.
pub open spec fn percentage(hundredths: nat) -> Seq<char> {
    two_decimals(hundredths).push('%')
}

/// A text with one more amount behind it, a blank between the two; an amount
/// of zero adds nothing.
pub open spec fn with_amount(text: Seq<char>, amount: nat, unit: Seq<char>) -> Seq<char> {
    if amount == 0 {
        text
    } else if text.len() == 0 {
        decimal(amount) + unit
    } else {
        text.push(' ') + decimal(amount) + unit
    }
}

/// A span of seconds in days, hours, minutes and seconds, largest unit
/// first, units that are zero left out: 3661 seconds read `1h 1m 1s`, and no
/// seconds at all read `0s`.
pub open spec fn duration(seconds: nat) -> Seq<char> {
    if seconds == 0 {
        "0s"@
    } else {
        with_amount(
            with_amount(
                with_amount(
                    with_amount(Seq::empty(), seconds / 86_400, "d"@),
                    seconds / 3_600 % 24,
                    "h"@,
                ),
                seconds / 60 % 60,
                "m"@,
            ),
            seconds % 60,
            "s"@,
        )
    }
}

/// The lines of the report on a snapshot, blank lines included.  The texts
/// for the two byte totals are taken as given.
pub open spec fn report(
    snapshot: SnapshotModel,
    total_memory: Seq<char>,
    total_disk_space: Seq<char>,
) -> Seq<Seq<char>> {
    seq![
        "Hostname: "@ + snapshot.hostname,
        "Uptime: "@ + duration(snapshot.uptime_seconds),
        Seq::empty(),
        "Current User: "@ + snapshot.current_user,
        "CPU Usage: "@ + percentage(snapshot.cpu_usage_hundredths),
        "Memory Usage: "@ + percentage(
            hundredths_of_percent(snapshot.used_memory_bytes, snapshot.total_memory_bytes),
        ),
        "Total Memory: "@ + total_memory,
        "Disk Usage: "@ + percentage(
            hundredths_of_percent(snapshot.used_disk_bytes, snapshot.total_disk_bytes),
        ),
        "Total Disk Space: "@ + total_disk_space,
        "Home Directory: "@ + snapshot.home_directory,
        "Operating System: "@ + snapshot.os_name,
        "Kernel: "@ + snapshot.kernel_version,
        "Architecture: "@ + snapshot.architecture_descriptor,
        "CPU Cores: "@ + decimal(snapshot.physical_core_count),
        "Processes: "@ + decimal(snapshot.process_count),
        Seq::empty(),
    ]
}

/// The line that reports a failed collection.
pub open spec fn diagnostic(failure: Failure) -> Seq<char> {
    "An error occurred: "@ + failure.message()
}

/// The texts of a list of lines.
pub open spec fn texts(lines: Seq<String>) -> Seq<Seq<char>> {
    Seq::new(lines.len(), |i: int| lines[i]@)
}

/// The digits of a number that stand before its last digit: none for a
/// number below ten.
spec fn leading_digits(value: nat) -> Seq<char> {
    if value < 10 {
        Seq::empty()
    } else {
        decimal(value / 10)
    }
}

/// Digits given from the last to the first, as text from the first to the
/// last.
spec fn reversed(digits: Seq<u8>) -> Seq<char> {
    Seq::new(digits.len(), |i: int| digit(digits[digits.len() - 1 - i] as nat))
}

proof fn lemma_decimal_splits(value: nat)
    ensures
        decimal(value) == leading_digits(value).push(digit(value % 10)),
{
    if value < 10 {
        assert(seq![digit(value)] =~= Seq::<char>::empty().push(digit(value)));
    }
}

fn digit_text(value: u8) -> (text: &'static str)
    requires
        value < 10,
    ensures
        text@ == seq![digit(value as nat)],
{
    proof {
        reveal_strlit("0");
        reveal_strlit("1");
        reveal_strlit("2");
        reveal_strlit("3");
        reveal_strlit("4");
        reveal_strlit("5");
        reveal_strlit("6");
        reveal_strlit("7");
        reveal_strlit("8");
        reveal_strlit("9");
    }
    match value {
        0 => "0",
        1 => "1",
        2 => "2",
        3 => "3",
        4 => "4",
        5 => "5",
        6 => "6",
        7 => "7",
        8 => "8",
        _ => "9",
    }
}

/// A number in decimal notation.
pub fn decimal_text(value: u128) -> (text: String)
    ensures
        text@ == decimal(value as nat),
{
    let mut digits: Vec<u8> = Vec::new();
    let mut rest: u128 = value;
    loop
        invariant_except_break
            forall|i: int| 0 <= i < digits.len() ==> digits[i] < 10,
            decimal(value as nat) == decimal(rest as nat) + reversed(digits@),
        ensures
            forall|i: int| 0 <= i < digits.len() ==> digits[i] < 10,
            decimal(value as nat) == reversed(digits@),
        decreases rest,
    {
        let last: u8 = (rest % 10) as u8;
        proof {
            lemma_decimal_splits(rest as nat);
            let longer = digits@.push(last);
            assert(reversed(longer) =~= seq![digit(last as nat)] + reversed(digits@));
            assert(decimal(rest as nat) + reversed(digits@) =~= leading_digits(rest as nat)
                + reversed(longer));
        }
        digits.push(last);
        if rest < 10 {
            break ;
        }
        rest = rest / 10;
    }
    let mut text = String::new();
    let mut left: usize = digits.len();
    while left > 0
        invariant
            left <= digits.len(),
            forall|i: int| 0 <= i < digits.len() ==> digits[i] < 10,
            text@ == reversed(digits@).take(digits.len() - left),
        decreases left,
    {
        left = left - 1;
        text.append(digit_text(digits[left]));
        proof {
            let whole = reversed(digits@);
            let before = digits.len() - left - 1;
            assert(whole.take(before + 1) =~= whole.take(before).push(whole[before]));
            assert(whole.take(before) + seq![whole[before]] =~= whole.take(before).push(
                whole[before],
            ));
        }
    }
    proof {
        assert(reversed(digits@).take(digits.len() as int) =~= reversed(digits@));
    }
    text
}

/// A number of hundredths as a decimal fraction with two decimal places.
pub fn two_decimals_text(hundredths: u128) -> (text: String)
    ensures
        text@ == two_decimals(hundredths as nat),
{
    proof {
        reveal_strlit(".");
    }
    let mut text = decimal_text(hundredths / 100);
    text.append(".");
    text.append(digit_text((hundredths % 100 / 10) as u8));
    text.append(digit_text((hundredths % 10) as u8));
    text
}

/// A number of hundredths of a percent as a percentage.
pub fn percentage_text(hundredths: u128) -> (text: String)
    ensures
        text@ == percentage(hundredths as nat),
{
    proof {
        reveal_strlit("%");
    }
    two_decimals_text(hundredths).concat("%")
}

fn with_amount_text(text: String, amount: u64, unit: &str) -> (longer: String)
    ensures
        longer@ == with_amount(text@, amount as nat, unit@),
{
    if amount == 0 {
        text
    } else if text.as_str().is_empty() {
        decimal_text(amount as u128).concat(unit)
    } else {
        proof {
            reveal_strlit(" ");
        }
        let number = decimal_text(amount as u128);
        text.concat(" ").concat(number.as_str()).concat(unit)
    }
}

/// A span of seconds in days, hours, minutes and seconds.
pub fn duration_text(seconds: u64) -> (text: String)
    ensures
        text@ == duration(seconds as nat),
{
    if seconds == 0 {
        String::from_str("0s")
    } else {
        let text = with_amount_text(String::new(), seconds / 86_400, "d");
        let text = with_amount_text(text, seconds / 3_600 % 24, "h");
        let text = with_amount_text(text, seconds / 60 % 60, "m");
        with_amount_text(text, seconds % 60, "s")
    }
}

/// The lines of the report on a snapshot, in the order in which they are
/// printed.  The two byte totals are rendered by the caller.
pub fn report_lines(
    snapshot: &SystemSnapshot,
    total_memory: &str,
    total_disk_space: &str,
) -> (lines: Vec<String>)
    ensures
        texts(lines@) == report(snapshot@, total_memory@, total_disk_space@),
{
    let cpu_usage = percentage_text(snapshot.cpu_usage_hundredths as u128);
    let memory_usage = percentage_text(snapshot.memory_usage_ratio.hundredths_of_percent());
    let disk_usage = percentage_text(snapshot.disk_usage_ratio.hundredths_of_percent());
    let uptime = duration_text(snapshot.uptime_seconds);
    let cores = decimal_text(snapshot.physical_core_count as u128);
    let processes = decimal_text(snapshot.process_count as u128);
    let mut lines: Vec<String> = Vec::new();
    lines.push(String::from_str("Hostname: ").concat(snapshot.hostname.as_str()));
    lines.push(String::from_str("Uptime: ").concat(uptime.as_str()));
    lines.push(String::new());
    lines.push(String::from_str("Current User: ").concat(snapshot.current_user.as_str()));
    lines.push(String::from_str("CPU Usage: ").concat(cpu_usage.as_str()));
    lines.push(String::from_str("Memory Usage: ").concat(memory_usage.as_str()));
    lines.push(String::from_str("Total Memory: ").concat(total_memory));
    lines.push(String::from_str("Disk Usage: ").concat(disk_usage.as_str()));
    lines.push(String::from_str("Total Disk Space: ").concat(total_disk_space));
    lines.push(String::from_str("Home Directory: ").concat(snapshot.home_directory.as_str()));
    lines.push(String::from_str("Operating System: ").concat(snapshot.os_name.as_str()));
    lines.push(String::from_str("Kernel: ").concat(snapshot.kernel_version.as_str()));
    lines.push(
        String::from_str("Architecture: ").concat(snapshot.architecture_descriptor.as_str()),
    );
    lines.push(String::from_str("CPU Cores: ").concat(cores.as_str()));
    lines.push(String::from_str("Processes: ").concat(processes.as_str()));
    lines.push(String::new());
    lines
}

/// The line that reports a failed collection.
pub fn diagnostic_line(error: &CollectorError) -> (line: String)
    ensures
        line@ == diagnostic(error@),
{
    let message = error.message();
    String::from_str("An error occurred: ").concat(message.as_str())
}

} // verus!
