//! What the device's reports mean, put together from parts, and what its commands say.
use vstd::prelude::*;

use super::battery::battery_level;
use super::display::{eips, Cadence, RefreshKind, STATIC_SETTLE_SECS};
use super::power::{
    cpu_columns, governor_write, home_command, irq_count, labelled_line, leading_sum,
    screensaver_command, set_property, COUNT_MODULUS,
};
use super::sys::{Command, CommandView, FileWrite, FileWriteView};
use super::{
    cleaned, cpuinfo_serial, has_voyage_code, serial_field, supported, usid_query, voyage_codes,
    DetectError, Device,
};
use crate::text::{
    contains, decimal, ends_with, is_whitespace, lines, split_once, texts, trim, trim_end, uppercase, words,
    CharClass,
};
use crate::text_laws::{
    all_in, law_search, law_split_at_the_first_separator, law_trim_end_removes_the_trailing_run,
    law_trim_removes_both_runs,
};

verus! {

/// A serial number with one of the ten codes anywhere in it is a Voyage's.
pub proof fn law_code_anywhere_is_recognised(a: Seq<char>, b: Seq<char>)
    ensures
        has_voyage_code(a + "B013"@ + b),
        has_voyage_code(a + "9013"@ + b),
        has_voyage_code(a + "B054"@ + b),
        has_voyage_code(a + "9054"@ + b),
        has_voyage_code(a + "B053"@ + b),
        has_voyage_code(a + "9053"@ + b),
        has_voyage_code(a + "B02A"@ + b),
        has_voyage_code(a + "B052"@ + b),
        has_voyage_code(a + "9052"@ + b),
        has_voyage_code(a + "B04F"@ + b),
{
    law_search(a, "B013"@, b, Seq::empty());
    assert(voyage_codes()[0] == "B013"@);
    assert(contains(a + "B013"@ + b, voyage_codes()[0]));
    law_search(a, "9013"@, b, Seq::empty());
    assert(voyage_codes()[1] == "9013"@);
    assert(contains(a + "9013"@ + b, voyage_codes()[1]));
    law_search(a, "B054"@, b, Seq::empty());
    assert(voyage_codes()[2] == "B054"@);
    assert(contains(a + "B054"@ + b, voyage_codes()[2]));
    law_search(a, "9054"@, b, Seq::empty());
    assert(voyage_codes()[3] == "9054"@);
    assert(contains(a + "9054"@ + b, voyage_codes()[3]));
    law_search(a, "B053"@, b, Seq::empty());
    assert(voyage_codes()[4] == "B053"@);
    assert(contains(a + "B053"@ + b, voyage_codes()[4]));
    law_search(a, "9053"@, b, Seq::empty());
    assert(voyage_codes()[5] == "9053"@);
    assert(contains(a + "9053"@ + b, voyage_codes()[5]));
    law_search(a, "B02A"@, b, Seq::empty());
    assert(voyage_codes()[6] == "B02A"@);
    assert(contains(a + "B02A"@ + b, voyage_codes()[6]));
    law_search(a, "B052"@, b, Seq::empty());
    assert(voyage_codes()[7] == "B052"@);
    assert(contains(a + "B052"@ + b, voyage_codes()[7]));
    law_search(a, "9052"@, b, Seq::empty());
    assert(voyage_codes()[8] == "9052"@);
    assert(contains(a + "9052"@ + b, voyage_codes()[8]));
    law_search(a, "B04F"@, b, Seq::empty());
    assert(voyage_codes()[9] == "B04F"@);
    assert(contains(a + "B04F"@ + b, voyage_codes()[9]));
}

/// A serial number without any of the ten codes is not.
pub proof fn law_no_code_is_refused(upper: Seq<char>)
    requires
        !contains(upper, "B013"@),
        !contains(upper, "9013"@),
        !contains(upper, "B054"@),
        !contains(upper, "9054"@),
        !contains(upper, "B053"@),
        !contains(upper, "9053"@),
        !contains(upper, "B02A"@),
        !contains(upper, "B052"@),
        !contains(upper, "9052"@),
        !contains(upper, "B04F"@),
    ensures
        !has_voyage_code(upper),
{
    if has_voyage_code(upper) {
        let i = choose|i: int|
            0 <= i < voyage_codes().len() && contains(upper, #[trigger] voyage_codes()[i]);
        assert(0 <= i < 10);
    }
}

/// The verdict on a serial number goes by its upper-case form, and a refusal names it.
pub proof fn law_verdict_goes_by_the_code(serial: Seq<char>, name: String, device: Device)
    ensures
        supported(serial, Ok(device)) <==> has_voyage_code(uppercase(serial)),
        supported(serial, Err(DetectError::UnsupportedDevice(name))) <==> !has_voyage_code(
            uppercase(serial),
        ) && name@ == serial,
        !supported(serial, Err(DetectError::NoSerialLine)),
        !supported(serial, Err(DetectError::CpuinfoUnreadable)),
        !supported(serial, Err(DetectError::UnsupportedOverride(name))),
{
}

/// Cleaning takes white space off both ends, then quotes, then white space again, and leaves what
/// stands between them as it is, whether it was quoted on both sides, on one, or not at all.
pub proof fn law_cleaning_keeps_the_serial_number(
    a: Seq<char>,
    open: Seq<char>,
    b: Seq<char>,
    serial: Seq<char>,
    c: Seq<char>,
    close: Seq<char>,
    d: Seq<char>,
)
    requires
        all_in(a, CharClass::Whitespace),
        all_in(open, CharClass::Exactly('"')),
        all_in(b, CharClass::Whitespace),
        all_in(c, CharClass::Whitespace),
        all_in(close, CharClass::Exactly('"')),
        all_in(d, CharClass::Whitespace),
        open.len() == 0 ==> b.len() == 0,
        close.len() == 0 ==> c.len() == 0,
        serial.len() > 0,
        !is_whitespace(serial[0]),
        !is_whitespace(serial.last()),
        b.len() == 0 ==> serial[0] != '"',
        c.len() == 0 ==> serial.last() != '"',
    ensures
        cleaned(a + (open + (b + serial + c) + close) + d) == serial,
{
    let inner = b + serial + c;
    let quoted = open + inner + close;
    lemma_ends(b, serial, c);
    lemma_ends(open, inner, close);
    law_trim_removes_both_runs(a, quoted, d, CharClass::Whitespace);
    law_trim_removes_both_runs(open, inner, close, CharClass::Exactly('"'));
    law_trim_removes_both_runs(b, serial, c, CharClass::Whitespace);
}

proof fn lemma_ends(a: Seq<char>, s: Seq<char>, b: Seq<char>)
    requires
        s.len() > 0,
    ensures
        (a + s + b)[0] == if a.len() > 0 {
            a[0]
        } else {
            s[0]
        },
        (a + s + b).last() == if b.len() > 0 {
            b[b.len() - 1]
        } else {
            s.last()
        },
{
}

/// Nothing is left of quotes between white space.
pub proof fn law_cleaning_leaves_nothing_of_quotes(a: Seq<char>, quotes: Seq<char>, d: Seq<char>)
    requires
        all_in(a, CharClass::Whitespace),
        all_in(quotes, CharClass::Exactly('"')),
        all_in(d, CharClass::Whitespace),
    ensures
        cleaned(a + quotes + d) == Seq::<char>::empty(),
{
    let none = Seq::<char>::empty();
    if quotes.len() > 0 {
        assert(quotes[0] == '"' && quotes[quotes.len() - 1] == '"');
    }
    law_trim_removes_both_runs(a, quotes, d, CharClass::Whitespace);
    assert(quotes + none + none =~= quotes);
    law_trim_removes_both_runs(quotes, none, none, CharClass::Exactly('"'));
    assert(none + none + none =~= none);
    law_trim_removes_both_runs(none, none, none, CharClass::Whitespace);
}

/// A `Serial` line gives its value, cleaned; lines before it that are none do not matter, nor
/// does anything after it.
pub proof fn law_first_serial_line_counts(
    before: Seq<Seq<char>>,
    key: Seq<char>,
    value: Seq<char>,
    after: Seq<Seq<char>>,
)
    requires
        forall|i: int|
            0 <= i < before.len() ==> (split_once(#[trigger] before[i], ':') matches Some((k, _))
                ==> trim(k, CharClass::Whitespace) != "Serial"@),
        !key.contains(':'),
        trim(key, CharClass::Whitespace) == "Serial"@,
    ensures
        serial_field(before) is None,
        serial_field(before.push(key.push(':') + value) + after) == Some(cleaned(value)),
    decreases before.len(),
{
    let all = before.push(key.push(':') + value) + after;
    if before.len() > 0 {
        assert(all[0] == before[0]);
        assert(all.skip(1) =~= before.skip(1).push(key.push(':') + value) + after);
        assert forall|i: int| 0 <= i < before.skip(1).len() implies (split_once(
            #[trigger] before.skip(1)[i],
            ':',
        ) matches Some((k, _)) ==> trim(k, CharClass::Whitespace) != "Serial"@) by {
            assert(before.skip(1)[i] == before[i + 1]);
        }
        law_first_serial_line_counts(before.skip(1), key, value, after);
    } else {
        assert(all[0] == key.push(':') + value);
        law_split_at_the_first_separator(key, ':', value);
    }
}

/// The serial number of `/proc/cpuinfo` is that of its lines, where it is not empty.
pub proof fn law_cpuinfo_serial_is_that_of_its_lines(cpuinfo: Seq<char>, serial: Seq<char>)
    ensures
        serial_field(lines(cpuinfo)) is None ==> cpuinfo_serial(cpuinfo) is None,
        serial_field(lines(cpuinfo)) == Some(serial) ==> cpuinfo_serial(cpuinfo) == (
        if serial.len() == 0 {
            None
        } else {
            Some(serial)
        }),
{
}

/// A battery report is a number up to 100, with white space around it, and with any number of
/// percent signs after it.
pub proof fn law_battery_report(
    a: Seq<char>,
    number: Seq<char>,
    b: Seq<char>,
    percents: Seq<char>,
    c: Seq<char>,
)
    requires
        all_in(a, CharClass::Whitespace),
        all_in(b, CharClass::Whitespace),
        all_in(percents, CharClass::Exactly('%')),
        all_in(c, CharClass::Whitespace),
        number.len() > 0,
        !is_whitespace(number[0]),
        !is_whitespace(number.last()),
        number.last() != '%',
        percents.len() == 0 ==> b.len() == 0,
    ensures
        battery_level(a + (number + b + percents) + c) == decimal(number, 100),
{
    let none = Seq::<char>::empty();
    let inner = number + b + percents;
    assert(inner[0] == number[0]);
    if percents.len() > 0 {
        assert(inner.last() == percents.last());
        assert(percents.last() == percents[percents.len() - 1]);
    } else {
        assert(inner =~= number);
    }
    law_trim_removes_both_runs(a, inner, c, CharClass::Whitespace);
    let bare = number + b;
    assert(inner =~= bare + percents);
    if b.len() > 0 {
        assert(bare.last() == b.last());
        assert(b.last() == b[b.len() - 1]);
    } else {
        assert(bare =~= number);
    }
    law_trim_end_removes_the_trailing_run(bare, percents, CharClass::Exactly('%'));
    assert(bare =~= none + number + b);
    law_trim_removes_both_runs(none, number, b, CharClass::Whitespace);
}

/// Percent signs between white space are no battery report.
pub proof fn law_battery_report_needs_a_number(a: Seq<char>, percents: Seq<char>, c: Seq<char>)
    requires
        all_in(a, CharClass::Whitespace),
        all_in(percents, CharClass::Exactly('%')),
        all_in(c, CharClass::Whitespace),
    ensures
        battery_level(a + percents + c) is None,
{
    let none = Seq::<char>::empty();
    if percents.len() > 0 {
        assert(percents[0] == '%' && percents[percents.len() - 1] == '%');
    }
    law_trim_removes_both_runs(a, percents, c, CharClass::Whitespace);
    assert(none + percents =~= percents);
    law_trim_end_removes_the_trailing_run(none, percents, CharClass::Exactly('%'));
    assert(none + none + none =~= none);
    law_trim_removes_both_runs(none, none, none, CharClass::Whitespace);
}

/// The first line that ends in the label is the one that counts; lines before it that do not, and
/// all lines after it, do not matter.
pub proof fn law_first_labelled_line_counts(
    before: Seq<Seq<char>>,
    head: Seq<char>,
    label: Seq<char>,
    tail: Seq<char>,
    after: Seq<Seq<char>>,
)
    requires
        forall|i: int|
            0 <= i < before.len() ==> !ends_with(
                trim_end(#[trigger] before[i], CharClass::Whitespace),
                label,
            ),
        all_in(tail, CharClass::Whitespace),
        label.len() > 0,
        !is_whitespace(label.last()),
    ensures
        labelled_line(before, label) is None,
        labelled_line(before.push(head + label + tail) + after, label) == Some(
            head + label + tail,
        ),
    decreases before.len(),
{
    let line = head + label + tail;
    let all = before.push(line) + after;
    if before.len() > 0 {
        assert(all[0] == before[0]);
        assert(all.skip(1) =~= before.skip(1).push(line) + after);
        assert forall|i: int| 0 <= i < before.skip(1).len() implies !ends_with(
            trim_end(#[trigger] before.skip(1)[i], CharClass::Whitespace),
            label,
        ) by {
            assert(before.skip(1)[i] == before[i + 1]);
        }
        law_first_labelled_line_counts(before.skip(1), head, label, tail, after);
    } else {
        assert(all[0] == line);
        assert((head + label).last() == label.last());
        law_trim_end_removes_the_trailing_run(head + label, tail, CharClass::Whitespace);
        law_search(head, label, Seq::empty(), Seq::empty());
    }
}

/// The count of an interrupt is the sum of the numbers after the first word of its line, up to
/// the first word that is no number.
pub proof fn law_irq_count_is_the_sum_of_its_columns(
    interrupts: Seq<char>,
    label: Seq<char>,
    line: Seq<char>,
    columns: Seq<Seq<char>>,
    word: Seq<char>,
    n: nat,
)
    ensures
        labelled_line(lines(interrupts), label) is None ==> irq_count(interrupts, label) is None,
        labelled_line(lines(interrupts), label) == Some(line) ==> irq_count(interrupts, label)
            == Some(leading_sum(cpu_columns(line)) % 0x1_0000_0000_0000_0000),
        words(line) == seq![word] + columns ==> cpu_columns(line) == columns,
        words(line).len() == 0 ==> leading_sum(cpu_columns(line)) == 0,
        leading_sum(Seq::empty()) == 0,
        decimal(word, 0xffff_ffff_ffff_ffff) == Some(n) ==> leading_sum(seq![word] + columns) == n
            + leading_sum(columns),
        decimal(word, 0xffff_ffff_ffff_ffff) is None ==> leading_sum(seq![word] + columns) == 0,
        COUNT_MODULUS == 0x1_0000_0000_0000_0000,
{
    assert((seq![word] + columns).skip(1) =~= columns);
    assert((seq![word] + columns)[0] == word);
}

/// The commands of the device, with whatever they are given.
pub proof fn law_commands(path: Seq<char>, governor: Seq<char>, value: Seq<char>, d: Device)
    ensures
        eips(true, path) == (CommandView {
            program: "/usr/sbin/eips"@,
            args: seq!["-f"@, "-g"@, path],
        }),
        eips(false, path) == (CommandView {
            program: "/usr/sbin/eips"@,
            args: seq!["-g"@, path],
        }),
        governor_write(governor) == (FileWriteView {
            path: "/sys/devices/system/cpu/cpu0/cpufreq/scaling_governor"@,
            text: governor,
        }),
        set_property(path, governor, value) == (CommandView {
            program: "lipc-set-prop"@,
            args: seq![path, governor, value],
        }),
        screensaver_command(true) == (CommandView {
            program: "lipc-set-prop"@,
            args: seq!["com.lab126.powerd"@, "preventScreenSaver"@, "1"@],
        }),
        screensaver_command(false) == (CommandView {
            program: "lipc-set-prop"@,
            args: seq!["com.lab126.powerd"@, "preventScreenSaver"@, "0"@],
        }),
        home_command() == (CommandView {
            program: "lipc-set-prop"@,
            args: seq![
                "com.lab126.appmgrd"@,
                "start"@,
                "app://com.lab126.booklet.home"@,
            ],
        }),
        d.stop_command() == (CommandView { program: "/sbin/stop"@, args: seq!["framework"@] }),
        d.start_command() == (CommandView { program: "/sbin/start"@, args: seq!["framework"@] }),
        d.battery_command() == (CommandView {
            program: "lipc-get-prop"@,
            args: seq!["com.lab126.powerd"@, "battLevel"@],
        }),
        usid_query() == (CommandView {
            program: "lipc-get-prop"@,
            args: seq!["com.lab126.system"@, "usid"@],
        }),
        d.resolution_text() == "1448x1072"@,
        d.rtc_nodes() == seq![
            "/sys/class/rtc/rtc0/wakealarm"@,
            "/sys/class/rtc/rtc1/wakealarm"@,
        ],
        STATIC_SETTLE_SECS == 2,
{
}

/// A command or a write stands for its own program, arguments, path and text.
pub proof fn law_commands_stand_for_themselves(c: Command, f: FileWrite)
    ensures
        c@.program == c.program@,
        c@.args == texts(c.args@),
        f@.path == f.path@,
        f@.text == f.text@,
{
}

/// The kind of a refresh goes by the number of partial ones since the last full one.
pub proof fn law_cadence(full_every: nat, count: nat)
    ensures
        ({
            let c = Cadence { full_every, count };
            &&& count >= full_every ==> c.due() == RefreshKind::Full && c.advanced() == (Cadence {
                full_every,
                count: 0,
            })
            &&& count < full_every ==> c.due() == RefreshKind::Partial && c.advanced() == (
            Cadence { full_every, count: count + 1 })
            &&& c.forced() == (Cadence { full_every, count: full_every })
            &&& Cadence::fresh(full_every) == (Cadence { full_every, count: 0 })
        }),
{
}

} // verus!
