use vstd::prelude::*;
use vstd::string::StringExecFns;

verus! {

/// The stages a send goes through, each with the line shown for it.
#[derive(PartialEq, Eq, Structural, Clone, Copy, Debug)]
pub enum Progress {
    /// Nothing sent yet.
    Idle,
    /// The request has been handed over.
    Sending,
    /// Still waiting for the answer after this many whole seconds.
    Elapsed(u64),
    /// The answer has come and is being laid out.
    Formatting,
}

/// The character of a decimal digit.
pub open spec fn digit_char(d: nat) -> char {
    ((d + 48) as u32) as char
}

/// The decimal writing of a number, without leading zeros.
pub open spec fn decimal(n: nat) -> Seq<char>
    decreases n,
{
    if n < 10 {
        seq![digit_char(n)]
    } else {
        decimal(n / 10).push(digit_char(n % 10))
    }
}

/// The line shown for each stage.
pub open spec fn progress_line(p: Progress) -> Seq<char> {
    match p {
        Progress::Idle => " . . . "@,
        Progress::Sending => "sending request ... "@,
        Progress::Elapsed(s) => "sending request... Elapsed time: "@ + decimal(s as nat) + "s"@,
        Progress::Formatting => "formatting response... "@,
    }
}

/// Calls `ToString::to_string` on a `u64`, which writes it in decimal.
#[verifier::external_body]
fn u64_to_decimal(n: u64) -> (s: String)
    ensures
        s@ == decimal(n as nat),
{
    n.to_string()
}

/// The text `jsonformat::format` gives for a text with four-space
/// indentation.
pub uninterp spec fn json_four_space(text: Seq<char>) -> Seq<char>;

/// Calls `jsonformat::format` with `Indentation::FourSpace`. What the text
/// becomes is left to the name `json_four_space`: the function of the text
/// alone, as the crate's source shows it, that lays out JSON with a line
/// for each value and four spaces for each level.
#[verifier::external_body]
fn jsonformat_four_space(text: &str) -> (s: String)
    ensures
        s@ == json_four_space(text@),
{
    jsonformat::format(text, jsonformat::Indentation::FourSpace)
}

impl Progress {
    /// The line shown for this stage.
    pub fn message(&self) -> (s: String)
        ensures
            s@ == progress_line(*self),
    {
        match self {
            Progress::Idle => " . . . ".to_string(),
            Progress::Sending => "sending request ... ".to_string(),
            Progress::Elapsed(secs) => {
                let mut s = "sending request... Elapsed time: ".to_string();
                let digits = u64_to_decimal(*secs);
                s.append(digits.as_str());
                s.append("s");
                s
            },
            Progress::Formatting => "formatting response... ".to_string(),
        }
    }
}

/// The answer text laid out as JSON with four-space indentation.
pub fn format_response(response: &str) -> (s: String)
    ensures
        s@ == json_four_space(response@),
{
    jsonformat_four_space(response)
}

/// The number a string of decimal digits stands for.
pub open spec fn digits_value(s: Seq<char>) -> int
    decreases s.len(),
{
    if s.len() == 0 {
        0
    } else {
        digits_value(s.drop_last()) * 10 + (s.last() as int - '0' as int)
    }
}

/// Whether every character is a decimal digit.
pub open spec fn all_digits(s: Seq<char>) -> bool {
    forall|i: int| 0 <= i < s.len() ==> '0' <= #[trigger] s[i] <= '9'
}

/// The decimal writing of a number is a non-empty string of digits that
/// stands for that number and has no leading zero.
pub proof fn lemma_decimal_reads_back(n: nat)
    ensures
        decimal(n).len() >= 1,
        all_digits(decimal(n)),
        digits_value(decimal(n)) == n,
        decimal(n)[0] == '0' ==> n == 0,
    decreases n,
{
    if n < 10 {
        let c = digit_char(n);
        assert(c as int == n + 48);
        assert(decimal(n).drop_last() =~= Seq::<char>::empty());
        assert(digits_value(Seq::<char>::empty()) == 0);
        assert(decimal(n).last() == c);
        assert(digits_value(decimal(n)) == digits_value(decimal(n).drop_last()) * 10 + (c as int - '0' as int));
    } else {
        lemma_decimal_reads_back(n / 10);
        let d = decimal(n / 10);
        let c = digit_char(n % 10);
        assert(c as int == n % 10 + 48);
        assert(decimal(n) == d.push(c));
        assert(d.push(c).drop_last() =~= d);
        assert(d.push(c)[0] == d[0]);
        assert forall|i: int| 0 <= i < d.push(c).len() implies '0' <= #[trigger] d.push(c)[i] <= '9' by {
            if i < d.len() {
                assert(d.push(c)[i] == d[i]);
            }
        }
        assert(d.push(c).last() == c);
        assert(digits_value(d.push(c)) == digits_value(d) * 10 + (c as int - '0' as int));
        assert(n == (n / 10) * 10 + n % 10);
    }
}

/// A wait of `secs` seconds is shown as "sending request... Elapsed time: ",
/// then digits that read back as `secs` with no leading zero, then "s".
/// So two different waits are never shown alike, and no wait is shown as
/// any other line.
pub proof fn lemma_elapsed_line(secs: u64)
    ensures
        progress_line(Progress::Elapsed(secs)).len() >= 35,
        progress_line(Progress::Elapsed(secs)).subrange(0, 33) == "sending request... Elapsed time: "@,
        progress_line(Progress::Elapsed(secs)).last() == 's',
        all_digits(progress_line(Progress::Elapsed(secs)).subrange(33, progress_line(Progress::Elapsed(secs)).len() - 1)),
        digits_value(progress_line(Progress::Elapsed(secs)).subrange(33, progress_line(Progress::Elapsed(secs)).len() - 1)) == secs,
        progress_line(Progress::Elapsed(secs))[33] == '0' ==> secs == 0,
        progress_line(Progress::Elapsed(secs)) != progress_line(Progress::Sending),
        progress_line(Progress::Elapsed(secs)) != progress_line(Progress::Idle),
        progress_line(Progress::Elapsed(secs)) != progress_line(Progress::Formatting),
{
    reveal_strlit("sending request... Elapsed time: ");
    reveal_strlit("s");
    reveal_strlit("sending request ... ");
    reveal_strlit(" . . . ");
    reveal_strlit("formatting response... ");
    lemma_decimal_reads_back(secs as nat);
    let p = "sending request... Elapsed time: "@;
    let d = decimal(secs as nat);
    let line = p + d + "s"@;
    assert(p.len() == 33);
    assert(line.subrange(0, 33) =~= p);
    assert(line.subrange(33, line.len() - 1) =~= d);
    assert(line[33] == d[0]);
    assert(line[15] == '.');
    assert("sending request ... "@[15] == ' ');
    assert(line[0] != " . . . "@[0]);
    assert(line[0] != "formatting response... "@[0]);
}

/// The other lines: " . . . " before anything is sent, "sending request ... "
/// once it is handed over, "formatting response... " once the answer came.
pub proof fn lemma_fixed_lines()
    ensures
        progress_line(Progress::Idle) == " . . . "@,
        progress_line(Progress::Sending) == "sending request ... "@,
        progress_line(Progress::Formatting) == "formatting response... "@,
        progress_line(Progress::Idle) != progress_line(Progress::Sending),
        progress_line(Progress::Sending) != progress_line(Progress::Formatting),
        progress_line(Progress::Idle) != progress_line(Progress::Formatting),
{
    reveal_strlit("sending request ... ");
    reveal_strlit(" . . . ");
    reveal_strlit("formatting response... ");
    assert(" . . . "@[0] != "sending request ... "@[0]);
    assert("sending request ... "@[0] != "formatting response... "@[0]);
    assert(" . . . "@[0] != "formatting response... "@[0]);
}

} // verus!
