//! Startup command line: an optional `--port <u16>` overriding the default
//! service port, `--testing` forcing the isolated test port, and `--help`.
//! The first recognized flag decides; a missing or invalid port value is a
//! fatal parse error.

use vstd::prelude::*;
use vstd::string::StringExecFns;

verus! {

/// The service port used when no flag overrides it.
pub const DEFAULT_PORT: u16 = 5600;

/// The service port forced by `--testing`, for isolated test instances.
pub const TESTING_PORT: u16 = 5699;

/// Whether a character is a decimal digit.
pub open spec fn is_digit(c: char) -> bool {
    48 <= c as int && c as int <= 57
}

/// The value of a decimal digit.
pub open spec fn digit_val(c: char) -> int {
    c as int - 48
}

/// Whether every character of the sequence is a decimal digit.
pub open spec fn all_digits(s: Seq<char>) -> bool {
    forall|i: int| 0 <= i < s.len() ==> is_digit(#[trigger] s[i])
}

/// The number denoted by a sequence of decimal digits, most significant
/// first.
pub open spec fn digits_val(s: Seq<char>) -> int
    decreases s.len(),
{
    if s.len() == 0 {
        0
    } else {
        digits_val(s.drop_last()) * 10 + digit_val(s.last())
    }
}

/// The digits of a decimal numeral: everything after an optional leading
/// plus sign.
pub open spec fn numeral_digits(s: Seq<char>) -> Seq<char> {
    if s.len() > 0 && s[0] == '+' {
        s.subrange(1, s.len() as int)
    } else {
        s
    }
}

/// Whether the text denotes a 16-bit port number: an optional plus sign,
/// then at least one digit, with a value that fits.
pub open spec fn parses_as_u16(s: Seq<char>) -> bool {
    let d = numeral_digits(s);
    d.len() > 0 && all_digits(d) && digits_val(d) <= u16::MAX
}

/// The port number the text denotes.
pub open spec fn parsed_u16(s: Seq<char>) -> int {
    digits_val(numeral_digits(s))
}

/// A numeral of digits is never negative.
proof fn lemma_digits_val_nonneg(s: Seq<char>)
    requires
        all_digits(s),
    ensures
        digits_val(s) >= 0,
    decreases s.len(),
{
    if s.len() > 0 {
        assert(all_digits(s.drop_last())) by {
            assert(forall|i: int|
                0 <= i < s.len() - 1 ==> is_digit(#[trigger] s.drop_last()[i]) && s.drop_last()[i]
                    == s[i]);
        }
        lemma_digits_val_nonneg(s.drop_last());
    }
}

/// Extending a numeral by further digits never shrinks its value.
proof fn lemma_digits_val_prefix(s: Seq<char>, k: int)
    requires
        all_digits(s),
        0 <= k <= s.len(),
    ensures
        digits_val(s.subrange(0, k)) <= digits_val(s),
    decreases s.len() - k,
{
    if k < s.len() {
        lemma_digits_val_prefix(s, k + 1);
        let p = s.subrange(0, k + 1);
        assert(p.drop_last() =~= s.subrange(0, k));
        assert(all_digits(s.subrange(0, k))) by {
            assert(forall|i: int|
                0 <= i < k ==> is_digit(#[trigger] s.subrange(0, k)[i]) && s.subrange(0, k)[i]
                    == s[i]);
        }
        lemma_digits_val_nonneg(s.subrange(0, k));
        assert(digits_val(p) == digits_val(s.subrange(0, k)) * 10 + digit_val(s[k]));
        assert(digit_val(s[k]) >= 0);
        assert(digits_val(s.subrange(0, k)) * 10 >= digits_val(s.subrange(0, k))) by (nonlinear_arith)
            requires
                digits_val(s.subrange(0, k)) >= 0,
        ;
    } else {
        assert(s.subrange(0, k) =~= s);
    }
}

/// Parse a port number exactly as the startup code always has: an optional
/// leading plus sign, then decimal digits; anything else, or a value that
/// does not fit in 16 bits, is rejected.
pub fn parse_u16(s: &str) -> (r: Option<u16>)
    ensures
        parses_as_u16(s@) ==> 0 <= parsed_u16(s@) <= u16::MAX,
        parses_as_u16(s@) ==> r == Some((parsed_u16(s@) as u16)),
        !parses_as_u16(s@) ==> r is None,
{
    let len = s.unicode_len();
    let mut start: usize = 0;
    if len > 0 && s.get_char(0) == '+' {
        start = 1;
    }
    let ghost digits = numeral_digits(s@);
    proof {
        assert(digits =~= s@.subrange(start as int, len as int));
    }
    if start >= len {
        return None;
    }
    let mut i: usize = start;
    let mut val: u32 = 0;
    while i < len
        invariant
            start <= i <= len,
            len == s@.len(),
            digits == numeral_digits(s@),
            digits =~= s@.subrange(start as int, len as int),
            all_digits(s@.subrange(start as int, i as int)),
            val == digits_val(s@.subrange(start as int, i as int)),
            val <= u16::MAX,
        decreases len - i,
    {
        let c = s.get_char(i);
        let code = c as u32;
        if code < 48 || code > 57 {
            proof {
                assert(digits[i - start] == s@[i as int]);
                assert(!is_digit(s@[i as int]));
            }
            return None;
        }
        let digit = code - 48;
        let grown = val * 10 + digit;
        let ghost prefix = s@.subrange(start as int, i as int);
        let ghost prefix_next = s@.subrange(start as int, i + 1 as int);
        proof {
            assert(prefix_next.drop_last() =~= prefix);
            assert(all_digits(prefix_next)) by {
                assert(forall|k: int|
                    0 <= k < prefix_next.len() ==> #[trigger] prefix_next[k] == s@[start + k]);
            }
            assert(digits_val(prefix_next) == val * 10 + digit);
        }
        if grown > u16::MAX as u32 {
            proof {
                assert(forall|k: int|
                    0 <= k < digits.len() ==> #[trigger] digits[k] == s@[start + k]);
                if all_digits(digits) {
                    lemma_digits_val_prefix(digits, i + 1 - start);
                    assert(digits.subrange(0, i + 1 - start) =~= prefix_next);
                    assert(digits_val(digits) > u16::MAX);
                }
            }
            return None;
        }
        val = grown;
        i += 1;
        proof {
            assert(s@.subrange(start as int, i as int) =~= prefix_next);
        }
    }
    proof {
        assert(s@.subrange(start as int, i as int) =~= digits);
    }
    Some(val as u16)
}

/// What the startup arguments ask for.
pub enum CliAction {
    /// Run the watcher against the service at this port.
    Run { port: u16 },
    /// Print usage and exit without running the loop.
    ShowHelp,
    /// A recognized flag was given an invalid or missing value.
    Invalid,
}

/// The mathematical model of a startup decision.
pub enum CliActionModel {
    Run { port: int },
    ShowHelp,
    Invalid,
}

impl View for CliAction {
    type V = CliActionModel;

    open spec fn view(&self) -> CliActionModel {
        match self {
            CliAction::Run { port } => CliActionModel::Run { port: *port as int },
            CliAction::ShowHelp => CliActionModel::ShowHelp,
            CliAction::Invalid => CliActionModel::Invalid,
        }
    }
}

/// The decision for the arguments from position `i` on: the first recognized
/// flag decides, other tokens are passed over, and with no recognized flag
/// the watcher runs at the default port.
pub open spec fn cli_decision_from(args: Seq<Seq<char>>, i: int) -> CliActionModel
    decreases args.len() - i,
{
    if i < 0 || i >= args.len() {
        CliActionModel::Run { port: DEFAULT_PORT as int }
    } else if args[i] == "--port"@ {
        if i + 1 < args.len() && parses_as_u16(args[i + 1]) {
            CliActionModel::Run { port: parsed_u16(args[i + 1]) }
        } else {
            CliActionModel::Invalid
        }
    } else if args[i] == "--testing"@ {
        CliActionModel::Run { port: TESTING_PORT as int }
    } else if args[i] == "--help"@ {
        CliActionModel::ShowHelp
    } else {
        cli_decision_from(args, i + 1)
    }
}

/// The decision for a full argument list, whose first element is the program
/// name and is passed over.
pub open spec fn cli_decision(args: Seq<Seq<char>>) -> CliActionModel {
    cli_decision_from(args, 1)
}

/// Decide what the startup arguments ask for.
pub fn parse_args(args: &Vec<String>) -> (r: CliAction)
    ensures
        r@ == cli_decision(args@.map_values(|a: String| a@)),
{
    let ghost model = args@.map_values(|a: String| a@);
    let port_flag = String::from_str("--port");
    let testing_flag = String::from_str("--testing");
    let help_flag = String::from_str("--help");
    let mut i: usize = 1;
    while i < args.len()
        invariant
            1 <= i,
            model == args@.map_values(|a: String| a@),
            port_flag@ == "--port"@,
            testing_flag@ == "--testing"@,
            help_flag@ == "--help"@,
            cli_decision(model) == cli_decision_from(model, i as int),
        decreases args.len() - i,
    {
        proof {
            assert(model[i as int] == args@[i as int]@);
            assert(model.len() == args@.len());
        }
        if args[i] == port_flag {
            if i + 1 < args.len() {
                proof {
                    assert(model[i + 1] == args@[i + 1]@);
                }
                match parse_u16(args[i + 1].as_str()) {
                    Some(port) => {
                        return CliAction::Run { port };
                    },
                    None => {
                        return CliAction::Invalid;
                    },
                }
            }
            return CliAction::Invalid;
        }
        if args[i] == testing_flag {
            return CliAction::Run { port: TESTING_PORT };
        }
        if args[i] == help_flag {
            return CliAction::ShowHelp;
        }
        i += 1;
    }
    CliAction::Run { port: DEFAULT_PORT }
}

} // verus!
