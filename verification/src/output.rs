//! What the program writes to standard output, as a pure function of the
//! configuration and of the drawn number.
use vstd::prelude::*;

use crate::decimal::{format_u32, lemma_decimal_digits, spec_decimal};
use crate::rng::{generate_lucky_number, LUCKY_MAX, LUCKY_MIN};

verus! {

/// The two start-time toggles: one picks the greeting, the other enables
/// the lucky-number line.
#[derive(Clone, Copy, PartialEq, Eq, Structural, Debug)]
pub struct Config {
    pub print_alt: bool,
    pub enable_random: bool,
}

/// The greeting line, newline included: "42" when the alternate greeting is
/// chosen, "Hello, world!" otherwise.
pub open spec fn spec_greeting(print_alt: bool) -> Seq<char> {
    if print_alt {
        "42\n"@
    } else {
        "Hello, world!\n"@
    }
}

/// The lucky-number line for a drawn value, newline included.
pub open spec fn spec_lucky_line(n: int) -> Seq<char> {
    "Your lucky number: "@ + spec_decimal(n) + "\n"@
}

/// Everything written to standard output: the greeting, then, only when the
/// random draw is enabled, the lucky-number line for the drawn value `n`
/// (`n` is irrelevant otherwise).
pub open spec fn spec_output(print_alt: bool, enable_random: bool, n: int) -> Seq<char> {
    if enable_random {
        spec_greeting(print_alt) + spec_lucky_line(n)
    } else {
        spec_greeting(print_alt)
    }
}

/// With the random draw enabled, the output is the greeting followed by one
/// additional line: the text "Your lucky number: ", then the drawn value's
/// decimal digits — at least one character, every one of them a digit — then
/// a newline.
pub proof fn lemma_random_adds_lucky_line(print_alt: bool, n: int)
    requires
        0 <= n,
    ensures
        spec_output(print_alt, true, n) == spec_greeting(print_alt) + "Your lucky number: "@
            + spec_decimal(n) + "\n"@,
        spec_decimal(n).len() >= 1,
        forall|i: int|
            0 <= i < spec_decimal(n).len() ==> '0' <= #[trigger] spec_decimal(n)[i] <= '9',
{
    lemma_decimal_digits(n);
    assert(spec_output(print_alt, true, n) =~= spec_greeting(print_alt) + "Your lucky number: "@
        + spec_decimal(n) + "\n"@);
}

/// Builds the greeting line.
pub fn greeting_line(print_alt: bool) -> (r: String)
    ensures
        r@ == spec_greeting(print_alt),
{
    if print_alt {
        String::from_str("42\n")
    } else {
        String::from_str("Hello, world!\n")
    }
}

/// Builds the lucky-number line for a drawn value.
pub fn lucky_line(n: u32) -> (r: String)
    ensures
        r@ == spec_lucky_line(n as int),
{
    let mut s = String::from_str("Your lucky number: ");
    let digits = format_u32(n);
    s.append(digits.as_str());
    s.append("\n");
    s
}

/// Builds the whole output for a configuration and an already-drawn value:
/// the deterministic part, verified for every value of the draw.
pub fn render_output(config: &Config, n: u32) -> (r: String)
    ensures
        r@ == spec_output(config.print_alt, config.enable_random, n as int),
{
    let mut out = greeting_line(config.print_alt);
    if config.enable_random {
        let line = lucky_line(n);
        out.append(line.as_str());
    }
    out
}

/// Runs the whole program but for the printing: draws the lucky number if
/// and only if the configuration asks for one, and returns the full output.
/// With the draw disabled the output is exactly the greeting; with it
/// enabled, the output is the one rendered for some drawn value in range.
pub fn run(config: &Config) -> (r: String)
    ensures
        !config.enable_random ==> r@ == spec_greeting(config.print_alt),
        config.enable_random ==> exists|n: int|
            LUCKY_MIN <= n <= LUCKY_MAX && r@ == spec_output(config.print_alt, true, n),
{
    if config.enable_random {
        let n = generate_lucky_number();
        render_output(config, n)
    } else {
        render_output(config, 0)
    }
}

} // verus!
