//! Console presentation: colour tags and fixed-width columns.

use vstd::prelude::*;

verus! {

/// The escape sequence that opens a coloured span for a one-letter code,
/// or `None` for a code that names no colour.
pub open spec fn colour_prefix(colour: Seq<char>) -> Option<Seq<char>> {
    if colour == seq!['R'] {
        Some(seq!['\x1B', '[', '9', '1', 'm'])
    } else if colour == seq!['G'] {
        Some(seq!['\x1B', '[', '9', '2', 'm'])
    } else if colour == seq!['B'] {
        Some(seq!['\x1B', '[', '9', '4', 'm'])
    } else if colour == seq!['Y'] {
        Some(seq!['\x1B', '[', '9', '3', 'm'])
    } else {
        None
    }
}

/// The escape sequence that closes a coloured span.
pub open spec fn colour_reset() -> Seq<char> {
    seq!['\x1B', '[', '0', '0', 'm']
}

/// `s` wrapped in the escape sequences of `colour`, or `s` itself when the
/// code is not one of `R`, `G`, `B`, `Y`.
pub open spec fn coloured(s: Seq<char>, colour: Seq<char>) -> Seq<char> {
    match colour_prefix(colour) {
        Some(p) => p + s + colour_reset(),
        None => s,
    }
}

/// `n` spaces.
pub open spec fn spaces(n: nat) -> Seq<char> {
    Seq::new(n, |i: int| ' ')
}

/// `s` cut to its first `width` characters, or filled up to `width` with
/// spaces on the right.
pub open spec fn padded(s: Seq<char>, width: nat) -> Seq<char> {
    if s.len() >= width {
        s.subrange(0, width as int)
    } else {
        s + spaces((width - s.len()) as nat)
    }
}

fn is_code(colour: &str, code: char) -> (r: bool)
    ensures
        r == (colour@ == seq![code]),
{
    if colour.unicode_len() == 1 {
        let c = colour.get_char(0);
        assert(c == code ==> colour@ =~= seq![code]);
        c == code
    } else {
        false
    }
}

/// Wraps `input_str` in the ANSI colour that the one-letter code `colour`
/// names (`R` red, `G` green, `B` blue, `Y` yellow); any other code leaves
/// the text as it is.
pub fn string_colour(input_str: &str, colour: &str) -> (r: String)
    ensures
        r@ == coloured(input_str@, colour@),
        colour_prefix(colour@) is None ==> r@ == input_str@,
{
    let prefix: &str;
    if is_code(colour, 'R') {
        prefix = "\x1B[91m";
        proof { reveal_strlit("\x1B[91m"); }
    } else if is_code(colour, 'G') {
        prefix = "\x1B[92m";
        proof { reveal_strlit("\x1B[92m"); }
    } else if is_code(colour, 'B') {
        prefix = "\x1B[94m";
        proof { reveal_strlit("\x1B[94m"); }
    } else if is_code(colour, 'Y') {
        prefix = "\x1B[93m";
        proof { reveal_strlit("\x1B[93m"); }
    } else {
        return String::from_str(input_str);
    }
    let reset = "\x1B[00m";
    proof { reveal_strlit("\x1B[00m"); }
    let mut r = String::from_str(prefix);
    r.append(input_str);
    r.append(reset);
    assert(prefix@ == colour_prefix(colour@)->Some_0);
    assert(reset@ =~= colour_reset());
    r
}

/// Fits `input_string` to exactly `desired_length` characters: a longer
/// string keeps its first `desired_length` characters, a shorter one is
/// filled with spaces on the right.
pub fn pad_string(input_string: &str, desired_length: usize) -> (r: String)
    ensures
        r@ == padded(input_string@, desired_length as nat),
        r@.len() == desired_length,
        input_string@.len() >= desired_length ==> r@ == input_string@.subrange(
            0,
            desired_length as int,
        ),
{
    let n = input_string.unicode_len();
    if n >= desired_length {
        String::from_str(input_string.substring_char(0, desired_length))
    } else {
        let mut r = String::from_str(input_string);
        let space = " ";
        proof { reveal_strlit(" "); }
        let mut i: usize = n;
        while i < desired_length
            invariant
                n <= i <= desired_length,
                n == input_string@.len(),
                space@ == seq![' '],
                r@ =~= input_string@ + spaces((i - n) as nat),
            decreases desired_length - i,
        {
            r.append(space);
            i = i + 1;
        }
        r
    }
}

/// The width of the option column of the help text.
pub const HELP_COLUMN: usize = 17;

/// A help line: `name` in the option column, then `text`.
pub open spec fn option_line(name: Seq<char>, text: Seq<char>) -> Seq<char> {
    padded(name, HELP_COLUMN as nat) + " "@ + text + "\n"@
}

/// The help text, line by line.
pub open spec fn help_layout() -> Seq<char> {
    "Specify a Cloudflare Access Token and a desired (sub)domain, and the application will assign \n"@
        + "the record with your IP address.\n\n"@
        + coloured("Options"@, "Y"@) + ":\n"@
        + option_line("-t, --token"@, "Your Cloudflare API token."@)
        + option_line(
            ""@,
            "You can get them from "@ + coloured("https://dash.cloudflare.com/profile/api-tokens"@, "Y"@),
        )
        + option_line(
            ""@,
            "Assign "@ + coloured("Zone.DNS"@, "Y"@) + " permission to the domain you wish to modify."@,
        )
        + option_line("-d, --domain"@, "The FQDN you wish to create/update with the IP address."@)
        + option_line("-p, --proxy"@, "Use Cloudflare Proxy for the domain"@)
        + option_line(
            ""@,
            "Only impacts record "@ + coloured("update"@, "Y"@) + ", not "@ + coloured("creation"@, "Y"@) + "."@,
        )
        + option_line("--ipv6"@, "Assigns and updates an AAAA record with IPv6 instead."@)
        + option_line(""@, "Will crash if the destination record is IPv4, and vice versa."@)
        + option_line("--debug"@, "Enables verbose output."@)
        + "\n"@ + coloured("-v, --version"@, "G"@) + " Display script version.\n"@
        + coloured("-h, --help"@, "G"@) + " Displays this help information.\n"@
}

/// The version and attribution text.
pub open spec fn version_layout() -> Seq<char> {
    "Cloudflare Dynamic DNS (CDDNS) by soup-bowl (code@soupbowl.io) - pre-alpha.\n"@
        + "Source: https://github.com/soup-bowl/cloudflare-dynamicdns/\n"@
}

/// The line that reports a missing credential or domain.
pub open spec fn incomplete_layout() -> Seq<char> {
    "Error: You're missing either the token, or the domain\n\n"@
}

fn option_line_text(name: &str, text: &str) -> (r: String)
    ensures
        r@ == option_line(name@, text@),
{
    let mut r = pad_string(name, HELP_COLUMN);
    r.append(" ");
    r.append(text);
    r.append("\n");
    r
}

/// The help text: what the program does and each option with its meaning.
pub fn help_text() -> (r: String)
    ensures
        r@ == help_layout(),
{
    let mut r = String::from_str(
        "Specify a Cloudflare Access Token and a desired (sub)domain, and the application will assign \n",
    );
    r.append("the record with your IP address.\n\n");
    r.append(string_colour("Options", "Y").as_str());
    r.append(":\n");
    r.append(option_line_text("-t, --token", "Your Cloudflare API token.").as_str());
    let mut t = String::from_str("You can get them from ");
    t.append(string_colour("https://dash.cloudflare.com/profile/api-tokens", "Y").as_str());
    r.append(option_line_text("", t.as_str()).as_str());
    let mut t = String::from_str("Assign ");
    t.append(string_colour("Zone.DNS", "Y").as_str());
    t.append(" permission to the domain you wish to modify.");
    r.append(option_line_text("", t.as_str()).as_str());
    r.append(
        option_line_text("-d, --domain", "The FQDN you wish to create/update with the IP address.").as_str(),
    );
    r.append(option_line_text("-p, --proxy", "Use Cloudflare Proxy for the domain").as_str());
    let mut t = String::from_str("Only impacts record ");
    t.append(string_colour("update", "Y").as_str());
    t.append(", not ");
    t.append(string_colour("creation", "Y").as_str());
    t.append(".");
    r.append(option_line_text("", t.as_str()).as_str());
    r.append(
        option_line_text("--ipv6", "Assigns and updates an AAAA record with IPv6 instead.").as_str(),
    );
    r.append(
        option_line_text("", "Will crash if the destination record is IPv4, and vice versa.").as_str(),
    );
    r.append(option_line_text("--debug", "Enables verbose output.").as_str());
    r.append("\n");
    r.append(string_colour("-v, --version", "G").as_str());
    r.append(" Display script version.\n");
    r.append(string_colour("-h, --help", "G").as_str());
    r.append(" Displays this help information.\n");
    r
}

/// The version and attribution text.
pub fn version_text() -> (r: String)
    ensures
        r@ == version_layout(),
{
    let mut r = String::from_str(
        "Cloudflare Dynamic DNS (CDDNS) by soup-bowl (code@soupbowl.io) - pre-alpha.\n",
    );
    r.append("Source: https://github.com/soup-bowl/cloudflare-dynamicdns/\n");
    r
}

/// The line that reports a missing credential or domain, with the blank
/// line that separates it from the help text.
pub fn incomplete_text() -> (r: String)
    ensures
        r@ == incomplete_layout(),
{
    String::from_str("Error: You're missing either the token, or the domain\n\n")
}

/// A diagnostic line of verbose output: a blue `Debug` tag, then `message`.
pub fn debug_line(message: &str) -> (r: String)
    ensures
        r@ == coloured("Debug"@, "B"@) + ": "@ + message@,
{
    let mut r = string_colour("Debug", "B");
    r.append(": ");
    r.append(message);
    r
}

} // verus!
