use vstd::prelude::*;
use vstd::string::*;
use crate::text::{decimal, decimal_text};

verus! {

/// Whether `char::is_whitespace` holds of a character.
pub uninterp spec fn is_white(c: char) -> bool;

/// Relies on `char::is_whitespace`: the result depends on the character alone.
#[verifier::external_body]
fn white(c: char) -> (r: bool)
    ensures
        r == is_white(c),
{
    c.is_whitespace()
}

pub open spec fn skip_white(s: Seq<char>) -> Seq<char>
    decreases s.len(),
{
    if s.len() > 0 && is_white(s[0]) {
        skip_white(s.drop_first())
    } else {
        s
    }
}

pub open spec fn leading_word(s: Seq<char>) -> Seq<char>
    decreases s.len(),
{
    if s.len() == 0 || is_white(s[0]) {
        Seq::empty()
    } else {
        seq![s[0]] + leading_word(s.drop_first())
    }
}

/// The first whitespace-separated token of a text, empty when there is none.
pub open spec fn first_token(s: Seq<char>) -> Seq<char> {
    leading_word(skip_white(s))
}

fn first_token_of(s: &str) -> (r: &str)
    ensures
        r@ == first_token(s@),
{
    let n = s.unicode_len();
    let mut i: usize = 0;
    assert(s@.subrange(0, n as int) == s@);
    while i < n && white(s.get_char(i))
        invariant
            n == s@.len(),
            i <= n,
            skip_white(s@) == skip_white(s@.subrange(i as int, n as int)),
        decreases n - i,
    {
        proof {
            assert(s@.subrange(i as int, n as int).drop_first() == s@.subrange(i as int + 1, n as int));
        }
        i = i + 1;
    }
    let mut j: usize = i;
    while j < n && !white(s.get_char(j))
        invariant
            n == s@.len(),
            i <= j <= n,
            skip_white(s@) == s@.subrange(i as int, n as int),
            leading_word(s@.subrange(i as int, n as int)) == s@.subrange(i as int, j as int)
                + leading_word(s@.subrange(j as int, n as int)),
        decreases n - j,
    {
        proof {
            let rest = s@.subrange(j as int, n as int);
            assert(rest.drop_first() == s@.subrange(j as int + 1, n as int));
            assert(s@.subrange(i as int, j as int + 1) == s@.subrange(i as int, j as int) + seq![rest[0]]);
        }
        j = j + 1;
    }
    proof {
        let rest = s@.subrange(j as int, n as int);
        assert(leading_word(rest) == Seq::<char>::empty());
        assert(s@.subrange(i as int, j as int) + Seq::<char>::empty() == s@.subrange(i as int, j as int));
    }
    s.substring_char(i, j)
}

/// The text's first token is the command `target`, alone or addressed to the
/// bot as `target@bot_username`.
pub open spec fn command_matches(cmd_text: Seq<char>, target: Seq<char>, bot_username: Seq<char>) -> bool {
    first_token(cmd_text) == target || first_token(cmd_text) == target + "@"@ + bot_username
}

pub fn is_command_match(cmd_text: &str, target: &str, bot_username: &str) -> (r: bool)
    ensures
        r == command_matches(cmd_text@, target@, bot_username@),
{
    let tok = String::from_str(first_token_of(cmd_text));
    let plain = String::from_str(target);
    let mut addressed = String::from_str(target);
    addressed.append("@");
    addressed.append(bot_username);
    tok == plain || tok == addressed
}

/// The developer commands.
#[derive(Clone, Copy, Debug, PartialEq, Eq, Structural)]
pub enum DevCommand {
    /// Report the webhook's pending updates and last error.
    Check,
    /// Set the webhook again, dropping pending updates.
    Reset,
}

/// Only the configured developer may use the developer commands.
pub fn is_authorized_developer(author: Option<u64>, expected: Option<u64>) -> (r: bool)
    ensures
        r == (author is Some && expected is Some && author->Some_0 == expected->Some_0),
{
    match (author, expected) {
        (Some(a), Some(e)) => a == e,
        _ => false,
    }
}

pub open spec fn has_prefix(s: Seq<char>, p: Seq<char>) -> bool {
    p.len() <= s.len() && s.subrange(0, p.len() as int) == p
}

fn starts_with(s: &str, p: &str) -> (r: bool)
    ensures
        r == has_prefix(s@, p@),
{
    let n = s.unicode_len();
    let m = p.unicode_len();
    if m > n {
        return false;
    }
    let head = String::from_str(s.substring_char(0, m));
    let want = String::from_str(p);
    head == want
}

/// A text that may be a developer command: it starts with `/check` or `/reset`.
pub fn looks_like_dev_command(text: &str) -> (r: bool)
    ensures
        r == (has_prefix(text@, "/check"@) || has_prefix(text@, "/reset"@)),
{
    starts_with(text, "/check") || starts_with(text, "/reset")
}

/// The developer command a text holds, for a bot of the given user name.
pub fn dev_command_of(text: &str, bot_username: &str) -> (r: Option<DevCommand>)
    ensures
        command_matches(text@, "/check"@, bot_username@) ==> r == Some(DevCommand::Check),
        !command_matches(text@, "/check"@, bot_username@) && command_matches(text@, "/reset"@, bot_username@)
            ==> r == Some(DevCommand::Reset),
        !command_matches(text@, "/check"@, bot_username@) && !command_matches(text@, "/reset"@, bot_username@)
            ==> r is None,
{
    if is_command_match(text, "/check", bot_username) {
        Some(DevCommand::Check)
    } else if is_command_match(text, "/reset", bot_username) {
        Some(DevCommand::Reset)
    } else {
        None
    }
}

pub open spec fn webhook_info(pending: u32, last_error: Option<Seq<char>>) -> Seq<char> {
    "Pending updates: "@ + decimal(pending as nat) + match last_error {
        Option::Some(e) => "\nLast error: "@ + e,
        Option::None => Seq::empty(),
    }
}

/// The reply to `/check`.
pub fn webhook_info_text(pending: u32, last_error: Option<&str>) -> (r: String)
    ensures
        r@ == webhook_info(pending, match last_error {
            Option::Some(e) => Option::Some(e@),
            Option::None => Option::None,
        }),
{
    let mut s = String::from_str("Pending updates: ");
    s.append(decimal_text(pending as u64).as_str());
    match last_error {
        Some(e) => {
            s.append("\nLast error: ");
            s.append(e);
        },
        None => {},
    }
    s
}

} // verus!
