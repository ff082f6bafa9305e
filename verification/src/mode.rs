//! Mode selection: the startup token decides which paddles take human
//! input and which ones the AI drives.

use vstd::prelude::*;

verus! {

/// Which paddles are human-controlled for the session.
#[derive(Clone, Copy, PartialEq, Eq, Structural, Debug)]
pub enum Mode {
    /// Left paddle human, right paddle AI.
    Single,
    /// Both paddles human.
    Multi,
    /// Both paddles AI.
    Bots,
}

/// What `str::to_lowercase` returns for a given sequence of characters.
pub uninterp spec fn lower_of(s: Seq<char>) -> Seq<char>;

/// Relies on str::to_lowercase: the result depends on the characters alone,
/// and an empty string stays empty.
#[verifier::external_body]
fn lowercase(s: &str) -> (r: String)
    ensures
        r@ == lower_of(s@),
        s@.len() == 0 ==> r@.len() == 0,
{
    s.to_lowercase()
}

/// The lowercased input selects single-player mode.
pub open spec fn is_single_token(low: Seq<char>) -> bool {
    low == "s"@ || low == "1"@ || low == "single"@ || low == "singleplayer"@
}

/// The lowercased input selects multi-player mode.
pub open spec fn is_multi_token(low: Seq<char>) -> bool {
    low == "m"@ || low == "2"@ || low == "multi"@ || low == "multiplayer"@
}

/// The lowercased input selects bot-fight mode.
pub open spec fn is_bots_token(low: Seq<char>) -> bool {
    low == "b"@ || low == "0"@ || low == "botfight"@
}

/// The mode a lowercased token selects, if any.
pub open spec fn mode_of_lower(low: Seq<char>) -> Option<Mode> {
    if is_single_token(low) {
        Some(Mode::Single)
    } else if is_multi_token(low) {
        Some(Mode::Multi)
    } else if is_bots_token(low) {
        Some(Mode::Bots)
    } else {
        None
    }
}

/// Parses the startup token, case-insensitively: `s`, `1`, `single` and
/// `singleplayer` select `Single`; `m`, `2`, `multi` and `multiplayer`
/// select `Multi`; `b`, `0` and `botfight` select `Bots`. Anything else is
/// rejected.
pub fn parse_mode(input: &str) -> (r: Option<Mode>)
    ensures
        r == mode_of_lower(lower_of(input@)),
{
    let low = lowercase(input);
    if low == "s".to_owned() || low == "1".to_owned() || low == "single".to_owned()
        || low == "singleplayer".to_owned() {
        Some(Mode::Single)
    } else if low == "m".to_owned() || low == "2".to_owned() || low == "multi".to_owned()
        || low == "multiplayer".to_owned() {
        Some(Mode::Multi)
    } else if low == "b".to_owned() || low == "0".to_owned() || low == "botfight".to_owned() {
        Some(Mode::Bots)
    } else {
        None
    }
}

} // verus!
