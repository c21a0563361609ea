//! The configured target identity: how it is read from the configuration
//! file's content, and the rule by which a process identity matches it.

use crate::text::{
    contains, contains_seq, decode, find_byte, occurs_at, position_of, trim, trimmed,
};
use vstd::prelude::*;
use vstd::slice::slice_subrange;
use vstd::utf8::{decode_utf8, valid_utf8};

verus! {

/// Why no target identity could be had from the configuration file.
#[derive(Clone, Copy, Debug, PartialEq, Eq, Structural)]
pub enum ConfigReadError {
    /// The file is absent or could not be read.
    Unreadable,
    /// The first line of the file is not text.
    InvalidText,
}

/// The first line of `content`, with the line feed that ends it; all of
/// `content` where it holds no line feed.
pub open spec fn first_line(content: Seq<u8>) -> Seq<u8> {
    let at = position_of(content, 0x0A);
    if at < content.len() {
        content.take(at + 1)
    } else {
        content
    }
}

/// The target that a configuration file with this content names: its first
/// line, trimmed. `None` where the first line is not UTF-8.
pub open spec fn configured_target(content: Seq<u8>) -> Option<Seq<char>> {
    if valid_utf8(first_line(content)) {
        Some(trim(decode_utf8(first_line(content))))
    } else {
        None
    }
}

/// What was read of the configuration file, as the bytes it held.
pub open spec fn opt_bytes(file: Option<&[u8]>) -> Option<Seq<u8>> {
    match file {
        Some(content) => Some(content@),
        None => None,
    }
}

/// The content of a target that was read, or the error.
pub open spec fn target_view(target: Result<String, ConfigReadError>) -> Result<
    Seq<char>,
    ConfigReadError,
> {
    match target {
        Ok(t) => Ok(t@),
        Err(e) => Err(e),
    }
}

/// What reading the configuration comes to: an absent or unreadable file is
/// an error, and so is a first line that is not text; any other file names
/// its target.
pub open spec fn config_of_file(file: Option<Seq<u8>>) -> Result<Seq<char>, ConfigReadError> {
    match file {
        None => Err(ConfigReadError::Unreadable),
        Some(content) => match configured_target(content) {
            Some(t) => Ok(t),
            None => Err(ConfigReadError::InvalidText),
        },
    }
}

/// Where the configuration file lies.
pub const CONFIG_PATH: &'static str = "/data/adb/modules/zygisk-loader/active_config.txt";

/// The matching rule: a non-empty target that occurs in the identity as a
/// substring. An empty target matches nothing.
pub open spec fn target_matches(identity: Seq<char>, target: Seq<char>) -> bool {
    target.len() > 0 && contains_seq(identity, target)
}

/// Reads the target identity from what was read of the configuration file:
/// the first line, trimmed of whitespace. `file` is `None` where the file is
/// absent or unreadable, which is an error, as is a first line that is not
/// text. An empty target is a valid result.
pub fn read_target_config(file: Option<&[u8]>) -> (target: Result<String, ConfigReadError>)
    ensures
        target_view(target) == config_of_file(opt_bytes(file)),
{
    match file {
        None => Err(ConfigReadError::Unreadable),
        Some(content) => {
            let at = find_byte(content, 0x0A);
            let end: usize = if at < content.len() {
                at + 1
            } else {
                at
            };
            let line = slice_subrange(content, 0, end);
            assert(line@ =~= first_line(content@));
            match decode(line) {
                Some(text) => Ok(trimmed(text.as_str())),
                None => Err(ConfigReadError::InvalidText),
            }
        },
    }
}

/// Does a process with this identity match the target? It does when the
/// target is not empty and the identity contains it, case and all.
pub fn matches_target(identity: &str, target: &str) -> (matched: bool)
    ensures
        matched == target_matches(identity@, target@),
{
    !target.is_empty() && contains(identity, target)
}

/// An empty identity matches no target, and an empty target matches no identity.
pub proof fn law_empty_never_matches(identity: Seq<char>, target: Seq<char>)
    ensures
        !target_matches(identity, Seq::empty()),
        !target_matches(Seq::empty(), target),
{
    if target.len() > 0 {
        assert forall|i: int| !occurs_at(Seq::<char>::empty(), target, i) by {}
    }
}

/// A suffixed process name matches the package it belongs to: whatever
/// stands before and after the target in an identity, the identity matches.
pub proof fn law_match_tolerates_affixes(before: Seq<char>, target: Seq<char>, after: Seq<char>)
    requires
        target.len() > 0,
    ensures
        target_matches(before + target + after, target),
{
    let identity = before + target + after;
    assert(identity.subrange(before.len() as int, (before.len() + target.len()) as int)
        =~= target);
    assert(occurs_at(identity, target, before.len() as int));
}

} // verus!
