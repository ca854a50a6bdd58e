//! The calls into serenity's message and colour helpers that the bot's texts
//! are made with. A message under construction is held as a plain `String`;
//! each wrapper lends it to a `MessageBuilder` for one call and takes it back.
use vstd::prelude::*;

use serenity::model::id::ChannelId;
use serenity::model::mention::Mentionable;
use serenity::utils::{Colour, MessageBuilder};

use crate::digits::decimal;

verus! {

/// What `MessageBuilder::push_italic_safe` writes between its two `_`:
/// the text with invite links, mass mentions and direction marks defused,
/// and every `_` turned into a space.
pub uninterp spec fn italic_safe_text(content: Seq<char>) -> Seq<char>;

/// What `MessageBuilder::push_line_safe` writes before its newline: the text
/// with invite links, mass mentions and direction marks defused, and `*`,
/// `` ` `` and `_` escaped with a backslash.
pub uninterp spec fn line_safe_text(content: Seq<char>) -> Seq<char>;

/// What `format!("{:?}", text)` writes for a string: the text quoted, with
/// the characters that `Debug` escapes escaped.
pub uninterp spec fn debug_quoted(text: Seq<char>) -> Seq<char>;

/// `MessageBuilder::push` with a string: the text is appended unchanged
/// (a plain `Content` renders as its inner text).
#[verifier::external_body]
pub(crate) fn push(message: String, content: &str) -> (r: String)
    ensures
        r@ == message@ + content@,
{
    let mut builder = MessageBuilder(message);
    builder.push(content);
    builder.0
}

/// `MessageBuilder::push_bold`: appends `**`, the text, `**`.
#[verifier::external_body]
pub(crate) fn push_bold(message: String, content: &str) -> (r: String)
    ensures
        r@ == message@ + seq!['*', '*'] + content@ + seq!['*', '*'],
{
    let mut builder = MessageBuilder(message);
    builder.push_bold(content);
    builder.0
}

/// `MessageBuilder::push_italic_safe`: appends `_`, the defused text, `_`.
/// What the defusing does to a given text is left to the name
/// `italic_safe_text`.
#[verifier::external_body]
pub(crate) fn push_italic_safe(message: String, content: &str) -> (r: String)
    ensures
        r@ == message@ + seq!['_'] + italic_safe_text(content@) + seq!['_'],
{
    let mut builder = MessageBuilder(message);
    builder.push_italic_safe(content);
    builder.0
}

/// `MessageBuilder::push_line_safe`: appends the defused and escaped text and
/// a newline. What is done to a given text is left to the name
/// `line_safe_text`.
#[verifier::external_body]
pub(crate) fn push_line_safe(message: String, content: &str) -> (r: String)
    ensures
        r@ == message@ + line_safe_text(content@) + seq!['\n'],
{
    let mut builder = MessageBuilder(message);
    builder.push_line_safe(content);
    builder.0
}

/// `Colour::ROSEWATER`, the colour `0xF6DBD8`.
#[verifier::external_body]
pub(crate) fn rosewater() -> (c: u32)
    ensures
        c == 0xF6DBD8,
{
    Colour::ROSEWATER.0
}

/// `Colour::RED`, the colour `0xE74C3C`.
#[verifier::external_body]
pub(crate) fn red() -> (c: u32)
    ensures
        c == 0xE74C3C,
{
    Colour::RED.0
}

/// `Colour::from_rgb`: red in the high byte, then green, then blue.
#[verifier::external_body]
pub(crate) fn from_rgb(red: u8, green: u8, blue: u8) -> (c: u32)
    ensures
        c == red * 65536 + green * 256 + blue,
{
    Colour::from_rgb(red, green, blue).0
}

/// The text of a channel mention, `<#` then the id in decimal then `>`
/// (serenity writes the id with `u64`'s `Display`, which is decimal).
#[verifier::external_body]
pub(crate) fn channel_mention(channel: u64) -> (s: String)
    ensures
        s@ == seq!['<', '#'] + decimal(channel as nat) + seq!['>'],
{
    ChannelId(channel).mention().to_string()
}

/// `format!("{:?}", text)` for a string. What it writes is left to the
/// name `debug_quoted`.
#[verifier::external_body]
pub(crate) fn debug_string(text: &str) -> (s: String)
    ensures
        s@ == debug_quoted(text@),
{
    format!("{:?}", text)
}

} // verus!
