//! The `sing` command: the bot repeats what it was told, in italics.
use vstd::prelude::*;

use crate::markup::{from_rgb, italic_safe_text, push, push_italic_safe, rosewater};
use super::{CommandSpec, Embed, OptionKind, OptionSpec, OptionValue, Reply};

verus! {

/// What the bot sings for the words `args`: each word made safe, in italics,
/// followed by a space.
pub open spec fn sing_text(args: Seq<Seq<char>>) -> Seq<char>
    decreases args.len(),
{
    if args.len() == 0 {
        Seq::empty()
    } else {
        sing_text(args.drop_last()) + seq!['_'] + italic_safe_text(args.last()) + seq!['_', ' ']
    }
}

/// Singing two lists of words one after the other sings their
/// concatenation: each word is sung on its own.
pub proof fn sing_text_concat(first: Seq<Seq<char>>, second: Seq<Seq<char>>)
    ensures
        sing_text(first + second) == sing_text(first) + sing_text(second),
    decreases second.len(),
{
    if second.len() == 0 {
        assert(first + second =~= first);
        assert(sing_text(first) + sing_text(second) =~= sing_text(first));
    } else {
        let rest = second.drop_last();
        sing_text_concat(first, rest);
        assert((first + second).drop_last() =~= first + rest);
        assert((first + second).last() == second.last());
        assert(sing_text(first + second) =~= sing_text(first) + sing_text(second));
    }
}

/// A single word is sung as `_`, the word made safe, `_` and a space,
/// whatever the word; with `sing_text_concat` every word of a list is sung,
/// in order, none dropped.
pub proof fn sing_text_single(word: Seq<char>)
    ensures
        sing_text(seq![word]) == seq!['_'] + italic_safe_text(word) + seq!['_', ' '],
{
    assert(seq![word].drop_last() =~= Seq::<Seq<char>>::empty());
    assert(sing_text(seq![word].drop_last()) == Seq::<char>::empty());
    assert(seq![word].last() == word);
    assert(sing_text(seq![word]) =~= seq!['_'] + italic_safe_text(word) + seq!['_', ' ']);
}

/// The views of a list of words: one view per word, in order.
pub proof fn words_view_elements(args: Seq<String>)
    ensures
        words_view(args).len() == args.len(),
        forall|i: int| 0 <= i < args.len() ==> #[trigger] words_view(args)[i] == args[i]@,
{
}

/// The views of a list of words.
pub open spec fn words_view(args: Seq<String>) -> Seq<Seq<char>> {
    args.map_values(|a: String| a@)
}

/// The answer to `mk!sing` with the words `args`, in the colour (244, 219, 214).
pub fn sing(args: &Vec<String>) -> (r: Reply)
    ensures
        r.text@ == sing_text(words_view(args@)),
        r.color == 244 * 65536 + 219 * 256 + 214,
        args.len() == 1 ==> r.text@ == seq!['_'] + italic_safe_text(args[0]@) + seq!['_', ' '],
{
    let ghost words = words_view(args@);
    let mut text = String::new();
    let mut i: usize = 0;
    while i < args.len()
        invariant
            words == words_view(args@),
            i <= args.len(),
            text@ == sing_text(words.take(i as int)),
        decreases args.len() - i,
    {
        text = push_italic_safe(text, args[i].as_str());
        text = push(text, " ");
        proof {
            reveal_strlit(" ");
            assert(words.take(i + 1).drop_last() =~= words.take(i as int));
            assert(words.take(i + 1).last() == args@[i as int]@);
            assert(sing_text(words.take(i + 1)) =~= text@);
        }
        i = i + 1;
    }
    assert(words.take(args.len() as int) =~= words);
    proof {
        if args.len() == 1 {
            assert(words =~= seq![args@[0]@]);
            sing_text_single(args@[0]@);
        }
    }
    Reply { color: from_rgb(244, 219, 214), text }
}

/// What the bot sings when the option holds no text.
pub open spec fn cannot_sing_text() -> Seq<char> {
    "Oh no... i cant sing that."@
}

/// The description of the `/sing` embed for the option's value.
pub open spec fn sing_embed_text(value: Option<OptionValue>) -> Seq<char> {
    match value {
        Some(OptionValue::Text(t)) => seq!['_'] + italic_safe_text(t@) + seq!['_'],
        _ => seq!['_'] + italic_safe_text(cannot_sing_text()) + seq!['_'],
    }
}

/// Any text option is sung as it is, in safe italics; only a value that is
/// not text gets the apology.
pub proof fn sing_embed_sings_any_text(t: String)
    ensures
        sing_embed_text(Some(OptionValue::Text(t))) == seq!['_'] + italic_safe_text(t@) + seq![
            '_',
        ],
        sing_embed_text(Some(OptionValue::Other)) == seq!['_'] + italic_safe_text(
            "Oh no... i cant sing that."@,
        ) + seq!['_'],
{
}

/// The embed of the `/sing` slash command: the option's text made safe and in
/// italics, or an apology when the option holds no text; in rosewater.
pub fn run(options: &Vec<Option<OptionValue>>) -> (r: Embed)
    requires
        options.len() > 0,
        options[0] is Some,
    ensures
        r.title is None,
        r.color == 0xF6DBD8,
        r.description@ == sing_embed_text(options[0]),
        options[0] matches Some(OptionValue::Text(t)) ==> r.description@ == seq!['_']
            + italic_safe_text(t@) + seq!['_'],
        options[0] matches Some(OptionValue::Other) ==> r.description@ == seq!['_']
            + italic_safe_text("Oh no... i cant sing that."@) + seq!['_'],
{
    let description = match &options[0] {
        Some(OptionValue::Text(t)) => push_italic_safe(String::new(), t.as_str()),
        _ => push_italic_safe(String::new(), "Oh no... i cant sing that."),
    };
    Embed { title: None, description, color: rosewater() }
}

/// How `/sing` is announced: one required text option, what to sing.
pub fn register() -> (r: CommandSpec)
    ensures
        r.name@ == "sing"@,
        r.description@ == "I will sing anything you say"@,
        r.options.len() == 1,
        r.options[0].name@ == "text"@,
        r.options[0].description@ == "This is what i am gonna sing"@,
        r.options[0].kind == OptionKind::Text,
        r.options[0].required,
{
    let mut options = Vec::new();
    options.push(
        OptionSpec {
            name: String::from_str("text"),
            description: String::from_str("This is what i am gonna sing"),
            kind: OptionKind::Text,
            required: true,
        },
    );
    CommandSpec {
        name: String::from_str("sing"),
        description: String::from_str("I will sing anything you say"),
        options,
    }
}

} // verus!
