//! What the bot answers when asked to join a voice channel, to queue a song
//! and to show the queue. The gateway cache, the voice driver and the
//! download of a song are outside; their outcomes come in as plain values.
use vstd::prelude::*;

use std::collections::HashMap;

use crate::digits::{decimal, to_decimal};
use crate::markup::{channel_mention, debug_quoted, debug_string, line_safe_text, push_bold, push_line_safe};

verus! {

broadcast use vstd::std_specs::hash::group_hash_axioms;

/// The answer to a member who is in no voice channel.
pub open spec fn not_in_voice_text() -> Seq<char> {
    "I cannot join you, since you aren't connected to any voice channel right now. Please join a voice channel and try again."@
}

/// The answer when the voice driver could not join the channel.
pub open spec fn join_failed_text() -> Seq<char> {
    "Something went wrong. I can't join your channel right now..."@
}

/// The answer to a link that does not start with `http`.
pub open spec fn invalid_url_text() -> Seq<char> {
    "Oh no, your URL does not seem to be valid. I dont know what to play..."@
}

/// The answer when nothing playable was found behind a link.
pub open spec fn no_music_text() -> Seq<char> {
    "Oh no, i couldnt find any music to play at that link..."@
}

/// The answer when the queue is empty.
pub open spec fn empty_queue_text() -> Seq<char> {
    "Nothing is queued right now"@
}

/// The answer when the guild has no voice handler to read the queue from.
pub open spec fn no_queue_text() -> Seq<char> {
    "Unable to fetch queue"@
}

/// The voice channel that `user` is connected to, given the voice states of a
/// guild keyed by user id.
pub open spec fn voice_channel_of(voice_states: Map<u64, Option<u64>>, user: u64) -> Option<u64> {
    if voice_states.contains_key(user) {
        voice_states[user]
    } else {
        None
    }
}

/// The channel looked up for a user is the one stored under that very user's
/// id: present with a channel gives that channel, anything else gives none.
pub proof fn voice_channel_is_own_state(voice_states: Map<u64, Option<u64>>, user: u64)
    ensures
        voice_states.contains_key(user) ==> voice_channel_of(voice_states, user)
            == voice_states[user],
        !voice_states.contains_key(user) ==> voice_channel_of(voice_states, user) is None,
{
}

/// Finds the voice channel to join for `author`: the channel of the author's
/// voice state, or the answer that the author is in no voice channel.
pub fn join_target(voice_states: &HashMap<u64, Option<u64>>, author: u64) -> (r: Result<u64, String>)
    ensures
        match r {
            Ok(channel) => voice_channel_of(voice_states@, author) == Some(channel),
            Err(text) => voice_channel_of(voice_states@, author) is None && text@
                == not_in_voice_text(),
        },
        voice_states@.contains_key(author) && voice_states@[author] is Some ==> r is Ok
            && r->Ok_0 == voice_states@[author]->Some_0,
        !voice_states@.contains_key(author) || voice_states@[author] is None ==> r is Err,
{
    match voice_states.get(&author) {
        Some(Some(channel)) => Ok(*channel),
        _ => Err(String::from_str(
            "I cannot join you, since you aren't connected to any voice channel right now. Please join a voice channel and try again.",
        )),
    }
}

/// The text that confirms joining `channel`: `**Joined:** ` and the channel's
/// mention.
pub open spec fn joined_text(channel: u64) -> Seq<char> {
    "**Joined:** "@ + seq!['<', '#'] + decimal(channel as nat) + seq!['>']
}

/// The answer once the voice driver has tried to join `channel`: the
/// confirmation when it succeeded, the failure answer when it did not.
pub fn join_channel(channel: u64, joined: bool) -> (r: Result<String, String>)
    ensures
        joined ==> r is Ok && r->Ok_0@ == joined_text(channel),
        !joined ==> r is Err && r->Err_0@ == join_failed_text(),
{
    if joined {
        let mut text = String::from_str("**Joined:** ");
        let mention = channel_mention(channel);
        text.append(mention.as_str());
        Ok(text)
    } else {
        Err(String::from_str("Something went wrong. I can't join your channel right now..."))
    }
}

/// Whether `url` starts with `http`, the only links the bot tries to play.
pub open spec fn is_http_link(url: Seq<char>) -> bool {
    url.len() >= 4 && url.subrange(0, 4) == "http"@
}

/// A link counts as an `http` link exactly when its first four characters
/// are `h`, `t`, `t`, `p`, whatever follows them.
pub proof fn http_link_is_prefix(url: Seq<char>)
    ensures
        is_http_link(url) <==> (url.len() >= 4 && url[0] == 'h' && url[1] == 't' && url[2] == 't'
            && url[3] == 'p'),
{
    reveal_strlit("http");
    if url.len() >= 4 && url[0] == 'h' && url[1] == 't' && url[2] == 't' && url[3] == 'p' {
        assert(url.subrange(0, 4) =~= "http"@);
    }
    if is_http_link(url) {
        assert(url.subrange(0, 4)[0] == url[0]);
        assert(url.subrange(0, 4)[1] == url[1]);
        assert(url.subrange(0, 4)[2] == url[2]);
        assert(url.subrange(0, 4)[3] == url[3]);
    }
}

/// Decides whether a link may be handed to the downloader: `Ok` for a link
/// that starts with `http`, else the answer that the link is not valid.
pub fn queue_song(url: &str) -> (r: Result<(), String>)
    ensures
        is_http_link(url@) ==> r is Ok,
        !is_http_link(url@) ==> r is Err && r->Err_0@ == invalid_url_text(),
        (url@.len() >= 4 && url@.subrange(0, 4) == "http"@) <==> r is Ok,
{
    proof {
        reveal_strlit("http");
    }
    let n = url.unicode_len();
    if n >= 4 && url.get_char(0) == 'h' && url.get_char(1) == 't' && url.get_char(2) == 't'
        && url.get_char(3) == 'p' {
        assert(url@.subrange(0, 4) =~= "http"@);
        Ok(())
    } else {
        proof {
            if n >= 4 && url@.subrange(0, 4) == "http"@ {
                assert(url@.subrange(0, 4)[0] == url@[0]);
                assert(url@.subrange(0, 4)[1] == url@[1]);
                assert(url@.subrange(0, 4)[2] == url@[2]);
                assert(url@.subrange(0, 4)[3] == url@[3]);
            }
        }
        Err(String::from_str("Oh no, your URL does not seem to be valid. I dont know what to play..."))
    }
}

/// What became of queueing a song whose link was accepted.
pub enum QueueOutcome {
    /// The guild has no voice handler: nothing was tried.
    NoHandler,
    /// Nothing playable was found behind the link.
    NoSource,
    /// The song was queued. `last_track` is the title metadata of the last
    /// track in the queue (`None` when the queue shows no track), and
    /// `queue_len` the number of tracks in it.
    Queued { last_track: Option<Option<String>>, queue_len: usize },
}

/// The title the bot shows for a track: its title, or `Song` without one.
pub open spec fn title_or_song(title: Option<Seq<char>>) -> Seq<char> {
    match title {
        Some(t) => t,
        None => "Song"@,
    }
}

/// The view of an optional title.
pub open spec fn title_view(title: Option<String>) -> Option<Seq<char>> {
    match title {
        Some(t) => Some(t@),
        None => None,
    }
}

/// The description of the queued song: the last track's title (or `Song`),
/// a space, and the fixed length `(3:09)` when there is a last track.
pub open spec fn queued_description(last_track: Option<Option<Seq<char>>>) -> Seq<char> {
    match last_track {
        Some(title) => title_or_song(title) + " "@ + "(3:09)"@,
        None => "Song"@ + " "@,
    }
}

/// The confirmation text of a queued song, given the description already
/// quoted for display and the position the queue reports.
pub open spec fn queued_text(quoted: Seq<char>, position: nat) -> Seq<char> {
    "**Queued** *"@ + quoted + "* **at position:** *"@ + decimal(position) + "*"@
}

/// Writes the confirmation of a queued song from its quoted description and
/// its position.
pub fn queued_reply(quoted: &str, position: usize) -> (r: String)
    ensures
        r@ == queued_text(quoted@, position as nat),
{
    let mut text = String::from_str("**Queued** *");
    text.append(quoted);
    text.append("* **at position:** *");
    let digits = to_decimal(position as u64);
    text.append(digits.as_str());
    text.append("*");
    text
}

fn title_text(title: &Option<String>) -> (r: String)
    ensures
        r@ == title_or_song(title_view(*title)),
{
    match title {
        Some(t) => t.clone(),
        None => String::from_str("Song"),
    }
}

/// The answer to a request to queue a song, once its outcome is known.
pub fn queue_song_reply(outcome: &QueueOutcome) -> (r: Result<String, String>)
    ensures
        match outcome {
            QueueOutcome::NoHandler => r is Ok && r->Ok_0@ == Seq::<char>::empty(),
            QueueOutcome::NoSource => r is Err && r->Err_0@ == no_music_text(),
            QueueOutcome::Queued { last_track, queue_len } => r is Ok && r->Ok_0@ == queued_text(
                debug_quoted(
                    queued_description(
                        match last_track {
                            Some(t) => Some(title_view(*t)),
                            None => None,
                        },
                    ),
                ),
                *queue_len as nat,
            ),
        },
{
    match outcome {
        QueueOutcome::NoHandler => Ok(String::new()),
        QueueOutcome::NoSource => Err(
            String::from_str("Oh no, i couldnt find any music to play at that link..."),
        ),
        QueueOutcome::Queued { last_track, queue_len } => {
            let description = match last_track {
                Some(title) => {
                    let mut d = title_text(title);
                    d.append(" ");
                    d.append("(3:09)");
                    d
                },
                None => {
                    let mut d = String::from_str("Song");
                    d.append(" ");
                    d
                },
            };
            let quoted = debug_string(description.as_str());
            Ok(queued_reply(quoted.as_str(), *queue_len))
        },
    }
}


/// The titles of a queue, in queue order.
pub open spec fn titles_view(titles: Seq<Option<String>>) -> Seq<Option<Seq<char>>> {
    titles.map_values(|t: Option<String>| title_view(t))
}

/// One line of the queue listing: the position in bold brackets, then the
/// title (or `Song`) made safe, then a newline.
pub open spec fn queue_entry(title: Option<Seq<char>>, position: nat) -> Seq<char> {
    seq!['*', '*'] + (seq!['['] + decimal(position) + seq![']', ' ']) + seq!['*', '*']
        + line_safe_text(title_or_song(title)) + seq!['\n']
}

/// The listing of a queue of `total` tracks of which `titles` are the first:
/// the track at index `i` is shown at position `total - i`, so the first
/// track carries the highest number and the last one `1`.
pub open spec fn queue_listing(titles: Seq<Option<Seq<char>>>, total: nat) -> Seq<char>
    decreases titles.len(),
{
    if titles.len() == 0 {
        Seq::empty()
    } else {
        queue_listing(titles.drop_last(), total) + queue_entry(
            titles.last(),
            (total - (titles.len() - 1)) as nat,
        )
    }
}

/// Every line of the listing carries its own position: extending the titles
/// by the track at index `k` appends exactly one line, `**[` then
/// `total - k` in decimal then `] **`, the track's title (or `Song`) made
/// safe, and a newline. The listing of no titles is empty. Together these
/// fix the whole listing: the line of index `i` is numbered `total - i`.
pub proof fn queue_listing_lines(titles: Seq<Option<String>>, total: nat, k: int)
    requires
        0 <= k < titles.len(),
        titles.len() <= total,
    ensures
        queue_listing(titles_view(titles.take(0)), total) == Seq::<char>::empty(),
        queue_listing(titles_view(titles.take(k + 1)), total) == queue_listing(
            titles_view(titles.take(k)),
            total,
        ) + seq!['*', '*', '['] + decimal((total - k) as nat) + seq![']', ' ', '*', '*']
            + line_safe_text(
            match titles[k] {
                Some(t) => t@,
                None => "Song"@,
            },
        ) + seq!['\n'],
{
    let next = titles_view(titles.take(k + 1));
    assert(titles_view(titles.take(0)) =~= Seq::<Option<Seq<char>>>::empty());
    assert(next.drop_last() =~= titles_view(titles.take(k)));
    assert(next.last() == title_view(titles[k]));
    assert(next.len() == k + 1);
    let line = queue_listing(next, total);
    assert(line =~= queue_listing(titles_view(titles.take(k)), total) + seq!['*', '*', '[']
        + decimal((total - k) as nat) + seq![']', ' ', '*', '*'] + line_safe_text(
        match titles[k] {
            Some(t) => t@,
            None => "Song"@,
        },
    ) + seq!['\n']);
}

/// The listing of a non-empty queue opens with its first track at the
/// queue's length as position and closes with its last track at position 1.
pub proof fn queue_listing_numbering(titles: Seq<Option<Seq<char>>>)
    requires
        titles.len() > 0,
    ensures
        queue_listing(titles, titles.len()).subrange(
            0,
            queue_entry(titles[0], titles.len()).len() as int,
        ) == queue_entry(titles[0], titles.len()),
        queue_listing(titles, titles.len()) == queue_listing(titles.drop_last(), titles.len())
            + queue_entry(titles.last(), 1),
{
    lemma_listing_starts_with_first(titles, titles.len());
}

proof fn lemma_listing_starts_with_first(titles: Seq<Option<Seq<char>>>, total: nat)
    requires
        titles.len() > 0,
    ensures
        queue_listing(titles, total).len() >= queue_entry(titles[0], total).len(),
        queue_listing(titles, total).subrange(0, queue_entry(titles[0], total).len() as int)
            == queue_entry(titles[0], total),
    decreases titles.len(),
{
    let first = queue_entry(titles[0], total);
    let whole = queue_listing(titles, total);
    if titles.len() == 1 {
        assert(titles.drop_last() =~= Seq::<Option<Seq<char>>>::empty());
        assert(queue_listing(titles.drop_last(), total) =~= Seq::<char>::empty());
        assert(titles.last() == titles[0]);
        assert(whole =~= first);
        assert(whole.subrange(0, first.len() as int) =~= first);
    } else {
        let rest = titles.drop_last();
        lemma_listing_starts_with_first(rest, total);
        assert(rest[0] == titles[0]);
        let head = queue_listing(rest, total);
        assert(whole.subrange(0, first.len() as int) =~= head.subrange(0, first.len() as int));
    }
}

/// The answer to a request for the queue. `queue` holds the title metadata
/// of each queued track in order, or is `None` when the guild has no voice
/// handler to read it from.
pub fn view_queue(queue: Option<&Vec<Option<String>>>) -> (r: Result<String, String>)
    ensures
        match queue {
            None => r is Err && r->Err_0@ == no_queue_text(),
            Some(titles) => r is Ok && r->Ok_0@ == if titles.len() == 0 {
                empty_queue_text()
            } else {
                queue_listing(titles_view(titles@), titles.len() as nat)
            },
        },
{
    match queue {
        None => Err(String::from_str("Unable to fetch queue")),
        Some(titles) => {
            let n = titles.len();
            if n < 1 {
                return Ok(String::from_str("Nothing is queued right now"));
            }
            let ghost all = titles_view(titles@);
            let mut response = String::new();
            let mut position: usize = n;
            let mut i: usize = 0;
            while i < n
                invariant
                    n == titles.len(),
                    all == titles_view(titles@),
                    i <= n,
                    position == n - i,
                    response@ == queue_listing(all.take(i as int), n as nat),
                decreases n - i,
            {
                proof {
                    reveal_strlit("[");
                    reveal_strlit("] ");
                }
                let mut label = String::from_str("[");
                let digits = to_decimal(position as u64);
                label.append(digits.as_str());
                label.append("] ");
                response = push_bold(response, label.as_str());
                let title = title_text(&titles[i]);
                response = push_line_safe(response, title.as_str());
                proof {
                    let next = all.take(i + 1);
                    assert(next.drop_last() =~= all.take(i as int));
                    assert(next.last() == title_view(titles@[i as int]));
                    assert(label@ =~= seq!['['] + decimal(position as nat) + seq![']', ' ']);
                }
                position = position - 1;
                i = i + 1;
            }
            assert(all.take(n as int) =~= all);
            Ok(response)
        },
    }
}

} // verus!
