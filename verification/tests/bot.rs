use std::collections::HashMap;

use mku::cmd::play::{after_join, PlayStep};
use mku::cmd::{reply, OptionKind, OptionValue};
use mku::handler::{guild_commands, interaction_embed};
use mku::{
    join_channel, join_target, parse_u64, queue_song, queue_song_reply, queued_reply, to_decimal,
    view_queue, QueueOutcome,
};

#[test]
fn decimal_of_numbers() {
    assert_eq!(to_decimal(0), "0");
    assert_eq!(to_decimal(7), "7");
    assert_eq!(to_decimal(10), "10");
    assert_eq!(to_decimal(81384788765712384), "81384788765712384");
    assert_eq!(to_decimal(u64::MAX), "18446744073709551615");
}

#[test]
fn parse_accepts_digits_and_plus() {
    assert_eq!(parse_u64("0"), Some(0));
    assert_eq!(parse_u64("+42"), Some(42));
    assert_eq!(parse_u64("007"), Some(7));
    assert_eq!(parse_u64("18446744073709551615"), Some(u64::MAX));
}

#[test]
fn parse_rejects_malformed_and_overflow() {
    assert_eq!(parse_u64(""), None);
    assert_eq!(parse_u64("+"), None);
    assert_eq!(parse_u64("-1"), None);
    assert_eq!(parse_u64(" 1"), None);
    assert_eq!(parse_u64("12a"), None);
    assert_eq!(parse_u64("++1"), None);
    assert_eq!(parse_u64("18446744073709551616"), None);
    assert_eq!(parse_u64("99999999999999999999x"), None);
}

#[test]
fn parse_agrees_with_std() {
    for text in ["", "+", "1", "+1", "-0", "00", "1 ", "4294967296", "18446744073709551616", "٣"] {
        assert_eq!(parse_u64(text), text.parse::<u64>().ok(), "{text}");
    }
}

#[test]
fn parse_reads_back_decimal() {
    for n in [0u64, 1, 9, 10, 99, 100, 123456789, u64::MAX] {
        assert_eq!(parse_u64(&to_decimal(n)), Some(n));
    }
}

#[test]
fn join_target_finds_the_authors_channel() {
    let mut states = HashMap::new();
    states.insert(1u64, Some(100u64));
    states.insert(2u64, None);
    assert_eq!(join_target(&states, 1), Ok(100));
    let refusal = "I cannot join you, since you aren't connected to any voice channel right now. Please join a voice channel and try again.".to_string();
    assert_eq!(join_target(&states, 2), Err(refusal.clone()));
    assert_eq!(join_target(&states, 3), Err(refusal));
}

#[test]
fn join_channel_mentions_the_channel() {
    assert_eq!(
        join_channel(81384788765712384, true),
        Ok("**Joined:** <#81384788765712384>".to_string())
    );
    assert_eq!(
        join_channel(5, false),
        Err("Something went wrong. I can't join your channel right now...".to_string())
    );
}

#[test]
fn queue_song_checks_the_link() {
    assert_eq!(queue_song("https://example.com/song"), Ok(()));
    assert_eq!(queue_song("http"), Ok(()));
    let invalid =
        Err("Oh no, your URL does not seem to be valid. I dont know what to play...".to_string());
    assert_eq!(queue_song("htt"), invalid);
    assert_eq!(queue_song("ftp://example.com"), invalid);
    assert_eq!(queue_song(""), invalid);
    assert_eq!(queue_song("HTTP://x"), invalid);
}

#[test]
fn queue_song_reply_texts() {
    assert_eq!(queue_song_reply(&QueueOutcome::NoHandler), Ok(String::new()));
    assert_eq!(
        queue_song_reply(&QueueOutcome::NoSource),
        Err("Oh no, i couldnt find any music to play at that link...".to_string())
    );
    assert_eq!(
        queue_song_reply(&QueueOutcome::Queued {
            last_track: Some(Some("Tune".to_string())),
            queue_len: 3
        }),
        Ok("**Queued** *\"Tune (3:09)\"* **at position:** *3*".to_string())
    );
    assert_eq!(
        queue_song_reply(&QueueOutcome::Queued { last_track: Some(None), queue_len: 12 }),
        Ok("**Queued** *\"Song (3:09)\"* **at position:** *12*".to_string())
    );
    assert_eq!(
        queue_song_reply(&QueueOutcome::Queued { last_track: None, queue_len: 0 }),
        Ok("**Queued** *\"Song \"* **at position:** *0*".to_string())
    );
    assert_eq!(
        queue_song_reply(&QueueOutcome::Queued {
            last_track: Some(Some("say \"hi\"".to_string())),
            queue_len: 1
        }),
        Ok("**Queued** *\"say \\\"hi\\\" (3:09)\"* **at position:** *1*".to_string())
    );
}

#[test]
fn queued_reply_layout() {
    assert_eq!(queued_reply("\"x\"", 45), "**Queued** *\"x\"* **at position:** *45*");
}

#[test]
fn view_queue_counts_down() {
    let titles = vec![Some("a*b".to_string()), None, Some("c_d".to_string())];
    assert_eq!(
        view_queue(Some(&titles)),
        Ok("**[3] **a\\*b\n**[2] **Song\n**[1] **c\\_d\n".to_string())
    );
}

#[test]
fn view_queue_empty_and_missing() {
    assert_eq!(view_queue(Some(&Vec::new())), Ok("Nothing is queued right now".to_string()));
    assert_eq!(view_queue(None), Err("Unable to fetch queue".to_string()));
}

#[test]
fn view_queue_defuses_mentions() {
    let titles = vec![Some("@everyone discord.gg/x".to_string())];
    assert_eq!(
        view_queue(Some(&titles)),
        Ok("**[1] **@\u{200B}everyone discord\u{2024}gg/x\n".to_string())
    );
}

#[test]
fn reply_colours() {
    let ok = reply(Ok("fine".to_string()));
    assert_eq!(ok.color, 0xF6DBD8);
    assert_eq!(ok.text, "fine");
    let err = reply(Err("bad".to_string()));
    assert_eq!(err.color, 0xE74C3C);
    assert_eq!(err.text, "bad");
}

#[test]
fn join_body_answers() {
    let joined = mku::cmd::join::body(7, true);
    assert_eq!(joined.color, 0xF6DBD8);
    assert_eq!(joined.text, "**Joined:** <#7>");
    let failed = mku::cmd::join::body(7, false);
    assert_eq!(failed.color, 0xE74C3C);
    assert_eq!(failed.text, "Something went wrong. I can't join your channel right now...");
}

#[test]
fn queue_body_answers() {
    let titles = vec![Some("x".to_string())];
    let shown = mku::cmd::queue::body(Some(&titles));
    assert_eq!(shown.color, 0xF6DBD8);
    assert_eq!(shown.text, "**[1] **x\n");
    let missing = mku::cmd::queue::body(None);
    assert_eq!(missing.color, 0xE74C3C);
    assert_eq!(missing.text, "Unable to fetch queue");
}

#[test]
fn play_stops_after_a_failed_join() {
    assert!(matches!(after_join(Ok("**Joined:** <#1>".to_string())), PlayStep::Queue));
    match after_join(Err("no".to_string())) {
        PlayStep::Answer(r) => {
            assert_eq!(r.color, 0xE74C3C);
            assert_eq!(r.text, "no");
        },
        PlayStep::Queue => panic!("a failed join must not queue"),
    }
}

#[test]
fn play_url_option() {
    let text = vec![Some(OptionValue::Text("https://x".to_string()))];
    assert_eq!(mku::cmd::play::url_option(&text), "https://x");
    assert_eq!(mku::cmd::slash::play::url_option(&text), "https://x");
    let other = vec![Some(OptionValue::Other)];
    assert_eq!(mku::cmd::play::url_option(&other), "");
}

#[test]
fn sing_words_in_italics() {
    let words = vec!["hello".to_string(), "@everyone".to_string(), "a_b".to_string()];
    let sung = mku::cmd::sing::sing(&words);
    assert_eq!(sung.text, "_hello_ _@\u{200B}everyone_ _a b_ ");
    assert_eq!(sung.color, 0xF4DBD6);
    assert_eq!(mku::cmd::sing::sing(&Vec::new()).text, "");
}

#[test]
fn sing_concatenation() {
    let a = vec!["x".to_string()];
    let b = vec!["y".to_string(), "z".to_string()];
    let all = vec!["x".to_string(), "y".to_string(), "z".to_string()];
    let joined = mku::cmd::sing::sing(&a).text + &mku::cmd::sing::sing(&b).text;
    assert_eq!(mku::cmd::sing::sing(&all).text, joined);
}

#[test]
fn slash_sing_run() {
    let text = vec![Some(OptionValue::Text("la_la".to_string()))];
    let e = mku::cmd::sing::run(&text);
    assert_eq!(e.title, None);
    assert_eq!(e.description, "_la la_");
    assert_eq!(e.color, 0xF6DBD8);
    let other = vec![Some(OptionValue::Other)];
    let e = mku::cmd::slash::sing::run(&other);
    assert_eq!(e.description, "_Oh no... i cant sing that._");
}

#[test]
fn interaction_dispatch() {
    let text = vec![Some(OptionValue::Text("hey".to_string()))];
    let sung = interaction_embed("sing", &text);
    assert_eq!(sung.title, None);
    assert_eq!(sung.description, "_hey_");
    assert_eq!(sung.color, 0xF6DBD8);
    let unknown = interaction_embed("dance", &Vec::new());
    assert_eq!(unknown.title, Some("Ups...".to_string()));
    assert_eq!(
        unknown.description,
        "I don't know that slash command... How did you even sent that to me?"
    );
    assert_eq!(unknown.color, 0xE74C3C);
}

#[test]
fn command_announcements() {
    let play = mku::cmd::play::register();
    assert_eq!(play.name, "play");
    assert_eq!(play.description, "I will add a song from a URL to the current queue");
    assert_eq!(play.options.len(), 1);
    assert_eq!(play.options[0].name, "url");
    assert_eq!(play.options[0].kind, OptionKind::Text);
    assert!(play.options[0].required);
    let sing = mku::cmd::slash::sing::register();
    assert_eq!(sing.name, "sing");
    assert_eq!(sing.options[0].name, "text");
    assert_eq!(sing.options[0].description, "This is what i am gonna sing");
    let queue = mku::cmd::queue::register();
    assert_eq!(queue.name, "queue");
    assert!(queue.options.is_empty());
    let join = mku::cmd::slash::join::register();
    assert_eq!(join.name, "join");
    assert_eq!(join.description, "Invite me to join your voicechat");
    let announced = guild_commands();
    assert_eq!(announced.len(), 1);
    assert_eq!(announced[0].name, "sing");
}
