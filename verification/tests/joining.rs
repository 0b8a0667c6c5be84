use trinity::action::{outbound, outbound_events, Action, Message, Outbound};
use trinity::intake::accept;
use trinity::join::{should_join, JoinBackoff, Retry, FIRST_DELAY_SECS, MAX_DELAY_SECS};

#[test]
fn backoff_doubles_from_one_second_and_gives_up_past_an_hour() {
    assert_eq!(FIRST_DELAY_SECS, 1);
    assert_eq!(MAX_DELAY_SECS, 3600);
    let mut backoff = JoinBackoff::new();
    let mut waits = Vec::new();
    loop {
        let Retry { wait, again } = backoff.on_failure();
        waits.push(wait);
        if !again {
            break;
        }
    }
    assert_eq!(waits, vec![1, 2, 4, 8, 16, 32, 64, 128, 256, 512, 1024, 2048]);
    assert_eq!(backoff.delay, 4096);
}

#[test]
fn backoff_saturates_instead_of_overflowing() {
    let mut backoff = JoinBackoff { delay: u64::MAX / 2 + 1 };
    assert_eq!(backoff.on_failure(), Retry { wait: u64::MAX / 2 + 1, again: false });
    assert_eq!(backoff.delay, u64::MAX);
    assert_eq!(backoff.on_failure(), Retry { wait: u64::MAX, again: false });
    let mut backoff = JoinBackoff { delay: 1800 };
    assert_eq!(backoff.on_failure(), Retry { wait: 1800, again: true });
    let mut backoff = JoinBackoff { delay: 1801 };
    assert_eq!(backoff.on_failure(), Retry { wait: 1801, again: false });
}

#[test]
fn invitations_for_others_are_ignored() {
    assert!(should_join("@bot:server", "@bot:server", true));
    assert!(!should_join("@other:server", "@bot:server", true));
    assert!(!should_join("@bot:server", "@bot:server", false));
}

#[test]
fn only_text_from_others_in_joined_rooms_is_accepted() {
    let body = || Some("hello".to_string());
    assert_eq!(accept(true, "@u:s", "@bot:s", false, body()), body());
    assert_eq!(accept(false, "@u:s", "@bot:s", false, body()), None);
    assert_eq!(accept(true, "@bot:s", "@bot:s", false, body()), None);
    assert_eq!(accept(true, "@u:s", "@bot:s", true, body()), None);
    assert_eq!(accept(true, "@u:s", "@bot:s", false, None), None);
}

#[test]
fn actions_become_messages_and_reactions() {
    let plain = Action::Respond(Message { text: "t".to_string(), html: None, to: "@u:s".to_string() });
    let rich = Action::Respond(Message {
        text: "t".to_string(),
        html: Some("<b>t</b>".to_string()),
        to: "@u:s".to_string(),
    });
    let react = Action::React("+1".to_string());
    assert_eq!(outbound(plain.clone(), "$e"), Outbound::Plain { text: "t".to_string() });
    assert_eq!(
        outbound(rich.clone(), "$e"),
        Outbound::Html { text: "t".to_string(), html: "<b>t</b>".to_string() }
    );
    assert_eq!(
        outbound(react.clone(), "$e"),
        Outbound::Reaction { target: "$e".to_string(), key: "+1".to_string() }
    );
    assert_eq!(
        outbound_events(vec![react, plain, rich], "$e"),
        vec![
            Outbound::Reaction { target: "$e".to_string(), key: "+1".to_string() },
            Outbound::Plain { text: "t".to_string() },
            Outbound::Html { text: "t".to_string(), html: "<b>t</b>".to_string() },
        ]
    );
    assert_eq!(outbound_events(Vec::new(), "$e"), Vec::<Outbound>::new());
}

#[test]
fn plain_and_rich_build_replies() {
    assert_eq!(
        Action::plain("hi", "@u:s"),
        Action::Respond(Message { text: "hi".to_string(), html: None, to: "@u:s".to_string() })
    );
    assert_eq!(
        Action::rich("hi".to_string(), "<i>hi</i>".to_string(), "@u:s"),
        Action::Respond(Message {
            text: "hi".to_string(),
            html: Some("<i>hi</i>".to_string()),
            to: "@u:s".to_string()
        })
    );
}
