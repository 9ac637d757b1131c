use levelbot::greeter::{greet, welcome_for, Greeting, WelcomeConfig};
use levelbot::notice::Notice;
use levelbot::store::Fetched;

fn config() -> WelcomeConfig {
    WelcomeConfig { guild: 11, channel: 77, message: "ようこそ！".to_string() }
}

/// A member's arrival from the lookup to the message; `resolves` says whether
/// the gateway knows the channel it is asked for.
fn join(fetched: Fetched<WelcomeConfig>, resolves: bool) -> (Vec<Greeting>, Vec<Notice>) {
    let outcome = welcome_for(fetched).and_then(|config| greet(config, resolves));
    match outcome {
        Ok(greeting) => (vec![greeting], vec![]),
        Err(notice) => (vec![], vec![notice]),
    }
}

#[test]
fn configured_guild_is_to_be_welcomed() {
    assert_eq!(welcome_for(Fetched::Found(config())), Ok(config()));
}

#[test]
fn guild_without_a_welcome_is_left_alone() {
    assert_eq!(welcome_for(Fetched::Missing), Err(Notice::NoWelcomeConfigured));
}

#[test]
fn unread_configuration_is_reported() {
    assert_eq!(welcome_for(Fetched::Unavailable), Err(Notice::StoreUnavailable));
}

#[test]
fn resolved_channel_gets_the_configured_text() {
    assert_eq!(
        greet(config(), true),
        Ok(Greeting { channel: 77, text: "ようこそ！".to_string() })
    );
}

#[test]
fn unresolved_channel_gets_nothing() {
    assert_eq!(greet(config(), false), Err(Notice::ChannelUnresolvable));
}

#[test]
fn empty_welcome_text_is_sent_as_it_is() {
    let config = WelcomeConfig { guild: 1, channel: u64::MAX, message: String::new() };
    assert_eq!(greet(config, true), Ok(Greeting { channel: u64::MAX, text: String::new() }));
}

#[test]
fn join_with_a_welcome_sends_one_message() {
    let (sent, logged) = join(Fetched::Found(config()), true);
    assert_eq!(sent, vec![Greeting { channel: 77, text: "ようこそ！".to_string() }]);
    assert_eq!(logged, vec![]);
}

#[test]
fn join_without_a_welcome_sends_nothing_and_logs_once() {
    let (sent, logged) = join(Fetched::Missing, true);
    assert_eq!(sent, vec![]);
    assert_eq!(logged, vec![Notice::NoWelcomeConfigured]);
}

#[test]
fn join_with_a_lost_channel_sends_nothing_and_logs_once() {
    let (sent, logged) = join(Fetched::Found(config()), false);
    assert_eq!(sent, vec![]);
    assert_eq!(logged, vec![Notice::ChannelUnresolvable]);
}
