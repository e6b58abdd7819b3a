use gated_channel::messages::{announcement_text, welcome_text};

#[test]
fn announcement_names_the_channel_and_invites_reactions() {
    assert_eq!(
        announcement_text("movie-night"),
        "The channel movie-night was created! React to this post if interested."
    );
}

#[test]
fn welcome_names_the_channel_and_explains_the_close_reaction() {
    assert_eq!(
        welcome_text("movie-night"),
        "Welcome to movie-night, react to close this channel."
    );
}

#[test]
fn message_texts_carry_the_name_verbatim_including_spaces() {
    assert_eq!(
        welcome_text("board game night"),
        "Welcome to board game night, react to close this channel."
    );
}
