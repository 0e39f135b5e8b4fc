use mini_less::pager::{normal_command, Command, Key};

#[test]
fn keys_map_to_commands() {
    assert_eq!(normal_command(Key::Char('j', false)), Command::Down);
    assert_eq!(normal_command(Key::Down), Command::Down);
    assert_eq!(normal_command(Key::Char('k', false)), Command::Up);
    assert_eq!(normal_command(Key::Up), Command::Up);
    assert_eq!(normal_command(Key::Char('h', false)), Command::Left);
    assert_eq!(normal_command(Key::Left), Command::Left);
    assert_eq!(normal_command(Key::Char('l', false)), Command::Right);
    assert_eq!(normal_command(Key::Right), Command::Right);
    assert_eq!(normal_command(Key::Char('u', true)), Command::HalfPageUp);
    assert_eq!(normal_command(Key::Char('d', true)), Command::HalfPageDown);
    assert_eq!(normal_command(Key::Char('u', false)), Command::Ignore);
    assert_eq!(normal_command(Key::Char('d', false)), Command::Ignore);
    assert_eq!(normal_command(Key::Char('/', false)), Command::OpenSearch);
    assert_eq!(normal_command(Key::Char('n', false)), Command::NextMatch);
    assert_eq!(normal_command(Key::Char('N', false)), Command::PreviousMatch);
    assert_eq!(normal_command(Key::Esc), Command::Quit);
    assert_eq!(normal_command(Key::Enter), Command::Ignore);
    assert_eq!(normal_command(Key::Other), Command::Ignore);
}
