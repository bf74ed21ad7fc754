use tbg::game_engine::flow::{Command, Event, GameFlow, Request, Stage};
use tbg::input::Key;
use tbg::models::menu::{gender_from_outcome, gender_menu, Menu, MenuOutcome};
use tbg::{GameEvent, Gender};

fn texts(commands: &[Command]) -> Vec<String> {
    commands
        .iter()
        .map(|c| match c {
            Command::ShowTitle => "<title>".to_string(),
            Command::TypeText(t) => t.clone(),
            Command::WaitForEnter => "<enter>".to_string(),
        })
        .collect()
}

#[test]
fn main_screen_keys() {
    assert_eq!(GameEvent::from_key(Key::Char('q')), GameEvent::Quit);
    assert_eq!(GameEvent::from_key(Key::Char('t')), GameEvent::ToggleMusic);
    assert_eq!(GameEvent::from_key(Key::Char('r')), GameEvent::PlayMusic);
    assert_eq!(GameEvent::from_key(Key::Enter), GameEvent::Continue);
    assert_eq!(GameEvent::from_key(Key::Char('x')), GameEvent::Other(Key::Char('x')));
    assert_eq!(GameEvent::Quit.message(), Some("Quitting game!!"));
    assert_eq!(GameEvent::ToggleMusic.message(), Some("Toggling music..."));
    assert_eq!(GameEvent::PlayMusic.message(), Some("Playing music..."));
    assert_eq!(GameEvent::Continue.message(), Some("Continue"));
    assert_eq!(GameEvent::Other(Key::Up).message(), None);
    assert!(GameEvent::Quit.ends_loop());
    assert!(!GameEvent::Continue.ends_loop());
}

#[test]
fn menu_navigation() {
    let mut m = Menu::new("Pick".to_string(), vec!["a".to_string(), "b".to_string(), "c".to_string()]);
    assert!(m.use_simulate_typing);
    assert_eq!(m.handle_key(Key::Up), MenuOutcome::Moved);
    assert_eq!(m.selected_index, 0);
    assert!(!m.use_simulate_typing);
    m.handle_key(Key::Down);
    m.handle_key(Key::Down);
    m.handle_key(Key::Down);
    assert_eq!(m.selected_index, 2);
    assert_eq!(m.lines(), vec!["  a", "  b", "> c"]);
    m.handle_key(Key::Up);
    assert_eq!(m.handle_key(Key::Enter), MenuOutcome::Chosen(1));
    assert_eq!(m.handle_key(Key::Char('x')), MenuOutcome::Abandoned);
}

#[test]
fn gender_menu_choices() {
    let mut m = gender_menu();
    assert_eq!(m.message, "Please select your gender:");
    assert_eq!(m.lines(), vec!["> Male", "  Female", "  Choose not to specify"]);
    m.handle_key(Key::Down);
    let outcome = m.handle_key(Key::Enter);
    assert_eq!(gender_from_outcome(&m, outcome), Some(Gender::Female));
    m.handle_key(Key::Down);
    let outcome = m.handle_key(Key::Enter);
    assert_eq!(gender_from_outcome(&m, outcome), Some(Gender::Unspecified));
    assert_eq!(gender_from_outcome(&m, MenuOutcome::Abandoned), Some(Gender::Unspecified));
    assert_eq!(gender_from_outcome(&m, MenuOutcome::Moved), None);
}

#[test]
fn new_player_opening() {
    let (mut flow, step) = GameFlow::start();
    assert_eq!(texts(&step.commands), vec!["<title>", "<enter>"]);
    assert!(matches!(step.request, Request::LoadPlayer));
    let step = flow.handle(Event::PlayerLoaded(None));
    assert_eq!(
        texts(&step.commands),
        vec!["Welcome to the wonderful world of The Book Game!", "<enter>", "What is your name?"]
    );
    assert!(matches!(step.request, Request::ReadName));
    let step = flow.handle(Event::NameEntered(" \t ".to_string()));
    assert_eq!(texts(&step.commands), vec!["Please enter a valid name."]);
    assert!(matches!(step.request, Request::ReadName));
    let step = flow.handle(Event::NameEntered("Ada".to_string()));
    assert!(step.commands.is_empty());
    assert!(matches!(&step.request, Request::CreatePlayer(n) if n == "Ada"));
    let step = flow.handle(Event::PlayerCreated);
    assert_eq!(texts(&step.commands), vec!["Hello, Ada!"]);
    let step = flow.handle(Event::ProgressLoaded("character_creation".to_string()));
    assert_eq!(texts(&step.commands), vec!["<enter>"]);
    assert!(matches!(step.request, Request::ChooseGender));
    let step = flow.handle(Event::GenderChosen(Gender::Female));
    assert!(matches!(&step.request, Request::SaveCharacter(Gender::Female, s) if s == "book_tutorial"));
    let step = flow.handle(Event::CharacterSaved(Gender::Female));
    assert_eq!(
        texts(&step.commands),
        vec!["You selected: Female", "<enter>", "Now, let's start the adventure!", "<enter>"]
    );
    assert!(matches!(step.request, Request::Finish));
    assert!(matches!(flow.stage, Stage::Done));
}

#[test]
fn returning_player_opening() {
    let (mut flow, _) = GameFlow::start();
    let step = flow.handle(Event::PlayerLoaded(Some("Bo".to_string())));
    assert_eq!(texts(&step.commands), vec!["Welcome back, Bo! Ready to continue?"]);
    assert!(matches!(step.request, Request::LoadProgress));
    let step = flow.handle(Event::ProgressLoaded("character_creation".to_string()));
    assert_eq!(
        texts(&step.commands),
        vec!["<enter>", "Looks like you're still creating your character.", "<enter>"]
    );
    assert!(matches!(step.request, Request::ChooseGender));
}

#[test]
fn finished_player_goes_straight_to_the_adventure() {
    let (mut flow, _) = GameFlow::start();
    flow.handle(Event::PlayerLoaded(Some("Bo".to_string())));
    let step = flow.handle(Event::ProgressLoaded("book_tutorial".to_string()));
    assert_eq!(texts(&step.commands), vec!["<enter>", "Now, let's start the adventure!", "<enter>"]);
    assert!(matches!(step.request, Request::Finish));
}

#[test]
fn unexpected_answer_asks_again() {
    let (mut flow, _) = GameFlow::start();
    let step = flow.handle(Event::PlayerCreated);
    assert!(step.commands.is_empty());
    assert!(matches!(step.request, Request::LoadPlayer));
    assert!(matches!(flow.stage, Stage::AwaitPlayer));
}
