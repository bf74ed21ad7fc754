//! The opening of a game session as a state machine: the title screen,
//! greeting a returning player or creating a new one, the gender choice
//! that finishes character creation, and the start of the adventure.
//!
//! The machine decides; the caller performs. Each step hands back
//! commands to carry out in order (text to show, a key to wait for) and one
//! request whose answer is the next event.
use crate::models::gender::{display_name_spec, Gender};
use crate::text::{concat, is_blank, is_blank_spec, same_text};
use vstd::prelude::*;

verus! {

broadcast use vstd::string::group_string_axioms;

/// The stage of a fresh player, before they chose a gender.
pub open spec fn character_creation() -> Seq<char> {
    "character_creation"@
}

/// The stage a player moves to once their character is complete.
pub open spec fn book_tutorial() -> Seq<char> {
    "book_tutorial"@
}

pub open spec fn welcome_back(name: Seq<char>) -> Seq<char> {
    "Welcome back, "@ + name + "! Ready to continue?"@
}

pub open spec fn welcome_new() -> Seq<char> {
    "Welcome to the wonderful world of The Book Game!"@
}

pub open spec fn ask_name() -> Seq<char> {
    "What is your name?"@
}

pub open spec fn ask_valid_name() -> Seq<char> {
    "Please enter a valid name."@
}

pub open spec fn hello(name: Seq<char>) -> Seq<char> {
    "Hello, "@ + name + "!"@
}

pub open spec fn still_creating() -> Seq<char> {
    "Looks like you're still creating your character."@
}

pub open spec fn you_selected(g: Gender) -> Seq<char> {
    "You selected: "@ + display_name_spec(g)
}

pub open spec fn adventure_starts() -> Seq<char> {
    "Now, let's start the adventure!"@
}

/// Something to show or wait for; it gets no answer.
pub enum Command {
    /// The title screen.
    ShowTitle,
    /// A line typed out letter by letter.
    TypeText(String),
    /// Wait until the player presses Enter.
    WaitForEnter,
}

/// Something to find out or store; its answer is the next event.
pub enum Request {
    /// Load the most recent player; answered by `PlayerLoaded`.
    LoadPlayer,
    /// Read a line of input; answered by `NameEntered`.
    ReadName,
    /// Store a new player of this name, with the default gender, and their
    /// game state; answered by `PlayerCreated`.
    CreatePlayer(String),
    /// Load the player and their game state again; answered by
    /// `ProgressLoaded` with the game state's stage.
    LoadProgress,
    /// Let the player pick a gender; answered by `GenderChosen`.
    ChooseGender,
    /// Store this gender for the player and move their game state to this
    /// stage, then load the player again; answered by `CharacterSaved`.
    SaveCharacter(Gender, String),
    /// The opening is over.
    Finish,
}

/// An answer to a request.
pub enum Event {
    PlayerLoaded(Option<String>),
    NameEntered(String),
    PlayerCreated,
    ProgressLoaded(String),
    GenderChosen(Gender),
    CharacterSaved(Gender),
}

/// Where the opening stands, by the request it waits on.
pub enum Stage {
    AwaitPlayer,
    AwaitName,
    AwaitCreated(String),
    /// Whether the player was created in this session.
    AwaitProgress(bool),
    AwaitGender,
    AwaitSaved(Gender),
    Done,
}

pub enum CommandView {
    ShowTitle,
    TypeText(Seq<char>),
    WaitForEnter,
}

pub enum RequestView {
    LoadPlayer,
    ReadName,
    CreatePlayer(Seq<char>),
    LoadProgress,
    ChooseGender,
    SaveCharacter(Gender, Seq<char>),
    Finish,
}

pub enum EventView {
    PlayerLoaded(Option<Seq<char>>),
    NameEntered(Seq<char>),
    PlayerCreated,
    ProgressLoaded(Seq<char>),
    GenderChosen(Gender),
    CharacterSaved(Gender),
}

pub enum StageView {
    AwaitPlayer,
    AwaitName,
    AwaitCreated(Seq<char>),
    AwaitProgress(bool),
    AwaitGender,
    AwaitSaved(Gender),
    Done,
}

impl View for Command {
    type V = CommandView;

    open spec fn view(&self) -> CommandView {
        match self {
            Command::ShowTitle => CommandView::ShowTitle,
            Command::TypeText(s) => CommandView::TypeText(s@),
            Command::WaitForEnter => CommandView::WaitForEnter,
        }
    }
}

impl View for Request {
    type V = RequestView;

    open spec fn view(&self) -> RequestView {
        match self {
            Request::LoadPlayer => RequestView::LoadPlayer,
            Request::ReadName => RequestView::ReadName,
            Request::CreatePlayer(s) => RequestView::CreatePlayer(s@),
            Request::LoadProgress => RequestView::LoadProgress,
            Request::ChooseGender => RequestView::ChooseGender,
            Request::SaveCharacter(g, s) => RequestView::SaveCharacter(*g, s@),
            Request::Finish => RequestView::Finish,
        }
    }
}

impl View for Event {
    type V = EventView;

    open spec fn view(&self) -> EventView {
        match self {
            Event::PlayerLoaded(o) => EventView::PlayerLoaded(
                match o {
                    Some(s) => Some(s@),
                    None => None,
                },
            ),
            Event::NameEntered(s) => EventView::NameEntered(s@),
            Event::PlayerCreated => EventView::PlayerCreated,
            Event::ProgressLoaded(s) => EventView::ProgressLoaded(s@),
            Event::GenderChosen(g) => EventView::GenderChosen(*g),
            Event::CharacterSaved(g) => EventView::CharacterSaved(*g),
        }
    }
}

impl View for Stage {
    type V = StageView;

    open spec fn view(&self) -> StageView {
        match self {
            Stage::AwaitPlayer => StageView::AwaitPlayer,
            Stage::AwaitName => StageView::AwaitName,
            Stage::AwaitCreated(s) => StageView::AwaitCreated(s@),
            Stage::AwaitProgress(b) => StageView::AwaitProgress(*b),
            Stage::AwaitGender => StageView::AwaitGender,
            Stage::AwaitSaved(g) => StageView::AwaitSaved(*g),
            Stage::Done => StageView::Done,
        }
    }
}

/// What a step hands back.
pub struct Step {
    pub commands: Vec<Command>,
    pub request: Request,
}

/// A step as the machine's rules give it.
pub struct StepView {
    pub stage: StageView,
    pub commands: Seq<CommandView>,
    pub request: RequestView,
}

/// The request a stage waits on.
pub open spec fn pending(s: StageView) -> RequestView {
    match s {
        StageView::AwaitPlayer => RequestView::LoadPlayer,
        StageView::AwaitName => RequestView::ReadName,
        StageView::AwaitCreated(n) => RequestView::CreatePlayer(n),
        StageView::AwaitProgress(_) => RequestView::LoadProgress,
        StageView::AwaitGender => RequestView::ChooseGender,
        StageView::AwaitSaved(g) => RequestView::SaveCharacter(g, book_tutorial()),
        StageView::Done => RequestView::Finish,
    }
}

/// The first step: the title screen, then the search for a player.
pub open spec fn opening() -> StepView {
    StepView {
        stage: StageView::AwaitPlayer,
        commands: seq![CommandView::ShowTitle, CommandView::WaitForEnter],
        request: RequestView::LoadPlayer,
    }
}

/// The closing lines, and the end.
pub open spec fn finale(before: Seq<CommandView>) -> StepView {
    StepView {
        stage: StageView::Done,
        commands: before + seq![
            CommandView::TypeText(adventure_starts()),
            CommandView::WaitForEnter,
        ],
        request: RequestView::Finish,
    }
}

/// The rules of the machine: the step taken from stage `s` on event `e`.
/// An event that does not answer the stage's request changes nothing and
/// asks again.
pub open spec fn transition(s: StageView, e: EventView) -> StepView {
    match (s, e) {
        (StageView::AwaitPlayer, EventView::PlayerLoaded(Some(name))) => StepView {
            stage: StageView::AwaitProgress(false),
            commands: seq![CommandView::TypeText(welcome_back(name))],
            request: RequestView::LoadProgress,
        },
        (StageView::AwaitPlayer, EventView::PlayerLoaded(None)) => StepView {
            stage: StageView::AwaitName,
            commands: seq![
                CommandView::TypeText(welcome_new()),
                CommandView::WaitForEnter,
                CommandView::TypeText(ask_name()),
            ],
            request: RequestView::ReadName,
        },
        (StageView::AwaitName, EventView::NameEntered(name)) => if is_blank_spec(name) {
            StepView {
                stage: StageView::AwaitName,
                commands: seq![CommandView::TypeText(ask_valid_name())],
                request: RequestView::ReadName,
            }
        } else {
            StepView {
                stage: StageView::AwaitCreated(name),
                commands: seq![],
                request: RequestView::CreatePlayer(name),
            }
        },
        (StageView::AwaitCreated(name), EventView::PlayerCreated) => StepView {
            stage: StageView::AwaitProgress(true),
            commands: seq![CommandView::TypeText(hello(name))],
            request: RequestView::LoadProgress,
        },
        (StageView::AwaitProgress(is_new), EventView::ProgressLoaded(stage)) => {
            let creating = stage == character_creation();
            let first = if !is_new && creating {
                seq![
                    CommandView::WaitForEnter,
                    CommandView::TypeText(still_creating()),
                    CommandView::WaitForEnter,
                ]
            } else {
                seq![CommandView::WaitForEnter]
            };
            if creating {
                StepView {
                    stage: StageView::AwaitGender,
                    commands: first,
                    request: RequestView::ChooseGender,
                }
            } else {
                finale(first)
            }
        },
        (StageView::AwaitGender, EventView::GenderChosen(g)) => StepView {
            stage: StageView::AwaitSaved(g),
            commands: seq![],
            request: RequestView::SaveCharacter(g, book_tutorial()),
        },
        (StageView::AwaitSaved(_), EventView::CharacterSaved(g)) => finale(
            seq![CommandView::TypeText(you_selected(g)), CommandView::WaitForEnter],
        ),
        _ => StepView { stage: s, commands: seq![], request: pending(s) },
    }
}

/// Whether a step and the stage after it are as the rules give them.
pub open spec fn matches_view(stage: &Stage, step: &Step, v: StepView) -> bool {
    &&& stage@ == v.stage
    &&& step.commands@.map_values(|c: Command| c@) == v.commands
    &&& step.request@ == v.request
}

fn type_text(text: String) -> (c: Command)
    ensures
        c@ == CommandView::TypeText(text@),
{
    Command::TypeText(text)
}

fn type_str(text: &str) -> (c: Command)
    ensures
        c@ == CommandView::TypeText(text@),
{
    Command::TypeText(text.to_owned())
}

/// The opening of a session, as it stands.
pub struct GameFlow {
    pub stage: Stage,
}

impl GameFlow {
    /// Starts the opening: show the title, wait for Enter, look for a
    /// player.
    pub fn start() -> (r: (GameFlow, Step))
        ensures
            matches_view(&r.0.stage, &r.1, opening()),
    {
        let mut commands: Vec<Command> = Vec::new();
        commands.push(Command::ShowTitle);
        commands.push(Command::WaitForEnter);
        let step = Step { commands, request: Request::LoadPlayer };
        assert(step.commands@.map_values(|c: Command| c@) =~= opening().commands);
        (GameFlow { stage: Stage::AwaitPlayer }, step)
    }

    /// Takes the answer to the last request and gives the next step.
    pub fn handle(&mut self, event: Event) -> (step: Step)
        ensures
            matches_view(&final(self).stage, &step, transition(old(self).stage@, event@)),
    {
        let mut stage = Stage::Done;
        std::mem::swap(&mut stage, &mut self.stage);
        let (next, step) = next_step(stage, event);
        self.stage = next;
        step
    }
}

fn closing(mut commands: Vec<Command>) -> (r: (Stage, Step))
    ensures
        matches_view(&r.0, &r.1, finale(commands@.map_values(|c: Command| c@))),
{
    let ghost before = commands@.map_values(|c: Command| c@);
    commands.push(type_str("Now, let's start the adventure!"));
    commands.push(Command::WaitForEnter);
    let step = Step { commands, request: Request::Finish };
    assert(step.commands@.map_values(|c: Command| c@) =~= finale(before).commands);
    (Stage::Done, step)
}

fn ask_again(stage: Stage) -> (r: (Stage, Step))
    ensures
        matches_view(&r.0, &r.1, StepView { stage: stage@, commands: seq![], request: pending(stage@) }),
{
    let request = match &stage {
        Stage::AwaitPlayer => Request::LoadPlayer,
        Stage::AwaitName => Request::ReadName,
        Stage::AwaitCreated(n) => Request::CreatePlayer(n.clone()),
        Stage::AwaitProgress(_) => Request::LoadProgress,
        Stage::AwaitGender => Request::ChooseGender,
        Stage::AwaitSaved(g) => Request::SaveCharacter(*g, "book_tutorial".to_owned()),
        Stage::Done => Request::Finish,
    };
    let step = Step { commands: Vec::new(), request };
    assert(step.commands@.map_values(|c: Command| c@) =~= Seq::<CommandView>::empty());
    (stage, step)
}

fn next_step(stage: Stage, event: Event) -> (r: (Stage, Step))
    ensures
        matches_view(&r.0, &r.1, transition(stage@, event@)),
{
    match (stage, event) {
        (Stage::AwaitPlayer, Event::PlayerLoaded(Some(name))) => {
            let greeting = concat(concat("Welcome back, ", name.as_str()).as_str(), "! Ready to continue?");
            let mut commands: Vec<Command> = Vec::new();
            commands.push(type_text(greeting));
            let step = Step { commands, request: Request::LoadProgress };
            assert(step.commands@.map_values(|c: Command| c@) =~= seq![CommandView::TypeText(welcome_back(name@))]);
            (Stage::AwaitProgress(false), step)
        },
        (Stage::AwaitPlayer, Event::PlayerLoaded(None)) => {
            let mut commands: Vec<Command> = Vec::new();
            commands.push(type_str("Welcome to the wonderful world of The Book Game!"));
            commands.push(Command::WaitForEnter);
            commands.push(type_str("What is your name?"));
            let step = Step { commands, request: Request::ReadName };
            assert(step.commands@.map_values(|c: Command| c@) =~= seq![
                CommandView::TypeText(welcome_new()),
                CommandView::WaitForEnter,
                CommandView::TypeText(ask_name()),
            ]);
            (Stage::AwaitName, step)
        },
        (Stage::AwaitName, Event::NameEntered(name)) => {
            if is_blank(name.as_str()) {
                let mut commands: Vec<Command> = Vec::new();
                commands.push(type_str("Please enter a valid name."));
                let step = Step { commands, request: Request::ReadName };
                assert(step.commands@.map_values(|c: Command| c@) =~= seq![CommandView::TypeText(ask_valid_name())]);
                (Stage::AwaitName, step)
            } else {
                let step = Step { commands: Vec::new(), request: Request::CreatePlayer(name.clone()) };
                assert(step.commands@.map_values(|c: Command| c@) =~= Seq::<CommandView>::empty());
                (Stage::AwaitCreated(name), step)
            }
        },
        (Stage::AwaitCreated(name), Event::PlayerCreated) => {
            let greeting = concat(concat("Hello, ", name.as_str()).as_str(), "!");
            let mut commands: Vec<Command> = Vec::new();
            commands.push(type_text(greeting));
            let step = Step { commands, request: Request::LoadProgress };
            assert(step.commands@.map_values(|c: Command| c@) =~= seq![CommandView::TypeText(hello(name@))]);
            (Stage::AwaitProgress(true), step)
        },
        (Stage::AwaitProgress(is_new), Event::ProgressLoaded(stage_name)) => {
            let creating = same_text(stage_name.as_str(), "character_creation");
            let mut commands: Vec<Command> = Vec::new();
            commands.push(Command::WaitForEnter);
            if !is_new && creating {
                commands.push(type_str("Looks like you're still creating your character."));
                commands.push(Command::WaitForEnter);
            }
            let ghost first = commands@.map_values(|c: Command| c@);
            assert(first =~= (if !is_new && creating {
                seq![
                    CommandView::WaitForEnter,
                    CommandView::TypeText(still_creating()),
                    CommandView::WaitForEnter,
                ]
            } else {
                seq![CommandView::WaitForEnter]
            }));
            if creating {
                let step = Step { commands, request: Request::ChooseGender };
                (Stage::AwaitGender, step)
            } else {
                closing(commands)
            }
        },
        (Stage::AwaitGender, Event::GenderChosen(g)) => {
            let step = Step {
                commands: Vec::new(),
                request: Request::SaveCharacter(g, "book_tutorial".to_owned()),
            };
            assert(step.commands@.map_values(|c: Command| c@) =~= Seq::<CommandView>::empty());
            (Stage::AwaitSaved(g), step)
        },
        (Stage::AwaitSaved(_), Event::CharacterSaved(g)) => {
            let mut commands: Vec<Command> = Vec::new();
            commands.push(type_text(concat("You selected: ", g.display_name())));
            commands.push(Command::WaitForEnter);
            assert(commands@.map_values(|c: Command| c@) =~= seq![
                CommandView::TypeText(you_selected(g)),
                CommandView::WaitForEnter,
            ]);
            closing(commands)
        },
        (stage, _) => ask_again(stage),
    }
}

/// A player is created only from a name that is not blank, and under
/// exactly the name entered; a blank name is asked for again.
pub proof fn lemma_only_real_names_create_players(name: Seq<char>)
    ensures
        transition(StageView::AwaitName, EventView::NameEntered(name)).request is CreatePlayer
            <==> !is_blank_spec(name),
        transition(StageView::AwaitName, EventView::NameEntered(name)).request matches RequestView::CreatePlayer(
            n,
        ) ==> n == name,
        is_blank_spec(name) ==> transition(StageView::AwaitName, EventView::NameEntered(name))
            == (StepView {
            stage: StageView::AwaitName,
            commands: seq![CommandView::TypeText(ask_valid_name())],
            request: RequestView::ReadName,
        }),
{
}

/// Whenever the character is saved, the game state moves on to the book
/// tutorial, with the gender the player chose.
pub proof fn lemma_saving_completes_creation(s: StageView, e: EventView)
    ensures
        transition(s, e).request matches RequestView::SaveCharacter(g, st) ==> st == book_tutorial()
            && (e == EventView::GenderChosen(g) || s == StageView::AwaitSaved(g)),
{
}

/// The reminder that character creation is unfinished goes only to a
/// returning player whose game state is still at character creation.
pub proof fn lemma_reminder_only_for_returning_players(s: StageView, e: EventView)
    ensures
        transition(s, e).commands.contains(CommandView::TypeText(still_creating())) ==> s
            == StageView::AwaitProgress(false) && e == EventView::ProgressLoaded(
            character_creation(),
        ),
{
    reveal_strlit("Looks like you're still creating your character.");
    reveal_strlit("Welcome back, ");
    reveal_strlit("Welcome to the wonderful world of The Book Game!");
    reveal_strlit("What is your name?");
    reveal_strlit("Please enter a valid name.");
    reveal_strlit("Hello, ");
    reveal_strlit("You selected: ");
    reveal_strlit("Now, let's start the adventure!");
    let t = transition(s, e);
    if t.commands.contains(CommandView::TypeText(still_creating())) {
        let i = choose|i: int| 0 <= i < t.commands.len() && t.commands[i] == CommandView::TypeText(
            still_creating(),
        );
        let x = still_creating();
        assert(x[0] == 'L');
        match (s, e) {
            (StageView::AwaitPlayer, EventView::PlayerLoaded(Some(name))) => {
                assert(welcome_back(name)[0] == 'W');
            },
            (StageView::AwaitCreated(name), EventView::PlayerCreated) => {
                assert(hello(name)[0] == 'H');
            },
            (StageView::AwaitSaved(_), EventView::CharacterSaved(g)) => {
                assert(you_selected(g)[0] == 'Y');
                assert(adventure_starts()[0] == 'N');
            },
            (StageView::AwaitProgress(is_new), EventView::ProgressLoaded(stage)) => {
                assert(adventure_starts()[0] == 'N');
            },
            _ => {
                assert(welcome_new()[0] == 'W');
                assert(ask_name()[0] == 'W');
                assert(ask_valid_name()[0] == 'P');
            },
        }
    }
}

/// The opening never ends without announcing the adventure: any step that
/// finishes it, from a stage that was not already done, closes with that
/// line and a wait for Enter.
pub proof fn lemma_finish_announces_adventure(s: StageView, e: EventView)
    requires
        s != StageView::Done,
        transition(s, e).request == RequestView::Finish,
    ensures
        transition(s, e).stage == StageView::Done,
        transition(s, e).commands.len() >= 2,
        transition(s, e).commands[transition(s, e).commands.len() - 2] == CommandView::TypeText(
            adventure_starts(),
        ),
        transition(s, e).commands.last() == CommandView::WaitForEnter,
{
}

/// An event that does not answer the pending request changes nothing and
/// asks again.
pub proof fn lemma_unexpected_events_ignored(s: StageView, e: EventView)
    requires
        !(s == StageView::AwaitPlayer && e is PlayerLoaded),
        !(s == StageView::AwaitName && e is NameEntered),
        !(s is AwaitCreated && e is PlayerCreated),
        !(s is AwaitProgress && e is ProgressLoaded),
        !(s == StageView::AwaitGender && e is GenderChosen),
        !(s is AwaitSaved && e is CharacterSaved),
    ensures
        transition(s, e) == (StepView { stage: s, commands: seq![], request: pending(s) }),
{
}

} // verus!
