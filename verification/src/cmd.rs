//! The commands that the bot answers to.
//!
//! The catalogue that is published to the transport and the lookup from a
//! name back to its command both read the one table in this file, so neither
//! can know a command that the other does not. An invocation is parsed into
//! a command with its arguments by that lookup, and is then carried out step
//! by step by the command's own module. What a command declares as required
//! is what its parser cannot do without.

use vstd::prelude::*;
use crate::discord::{ContextView, ExecutionContext};
use crate::effect::{Action, ActionView, Event, EventView};
use crate::error::{RequestError, RequestErrorView};
use crate::invocation::{
    CommandOptionView, Invocation, InvocationView, OptionValueView, attachment_named,
    last_attachment, last_text, lemma_last_attachment_is_last, lemma_last_text_is_last, missing,
    text_named,
};
use crate::text::same_text;

pub mod join;
pub mod leave;
pub mod next;
pub mod pause;
pub mod ping;
pub mod play;
pub mod prev;
pub mod resume;
pub mod stop;
pub mod upload;

verus! {

/// The commands, without their arguments.
#[derive(Clone, Copy, Debug, PartialEq, Eq, Hash, Structural)]
pub enum RequestKind {
    Ping,
    Join,
    Leave,
    Play,
    Pause,
    Resume,
    Stop,
    Next,
    Prev,
    Upload,
}

/// How many commands there are.
pub const REQUEST_KIND_COUNT: usize = 10;

/// A parameter that a command declares to the transport.
#[derive(Clone, Copy, Debug, PartialEq, Eq)]
pub enum RawCommandOptionEntry {
    Text { name: &'static str, description: &'static str, required: bool },
    Boolean { name: &'static str, description: &'static str, required: bool },
    Channel { name: &'static str, description: &'static str, required: bool },
    Attachment { name: &'static str, description: &'static str, required: bool },
}

/// The types that a parameter's value can have.
pub enum ParameterType {
    Text,
    Boolean,
    Channel,
    Attachment,
}

/// The mathematical value of a [`RawCommandOptionEntry`].
pub struct OptionEntryView {
    pub kind: ParameterType,
    pub name: Seq<char>,
    pub description: Seq<char>,
    pub required: bool,
}

impl View for RawCommandOptionEntry {
    type V = OptionEntryView;

    open spec fn view(&self) -> OptionEntryView {
        match self {
            RawCommandOptionEntry::Text { name, description, required } => OptionEntryView {
                kind: ParameterType::Text,
                name: name@,
                description: description@,
                required: *required,
            },
            RawCommandOptionEntry::Boolean { name, description, required } => OptionEntryView {
                kind: ParameterType::Boolean,
                name: name@,
                description: description@,
                required: *required,
            },
            RawCommandOptionEntry::Channel { name, description, required } => OptionEntryView {
                kind: ParameterType::Channel,
                name: name@,
                description: description@,
                required: *required,
            },
            RawCommandOptionEntry::Attachment { name, description, required } => OptionEntryView {
                kind: ParameterType::Attachment,
                name: name@,
                description: description@,
                required: *required,
            },
        }
    }
}

impl DeepView for RawCommandOptionEntry {
    type V = OptionEntryView;

    open spec fn deep_view(&self) -> OptionEntryView {
        self@
    }
}

/// An entry of the catalogue that is published to the transport.
#[derive(Debug, PartialEq, Eq)]
pub enum CommandTreeTop<T> {
    /// A command that is typed into the chat input, with no subcommands.
    NakedChatInput(T),
}

/// Every command once, in the order of the catalogue.
pub open spec fn all_kinds() -> Seq<RequestKind> {
    seq![
        RequestKind::Ping,
        RequestKind::Join,
        RequestKind::Leave,
        RequestKind::Play,
        RequestKind::Pause,
        RequestKind::Resume,
        RequestKind::Stop,
        RequestKind::Next,
        RequestKind::Prev,
        RequestKind::Upload,
    ]
}

/// The name that a command goes by.
pub open spec fn name_of(kind: RequestKind) -> Seq<char> {
    match kind {
        RequestKind::Ping => "ping"@,
        RequestKind::Join => "join"@,
        RequestKind::Leave => "leave"@,
        RequestKind::Play => "play"@,
        RequestKind::Pause => "pause"@,
        RequestKind::Resume => "resume"@,
        RequestKind::Stop => "stop"@,
        RequestKind::Next => "next"@,
        RequestKind::Prev => "prev"@,
        RequestKind::Upload => "upload"@,
    }
}

/// What a command says of itself.
pub open spec fn description_of(kind: RequestKind) -> Seq<char> {
    match kind {
        RequestKind::Ping => "Ping!"@,
        RequestKind::Join => "Ask Yamble to join a voice channel. (Or the one you're in!)"@,
        RequestKind::Leave => "Make Yamble leave voice."@,
        RequestKind::Play => "Ask Yamble to play something."@,
        RequestKind::Pause => "Ask Yamble to pause."@,
        RequestKind::Resume => "Ask Yamble to resume."@,
        RequestKind::Stop => "Stops Yamble from playing audio"@,
        RequestKind::Next => "Play the next thing in the queue."@,
        RequestKind::Prev => "Play the previous thing in the queue."@,
        RequestKind::Upload => "Upload an audio snippet that Yamble can play"@,
    }
}

/// An optional channel parameter called `target`.
pub open spec fn target_entry(description: Seq<char>) -> OptionEntryView {
    OptionEntryView { kind: ParameterType::Channel, name: "target"@, description, required: false }
}

/// The parameters that a command declares, in order.
pub open spec fn options_of(kind: RequestKind) -> Seq<OptionEntryView> {
    match kind {
        RequestKind::Ping => seq![],
        RequestKind::Join => seq![target_entry("Channel to join"@)],
        RequestKind::Leave => seq![],
        RequestKind::Play => seq![
            OptionEntryView {
                kind: ParameterType::Text,
                name: "music"@,
                description: "Music to play (youtube url or name of uploaded sound)"@,
                required: true,
            },
            target_entry("Channel to join"@),
            OptionEntryView {
                kind: ParameterType::Boolean,
                name: "clear_playlist"@,
                description: "Clear the queue and immediately play the new song. By default queues the song at the end."@,
                required: false,
            },
        ],
        RequestKind::Pause => seq![target_entry("Channel to effect"@)],
        RequestKind::Resume => seq![target_entry("Channel to effect"@)],
        RequestKind::Stop => seq![target_entry("Channel to effect"@)],
        RequestKind::Next => seq![target_entry("Channel to effect"@)],
        RequestKind::Prev => seq![target_entry("Channel to effect"@)],
        RequestKind::Upload => seq![
            OptionEntryView {
                kind: ParameterType::Text,
                name: "name"@,
                description: "Name to save file as"@,
                required: true,
            },
            OptionEntryView {
                kind: ParameterType::Attachment,
                name: "sound"@,
                description: "sound to upload"@,
                required: true,
            },
        ],
    }
}

/// The first command of `table` that goes by `name`.
pub open spec fn lookup_in(table: Seq<RequestKind>, name: Seq<char>) -> Option<RequestKind>
    decreases table.len(),
{
    if table.len() == 0 {
        None
    } else if name_of(table[0]) == name {
        Some(table[0])
    } else {
        lookup_in(table.drop_first(), name)
    }
}

/// The command that goes by `name`, if there is one.
pub open spec fn lookup(name: Seq<char>) -> Option<RequestKind> {
    lookup_in(all_kinds(), name)
}

/// The catalogue as it is published: one entry for each command.
pub open spec fn catalogue() -> Seq<CommandTreeTop<RequestKind>> {
    all_kinds().map_values(|kind: RequestKind| CommandTreeTop::NakedChatInput(kind))
}

impl RequestKind {
    /// Every command once, in the order of the catalogue.
    pub fn all() -> (kinds: Vec<RequestKind>)
        ensures
            kinds@ == all_kinds(),
            kinds@.len() == REQUEST_KIND_COUNT,
    {
        let kinds = vec![
            RequestKind::Ping,
            RequestKind::Join,
            RequestKind::Leave,
            RequestKind::Play,
            RequestKind::Pause,
            RequestKind::Resume,
            RequestKind::Stop,
            RequestKind::Next,
            RequestKind::Prev,
            RequestKind::Upload,
        ];
        assert(kinds@ =~= all_kinds());
        kinds
    }

    /// The name that the command goes by.
    pub fn name(&self) -> (name: &'static str)
        ensures
            name@ == name_of(*self),
    {
        match self {
            RequestKind::Ping => "ping",
            RequestKind::Join => "join",
            RequestKind::Leave => "leave",
            RequestKind::Play => "play",
            RequestKind::Pause => "pause",
            RequestKind::Resume => "resume",
            RequestKind::Stop => "stop",
            RequestKind::Next => "next",
            RequestKind::Prev => "prev",
            RequestKind::Upload => "upload",
        }
    }

    /// What the command says of itself.
    pub fn description(&self) -> (description: &'static str)
        ensures
            description@ == description_of(*self),
    {
        match self {
            RequestKind::Ping => "Ping!",
            RequestKind::Join => "Ask Yamble to join a voice channel. (Or the one you're in!)",
            RequestKind::Leave => "Make Yamble leave voice.",
            RequestKind::Play => "Ask Yamble to play something.",
            RequestKind::Pause => "Ask Yamble to pause.",
            RequestKind::Resume => "Ask Yamble to resume.",
            RequestKind::Stop => "Stops Yamble from playing audio",
            RequestKind::Next => "Play the next thing in the queue.",
            RequestKind::Prev => "Play the previous thing in the queue.",
            RequestKind::Upload => "Upload an audio snippet that Yamble can play",
        }
    }

    /// The parameters that the command declares, in order.
    pub fn options(&self) -> (entries: Vec<RawCommandOptionEntry>)
        ensures
            entries.deep_view() == options_of(*self),
    {
        let entries = match self {
            RequestKind::Ping => vec![],
            RequestKind::Join => vec![
                RawCommandOptionEntry::Channel {
                    name: "target",
                    description: "Channel to join",
                    required: false,
                },
            ],
            RequestKind::Leave => vec![],
            RequestKind::Play => vec![
                RawCommandOptionEntry::Text {
                    name: "music",
                    description: "Music to play (youtube url or name of uploaded sound)",
                    required: true,
                },
                RawCommandOptionEntry::Channel {
                    name: "target",
                    description: "Channel to join",
                    required: false,
                },
                RawCommandOptionEntry::Boolean {
                    name: "clear_playlist",
                    description: "Clear the queue and immediately play the new song. By default queues the song at the end.",
                    required: false,
                },
            ],
            RequestKind::Pause | RequestKind::Resume | RequestKind::Stop | RequestKind::Next | RequestKind::Prev => vec![
                RawCommandOptionEntry::Channel {
                    name: "target",
                    description: "Channel to effect",
                    required: false,
                },
            ],
            RequestKind::Upload => vec![
                RawCommandOptionEntry::Text {
                    name: "name",
                    description: "Name to save file as",
                    required: true,
                },
                RawCommandOptionEntry::Attachment {
                    name: "sound",
                    description: "sound to upload",
                    required: true,
                },
            ],
        };
        assert(entries.deep_view() =~= options_of(*self));
        entries
    }

    /// The command that goes by `name`, if there is one.
    pub fn from_name(name: &str) -> (found: Option<RequestKind>)
        ensures
            found == lookup(name@),
    {
        let table = RequestKind::all();
        assert(table@.skip(0) =~= table@);
        let mut i: usize = 0;
        while i < table.len()
            invariant
                i <= table.len(),
                table@ == all_kinds(),
                lookup(name@) == lookup_in(table@.skip(i as int), name@),
            decreases table.len() - i,
        {
            assert(table@.skip(i as int)[0] == table@[i as int]);
            assert(table@.skip(i as int).drop_first() =~= table@.skip(i + 1));
            if same_text(table[i].name(), name) {
                return Some(table[i]);
            }
            i = i + 1;
        }
        None
    }
}

/// The catalogue to publish to the transport: one entry for each command.
pub fn generate_command_descriptions() -> (entries: Vec<CommandTreeTop<RequestKind>>)
    ensures
        entries@ == catalogue(),
{
    let kinds = RequestKind::all();
    let mut entries: Vec<CommandTreeTop<RequestKind>> = Vec::new();
    let mut i: usize = 0;
    while i < kinds.len()
        invariant
            i <= kinds.len(),
            kinds@ == all_kinds(),
            entries@ == catalogue().take(i as int),
        decreases kinds.len() - i,
    {
        entries.push(CommandTreeTop::NakedChatInput(kinds[i]));
        assert(catalogue().take(i + 1) =~= catalogue().take(i as int).push(catalogue()[i as int]));
        i = i + 1;
    }
    assert(catalogue().take(i as int) =~= catalogue());
    entries
}

/// No two commands go by the same name.
pub proof fn lemma_names_are_distinct(a: RequestKind, b: RequestKind)
    ensures
        name_of(a) == name_of(b) ==> a == b,
{
    reveal_strlit("ping");
    reveal_strlit("join");
    reveal_strlit("leave");
    reveal_strlit("play");
    reveal_strlit("pause");
    reveal_strlit("resume");
    reveal_strlit("stop");
    reveal_strlit("next");
    reveal_strlit("prev");
    reveal_strlit("upload");
    if a != b && name_of(a) == name_of(b) {
        assert(name_of(a).len() == name_of(b).len());
        assert(name_of(a)[0] == name_of(b)[0]);
        assert(name_of(a)[1] == name_of(b)[1]);
        assert(name_of(a)[2] == name_of(b)[2]);
    }
}

/// The catalogue holds every command, each at one place only.
pub proof fn lemma_catalogue_is_complete(kind: RequestKind)
    ensures
        catalogue().len() == REQUEST_KIND_COUNT,
        exists|i: int| 0 <= i < catalogue().len() && catalogue()[i] == CommandTreeTop::NakedChatInput(kind),
        forall|i: int, j: int|
            0 <= i < catalogue().len() && 0 <= j < catalogue().len() && catalogue()[i] == catalogue()[j]
                ==> i == j,
{
    let index: int = match kind {
        RequestKind::Ping => 0,
        RequestKind::Join => 1,
        RequestKind::Leave => 2,
        RequestKind::Play => 3,
        RequestKind::Pause => 4,
        RequestKind::Resume => 5,
        RequestKind::Stop => 6,
        RequestKind::Next => 7,
        RequestKind::Prev => 8,
        RequestKind::Upload => 9,
    };
    assert(catalogue()[index] == CommandTreeTop::NakedChatInput(kind));
}

/// A lookup finds nothing but the command that goes by the name, and fails
/// only where no command does.
pub proof fn lemma_lookup_is_sound(name: Seq<char>)
    ensures
        match lookup(name) {
            Some(kind) => name_of(kind) == name,
            None => forall|kind: RequestKind| name_of(kind) != name,
        },
{
    reveal_with_fuel(lookup_in, 11);
    assert forall|kind: RequestKind| lookup(name) is None implies name_of(kind) != name by {
        lemma_catalogue_is_complete(kind);
        let i = choose|i: int| 0 <= i < catalogue().len() && catalogue()[i] == CommandTreeTop::NakedChatInput(kind);
        assert(all_kinds()[i] == kind);
    }
}

/// The catalogue and the lookup agree: every command that the catalogue
/// publishes is found again under its own name.
pub proof fn lemma_lookup_finds_each_command(kind: RequestKind)
    ensures
        lookup(name_of(kind)) == Some(kind),
{
    lemma_lookup_is_sound(name_of(kind));
    match lookup(name_of(kind)) {
        Some(found) => {
            lemma_names_are_distinct(found, kind);
        },
        None => {},
    }
}

/// A command with its arguments, and how far it has been carried out.
#[derive(Debug)]
pub enum RequestArgs {
    Ping(ping::Request),
    Join(join::Request),
    Leave(leave::Request),
    Play(play::Request),
    Pause(pause::Request),
    Resume(resume::Request),
    Stop(stop::Request),
    Next(next::Request),
    Prev(prev::Request),
    Upload(upload::Request),
}

/// The mathematical value of a [`RequestArgs`].
pub enum RequestArgsView {
    Ping(ping::Stage),
    Join(join::RequestView),
    Leave(leave::RequestView),
    Play(play::RequestView),
    Pause(crate::queue::Stage),
    Resume(crate::queue::Stage),
    Stop(crate::queue::Stage),
    Next(crate::queue::Stage),
    Prev(crate::queue::Stage),
    Upload(upload::RequestView),
}

impl View for RequestArgs {
    type V = RequestArgsView;

    open spec fn view(&self) -> RequestArgsView {
        match self {
            RequestArgs::Ping(req) => RequestArgsView::Ping(req@),
            RequestArgs::Join(req) => RequestArgsView::Join(req@),
            RequestArgs::Leave(req) => RequestArgsView::Leave(req@),
            RequestArgs::Play(req) => RequestArgsView::Play(req@),
            RequestArgs::Pause(req) => RequestArgsView::Pause(req@),
            RequestArgs::Resume(req) => RequestArgsView::Resume(req@),
            RequestArgs::Stop(req) => RequestArgsView::Stop(req@),
            RequestArgs::Next(req) => RequestArgsView::Next(req@),
            RequestArgs::Prev(req) => RequestArgsView::Prev(req@),
            RequestArgs::Upload(req) => RequestArgsView::Upload(req@),
        }
    }
}

/// The command that the arguments are for.
pub open spec fn kind_of(args: RequestArgsView) -> RequestKind {
    match args {
        RequestArgsView::Ping(_) => RequestKind::Ping,
        RequestArgsView::Join(_) => RequestKind::Join,
        RequestArgsView::Leave(_) => RequestKind::Leave,
        RequestArgsView::Play(_) => RequestKind::Play,
        RequestArgsView::Pause(_) => RequestKind::Pause,
        RequestArgsView::Resume(_) => RequestKind::Resume,
        RequestArgsView::Stop(_) => RequestKind::Stop,
        RequestArgsView::Next(_) => RequestKind::Next,
        RequestArgsView::Prev(_) => RequestKind::Prev,
        RequestArgsView::Upload(_) => RequestKind::Upload,
    }
}

/// The failure of an invocation whose name is no command's.
pub open spec fn unknown_command() -> RequestErrorView {
    RequestErrorView::Internal("Unknown command."@)
}

/// The arguments of the command `kind` as parsed from an invocation.
pub open spec fn parsed_as(kind: RequestKind, cmd: InvocationView) -> Result<RequestArgsView, RequestErrorView> {
    match kind {
        RequestKind::Ping => Ok(RequestArgsView::Ping(ping::Stage::Start)),
        RequestKind::Join => Ok(RequestArgsView::Join(join::parsed(cmd.options))),
        RequestKind::Leave => Ok(RequestArgsView::Leave(leave::RequestView { stage: leave::Stage::Start })),
        RequestKind::Play => match play::parsed(cmd.options) {
            Ok(req) => Ok(RequestArgsView::Play(req)),
            Err(error) => Err(error),
        },
        RequestKind::Pause => Ok(RequestArgsView::Pause(crate::queue::Stage::Start)),
        RequestKind::Resume => Ok(RequestArgsView::Resume(crate::queue::Stage::Start)),
        RequestKind::Stop => Ok(RequestArgsView::Stop(crate::queue::Stage::Start)),
        RequestKind::Next => Ok(RequestArgsView::Next(crate::queue::Stage::Start)),
        RequestKind::Prev => Ok(RequestArgsView::Prev(crate::queue::Stage::Start)),
        RequestKind::Upload => match upload::parsed(cmd.options) {
            Ok(req) => Ok(RequestArgsView::Upload(req)),
            Err(error) => Err(error),
        },
    }
}

/// An invocation as parsed: the command that goes by the invocation's name,
/// with its arguments read from the parameters. A name that is no command's
/// is an internal failure: the transport was given the catalogue and should
/// send nothing else.
pub open spec fn parsed(cmd: InvocationView) -> Result<RequestArgsView, RequestErrorView> {
    match lookup(cmd.name) {
        Some(kind) => parsed_as(kind, cmd),
        None => Err(unknown_command()),
    }
}

/// One step of a command: the arguments and the reply channel after `event`,
/// and the action to perform next. `fresh` is the storage id that the step
/// draws, if it draws one; only an `upload` does.
pub open spec fn step(args: RequestArgsView, ctx: ContextView, event: EventView, fresh: Seq<char>) -> (
    RequestArgsView,
    ContextView,
    ActionView,
) {
    match args {
        RequestArgsView::Ping(stage) => {
            let next = ping::step(stage, ctx, event);
            (RequestArgsView::Ping(next.0), next.1, next.2)
        },
        RequestArgsView::Join(req) => {
            let next = join::step(req, ctx, event);
            (RequestArgsView::Join(next.0), next.1, next.2)
        },
        RequestArgsView::Leave(req) => {
            let next = leave::step(req, ctx, event);
            (RequestArgsView::Leave(next.0), next.1, next.2)
        },
        RequestArgsView::Play(req) => {
            let next = play::step(req, ctx, event);
            (RequestArgsView::Play(next.0), next.1, next.2)
        },
        RequestArgsView::Pause(stage) => {
            let next = pause::step(stage, ctx, event);
            (RequestArgsView::Pause(next.0), next.1, next.2)
        },
        RequestArgsView::Resume(stage) => {
            let next = resume::step(stage, ctx, event);
            (RequestArgsView::Resume(next.0), next.1, next.2)
        },
        RequestArgsView::Stop(stage) => {
            let next = stop::step(stage, ctx, event);
            (RequestArgsView::Stop(next.0), next.1, next.2)
        },
        RequestArgsView::Next(stage) => {
            let next = next::step(stage, ctx, event);
            (RequestArgsView::Next(next.0), next.1, next.2)
        },
        RequestArgsView::Prev(stage) => {
            let next = prev::step(stage, ctx, event);
            (RequestArgsView::Prev(next.0), next.1, next.2)
        },
        RequestArgsView::Upload(req) => {
            let next = upload::step(req, ctx, event, fresh);
            (RequestArgsView::Upload(next.0), next.1, next.2)
        },
    }
}

impl RequestKind {
    /// Parses an invocation: looks the command up by the invocation's name
    /// and reads its arguments from the parameters. Parameters that the
    /// command does not know are passed over.
    pub fn parse(cmd: &Invocation) -> (result: Result<RequestArgs, RequestError>)
        ensures
            match result {
                Ok(args) => parsed(cmd@) == Ok::<RequestArgsView, RequestErrorView>(args@),
                Err(error) => parsed(cmd@) == Err::<RequestArgsView, RequestErrorView>(error@),
            },
    {
        match RequestKind::from_name(cmd.name.as_str()) {
            None => Err(RequestError::internal("Unknown command.")),
            Some(kind) => kind.parse_arguments(cmd),
        }
    }

    /// Reads the arguments of this command from an invocation's parameters.
    /// It fails exactly where a parameter that the command cannot do without
    /// is missing, and the failure names the parameter.
    pub fn parse_arguments(&self, cmd: &Invocation) -> (result: Result<RequestArgs, RequestError>)
        ensures
            match result {
                Ok(args) => parsed_as(*self, cmd@) == Ok::<RequestArgsView, RequestErrorView>(args@),
                Err(error) => parsed_as(*self, cmd@) == Err::<RequestArgsView, RequestErrorView>(error@),
            },
    {
        match self {
            RequestKind::Ping => match ping::Request::parse(cmd) {
                Ok(req) => Ok(RequestArgs::Ping(req)),
                Err(error) => Err(error),
            },
            RequestKind::Join => match join::Request::parse(cmd) {
                Ok(req) => Ok(RequestArgs::Join(req)),
                Err(error) => Err(error),
            },
            RequestKind::Leave => match leave::Request::parse(cmd) {
                Ok(req) => Ok(RequestArgs::Leave(req)),
                Err(error) => Err(error),
            },
            RequestKind::Play => match play::Request::parse(cmd) {
                Ok(req) => Ok(RequestArgs::Play(req)),
                Err(error) => Err(error),
            },
            RequestKind::Pause => match pause::Request::parse(cmd) {
                Ok(req) => Ok(RequestArgs::Pause(req)),
                Err(error) => Err(error),
            },
            RequestKind::Resume => match resume::Request::parse(cmd) {
                Ok(req) => Ok(RequestArgs::Resume(req)),
                Err(error) => Err(error),
            },
            RequestKind::Stop => match stop::Request::parse(cmd) {
                Ok(req) => Ok(RequestArgs::Stop(req)),
                Err(error) => Err(error),
            },
            RequestKind::Next => match next::Request::parse(cmd) {
                Ok(req) => Ok(RequestArgs::Next(req)),
                Err(error) => Err(error),
            },
            RequestKind::Prev => match prev::Request::parse(cmd) {
                Ok(req) => Ok(RequestArgs::Prev(req)),
                Err(error) => Err(error),
            },
            RequestKind::Upload => match upload::Request::parse(cmd) {
                Ok(req) => Ok(RequestArgs::Upload(req)),
                Err(error) => Err(error),
            },
        }
    }
}

impl RequestArgs {
    /// The command that the arguments are for.
    pub fn kind(&self) -> (kind: RequestKind)
        ensures
            kind == kind_of(self@),
    {
        match self {
            RequestArgs::Ping(_) => RequestKind::Ping,
            RequestArgs::Join(_) => RequestKind::Join,
            RequestArgs::Leave(_) => RequestKind::Leave,
            RequestArgs::Play(_) => RequestKind::Play,
            RequestArgs::Pause(_) => RequestKind::Pause,
            RequestArgs::Resume(_) => RequestKind::Resume,
            RequestArgs::Stop(_) => RequestKind::Stop,
            RequestArgs::Next(_) => RequestKind::Next,
            RequestArgs::Prev(_) => RequestKind::Prev,
            RequestArgs::Upload(_) => RequestKind::Upload,
        }
    }

    /// Carries the command one step further: takes the answer to the action
    /// that was asked last, or `Event::Begin` on the first call, and returns
    /// the command as it stands now with the action to perform next. Whoever
    /// drives the command performs the action and calls again with its
    /// answer, until the action is `Finish`.
    ///
    /// What comes back is the step of the command for some storage id, since
    /// an `upload` may draw one.
    pub fn execute(self, ctx: &mut ExecutionContext, event: Event) -> (next: (RequestArgs, Action))
        ensures
            exists|fresh: Seq<char>|
                upload::is_storage_id(fresh) && (next.0@, final(ctx)@, next.1@) == #[trigger] step(
                    self@,
                    old(ctx)@,
                    event@,
                    fresh,
                ),
    {
        proof {
            upload::lemma_storage_ids_exist();
        }
        let ghost any = choose|id: Seq<char>| upload::is_storage_id(id);
        let ghost before = self@;
        let ghost channel = ctx@;
        let ghost handed = event@;
        match self {
            RequestArgs::Ping(req) => {
                let (req, action) = req.execute(ctx, event);
                assert((RequestArgsView::Ping(req@), ctx@, action@) == step(before, channel, handed, any));
                (RequestArgs::Ping(req), action)
            },
            RequestArgs::Join(req) => {
                let (req, action) = req.execute(ctx, event);
                assert((RequestArgsView::Join(req@), ctx@, action@) == step(before, channel, handed, any));
                (RequestArgs::Join(req), action)
            },
            RequestArgs::Leave(req) => {
                let (req, action) = req.execute(ctx, event);
                assert((RequestArgsView::Leave(req@), ctx@, action@) == step(before, channel, handed, any));
                (RequestArgs::Leave(req), action)
            },
            RequestArgs::Play(req) => {
                let (req, action) = req.execute(ctx, event);
                assert((RequestArgsView::Play(req@), ctx@, action@) == step(before, channel, handed, any));
                (RequestArgs::Play(req), action)
            },
            RequestArgs::Pause(req) => {
                let (req, action) = req.execute(ctx, event);
                assert((RequestArgsView::Pause(req@), ctx@, action@) == step(before, channel, handed, any));
                (RequestArgs::Pause(req), action)
            },
            RequestArgs::Resume(req) => {
                let (req, action) = req.execute(ctx, event);
                assert((RequestArgsView::Resume(req@), ctx@, action@) == step(before, channel, handed, any));
                (RequestArgs::Resume(req), action)
            },
            RequestArgs::Stop(req) => {
                let (req, action) = req.execute(ctx, event);
                assert((RequestArgsView::Stop(req@), ctx@, action@) == step(before, channel, handed, any));
                (RequestArgs::Stop(req), action)
            },
            RequestArgs::Next(req) => {
                let (req, action) = req.execute(ctx, event);
                assert((RequestArgsView::Next(req@), ctx@, action@) == step(before, channel, handed, any));
                (RequestArgs::Next(req), action)
            },
            RequestArgs::Prev(req) => {
                let (req, action) = req.execute(ctx, event);
                assert((RequestArgsView::Prev(req@), ctx@, action@) == step(before, channel, handed, any));
                (RequestArgs::Prev(req), action)
            },
            RequestArgs::Upload(req) => {
                let ghost inner = req@;
                let (req, action) = req.execute(ctx, event);
                proof {
                    let fresh = choose|fresh: Seq<char>|
                        upload::is_storage_id(fresh) && (req@, ctx@, action@) == #[trigger] upload::step(
                            inner,
                            channel,
                            handed,
                            fresh,
                        );
                    assert((RequestArgsView::Upload(req@), ctx@, action@) == step(before, channel, handed, fresh));
                }
                (RequestArgs::Upload(req), action)
            },
        }
    }
}

/// Parsing fails on three kinds of invocation and no other: one whose name
/// is no command's, a `play` without music, and an `upload` without a name
/// or a sound.
pub proof fn lemma_parse_fails_only_for_want(cmd: InvocationView)
    ensures
        parsed(cmd) is Err <==> {
            ||| lookup(cmd.name) is None
            ||| lookup(cmd.name) == Some(RequestKind::Play) && last_text(cmd.options, "music"@) is None
            ||| lookup(cmd.name) == Some(RequestKind::Upload) && (last_text(cmd.options, "name"@) is None
                || last_attachment(cmd.options, "sound"@) is None)
        },
        parsed(cmd) matches Ok(args) ==> lookup(cmd.name) == Some(kind_of(args)),
{
}

/// A request for a known command that lacks a required parameter fails as
/// the user's to fix, with a text that names a parameter that the command
/// declares. It never fails as an internal failure: that is kept for names
/// that are no command's.
pub proof fn lemma_validation_failures_are_user_facing(cmd: InvocationView)
    ensures
        parsed(cmd) matches Err(error) ==> match lookup(cmd.name) {
            None => error == unknown_command(),
            Some(kind) => error is User && exists|i: int|
                0 <= i < options_of(kind).len() && error == missing(#[trigger] options_of(kind)[i].name),
        },
{
    match lookup(cmd.name) {
        Some(RequestKind::Play) => {
            assert(options_of(RequestKind::Play)[0].name == "music"@);
        },
        Some(RequestKind::Upload) => {
            assert(options_of(RequestKind::Upload)[0].name == "name"@);
            assert(options_of(RequestKind::Upload)[1].name == "sound"@);
        },
        _ => {},
    }
}

/// Whether a value is of the type that a declaration asks for.
pub open spec fn holds_kind(value: OptionValueView, kind: ParameterType) -> bool {
    match kind {
        ParameterType::Text => value is Text,
        ParameterType::Boolean => value is Boolean,
        ParameterType::Channel => value is Channel,
        ParameterType::Attachment => value is Attachment,
    }
}

/// Whether the parameters of an invocation supply what `entry` declares: a
/// parameter of the declared name that holds a value of the declared type.
pub open spec fn supplies(options: Seq<CommandOptionView>, entry: OptionEntryView) -> bool {
    exists|i: int|
        0 <= i < options.len() && (#[trigger] options[i]).name == entry.name && holds_kind(
            options[i].value,
            entry.kind,
        )
}

/// Whether `at` is the place of the first declaration of `kind` that is
/// required and not supplied.
pub open spec fn first_want(kind: RequestKind, options: Seq<CommandOptionView>, at: int) -> bool {
    &&& 0 <= at < options_of(kind).len()
    &&& options_of(kind)[at].required
    &&& !supplies(options, options_of(kind)[at])
    &&& forall|i: int|
        0 <= i < at && (#[trigger] options_of(kind)[i]).required ==> supplies(options, options_of(kind)[i])
}

/// The parameters that `play` and `upload` read are supplied exactly where
/// the parser finds them.
pub proof fn lemma_supplied_is_found(options: Seq<CommandOptionView>)
    ensures
        supplies(options, options_of(RequestKind::Play)[0]) <==> last_text(options, "music"@) is Some,
        supplies(options, options_of(RequestKind::Upload)[0]) <==> last_text(options, "name"@) is Some,
        supplies(options, options_of(RequestKind::Upload)[1]) <==> last_attachment(options, "sound"@) is Some,
{
    lemma_last_text_is_last(options, "music"@);
    lemma_last_text_is_last(options, "name"@);
    lemma_last_attachment_is_last(options, "sound"@);
    let music = options_of(RequestKind::Play)[0];
    let name = options_of(RequestKind::Upload)[0];
    let sound = options_of(RequestKind::Upload)[1];
    assert forall|i: int| 0 <= i < options.len() implies {
        &&& (#[trigger] options[i]).name == music.name && holds_kind(options[i].value, music.kind) <==> text_named(
            options[i],
            "music"@,
        ) is Some
        &&& options[i].name == name.name && holds_kind(options[i].value, name.kind) <==> text_named(
            options[i],
            "name"@,
        ) is Some
        &&& options[i].name == sound.name && holds_kind(options[i].value, sound.kind) <==> attachment_named(
            options[i],
            "sound"@,
        ) is Some
    } by {}
}

/// The catalogue and the parser agree on what is required: parsing the
/// arguments of a command fails exactly where some parameter that the
/// command declares as required is not supplied, and the failure names the
/// first such parameter in the order of the declarations. A parameter that
/// is declared optional can always be left out.
pub proof fn lemma_required_is_what_the_parser_requires(kind: RequestKind, cmd: InvocationView)
    ensures
        parsed_as(kind, cmd) is Err <==> exists|i: int|
            0 <= i < options_of(kind).len() && (#[trigger] options_of(kind)[i]).required && !supplies(
                cmd.options,
                options_of(kind)[i],
            ),
        forall|at: int| #[trigger]
            first_want(kind, cmd.options, at) ==> parsed_as(kind, cmd) == Err::<RequestArgsView, RequestErrorView>(
                missing(options_of(kind)[at].name),
            ),
{
    lemma_supplied_is_found(cmd.options);
    match kind {
        RequestKind::Play => {
            if parsed_as(kind, cmd) is Err {
                assert(options_of(kind)[0].required && !supplies(cmd.options, options_of(kind)[0]));
            }
        },
        RequestKind::Upload => {
            if parsed_as(kind, cmd) is Err {
                if last_text(cmd.options, "name"@) is None {
                    assert(options_of(kind)[0].required && !supplies(cmd.options, options_of(kind)[0]));
                } else {
                    assert(options_of(kind)[1].required && !supplies(cmd.options, options_of(kind)[1]));
                }
            }
            assert forall|at: int| #[trigger] first_want(kind, cmd.options, at) implies parsed_as(kind, cmd)
                == Err::<RequestArgsView, RequestErrorView>(missing(options_of(kind)[at].name)) by {
                if at == 1 {
                    assert(options_of(kind)[0].required);
                }
            }
        },
        _ => {},
    }
}

/// No command declares two parameters of one name.
pub proof fn lemma_declared_names_are_distinct(kind: RequestKind, i: int, j: int)
    requires
        0 <= i < options_of(kind).len(),
        0 <= j < options_of(kind).len(),
        options_of(kind)[i].name == options_of(kind)[j].name,
    ensures
        i == j,
{
    reveal_strlit("music");
    reveal_strlit("target");
    reveal_strlit("clear_playlist");
    reveal_strlit("name");
    reveal_strlit("sound");
    match kind {
        RequestKind::Play => {
            let declared = options_of(RequestKind::Play);
            assert(declared[0].name[0] == 'm' && declared[1].name[0] == 't' && declared[2].name[0] == 'c');
        },
        RequestKind::Upload => {
            let declared = options_of(RequestKind::Upload);
            assert(declared[0].name[0] == 'n' && declared[1].name[0] == 's');
        },
        _ => {},
    }
}

} // verus!
