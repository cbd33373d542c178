//! `upload`: store a sound under a fresh path and enter it into the ledger.
//!
//! Nothing is undone when a later step fails: a file may stay behind without
//! a ledger entry.

use vstd::prelude::*;
use crate::db::{
    NewAudioLedgerEntry, NewAudioLedgerEntryView, debug_text, entry_debug_text, ledger_result,
    track_known_audio_in_ledger,
};
use crate::discord::{ContextView, ExecutionContext, deferred};
use crate::effect::{
    Action, ActionView, Event, EventView, Payload, PayloadView, conclude, conclusion, out_of_turn,
    out_of_turn_error, say, say_text, sends_in_order,
};
use crate::error::{RequestError, RequestErrorView};
use crate::invocation::{
    Attachment, AttachmentView, CommandOptionView, Invocation, last_attachment, last_text, missing,
    missing_parameter,
};

verus! {

/// How many paths are tried before the upload is given up.
pub const MAX_CLAIMS: u32 = 8;

/// The directory that holds one directory for each uploaded sound.
pub const UPLOAD_ROOT: &'static str = "uploaded";

/// How far an `upload` has been carried out.
#[derive(Debug, PartialEq, Eq)]
pub enum Stage {
    /// Nothing has been asked yet.
    Start,
    /// The "still working" acknowledgment has been handed to the transport.
    Deferring,
    /// The file at `path` has been asked to be created, as the `attempt`th
    /// path tried.
    Claiming { path: String, attempt: u32 },
    /// The attachment's bytes have been asked for.
    Fetching { path: String },
    /// The bytes have been asked to be written.
    Storing { path: String },
    /// The ledger has been asked to take the entry.
    Recording { path: String },
    /// The reply has been handed to the transport.
    Replying,
    /// The invocation has ended.
    Finished,
}

/// The mathematical value of a [`Stage`].
pub enum StageView {
    Start,
    Deferring,
    Claiming { path: Seq<char>, attempt: u32 },
    Fetching { path: Seq<char> },
    Storing { path: Seq<char> },
    Recording { path: Seq<char> },
    Replying,
    Finished,
}

impl View for Stage {
    type V = StageView;

    open spec fn view(&self) -> StageView {
        match self {
            Stage::Start => StageView::Start,
            Stage::Deferring => StageView::Deferring,
            Stage::Claiming { path, attempt } => StageView::Claiming { path: path@, attempt: *attempt },
            Stage::Fetching { path } => StageView::Fetching { path: path@ },
            Stage::Storing { path } => StageView::Storing { path: path@ },
            Stage::Recording { path } => StageView::Recording { path: path@ },
            Stage::Replying => StageView::Replying,
            Stage::Finished => StageView::Finished,
        }
    }
}

/// A request to store a sound, and how far it has been carried out.
#[derive(Debug)]
pub struct Request {
    name: String,
    sound: Attachment,
    stage: Stage,
}

/// The mathematical value of a [`Request`].
pub struct RequestView {
    /// The name to store the sound under.
    pub name: Seq<char>,
    /// The file that holds the sound.
    pub sound: AttachmentView,
    pub stage: StageView,
}

impl View for Request {
    type V = RequestView;

    closed spec fn view(&self) -> RequestView {
        RequestView { name: self.name@, sound: self.sound@, stage: self.stage@ }
    }
}

/// Whether a character is a digit or one of `a` to `f`.
pub open spec fn is_lower_hex(c: char) -> bool {
    ('0' <= c && c <= '9') || ('a' <= c && c <= 'f')
}

/// Whether `id` has the shape of a storage id: 36 characters, hyphens at
/// the places 8, 13, 18 and 23, digits and `a` to `f` everywhere else.
pub open spec fn is_storage_id(id: Seq<char>) -> bool {
    &&& id.len() == 36
    &&& forall|i: int|
        0 <= i < 36 ==> if i == 8 || i == 13 || i == 18 || i == 23 {
            (#[trigger] id[i]) == '-'
        } else {
            is_lower_hex(id[i])
        }
}

/// Where the sound of an upload is stored: a directory of its own, named by
/// the storage id, holds the file under the name that it came with.
pub open spec fn storage_path(id: Seq<char>, filename: Seq<char>) -> Seq<char> {
    UPLOAD_ROOT@ + "/"@ + id + "/"@ + filename
}

/// The ledger entry of an upload.
pub open spec fn ledger_entry(name: Seq<char>, path: Seq<char>, uploader: u64) -> NewAudioLedgerEntryView {
    NewAudioLedgerEntryView { link_or_name: name, downloaded: true, file_path: path, uploader }
}

/// The reply after the upload is stored and recorded: `Uploaded! ` and the
/// entry as `{:?}` prints it.
pub open spec fn uploaded_text(entry: NewAudioLedgerEntryView) -> Seq<char> {
    "Uploaded! "@ + entry_debug_text(entry.link_or_name, entry.downloaded, entry.file_path, entry.uploader)
}

/// The failure of an upload whose acknowledgment did not get through.
pub open spec fn connect_failure() -> RequestErrorView {
    RequestErrorView::Internal("Could not connect to Discord!"@)
}

/// The failure of an upload whose file could not be fetched or written.
pub open spec fn download_failure() -> RequestErrorView {
    RequestErrorView::Internal("Could not download file."@)
}

/// The failure of an upload that found every path taken.
pub open spec fn claim_failure() -> RequestErrorView {
    RequestErrorView::Internal("Could not find a free storage path."@)
}

/// The request as parsed from an invocation's parameters: the name is the
/// text of the last `name` parameter that holds text, the sound the file of
/// the last `sound` parameter that holds one. Both are required; where both
/// are missing the failure names the name.
pub open spec fn parsed(options: Seq<CommandOptionView>) -> Result<RequestView, RequestErrorView> {
    match last_text(options, "name"@) {
        None => Err(missing("name"@)),
        Some(name) => match last_attachment(options, "sound"@) {
            None => Err(missing("sound"@)),
            Some(sound) => Ok(RequestView { name, sound, stage: StageView::Start }),
        },
    }
}

/// The request with the invocation ended.
pub open spec fn halted(req: RequestView) -> RequestView {
    RequestView { stage: StageView::Finished, ..req }
}

/// The step that tries the path made of the storage id `fresh`, as the
/// `attempt`th path tried.
pub open spec fn claim(req: RequestView, ctx: ContextView, attempt: u32, fresh: Seq<char>) -> (
    RequestView,
    ContextView,
    ActionView,
) {
    let path = storage_path(fresh, req.sound.filename);
    (RequestView { stage: StageView::Claiming { path, attempt }, ..req }, ctx, ActionView::ClaimPath { path })
}

/// Whether the step on `event` tries a new path, and so draws a storage id.
pub open spec fn draws_id(req: RequestView, ctx: ContextView, event: EventView) -> bool {
    match (req.stage, event) {
        (StageView::Start, EventView::Begin) => deferred(ctx).1 is None,
        (StageView::Deferring, EventView::Sent(delivered)) => delivered,
        (StageView::Claiming { path, attempt }, EventView::Claimed(claimed)) => !claimed && attempt < MAX_CLAIMS,
        _ => false,
    }
}

/// One step of an `upload`: the request and the reply channel after `event`,
/// and the action to perform next. `fresh` is the storage id that the step
/// draws, if it draws one.
///
/// - The user gets an acknowledgment first, unless something has been sent
///   already.
/// - A path is made of a fresh storage id and claimed. A path that is taken
///   is given up for another, up to `MAX_CLAIMS` paths in all.
/// - The attachment is fetched and written to the claimed path, and the
///   ledger gets an entry for it.
/// - Every failure on the way ends the invocation as an internal failure.
pub open spec fn step(req: RequestView, ctx: ContextView, event: EventView, fresh: Seq<char>) -> (
    RequestView,
    ContextView,
    ActionView,
) {
    match (req.stage, event) {
        (StageView::Start, EventView::Begin) => match deferred(ctx).1 {
            Some(outbound) => (
                RequestView { stage: StageView::Deferring, ..req },
                deferred(ctx).0,
                ActionView::Send(outbound),
            ),
            None => claim(req, ctx, 1, fresh),
        },
        (StageView::Deferring, EventView::Sent(delivered)) => if delivered {
            claim(req, ctx, 1, fresh)
        } else {
            (halted(req), ctx, ActionView::Finish(Err(connect_failure())))
        },
        (StageView::Claiming { path, attempt }, EventView::Claimed(claimed)) => if claimed {
            (
                RequestView { stage: StageView::Fetching { path }, ..req },
                ctx,
                ActionView::FetchAttachment { id: req.sound.id },
            )
        } else if attempt < MAX_CLAIMS {
            claim(req, ctx, (attempt + 1) as u32, fresh)
        } else {
            (halted(req), ctx, ActionView::Finish(Err(claim_failure())))
        },
        (StageView::Fetching { path }, EventView::Read(payload)) => match payload {
            PayloadView::Loaded(bytes) => (
                RequestView { stage: StageView::Storing { path }, ..req },
                ctx,
                ActionView::StorePayload { path, bytes },
            ),
            _ => (halted(req), ctx, ActionView::Finish(Err(download_failure()))),
        },
        (StageView::Storing { path }, EventView::Stored(stored)) => if stored {
            (
                RequestView { stage: StageView::Recording { path }, ..req },
                ctx,
                ActionView::Record(ledger_entry(req.name, path, ctx.user_id)),
            )
        } else {
            (halted(req), ctx, ActionView::Finish(Err(download_failure())))
        },
        (StageView::Recording { path }, EventView::Recorded(outcome)) => match ledger_result(outcome) {
            Ok(()) => (
                RequestView { stage: StageView::Replying, ..req },
                say(ctx, uploaded_text(ledger_entry(req.name, path, ctx.user_id))).0,
                say(ctx, uploaded_text(ledger_entry(req.name, path, ctx.user_id))).1,
            ),
            Err(error) => (halted(req), ctx, ActionView::Finish(Err(error))),
        },
        (StageView::Replying, _) => (halted(req), ctx, ActionView::Finish(conclusion(event))),
        _ => (halted(req), ctx, ActionView::Finish(Err(out_of_turn()))),
    }
}

/// The most actions that an `upload` at this stage still asks for.
pub open spec fn steps_left(stage: StageView) -> nat {
    match stage {
        StageView::Start => 6 + MAX_CLAIMS as nat,
        StageView::Deferring => 5 + MAX_CLAIMS as nat,
        StageView::Claiming { attempt, .. } => if attempt < MAX_CLAIMS {
            (5 + MAX_CLAIMS - attempt) as nat
        } else {
            5
        },
        StageView::Fetching { .. } => 4,
        StageView::Storing { .. } => 3,
        StageView::Recording { .. } => 2,
        StageView::Replying => 1,
        StageView::Finished => 1,
    }
}

/// A fresh storage id: `Uuid::new_v4` of the uuid crate, a random version 4
/// UUID, as its `Display` prints it, which is in lower case with hyphens:
/// 36 characters, of which the 9th, 14th, 19th and 24th are hyphens and the
/// others are digits or `a` to `f`. Which id comes is up to the system's
/// random numbers, so two calls need not agree and the contract gives the
/// shape only. The call panics where the system has no random numbers to
/// give.
#[verifier::external_body]
fn fresh_storage_id() -> (id: String)
    ensures
        is_storage_id(id@),
{
    uuid::Uuid::new_v4().to_string()
}

/// Where the sound of an upload is stored.
pub fn storage_location(id: &str, filename: &str) -> (path: String)
    ensures
        path@ == storage_path(id@, filename@),
{
    let mut path = UPLOAD_ROOT.to_owned();
    path.append("/");
    path.append(id);
    path.append("/");
    path.append(filename);
    path
}

/// The reply after the upload is stored and recorded, given the entry as
/// `{:?}` prints it.
pub fn uploaded_reply(rendering: &str) -> (text: String)
    ensures
        text@ == "Uploaded! "@ + rendering@,
{
    let mut text = "Uploaded! ".to_owned();
    text.append(rendering);
    text
}

/// There are storage ids.
pub proof fn lemma_storage_ids_exist()
    ensures
        exists|id: Seq<char>| is_storage_id(id),
{
    let id = Seq::new(36, |i: int| if i == 8 || i == 13 || i == 18 || i == 23 { '-' } else { '0' });
    assert(is_storage_id(id));
}

/// A storage id holds no path separator, so the path of an upload lies
/// exactly two levels below the upload root.
pub proof fn lemma_storage_id_is_one_level(id: Seq<char>)
    requires
        is_storage_id(id),
    ensures
        forall|i: int| 0 <= i < id.len() ==> #[trigger] id[i] != '/' && id[i] != '\\',
{
    assert forall|i: int| 0 <= i < id.len() implies #[trigger] id[i] != '/' && id[i] != '\\' by {
        if i == 8 || i == 13 || i == 18 || i == 23 {
            assert(id[i] == '-');
        } else {
            assert(is_lower_hex(id[i]));
        }
    }
}

impl Request {
    /// Reads the request from an invocation's parameters. It fails, with a
    /// failure that names the missing parameter, exactly where no `name`
    /// parameter holds text or no `sound` parameter holds a file.
    pub fn parse(cmd: &Invocation) -> (result: Result<Request, RequestError>)
        ensures
            match result {
                Ok(req) => parsed(cmd@.options) == Ok::<RequestView, RequestErrorView>(req@),
                Err(error) => parsed(cmd@.options) == Err::<RequestView, RequestErrorView>(error@),
            },
    {
        match cmd.last_text("name") {
            None => Err(missing_parameter("name")),
            Some(name) => match cmd.last_attachment("sound") {
                None => Err(missing_parameter("sound")),
                Some(sound) => Ok(Request { name, sound, stage: Stage::Start }),
            },
        }
    }

    /// The name to store the sound under.
    pub fn name(&self) -> (name: &str)
        ensures
            name@ == self@.name,
    {
        self.name.as_str()
    }

    /// The file that holds the sound.
    pub fn sound(&self) -> (sound: &Attachment)
        ensures
            sound@ == self@.sound,
    {
        &self.sound
    }

    /// Whether the step on `event` tries a new path, and so draws a storage
    /// id.
    pub fn draws_id(&self, ctx: &ExecutionContext, event: &Event) -> (draws: bool)
        ensures
            draws == draws_id(self@, ctx@, event@),
    {
        match (&self.stage, event) {
            (Stage::Start, Event::Begin) => match ctx.response_state() {
                crate::discord::ResponseState::NotSent => false,
                crate::discord::ResponseState::Sent => true,
            },
            (Stage::Deferring, Event::Sent(delivered)) => *delivered,
            (Stage::Claiming { path, attempt }, Event::Claimed(claimed)) => !*claimed && *attempt < MAX_CLAIMS,
            _ => false,
        }
    }

    /// The step that tries the path made of the storage id `fresh`.
    fn claim(name: String, sound: Attachment, attempt: u32, fresh: &str) -> (next: (Request, Action))
        ensures
            forall|ctx: ContextView, stage: StageView|
                (next.0@, ctx, next.1@) == #[trigger] claim(
                    RequestView { name: name@, sound: sound@, stage },
                    ctx,
                    attempt,
                    fresh@,
                ),
    {
        let path = storage_location(fresh, sound.filename.as_str());
        let action = Action::ClaimPath { path: path.clone() };
        (Request { name, sound, stage: Stage::Claiming { path, attempt } }, action)
    }

    /// Carries the request one step further with `fresh` as the storage id
    /// that the step draws, if it draws one.
    pub fn advance(self, ctx: &mut ExecutionContext, event: Event, fresh: &str) -> (next: (Request, Action))
        ensures
            (next.0@, final(ctx)@, next.1@) == step(self@, old(ctx)@, event@, fresh@),
    {
        let name = self.name;
        let sound = self.sound;
        match (self.stage, event) {
            (Stage::Start, Event::Begin) => match ctx.defer() {
                Some(outbound) => (Request { name, sound, stage: Stage::Deferring }, Action::Send(outbound)),
                None => Request::claim(name, sound, 1, fresh),
            },
            (Stage::Deferring, Event::Sent(delivered)) => if delivered {
                Request::claim(name, sound, 1, fresh)
            } else {
                (
                    Request { name, sound, stage: Stage::Finished },
                    Action::Finish(Err(RequestError::internal("Could not connect to Discord!"))),
                )
            },
            (Stage::Claiming { path, attempt }, Event::Claimed(claimed)) => if claimed {
                let action = Action::FetchAttachment { id: sound.id };
                (Request { name, sound, stage: Stage::Fetching { path } }, action)
            } else if attempt < MAX_CLAIMS {
                Request::claim(name, sound, attempt + 1, fresh)
            } else {
                (
                    Request { name, sound, stage: Stage::Finished },
                    Action::Finish(Err(RequestError::internal("Could not find a free storage path."))),
                )
            },
            (Stage::Fetching { path }, Event::Read(payload)) => match payload {
                Payload::Loaded(bytes) => {
                    let action = Action::StorePayload { path: path.clone(), bytes };
                    (Request { name, sound, stage: Stage::Storing { path } }, action)
                },
                _ => (
                    Request { name, sound, stage: Stage::Finished },
                    Action::Finish(Err(RequestError::internal("Could not download file."))),
                ),
            },
            (Stage::Storing { path }, Event::Stored(stored)) => if stored {
                let entry = NewAudioLedgerEntry {
                    link_or_name: name.clone(),
                    downloaded: true,
                    file_path: path.clone(),
                    uploader: ctx.user_id(),
                };
                (Request { name, sound, stage: Stage::Recording { path } }, Action::Record(entry))
            } else {
                (
                    Request { name, sound, stage: Stage::Finished },
                    Action::Finish(Err(RequestError::internal("Could not download file."))),
                )
            },
            (Stage::Recording { path }, Event::Recorded(outcome)) => match track_known_audio_in_ledger(outcome) {
                Ok(()) => {
                    let entry = NewAudioLedgerEntry {
                        link_or_name: name.clone(),
                        downloaded: true,
                        file_path: path,
                        uploader: ctx.user_id(),
                    };
                    let action = say_text(ctx, uploaded_reply(debug_text(&entry).as_str()));
                    (Request { name, sound, stage: Stage::Replying }, action)
                },
                Err(error) => (Request { name, sound, stage: Stage::Finished }, Action::Finish(Err(error))),
            },
            (Stage::Replying, event) => (
                Request { name, sound, stage: Stage::Finished },
                Action::Finish(conclude(&event)),
            ),
            _ => (Request { name, sound, stage: Stage::Finished }, Action::Finish(Err(out_of_turn_error()))),
        }
    }

    /// Carries the request one step further: takes the answer to the action
    /// that was asked last and returns the request as it stands now with the
    /// action to perform next. A step that tries a new path draws a fresh
    /// storage id for it, so what comes back is the step for some storage
    /// id.
    pub fn execute(self, ctx: &mut ExecutionContext, event: Event) -> (next: (Request, Action))
        ensures
            exists|fresh: Seq<char>|
                is_storage_id(fresh) && (next.0@, final(ctx)@, next.1@) == #[trigger] step(
                    self@,
                    old(ctx)@,
                    event@,
                    fresh,
                ),
    {
        if self.draws_id(ctx, &event) {
            let fresh = fresh_storage_id();
            self.advance(ctx, event, fresh.as_str())
        } else {
            proof {
                lemma_storage_ids_exist();
                let witness = choose|id: Seq<char>| is_storage_id(id);
                assert(step(self@, ctx@, event@, witness) == step(self@, ctx@, event@, ""@));
            }
            self.advance(ctx, event, "")
        }
    }
}

/// Every step of an `upload` finishes it or leaves less to do than there
/// was.
pub proof fn lemma_step_makes_progress(req: RequestView, ctx: ContextView, event: EventView, fresh: Seq<char>)
    ensures
        1 <= steps_left(req.stage) <= 14,
        step(req, ctx, event, fresh).2 is Finish || steps_left(step(req, ctx, event, fresh).0.stage) < steps_left(
            req.stage,
        ),
{
}

/// Every step keeps to the order of replies.
pub proof fn lemma_step_sends_in_order(req: RequestView, ctx: ContextView, event: EventView, fresh: Seq<char>)
    ensures
        sends_in_order(ctx, step(req, ctx, event, fresh).1, step(req, ctx, event, fresh).2),
{
}

} // verus!
