//! An inbound command as the transport delivers it: the command's name, who
//! sent it and from where, and the parameters that came with it.

use vstd::prelude::*;
use crate::error::{RequestError, RequestErrorView};
use crate::text::same_text;

verus! {

/// A file that came with an invocation.
#[derive(Debug, PartialEq, Eq)]
pub struct Attachment {
    pub id: u64,
    pub filename: String,
}

/// The mathematical value of an [`Attachment`].
pub struct AttachmentView {
    pub id: u64,
    pub filename: Seq<char>,
}

impl View for Attachment {
    type V = AttachmentView;

    open spec fn view(&self) -> AttachmentView {
        AttachmentView { id: self.id, filename: self.filename@ }
    }
}

/// The value of one parameter. `Other` stands for every encoding that no
/// command takes.
#[derive(Debug, PartialEq, Eq)]
pub enum OptionValue {
    Text(String),
    Boolean(bool),
    Channel(u64),
    Attachment(Attachment),
    Other,
}

/// The mathematical value of an [`OptionValue`].
pub enum OptionValueView {
    Text(Seq<char>),
    Boolean(bool),
    Channel(u64),
    Attachment(AttachmentView),
    Other,
}

impl View for OptionValue {
    type V = OptionValueView;

    open spec fn view(&self) -> OptionValueView {
        match self {
            OptionValue::Text(text) => OptionValueView::Text(text@),
            OptionValue::Boolean(flag) => OptionValueView::Boolean(*flag),
            OptionValue::Channel(id) => OptionValueView::Channel(*id),
            OptionValue::Attachment(file) => OptionValueView::Attachment(file@),
            OptionValue::Other => OptionValueView::Other,
        }
    }
}

/// One parameter of an invocation.
#[derive(Debug, PartialEq, Eq)]
pub struct CommandOption {
    pub name: String,
    pub value: OptionValue,
}

/// The mathematical value of a [`CommandOption`].
pub struct CommandOptionView {
    pub name: Seq<char>,
    pub value: OptionValueView,
}

impl View for CommandOption {
    type V = CommandOptionView;

    open spec fn view(&self) -> CommandOptionView {
        CommandOptionView { name: self.name@, value: self.value@ }
    }
}

impl DeepView for CommandOption {
    type V = CommandOptionView;

    open spec fn deep_view(&self) -> CommandOptionView {
        self@
    }
}

/// One inbound command.
#[derive(Debug)]
pub struct Invocation {
    /// The name of the command that is asked for.
    pub name: String,
    /// The guild that the invocation came from, if it came from one.
    pub guild_id: Option<u64>,
    /// The invoking user.
    pub user_id: u64,
    /// The parameters, in the order in which they came.
    pub options: Vec<CommandOption>,
}

/// The mathematical value of an [`Invocation`].
pub struct InvocationView {
    pub name: Seq<char>,
    pub guild_id: Option<u64>,
    pub user_id: u64,
    pub options: Seq<CommandOptionView>,
}

impl View for Invocation {
    type V = InvocationView;

    open spec fn view(&self) -> InvocationView {
        InvocationView {
            name: self.name@,
            guild_id: self.guild_id,
            user_id: self.user_id,
            options: self.options.deep_view(),
        }
    }
}

/// The failure of a request that lacks the required parameter `parameter`.
/// It is the user's to fix, and its text names the parameter.
pub open spec fn missing(parameter: Seq<char>) -> RequestErrorView {
    RequestErrorView::User("missing `"@ + parameter + "` required parameter"@)
}

/// The failure of a request that lacks the required parameter `parameter`.
pub fn missing_parameter(parameter: &str) -> (error: RequestError)
    ensures
        error@ == missing(parameter@),
{
    let mut text = "missing `".to_owned();
    text.append(parameter);
    text.append("` required parameter");
    RequestError::User(text)
}

/// The channel that the parameter holds, if it is called `name` and holds
/// one.
pub open spec fn channel_named(option: CommandOptionView, name: Seq<char>) -> Option<u64> {
    match option.value {
        OptionValueView::Channel(id) => if option.name == name {
            Some(id)
        } else {
            None
        },
        _ => None,
    }
}

/// The text that the parameter holds, if it is called `name` and holds text.
pub open spec fn text_named(option: CommandOptionView, name: Seq<char>) -> Option<Seq<char>> {
    match option.value {
        OptionValueView::Text(text) => if option.name == name {
            Some(text)
        } else {
            None
        },
        _ => None,
    }
}

/// The file that the parameter holds, if it is called `name` and holds one.
pub open spec fn attachment_named(option: CommandOptionView, name: Seq<char>) -> Option<AttachmentView> {
    match option.value {
        OptionValueView::Attachment(file) => if option.name == name {
            Some(file)
        } else {
            None
        },
        _ => None,
    }
}

/// The channel of the first parameter that is called `name` and holds a
/// channel. Parameters of other names or types are passed over.
pub open spec fn first_channel(options: Seq<CommandOptionView>, name: Seq<char>) -> Option<u64>
    decreases options.len(),
{
    if options.len() == 0 {
        None
    } else if channel_named(options[0], name) is Some {
        channel_named(options[0], name)
    } else {
        first_channel(options.drop_first(), name)
    }
}

/// The channel of the last parameter that is called `name` and holds a
/// channel. Parameters of other names or types are passed over.
pub open spec fn last_channel(options: Seq<CommandOptionView>, name: Seq<char>) -> Option<u64>
    decreases options.len(),
{
    if options.len() == 0 {
        None
    } else if channel_named(options.last(), name) is Some {
        channel_named(options.last(), name)
    } else {
        last_channel(options.drop_last(), name)
    }
}

/// The text of the last parameter that is called `name` and holds text.
/// Parameters of other names or types are passed over.
pub open spec fn last_text(options: Seq<CommandOptionView>, name: Seq<char>) -> Option<Seq<char>>
    decreases options.len(),
{
    if options.len() == 0 {
        None
    } else if text_named(options.last(), name) is Some {
        text_named(options.last(), name)
    } else {
        last_text(options.drop_last(), name)
    }
}

/// The file of the last parameter that is called `name` and holds a file.
/// Parameters of other names or types are passed over.
pub open spec fn last_attachment(options: Seq<CommandOptionView>, name: Seq<char>) -> Option<AttachmentView>
    decreases options.len(),
{
    if options.len() == 0 {
        None
    } else if attachment_named(options.last(), name) is Some {
        attachment_named(options.last(), name)
    } else {
        last_attachment(options.drop_last(), name)
    }
}

impl Invocation {
    /// The channel of the first parameter that is called `name` and holds a
    /// channel.
    pub fn first_channel(&self, name: &str) -> (found: Option<u64>)
        ensures
            found == first_channel(self@.options, name@),
    {
        let ghost all = self@.options;
        assert(all.skip(0) =~= all);
        let mut i: usize = 0;
        while i < self.options.len()
            invariant
                i <= self.options.len(),
                all == self.options.deep_view(),
                first_channel(all, name@) == first_channel(all.skip(i as int), name@),
            decreases self.options.len() - i,
        {
            let option = &self.options[i];
            proof {
                assert(all.skip(i as int)[0] == option@);
                assert(all.skip(i as int).drop_first() =~= all.skip(i + 1));
            }
            match &option.value {
                OptionValue::Channel(id) => {
                    if same_text(option.name.as_str(), name) {
                        return Some(*id);
                    }
                },
                _ => {},
            }
            i = i + 1;
        }
        None
    }

    /// The channel of the last parameter that is called `name` and holds a
    /// channel.
    pub fn last_channel(&self, name: &str) -> (found: Option<u64>)
        ensures
            found == last_channel(self@.options, name@),
    {
        let ghost all = self@.options;
        let mut found: Option<u64> = None;
        let mut i: usize = 0;
        while i < self.options.len()
            invariant
                i <= self.options.len(),
                all == self.options.deep_view(),
                found == last_channel(all.take(i as int), name@),
            decreases self.options.len() - i,
        {
            let option = &self.options[i];
            proof {
                assert(all.take(i + 1).last() == option@);
                assert(all.take(i + 1).drop_last() =~= all.take(i as int));
            }
            match &option.value {
                OptionValue::Channel(id) => {
                    if same_text(option.name.as_str(), name) {
                        found = Some(*id);
                    }
                },
                _ => {},
            }
            i = i + 1;
        }
        assert(all.take(i as int) =~= all);
        found
    }

    /// The text of the last parameter that is called `name` and holds text.
    pub fn last_text(&self, name: &str) -> (found: Option<String>)
        ensures
            found.deep_view() == last_text(self@.options, name@),
    {
        let ghost all = self@.options;
        let mut found: Option<String> = None;
        let mut i: usize = 0;
        while i < self.options.len()
            invariant
                i <= self.options.len(),
                all == self.options.deep_view(),
                found.deep_view() == last_text(all.take(i as int), name@),
            decreases self.options.len() - i,
        {
            let option = &self.options[i];
            proof {
                assert(all.take(i + 1).last() == option@);
                assert(all.take(i + 1).drop_last() =~= all.take(i as int));
            }
            match &option.value {
                OptionValue::Text(text) => {
                    if same_text(option.name.as_str(), name) {
                        found = Some(text.clone());
                    }
                },
                _ => {},
            }
            i = i + 1;
        }
        assert(all.take(i as int) =~= all);
        found
    }

    /// The file of the last parameter that is called `name` and holds a
    /// file.
    pub fn last_attachment(&self, name: &str) -> (found: Option<Attachment>)
        ensures
            match found {
                Some(file) => last_attachment(self@.options, name@) == Some(file@),
                None => last_attachment(self@.options, name@) is None,
            },
    {
        let ghost all = self@.options;
        let mut found: Option<Attachment> = None;
        let mut i: usize = 0;
        while i < self.options.len()
            invariant
                i <= self.options.len(),
                all == self.options.deep_view(),
                match found {
                    Some(file) => last_attachment(all.take(i as int), name@) == Some(file@),
                    None => last_attachment(all.take(i as int), name@) is None,
                },
            decreases self.options.len() - i,
        {
            let option = &self.options[i];
            proof {
                assert(all.take(i + 1).last() == option@);
                assert(all.take(i + 1).drop_last() =~= all.take(i as int));
            }
            match &option.value {
                OptionValue::Attachment(file) => {
                    if same_text(option.name.as_str(), name) {
                        found = Some(Attachment { id: file.id, filename: file.filename.clone() });
                    }
                },
                _ => {},
            }
            i = i + 1;
        }
        assert(all.take(i as int) =~= all);
        found
    }
}

/// `first_channel` gives the channel of the parameter that comes first
/// among those that are called `name` and hold a channel, and nothing where
/// there is none.
pub proof fn lemma_first_channel_is_first(options: Seq<CommandOptionView>, name: Seq<char>)
    ensures
        match first_channel(options, name) {
            Some(id) => exists|at: int|
                0 <= at < options.len() && channel_named(#[trigger] options[at], name) == Some(id) && forall|i: int|
                    0 <= i < at ==> channel_named(#[trigger] options[i], name) is None,
            None => forall|i: int| 0 <= i < options.len() ==> channel_named(#[trigger] options[i], name) is None,
        },
    decreases options.len(),
{
    if options.len() > 0 {
        if channel_named(options[0], name) is Some {
            assert(channel_named(options[0], name) == first_channel(options, name));
        } else {
            let rest = options.drop_first();
            lemma_first_channel_is_first(rest, name);
            match first_channel(rest, name) {
                Some(id) => {
                    let at = choose|at: int|
                        0 <= at < rest.len() && channel_named(#[trigger] rest[at], name) == Some(id) && forall|i: int|
                            0 <= i < at ==> channel_named(#[trigger] rest[i], name) is None;
                    assert(options[at + 1] == rest[at]);
                    assert forall|i: int| 0 <= i < at + 1 implies channel_named(#[trigger] options[i], name)
                        is None by {
                        if i > 0 {
                            assert(options[i] == rest[i - 1]);
                        }
                    }
                },
                None => {
                    assert forall|i: int| 0 <= i < options.len() implies channel_named(
                        #[trigger] options[i],
                        name,
                    ) is None by {
                        if i > 0 {
                            assert(options[i] == rest[i - 1]);
                        }
                    }
                },
            }
        }
    }
}

/// `last_text` gives the text of the parameter that comes last among those
/// that are called `name` and hold text, and nothing where there is none.
pub proof fn lemma_last_text_is_last(options: Seq<CommandOptionView>, name: Seq<char>)
    ensures
        match last_text(options, name) {
            Some(text) => exists|at: int|
                0 <= at < options.len() && text_named(#[trigger] options[at], name) == Some(text) && forall|i: int|
                    at < i < options.len() ==> text_named(#[trigger] options[i], name) is None,
            None => forall|i: int| 0 <= i < options.len() ==> text_named(#[trigger] options[i], name) is None,
        },
    decreases options.len(),
{
    if options.len() > 0 {
        if text_named(options.last(), name) is Some {
            assert(text_named(options[options.len() - 1], name) == last_text(options, name));
        } else {
            let rest = options.drop_last();
            lemma_last_text_is_last(rest, name);
            match last_text(rest, name) {
                Some(text) => {
                    let at = choose|at: int|
                        0 <= at < rest.len() && text_named(#[trigger] rest[at], name) == Some(text) && forall|i: int|
                            at < i < rest.len() ==> text_named(#[trigger] rest[i], name) is None;
                    assert(options[at] == rest[at]);
                    assert forall|i: int| at < i < options.len() implies text_named(#[trigger] options[i], name)
                        is None by {
                        if i < rest.len() {
                            assert(options[i] == rest[i]);
                        }
                    }
                },
                None => {
                    assert forall|i: int| 0 <= i < options.len() implies text_named(#[trigger] options[i], name)
                        is None by {
                        if i < rest.len() {
                            assert(options[i] == rest[i]);
                        }
                    }
                },
            }
        }
    }
}

/// `last_attachment` gives the file of the parameter that comes last among
/// those that are called `name` and hold a file, and nothing where there is
/// none.
pub proof fn lemma_last_attachment_is_last(options: Seq<CommandOptionView>, name: Seq<char>)
    ensures
        match last_attachment(options, name) {
            Some(file) => exists|at: int|
                0 <= at < options.len() && attachment_named(#[trigger] options[at], name) == Some(file)
                    && forall|i: int| at < i < options.len() ==> attachment_named(#[trigger] options[i], name) is None,
            None => forall|i: int| 0 <= i < options.len() ==> attachment_named(#[trigger] options[i], name) is None,
        },
    decreases options.len(),
{
    if options.len() > 0 {
        if attachment_named(options.last(), name) is Some {
            assert(attachment_named(options[options.len() - 1], name) == last_attachment(options, name));
        } else {
            let rest = options.drop_last();
            lemma_last_attachment_is_last(rest, name);
            match last_attachment(rest, name) {
                Some(file) => {
                    let at = choose|at: int|
                        0 <= at < rest.len() && attachment_named(#[trigger] rest[at], name) == Some(file)
                            && forall|i: int| at < i < rest.len() ==> attachment_named(#[trigger] rest[i], name) is None;
                    assert(options[at] == rest[at]);
                    assert forall|i: int| at < i < options.len() implies attachment_named(
                        #[trigger] options[i],
                        name,
                    ) is None by {
                        if i < rest.len() {
                            assert(options[i] == rest[i]);
                        }
                    }
                },
                None => {
                    assert forall|i: int| 0 <= i < options.len() implies attachment_named(
                        #[trigger] options[i],
                        name,
                    ) is None by {
                        if i < rest.len() {
                            assert(options[i] == rest[i]);
                        }
                    }
                },
            }
        }
    }
}

} // verus!
