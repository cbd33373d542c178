//! How a channel is named inside a message so that the chat client shows it
//! as a link.

use vstd::prelude::*;

verus! {

/// The character for a decimal digit.
pub open spec fn digit(d: nat) -> char
    recommends
        d < 10,
{
    ('0' as u8 + d) as char
}

/// `n` in decimal, without leading zeros.
pub open spec fn decimal(n: nat) -> Seq<char>
    decreases n,
{
    if n < 10 {
        seq![digit(n)]
    } else {
        decimal(n / 10).push(digit(n % 10))
    }
}

/// The text that stands for the channel `id` in a message.
pub open spec fn mention_text(id: u64) -> Seq<char> {
    "<#"@ + decimal(id as nat) + ">"@
}

/// `Display` of serenity's `Mention::Channel`: `<#`, the channel's id in
/// decimal, `>`. serenity's `ChannelId::new` panics on zero, which the
/// precondition leaves out.
#[verifier::external_body]
fn render_channel_mention(id: u64) -> (text: String)
    requires
        id != 0,
    ensures
        text@ == mention_text(id),
{
    serenity::model::mention::Mention::Channel(serenity::model::id::ChannelId::new(id)).to_string()
}

/// The text that stands for the channel `id` in a message. The transport
/// hands out no channel with id zero; it is rendered like any other.
pub fn channel_mention(id: u64) -> (text: String)
    ensures
        text@ == mention_text(id),
{
    if id == 0 {
        proof {
            reveal_strlit("<#0>");
            reveal_strlit("<#");
            reveal_strlit(">");
            assert("<#0>"@ =~= "<#"@ + decimal(0) + ">"@);
        }
        "<#0>".to_owned()
    } else {
        render_channel_mention(id)
    }
}

} // verus!
