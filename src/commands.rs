use vstd::prelude::*;

use crate::entities::{Entity, EntityType};
use crate::text::{
    lemma_slice_after_prefix, lower_of, lowercase, strip_leading_slashes, trim_slashes, utf16_len,
    utf16_slice, utf16_substring,
};
use crate::types::Message;

verus! {

/// The commands that the bot knows.
#[derive(Debug, Clone, Copy, PartialEq, Eq, Hash, Structural)]
pub enum BotCommand {
    Video,
    Echo,
    Unknown,
}

/// A command that the bot knows, with its arguments and the message it came
/// in.
#[derive(Debug, Clone)]
pub struct Command {
    pub command: BotCommand,
    pub args: Vec<String>,
    pub message: Message,
}

/// The command that a lowercased token names.
pub open spec fn command_of_token(token: Seq<char>) -> BotCommand {
    if token == "video"@ {
        BotCommand::Video
    } else if token == "echo"@ {
        BotCommand::Echo
    } else {
        BotCommand::Unknown
    }
}

/// The command that the chars `raw` of a command entity name: the leading
/// `/` are dropped and the rest is lowercased before the lookup.
pub open spec fn command_of_entity_text(raw: Seq<char>) -> BotCommand {
    command_of_token(lower_of(trim_slashes(raw)))
}

/// The text of `message`, as chars.
pub open spec fn text_of(message: Message) -> Option<Seq<char>> {
    match message.text {
        Some(t) => Some(t@),
        None => None,
    }
}

/// The chars of `text` that entity `e` covers, where `e` fits the text.
pub open spec fn entity_slice(text: Option<Seq<char>>, e: Entity) -> Option<Seq<char>> {
    match text {
        Some(t) => utf16_slice(t, e.offset as int, e.length as int),
        None => None,
    }
}

/// The command that a scan of `entities` in order settles on: each command
/// entity that fits the text replaces the command found so far; the scan
/// starts from `Unknown`.
pub open spec fn resolved_command(text: Option<Seq<char>>, entities: Seq<Entity>) -> BotCommand
    decreases entities.len(),
{
    if entities.len() == 0 {
        BotCommand::Unknown
    } else {
        let before = resolved_command(text, entities.drop_last());
        let e = entities.last();
        if e.entity_type is BotCommand {
            match entity_slice(text, e) {
                Some(raw) => command_of_entity_text(raw),
                None => before,
            }
        } else {
            before
        }
    }
}

/// The text of every URL entity among `entities` that fits the text, in
/// order.
pub open spec fn url_args(text: Option<Seq<char>>, entities: Seq<Entity>) -> Seq<Seq<char>>
    decreases entities.len(),
{
    if entities.len() == 0 {
        Seq::empty()
    } else {
        let before = url_args(text, entities.drop_last());
        let e = entities.last();
        if e.entity_type is Url {
            match entity_slice(text, e) {
                Some(u) => before.push(u),
                None => before,
            }
        } else {
            before
        }
    }
}

/// What a message decodes to: the command and its arguments, or nothing
/// where the message has no entities or names no known command.
pub open spec fn decoded(text: Option<Seq<char>>, entities: Option<Seq<Entity>>) -> Option<
    (BotCommand, Seq<Seq<char>>),
> {
    match entities {
        None => None,
        Some(ents) => {
            let kind = resolved_command(text, ents);
            if kind == BotCommand::Unknown {
                None
            } else {
                Some((kind, url_args(text, ents)))
            }
        }
    }
}

/// The entities of `message`.
pub open spec fn entities_of(message: Message) -> Option<Seq<Entity>> {
    match message.entities {
        Some(v) => Some(v@),
        None => None,
    }
}

/// The chars of each string.
pub open spec fn strings_view(v: Seq<String>) -> Seq<Seq<char>> {
    v.map_values(|s: String| s@)
}

/// `r` is what deciding on `message` gives: the decoded command with its
/// arguments and the message itself, or nothing.
pub open spec fn decides(message: Message, r: Option<Command>) -> bool {
    match decoded(text_of(message), entities_of(message)) {
        None => r is None,
        Some((kind, args)) => r matches Some(c) && c.command == kind && strings_view(c.args@)
            == args && c.message == message,
    }
}

impl BotCommand {
    /// The command that a lowercased token names: `video`, `echo`, or
    /// `Unknown` for anything else.
    pub fn from_token(token: &str) -> (r: BotCommand)
        ensures
            r == command_of_token(token@),
    {
        if crate::text::same_text(token, "video") {
            BotCommand::Video
        } else if crate::text::same_text(token, "echo") {
            BotCommand::Echo
        } else {
            BotCommand::Unknown
        }
    }

    /// The command that the chars of a command entity name, such as
    /// `/Echo`.
    pub fn from_entity_text(raw: &str) -> (r: BotCommand)
        ensures
            r == command_of_entity_text(raw@),
    {
        let token = lowercase(strip_leading_slashes(raw));
        BotCommand::from_token(token.as_str())
    }
}

/// Decides which command the message asks for, from its text and entities.
/// Command entities and URL entities are read in order; the last command
/// entity that fits the text decides the command, and the text of each URL
/// entity that fits becomes an argument. An entity whose range does not fit
/// the text is passed over. The message is moved into the command.
pub fn decide_command(message: Message) -> (r: Option<Command>)
    ensures
        decides(message, r),
{
    let ghost text = text_of(message);
    let mut command = BotCommand::Unknown;
    let mut args: Vec<String> = Vec::new();
    match &message.entities {
        None => {
            return None;
        },
        Some(entities) => {
            let n = entities.len();
            let mut i: usize = 0;
            while i < n
                invariant
                    n == entities@.len(),
                    0 <= i <= n,
                    text == text_of(message),
                    command == resolved_command(text, entities@.take(i as int)),
                    strings_view(args@) == url_args(text, entities@.take(i as int)),
                decreases n - i,
            {
                let entity = &entities[i];
                proof {
                    assert(entities@.take(i + 1).drop_last() =~= entities@.take(i as int));
                }
                match entity.entity_type {
                    EntityType::BotCommand => {
                        if let Some(t) = &message.text {
                            if let Some(raw) = utf16_substring(t.as_str(), entity.offset, entity.length) {
                                command = BotCommand::from_entity_text(raw.as_str());
                            }
                        }
                    },
                    EntityType::Url => {
                        if let Some(t) = &message.text {
                            if let Some(u) = utf16_substring(t.as_str(), entity.offset, entity.length) {
                                let ghost before = args@;
                                args.push(u);
                                proof {
                                    assert(strings_view(args@) =~= strings_view(before).push(
                                        u@,
                                    ));
                                }
                            }
                        }
                    },
                    _ => {},
                }
                i = i + 1;
            }
            proof {
                assert(entities@.take(n as int) =~= entities@);
            }
        },
    }
    if command == BotCommand::Unknown {
        None
    } else {
        Some(Command { command, args, message })
    }
}

/// `a` and `b` list entities of the same kinds over the same ranges.
pub open spec fn same_spans(a: Seq<Entity>, b: Seq<Entity>) -> bool {
    &&& a.len() == b.len()
    &&& forall|i: int|
        0 <= i < a.len() ==> {
            &&& (#[trigger] a[i]).entity_type == b[i].entity_type
            &&& a[i].offset == b[i].offset
            &&& a[i].length == b[i].length
        }
}

proof fn lemma_scan_same_spans(text: Option<Seq<char>>, a: Seq<Entity>, b: Seq<Entity>)
    requires
        same_spans(a, b),
    ensures
        resolved_command(text, a) == resolved_command(text, b),
        url_args(text, a) == url_args(text, b),
    decreases a.len(),
{
    if a.len() > 0 {
        let n = a.len() - 1;
        assert(a[n].entity_type == b[n].entity_type);
        lemma_scan_same_spans(text, a.drop_last(), b.drop_last());
    }
}

/// Deciding is a function of the text and of the kind and range of each
/// entity: two messages that agree on those are decided alike, whatever else
/// they hold.
pub proof fn lemma_decision_determined(m1: Message, m2: Message, r1: Option<Command>, r2: Option<
    Command,
>)
    requires
        decides(m1, r1),
        decides(m2, r2),
        text_of(m1) == text_of(m2),
        entities_of(m1) is None <==> entities_of(m2) is None,
        entities_of(m1) is Some ==> same_spans(entities_of(m1)->0, entities_of(m2)->0),
    ensures
        r1 is None <==> r2 is None,
        r1 is Some ==> r1->0.command == r2->0.command,
        r1 is Some ==> strings_view(r1->0.args@) == strings_view(r2->0.args@),
{
    if entities_of(m1) is Some {
        lemma_scan_same_spans(text_of(m1), entities_of(m1)->0, entities_of(m2)->0);
    }
}

/// URL arguments of two runs of entities put together are those of the first
/// run followed by those of the second.
pub proof fn lemma_url_args_concat(text: Option<Seq<char>>, a: Seq<Entity>, b: Seq<Entity>)
    ensures
        url_args(text, a + b) == url_args(text, a) + url_args(text, b),
    decreases b.len(),
{
    if b.len() == 0 {
        assert(a + b =~= a);
        assert(url_args(text, a) + url_args(text, b) =~= url_args(text, a));
    } else {
        lemma_url_args_concat(text, a, b.drop_last());
        assert((a + b).drop_last() =~= a + b.drop_last());
        let e = b.last();
        if e.entity_type is Url {
            if let Some(u) = entity_slice(text, e) {
                assert(url_args(text, a) + url_args(text, b.drop_last()).push(u) =~= (url_args(
                    text,
                    a,
                ) + url_args(text, b.drop_last())).push(u));
            }
        }
    }
}

/// Command entities after which no other comes leave the command as it was.
proof fn lemma_resolved_skips_tail(text: Option<Seq<char>>, entities: Seq<Entity>, k: int)
    requires
        0 <= k <= entities.len(),
        forall|j: int| k <= j < entities.len() ==> !(#[trigger] entities[j].entity_type is BotCommand),
    ensures
        resolved_command(text, entities) == resolved_command(text, entities.take(k)),
    decreases entities.len() - k,
{
    if k < entities.len() {
        let n = entities.len() - 1;
        assert(!(entities[n].entity_type is BotCommand));
        assert(entities.drop_last().take(k) =~= entities.take(k));
        lemma_resolved_skips_tail(text, entities.drop_last(), k);
    } else {
        assert(entities.take(k) =~= entities);
    }
}

/// With two command entities in a message, the second one decides the
/// command where its range fits the text, and the arguments are the URLs of
/// the whole message: those before the first command entity, between the
/// two, and after the second.
pub proof fn lemma_last_command_wins(
    text: Seq<char>,
    entities: Seq<Entity>,
    first: int,
    second: int,
)
    requires
        0 <= first < second < entities.len(),
        entities[first].entity_type is BotCommand,
        entities[second].entity_type is BotCommand,
        forall|j: int|
            0 <= j < entities.len() && j != first && j != second ==> !(
            #[trigger] entities[j].entity_type is BotCommand),
        entity_slice(Some(text), entities[second]) is Some,
    ensures
        resolved_command(Some(text), entities) == command_of_entity_text(
            entity_slice(Some(text), entities[second])->0,
        ),
        url_args(Some(text), entities) == url_args(Some(text), entities.take(first)) + url_args(
            Some(text),
            entities.subrange(first, second),
        ) + url_args(Some(text), entities.skip(second)),
{
    let t = Some(text);
    lemma_resolved_skips_tail(t, entities, second + 1);
    assert(entities.take(second + 1).drop_last() =~= entities.take(second));
    assert(entities.take(second + 1).last() == entities[second]);
    let x = entities.take(first);
    let y = entities.subrange(first, second);
    let z = entities.skip(second);
    assert(entities =~= x + y + z);
    lemma_url_args_concat(t, x + y, z);
    lemma_url_args_concat(t, x, y);
}

/// A command entity placed after chars that take two code units each, with
/// the offset and length that count code units, names the command of exactly
/// the chars it was placed on.
pub proof fn lemma_command_after_wide_chars(
    prefix: Seq<char>,
    token: Seq<char>,
    rest: Seq<char>,
    entity: Entity,
)
    requires
        entity.entity_type is BotCommand,
        entity.offset == utf16_len(prefix),
        entity.length == utf16_len(token),
    ensures
        resolved_command(Some(prefix + token + rest), seq![entity]) == command_of_entity_text(
            token,
        ),
{
    lemma_slice_after_prefix(prefix, token, rest);
    assert(seq![entity].drop_last() =~= Seq::<Entity>::empty());
}

} // verus!
