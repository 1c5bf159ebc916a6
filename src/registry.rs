use vstd::prelude::*;

use crate::commands::{BotCommand, Command};

verus! {

/// Handlers of the bot's commands, at most one for each command.
pub struct Registry<H> {
    handlers: Vec<(BotCommand, H)>,
}

impl<H> View for Registry<H> {
    type V = Map<BotCommand, H>;

    /// Each registered command, with its handler.
    closed spec fn view(&self) -> Map<BotCommand, H> {
        Map::new(
            |k: BotCommand| exists|i: int| 0 <= i < self.handlers@.len() && self.handlers@[i].0 == k,
            |k: BotCommand|
                self.handlers@[choose|i: int|
                    0 <= i < self.handlers@.len() && self.handlers@[i].0 == k].1,
        )
    }
}

impl<H> Registry<H> {
    /// No command is registered twice.
    pub closed spec fn well_formed(&self) -> bool {
        forall|i: int, j: int|
            0 <= i < j < self.handlers@.len() ==> self.handlers@[i].0 != self.handlers@[j].0
    }

    proof fn lemma_entry(&self, i: int)
        requires
            self.well_formed(),
            0 <= i < self.handlers@.len(),
        ensures
            self@.contains_key(self.handlers@[i].0),
            self@[self.handlers@[i].0] == self.handlers@[i].1,
    {
        let k = self.handlers@[i].0;
        assert(0 <= i < self.handlers@.len() && self.handlers@[i].0 == k);
        let j = choose|j: int| 0 <= j < self.handlers@.len() && self.handlers@[j].0 == k;
        assert(i == j);
    }

    /// A registry with no command registered.
    pub fn new() -> (r: Registry<H>)
        ensures
            r.well_formed(),
            r@ == Map::<BotCommand, H>::empty(),
    {
        let r = Registry { handlers: Vec::new() };
        assert(r@ =~= Map::<BotCommand, H>::empty());
        r
    }

    /// Where `name` is registered, the position of its entry.
    fn position(&self, name: BotCommand) -> (r: Option<usize>)
        requires
            self.well_formed(),
        ensures
            match r {
                Some(i) => i < self.handlers@.len() && self.handlers@[i as int].0 == name,
                None => !self@.contains_key(name),
            },
    {
        let n = self.handlers.len();
        let mut i: usize = 0;
        while i < n
            invariant
                n == self.handlers@.len(),
                0 <= i <= n,
                forall|k: int| 0 <= k < i ==> self.handlers@[k].0 != name,
            decreases n - i,
        {
            if self.handlers[i].0 == name {
                return Some(i);
            }
            i = i + 1;
        }
        None
    }

    /// The view after the entry at `p` was set to `(name, handler)`, where
    /// `p` held `name` before or was appended.
    proof fn lemma_view_after_set(before: Self, after: Self, p: int, name: BotCommand, handler: H)
        requires
            before.well_formed(),
            after.well_formed(),
            0 <= p < after.handlers@.len(),
            after.handlers@[p] == (name, handler),
            after.handlers@.len() == before.handlers@.len() || (after.handlers@.len()
                == before.handlers@.len() + 1 && p == before.handlers@.len()),
            p < before.handlers@.len() ==> before.handlers@[p].0 == name,
            forall|j: int| 0 <= j < after.handlers@.len() && j != p ==> after.handlers@[j] == before.handlers@[j],
        ensures
            after@ == before@.insert(name, handler),
    {
        assert forall|k: BotCommand| #[trigger] after@.contains_key(k) == before@.insert(
            name,
            handler,
        ).contains_key(k) by {
            if k != name && before@.contains_key(k) {
                let j = choose|j: int|
                    0 <= j < before.handlers@.len() && before.handlers@[j].0 == k;
                assert(after.handlers@[j].0 == k);
            }
            if k == name {
                assert(after.handlers@[p].0 == k);
            }
        }
        assert forall|k: BotCommand| #[trigger] after@.contains_key(k) implies after@[k]
            == before@.insert(name, handler)[k] by {
            let j = choose|j: int| 0 <= j < after.handlers@.len() && after.handlers@[j].0 == k;
            after.lemma_entry(j);
            if j != p {
                before.lemma_entry(j);
            }
        }
        assert(after@ =~= before@.insert(name, handler));
    }

    /// Registers `handler` for `name`, in place of the handler registered
    /// for it before, if any.
    pub fn register(&mut self, name: BotCommand, handler: H)
        requires
            old(self).well_formed(),
        ensures
            final(self).well_formed(),
            final(self)@ == old(self)@.insert(name, handler),
    {
        let ghost before = *self;
        match self.position(name) {
            Some(i) => {
                self.handlers.set(i, (name, handler));
                proof {
                    Self::lemma_view_after_set(before, *self, i as int, name, handler);
                }
            },
            None => {
                self.handlers.push((name, handler));
                proof {
                    Self::lemma_view_after_set(before, *self, before.handlers@.len() as int, name, handler);
                }
            },
        }
    }

    /// The handler registered for `name`, if any.
    pub fn handler(&self, name: BotCommand) -> (r: Option<&H>)
        requires
            self.well_formed(),
        ensures
            match r {
                Some(h) => self@.contains_key(name) && *h == self@[name],
                None => !self@.contains_key(name),
            },
    {
        match self.position(name) {
            Some(i) => {
                proof {
                    self.lemma_entry(i as int);
                }
                Some(&self.handlers[i].1)
            },
            None => None,
        }
    }

    /// Routes `command` to the handler registered for its kind: the handler
    /// with the command, to be invoked once; or nothing where no handler is
    /// registered, and the command is dropped.
    pub fn dispatch(&self, command: Command) -> (r: Option<(&H, Command)>)
        requires
            self.well_formed(),
        ensures
            match r {
                Some((h, c)) => self@.contains_key(command.command) && *h == self@[command.command]
                    && c == command,
                None => !self@.contains_key(command.command),
            },
    {
        match self.handler(command.command) {
            Some(h) => Some((h, command)),
            None => None,
        }
    }
}

/// Routing after registration: a command of the kind just registered goes to
/// that handler; a command of another kind goes where it went before, so one
/// that had no handler still has none.
pub proof fn lemma_routing_after_register<H>(
    before: Map<BotCommand, H>,
    name: BotCommand,
    handler: H,
    other: BotCommand,
)
    requires
        other != name,
    ensures
        before.insert(name, handler).contains_key(name),
        before.insert(name, handler)[name] == handler,
        before.insert(name, handler).contains_key(other) == before.contains_key(other),
        before.contains_key(other) ==> before.insert(name, handler)[other] == before[other],
{
}

} // verus!
