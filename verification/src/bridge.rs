//! The command bridge: a mapping from command names (unique strings) to
//! native handlers, with synchronous dispatch of frontend invocations.
//! Registration fails with `DuplicateCommand` on a name already taken;
//! invocation fails with `UnknownCommand` on a name never registered, and
//! otherwise returns the handler's result.

use vstd::prelude::*;

verus! {

/// Identifies the native handler behind a registered command.
#[derive(Clone, Copy, Debug, PartialEq, Eq, Structural)]
pub enum HandlerId {
    GetSystemInfo,
}

/// The failures of the command bridge: a registration under a name already
/// taken, an invocation of a name never registered, and a failure inside a
/// handler (no registered handler can fail, so the last never occurs).
#[derive(Clone, Copy, Debug, PartialEq, Eq, Structural)]
pub enum BridgeError {
    DuplicateCommand,
    UnknownCommand,
    HandlerError,
}

/// A command descriptor: a name bound to a handler. Descriptors are
/// registered once at startup and never mutated or removed.
pub struct CommandDescriptor {
    pub name: String,
    pub handler: HandlerId,
}

/// The handler found first in `entries` under `name`, if any. Names are
/// unique in a well-formed bridge, so the first match is the only one.
pub open spec fn lookup(entries: Seq<(Seq<char>, HandlerId)>, name: Seq<char>) -> Option<HandlerId>
    decreases entries.len(),
{
    if entries.len() == 0 {
        None
    } else if entries[0].0 == name {
        Some(entries[0].1)
    } else {
        lookup(entries.drop_first(), name)
    }
}

/// What the handler behind `id` returns when invoked.
pub open spec fn handler_output(id: HandlerId) -> Seq<char> {
    match id {
        HandlerId::GetSystemInfo => crate::commands::system_info_text(),
    }
}

/// Runs the handler behind `id`. No registered handler can fail, so the
/// result is always the handler's output.
pub fn run_handler(id: HandlerId) -> (r: Result<String, BridgeError>)
    ensures
        r matches Ok(s) && s@ == handler_output(id),
{
    match id {
        HandlerId::GetSystemInfo => Ok(crate::commands::get_system_info()),
    }
}

/// The command bridge: the registered descriptors, in registration order.
pub struct CommandBridge {
    commands: Vec<CommandDescriptor>,
}

impl CommandBridge {
    /// The registered commands: each name with its handler, in
    /// registration order.
    pub closed spec fn entries(self) -> Seq<(Seq<char>, HandlerId)> {
        self.commands@.map_values(|d: CommandDescriptor| (d.name@, d.handler))
    }

    /// Well-formed: no two registered commands share a name.
    pub open spec fn wf(self) -> bool {
        forall|i: int, j: int|
            0 <= i < j < self.entries().len() ==> self.entries()[i].0 != self.entries()[j].0
    }

    /// Whether some handler is registered under `name`.
    pub open spec fn is_registered(self, name: Seq<char>) -> bool {
        lookup(self.entries(), name) is Some
    }

    /// An empty bridge, with nothing registered.
    pub fn new() -> (r: CommandBridge)
        ensures
            r.entries() == Seq::<(Seq<char>, HandlerId)>::empty(),
            r.wf(),
    {
        let r = CommandBridge { commands: Vec::new() };
        proof {
            assert(r.entries() =~= Seq::<(Seq<char>, HandlerId)>::empty());
        }
        r
    }

    /// The handler registered under `name`, if any.
    fn find_handler(&self, name: &String) -> (r: Option<HandlerId>)
        ensures
            r == lookup(self.entries(), name@),
    {
        let ghost entries = self.entries();
        let mut i: usize = 0;
        proof {
            assert(entries.skip(0) =~= entries);
        }
        while i < self.commands.len()
            invariant
                i <= self.commands.len(),
                entries == self.entries(),
                entries.len() == self.commands.len(),
                lookup(entries, name@) == lookup(entries.skip(i as int), name@),
            decreases self.commands.len() - i,
        {
            proof {
                assert(entries[i as int]
                    == (self.commands@[i as int].name@, self.commands@[i as int].handler));
                assert(entries.skip(i as int)[0] == entries[i as int]);
            }
            let d = &self.commands[i];
            if d.name == *name {
                return Some(d.handler);
            }
            proof {
                assert(entries.skip(i as int).drop_first() =~= entries.skip(i as int + 1));
            }
            i = i + 1;
        }
        proof {
            assert(entries.skip(i as int) =~= Seq::<(Seq<char>, HandlerId)>::empty());
        }
        None
    }

    /// Registers `handler` under `name`. Fails with `DuplicateCommand`, and
    /// leaves the bridge unchanged, exactly when `name` is already taken;
    /// otherwise appends the new descriptor.
    pub fn register(&mut self, name: String, handler: HandlerId) -> (r: Result<(), BridgeError>)
        requires
            old(self).wf(),
        ensures
            final(self).wf(),
            old(self).is_registered(name@) ==> r == Err::<(), BridgeError>(
                BridgeError::DuplicateCommand,
            ) && final(self).entries() == old(self).entries(),
            !old(self).is_registered(name@) ==> r == Ok::<(), BridgeError>(())
                && final(self).entries() == old(self).entries().push((name@, handler)),
    {
        let ghost name_view = name@;
        if self.find_handler(&name).is_some() {
            Err(BridgeError::DuplicateCommand)
        } else {
            proof {
                lemma_lookup_none_no_match(self.entries(), name_view);
            }
            let ghost pre = self.entries();
            self.commands.push(CommandDescriptor { name, handler });
            proof {
                assert(self.entries() =~= pre.push((name_view, handler)));
                let post = self.entries();
                assert forall|i: int, j: int|
                    0 <= i < j < post.len() implies post[i].0 != post[j].0 by {
                    if j < post.len() - 1 {
                        assert(old(self).entries()[i].0 != old(self).entries()[j].0);
                    } else {
                        assert(post[i] == pre[i]);
                        assert(post[j].0 == name_view);
                    }
                }
            }
            Ok(())
        }
    }

    /// Dispatches the invocation of `name`: fails with `UnknownCommand`
    /// exactly when no handler is registered under `name`, and otherwise
    /// returns the registered handler's output.
    pub fn invoke(&self, name: &String) -> (r: Result<String, BridgeError>)
        ensures
            match lookup(self.entries(), name@) {
                Option::None => r == Err::<String, BridgeError>(BridgeError::UnknownCommand),
                Option::Some(h) => r matches Ok(s) && s@ == handler_output(h),
            },
    {
        match self.find_handler(name) {
            Option::None => Err(BridgeError::UnknownCommand),
            Option::Some(id) => run_handler(id),
        }
    }
}

/// When `lookup` finds nothing, no entry carries the name.
proof fn lemma_lookup_none_no_match(entries: Seq<(Seq<char>, HandlerId)>, name: Seq<char>)
    requires
        lookup(entries, name) is None,
    ensures
        forall|i: int| 0 <= i < entries.len() ==> entries[i].0 != name,
    decreases entries.len(),
{
    if entries.len() > 0 {
        lemma_lookup_none_no_match(entries.drop_first(), name);
        assert forall|i: int| 0 <= i < entries.len() implies entries[i].0 != name by {
            if i > 0 {
                assert(entries[i] == entries.drop_first()[i - 1]);
            }
        }
    }
}

/// An entry just appended under `name` is found by `lookup`.
proof fn lemma_lookup_push_same(
    entries: Seq<(Seq<char>, HandlerId)>,
    name: Seq<char>,
    handler: HandlerId,
)
    ensures
        lookup(entries.push((name, handler)), name) is Some,
    decreases entries.len(),
{
    let pushed = entries.push((name, handler));
    if entries.len() == 0 {
        assert(pushed[0] == (name, handler));
    } else {
        if pushed[0].0 != name {
            lemma_lookup_push_same(entries.drop_first(), name, handler);
            assert(pushed.drop_first() =~= entries.drop_first().push((name, handler)));
        }
    }
}

/// Law: once a registration of `name` has succeeded — the entries grew by a
/// descriptor carrying `name` — the name is registered, so a second
/// registration of `name` yields `DuplicateCommand` and leaves the bridge
/// unchanged, by the contract of `register`.
pub proof fn lemma_second_registration_is_duplicate(
    pre: CommandBridge,
    mid: CommandBridge,
    name: Seq<char>,
    handler: HandlerId,
)
    requires
        mid.entries() == pre.entries().push((name, handler)),
    ensures
        mid.is_registered(name),
{
    lemma_lookup_push_same(pre.entries(), name, handler);
}

} // verus!
