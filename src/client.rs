use vstd::prelude::*;

use crate::commands::{coerce_all, coerce_args, values_view, ParamType, Value, ValueView};
use crate::events::Event;
use crate::reconcile::{SlashCommand, SlashView};
use crate::text::{split_words, str_eq, words};

verus! {

/// A text command: its name (with the prefix in front once registered), its
/// positional parameter schema, the handler it runs, and whether the name
/// already carries its own prefix.
#[derive(Debug)]
pub struct Command {
    pub name: String,
    pub args: Vec<ParamType>,
    pub handler: usize,
    pub custom_prefix: bool,
}

pub struct CommandView {
    pub name: Seq<char>,
    pub args: Seq<ParamType>,
    pub handler: usize,
    pub custom_prefix: bool,
}

impl View for Command {
    type V = CommandView;

    open spec fn view(&self) -> CommandView {
        CommandView {
            name: self.name@,
            args: self.args@,
            handler: self.handler,
            custom_prefix: self.custom_prefix,
        }
    }
}

/// A handler registered for one event type.
#[derive(Debug, Clone, Copy, PartialEq, Eq, Structural)]
pub struct EventHandler {
    pub event: Event,
    pub handler: usize,
}

/// A handler to run and the arguments to run it with.
#[derive(Debug, Clone, PartialEq, Eq)]
pub struct Invocation {
    pub handler: usize,
    pub args: Vec<Value>,
}

/// Where a dispatched event goes: to a command handler with its arguments,
/// to the handler registered for its event type, or nowhere.
#[derive(Debug, Clone, PartialEq, Eq)]
pub enum Route {
    Command(Invocation),
    Handler(usize),
    Nothing,
}

/// A registration that clashes with one already made.
#[derive(Debug, Clone, Copy, PartialEq, Eq, Structural)]
pub enum RegistrationError {
    DuplicateEvent,
    DuplicateCommand,
}

/// The client's configuration and registries.
#[derive(Debug)]
pub struct Client {
    intents: u32,
    token: String,
    prefix: String,
    commands: Vec<Command>,
    slash_commands: Vec<(String, SlashCommand)>,
    event_handlers: Vec<EventHandler>,
}

pub struct ClientView {
    pub intents: u32,
    pub token: Seq<char>,
    pub prefix: Seq<char>,
    pub commands: Seq<CommandView>,
    pub slash_commands: Seq<(Seq<char>, SlashView)>,
    pub event_handlers: Seq<EventHandler>,
}

pub open spec fn command_views(s: Seq<Command>) -> Seq<CommandView> {
    s.map_values(|c: Command| c@)
}

pub open spec fn slash_entries(s: Seq<(String, SlashCommand)>) -> Seq<(Seq<char>, SlashView)> {
    s.map_values(|e: (String, SlashCommand)| (e.0@, e.1@))
}

impl View for Client {
    type V = ClientView;

    closed spec fn view(&self) -> ClientView {
        ClientView {
            intents: self.intents,
            token: self.token@,
            prefix: self.prefix@,
            commands: command_views(self.commands@),
            slash_commands: slash_entries(self.slash_commands@),
            event_handlers: self.event_handlers@,
        }
    }
}

/// No two commands share a name.
pub open spec fn names_unique(s: Seq<CommandView>) -> bool {
    forall|a: int, b: int|
        0 <= a < s.len() && 0 <= b < s.len() && #[trigger] s[a].name == #[trigger] s[b].name ==> a
            == b
}

/// No two handlers share an event type.
pub open spec fn events_unique(s: Seq<EventHandler>) -> bool {
    forall|a: int, b: int|
        0 <= a < s.len() && 0 <= b < s.len() && #[trigger] s[a].event == #[trigger] s[b].event ==> a
            == b
}

/// No two slash commands share an id.
pub open spec fn ids_unique(s: Seq<(Seq<char>, SlashView)>) -> bool {
    forall|a: int, b: int|
        0 <= a < s.len() && 0 <= b < s.len() && #[trigger] s[a].0 == #[trigger] s[b].0 ==> a == b
}

impl ClientView {
    pub open spec fn wf(self) -> bool {
        &&& names_unique(self.commands)
        &&& events_unique(self.event_handlers)
        &&& ids_unique(self.slash_commands)
    }
}

/// The name a command answers to: its own if it carries a custom prefix, else
/// the default prefix followed by it.
pub open spec fn effective_name(prefix: Seq<char>, c: CommandView) -> Seq<char> {
    if c.custom_prefix {
        c.name
    } else {
        prefix + c.name
    }
}

/// A command as it is registered: under its effective name.
pub open spec fn resolved(prefix: Seq<char>, c: CommandView) -> CommandView {
    CommandView { name: effective_name(prefix, c), ..c }
}

/// Commands as they are registered under a default prefix.
pub open spec fn resolved_all(prefix: Seq<char>, s: Seq<CommandView>) -> Seq<CommandView> {
    s.map_values(|c: CommandView| resolved(prefix, c))
}

/// The command named `name`, if any.
pub open spec fn find_command(s: Seq<CommandView>, name: Seq<char>) -> Option<CommandView> {
    if exists|i: int| 0 <= i < s.len() && #[trigger] s[i].name == name {
        Some(s[choose|i: int| 0 <= i < s.len() && #[trigger] s[i].name == name])
    } else {
        None
    }
}

/// The handler and arguments that a chat message invokes: its first word
/// names a command, and the remaining words coerce against that command's
/// schema. Anything else invokes nothing.
pub open spec fn route_text_spec(s: Seq<CommandView>, content: Seq<char>) -> Option<
    (usize, Seq<ValueView>),
> {
    let ws = words(content);
    if ws.len() == 0 {
        None
    } else {
        match find_command(s, ws[0]) {
            None => None,
            Some(c) => match coerce_all(c.args, ws.drop_first()) {
                Some(vs) => Some((c.handler, vs)),
                None => None,
            },
        }
    }
}

/// The slash command registered under `id`, if any.
pub open spec fn find_slash(s: Seq<(Seq<char>, SlashView)>, id: Seq<char>) -> Option<SlashView> {
    if exists|i: int| 0 <= i < s.len() && #[trigger] s[i].0 == id {
        Some(s[choose|i: int| 0 <= i < s.len() && #[trigger] s[i].0 == id].1)
    } else {
        None
    }
}

/// The handler and arguments that an interaction for command `id` with
/// option values `options` invokes.
pub open spec fn route_slash_spec(
    s: Seq<(Seq<char>, SlashView)>,
    id: Seq<char>,
    options: Seq<Seq<char>>,
) -> Option<(usize, Seq<ValueView>)> {
    match find_slash(s, id) {
        None => None,
        Some(c) => match coerce_all(c.params.map_values(|p: crate::reconcile::ParamView| p.kind), options) {
            Some(vs) => Some((c.handler, vs)),
            None => None,
        },
    }
}

/// The handler registered for event type `e`, if any.
pub open spec fn handler_for(s: Seq<EventHandler>, e: Event) -> Option<usize> {
    if exists|i: int| 0 <= i < s.len() && #[trigger] s[i].event == e {
        Some(s[choose|i: int| 0 <= i < s.len() && #[trigger] s[i].event == e].handler)
    } else {
        None
    }
}

pub open spec fn invocation_view(r: Option<Invocation>) -> Option<(usize, Seq<ValueView>)> {
    match r {
        Some(inv) => Some((inv.handler, values_view(inv.args@))),
        None => None,
    }
}

/// Where an event goes that the command router claimed (`claimed`) or not:
/// a claimed event runs its command; any other one runs the handler of its
/// type, if one is registered.
pub open spec fn route_spec(
    claimed: Option<(usize, Seq<ValueView>)>,
    handlers: Seq<EventHandler>,
    e: Event,
) -> Option<(bool, usize, Seq<ValueView>)> {
    match claimed {
        Some((h, vs)) => Some((true, h, vs)),
        None => match handler_for(handlers, e) {
            Some(h) => Some((false, h, Seq::empty())),
            None => None,
        },
    }
}

pub open spec fn route_view(r: Route) -> Option<(bool, usize, Seq<ValueView>)> {
    match r {
        Route::Command(inv) => Some((true, inv.handler, values_view(inv.args@))),
        Route::Handler(h) => Some((false, h, Seq::empty())),
        Route::Nothing => None,
    }
}

/// Registering `c` under `id`: it replaces the entry with that id, or joins
/// the end.
pub open spec fn slash_put(s: Seq<(Seq<char>, SlashView)>, id: Seq<char>, c: SlashView) -> Seq<
    (Seq<char>, SlashView),
> {
    if exists|i: int| 0 <= i < s.len() && #[trigger] s[i].0 == id {
        s.update(choose|i: int| 0 <= i < s.len() && #[trigger] s[i].0 == id, (id, c))
    } else {
        s.push((id, c))
    }
}

proof fn lemma_events_push(s: Seq<EventHandler>, x: EventHandler)
    requires
        events_unique(s),
        forall|k: int| 0 <= k < s.len() ==> s[k].event != x.event,
    ensures
        events_unique(s.push(x)),
{
    let t = s.push(x);
    assert forall|a: int, b: int|
        0 <= a < t.len() && 0 <= b < t.len() && #[trigger] t[a].event == #[trigger] t[b].event implies a
        == b by {
        if a < s.len() && b < s.len() {
            assert(s[a].event == s[b].event);
        } else if a < s.len() {
            assert(s[a].event != x.event);
        } else if b < s.len() {
            assert(s[b].event != x.event);
        }
    }
}

proof fn lemma_names_push(s: Seq<CommandView>, x: CommandView)
    requires
        names_unique(s),
        forall|k: int| 0 <= k < s.len() ==> s[k].name != x.name,
    ensures
        names_unique(s.push(x)),
{
    let t = s.push(x);
    assert forall|a: int, b: int|
        0 <= a < t.len() && 0 <= b < t.len() && #[trigger] t[a].name == #[trigger] t[b].name implies a
        == b by {
        if a < s.len() && b < s.len() {
            assert(s[a].name == s[b].name);
        } else if a < s.len() {
            assert(s[a].name != x.name);
        } else if b < s.len() {
            assert(s[b].name != x.name);
        }
    }
}

/// The first of the first `upto` handlers that is registered for `e`.
fn event_index(v: &Vec<EventHandler>, upto: usize, e: Event) -> (r: Option<usize>)
    requires
        upto <= v@.len(),
    ensures
        r matches Some(k) ==> k < upto && v@[k as int].event == e,
        r is None ==> forall|k: int| 0 <= k < upto ==> v@[k].event != e,
{
    let mut k: usize = 0;
    while k < upto
        invariant
            upto <= v@.len(),
            k <= upto,
            forall|j: int| 0 <= j < k ==> v@[j].event != e,
        decreases upto - k,
    {
        if v[k].event == e {
            return Some(k);
        }
        k = k + 1;
    }
    None
}

/// The first of the first `upto` commands that is named `name`.
fn command_index(v: &Vec<Command>, upto: usize, name: &str) -> (r: Option<usize>)
    requires
        upto <= v@.len(),
    ensures
        r matches Some(k) ==> k < upto && v@[k as int].name@ == name@,
        r is None ==> forall|k: int| 0 <= k < upto ==> v@[k].name@ != name@,
{
    let mut k: usize = 0;
    while k < upto
        invariant
            upto <= v@.len(),
            k <= upto,
            forall|j: int| 0 <= j < k ==> v@[j].name@ != name@,
        decreases upto - k,
    {
        if str_eq(v[k].name.as_str(), name) {
            return Some(k);
        }
        k = k + 1;
    }
    None
}

/// The position of the slash command registered under `id`.
fn slash_index(v: &Vec<(String, SlashCommand)>, id: &str) -> (r: Option<usize>)
    ensures
        r matches Some(k) ==> k < v@.len() && v@[k as int].0@ == id@,
        r is None ==> forall|k: int| 0 <= k < v@.len() ==> v@[k].0@ != id@,
{
    let mut k: usize = 0;
    while k < v.len()
        invariant
            k <= v@.len(),
            forall|j: int| 0 <= j < k ==> v@[j].0@ != id@,
        decreases v@.len() - k,
    {
        if str_eq(v[k].0.as_str(), id) {
            return Some(k);
        }
        k = k + 1;
    }
    None
}

impl Client {
    /// A client with the given token, gateway intents and default command
    /// prefix, and nothing registered.
    pub fn new(token: &str, intents: u32, prefix: &str) -> (r: Client)
        ensures
            r@.wf(),
            r@.token == token@,
            r@.intents == intents,
            r@.prefix == prefix@,
            r@.commands.len() == 0,
            r@.slash_commands.len() == 0,
            r@.event_handlers.len() == 0,
    {
        Client {
            intents,
            token: String::from_str(token),
            prefix: String::from_str(prefix),
            commands: Vec::new(),
            slash_commands: Vec::new(),
            event_handlers: Vec::new(),
        }
    }

    pub fn token(&self) -> (r: &str)
        ensures
            r@ == self@.token,
    {
        self.token.as_str()
    }

    pub fn intents(&self) -> (r: u32)
        ensures
            r == self@.intents,
    {
        self.intents
    }

    pub fn prefix(&self) -> (r: &str)
        ensures
            r@ == self@.prefix,
    {
        self.prefix.as_str()
    }

    /// Registers event handlers. Each event type takes one handler: if a type
    /// is already hooked, or comes twice, nothing is registered.
    pub fn register_events(&mut self, events: Vec<EventHandler>) -> (r: Result<(), RegistrationError>)
        requires
            old(self)@.wf(),
        ensures
            final(self)@.wf(),
            r is Ok <==> events_unique(old(self)@.event_handlers + events@),
            r is Ok ==> final(self)@ == (ClientView {
                event_handlers: old(self)@.event_handlers + events@,
                ..old(self)@
            }),
            r is Err ==> final(self)@ == old(self)@,
            r is Err ==> r == (Err::<(), RegistrationError>(RegistrationError::DuplicateEvent)),
    {
        let ghost old_h = self.event_handlers@;
        let ghost all = old_h + events@;
        let n = self.event_handlers.len();
        let mut i: usize = 0;
        assert(old_h + events@.subrange(0, 0) =~= old_h);
        while i < events.len()
            invariant
                self@ == old(self)@,
                old(self)@.wf(),
                self.event_handlers@ == old_h,
                n == old_h.len(),
                all == old_h + events@,
                i <= events@.len(),
                events_unique(old_h + events@.subrange(0, i as int)),
            decreases events@.len() - i,
        {
            let e = events[i].event;
            match event_index(&self.event_handlers, n, e) {
                Some(k) => {
                    assert(all[k as int].event == all[n + i].event);
                    return Err(RegistrationError::DuplicateEvent);
                },
                None => {},
            }
            match event_index(&events, i, e) {
                Some(k) => {
                    assert(all[n + k].event == all[n + i].event);
                    return Err(RegistrationError::DuplicateEvent);
                },
                None => {},
            }
            proof {
                let pre = old_h + events@.subrange(0, i as int);
                assert forall|k: int| 0 <= k < pre.len() implies pre[k].event != e by {
                    if k >= n {
                        assert(pre[k] == events@[k - n]);
                    }
                }
                lemma_events_push(pre, events@[i as int]);
                assert(pre.push(events@[i as int]) =~= old_h + events@.subrange(0, i + 1));
            }
            i = i + 1;
        }
        assert(events@.subrange(0, events@.len() as int) =~= events@);
        let mut k: usize = 0;
        while k < events.len()
            invariant
                self.event_handlers@ == old_h + events@.subrange(0, k as int),
                old_h == old(self)@.event_handlers,
                self@ == (ClientView {
                    event_handlers: old_h + events@.subrange(0, k as int),
                    ..old(self)@
                }),
                events_unique(old_h + events@),
                old(self)@.wf(),
                k <= events@.len(),
            decreases events@.len() - k,
        {
            self.event_handlers.push(events[k]);
            assert(self.event_handlers@ =~= old_h + events@.subrange(0, k + 1));
            assert(self@ == (ClientView {
                event_handlers: old_h + events@.subrange(0, k + 1),
                ..old(self)@
            }));
            k = k + 1;
        }
        Ok(())
    }

    /// The handler registered for event type `e`.
    pub fn event_handler(&self, e: Event) -> (r: Option<usize>)
        requires
            self@.wf(),
        ensures
            r == handler_for(self@.event_handlers, e),
    {
        let hs = &self.event_handlers;
        match event_index(hs, hs.len(), e) {
            Some(k) => {
                let ghost j = choose|j: int| 0 <= j < hs@.len() && #[trigger] hs@[j].event == e;
                assert(hs@[j].event == hs@[k as int].event);
                Some(hs[k].handler)
            },
            None => None,
        }
    }

    /// Registers text commands under their effective names (the default
    /// prefix in front, unless a command carries its own). If an effective
    /// name is taken already, or comes twice, nothing is registered.
    pub fn register_commands(&mut self, commands: Vec<Command>) -> (r: Result<(), RegistrationError>)
        requires
            old(self)@.wf(),
        ensures
            final(self)@.wf(),
            ({
                let added = resolved_all(old(self)@.prefix, command_views(commands@));
                &&& (r is Ok <==> names_unique(old(self)@.commands + added))
                &&& (r is Ok ==> final(self)@ == (ClientView {
                    commands: old(self)@.commands + added,
                    ..old(self)@
                }))
            }),
            r is Err ==> final(self)@ == old(self)@,
            r is Err ==> r == (Err::<(), RegistrationError>(RegistrationError::DuplicateCommand)),
    {
        let ghost orig = command_views(commands@);
        let ghost pre = self@.prefix;
        let ghost added = resolved_all(pre, orig);
        let ghost old_c = self@.commands;
        let ghost all = old_c + added;
        let total = commands.len();
        let mut rest = commands;
        let mut prepared: Vec<Command> = Vec::new();
        assert(orig.subrange(0, total as int) =~= orig);
        assert(command_views(prepared@) =~= added.subrange(0, 0));
        while rest.len() > 0
            invariant
                self@ == old(self)@,
                pre == self@.prefix,
                orig == command_views(commands@),
                total == orig.len(),
                added == resolved_all(pre, orig),
                prepared@.len() + rest@.len() == total,
                command_views(rest@) == orig.subrange(prepared@.len() as int, total as int),
                command_views(prepared@) == added.subrange(0, prepared@.len() as int),
            decreases rest@.len(),
        {
            let ghost k: int = prepared@.len() as int;
            let ghost before = command_views(prepared@);
            let ghost old_rest = rest@;
            assert(command_views(rest@)[0] == orig[k as int]);
            let c = rest.remove(0);
            assert(command_views(rest@) =~= command_views(old_rest).drop_first());
            assert(command_views(rest@) =~= orig.subrange(k + 1, total as int));
            let c = if c.custom_prefix {
                c
            } else {
                let mut full = self.prefix.clone();
                full.append(c.name.as_str());
                Command { name: full, args: c.args, handler: c.handler, custom_prefix: false }
            };
            assert(c@ == added[k as int]);
            prepared.push(c);
            assert(command_views(prepared@) =~= before.push(added[k as int]));
            assert(command_views(prepared@) =~= added.subrange(0, k + 1));
        }
        assert(added.subrange(0, total as int) =~= added);
        let n = self.commands.len();
        let mut i: usize = 0;
        assert(old_c + added.subrange(0, 0) =~= old_c);
        while i < prepared.len()
            invariant
                self@ == old(self)@,
                old(self)@.wf(),
                old_c == self@.commands,
                command_views(self.commands@) == old_c,
                n == old_c.len(),
                all == old_c + added,
                added == resolved_all(old(self)@.prefix, orig),
                orig == command_views(commands@),
                command_views(prepared@) == added,
                i <= prepared@.len(),
                names_unique(old_c + added.subrange(0, i as int)),
            decreases prepared@.len() - i,
        {
            let name = prepared[i].name.as_str();
            assert(name@ == added[i as int].name);
            match command_index(&self.commands, n, name) {
                Some(k) => {
                    assert(old_c[k as int].name == name@);
                    assert(all[k as int].name == all[n + i].name);
                    assert(!names_unique(all));
                    return Err(RegistrationError::DuplicateCommand);
                },
                None => {},
            }
            match command_index(&prepared, i, name) {
                Some(k) => {
                    assert(added[k as int].name == name@);
                    assert(all[n + k].name == all[n + i].name);
                    assert(!names_unique(all));
                    return Err(RegistrationError::DuplicateCommand);
                },
                None => {},
            }
            proof {
                let pfx = old_c + added.subrange(0, i as int);
                assert forall|k: int| 0 <= k < pfx.len() implies pfx[k].name != name@ by {
                    if k >= n {
                        assert(pfx[k] == added[k - n]);
                        assert(added[k - n].name == prepared@[k - n].name@);
                    } else {
                        assert(old_c[k].name == self.commands@[k].name@);
                    }
                }
                lemma_names_push(pfx, added[i as int]);
                assert(pfx.push(added[i as int]) =~= old_c + added.subrange(0, i + 1));
            }
            i = i + 1;
        }
        assert(added.subrange(0, added.len() as int) =~= added);
        self.commands.append(&mut prepared);
        assert(command_views(self.commands@) =~= old_c + added);
        Ok(())
    }

    /// Records the slash command that the server registered under `id`,
    /// replacing what was recorded under that id before.
    pub fn register_slash_command(&mut self, id: String, command: SlashCommand)
        requires
            old(self)@.wf(),
        ensures
            final(self)@.wf(),
            final(self)@ == (ClientView {
                slash_commands: slash_put(old(self)@.slash_commands, id@, command@),
                ..old(self)@
            }),
    {
        let ghost s = self@.slash_commands;
        let ghost e = (id@, command@);
        match slash_index(&self.slash_commands, id.as_str()) {
            Some(k) => {
                proof {
                    let j = choose|j: int| 0 <= j < s.len() && #[trigger] s[j].0 == id@;
                    assert(s[k as int].0 == id@);
                    assert(j == k);
                }
                self.slash_commands.set(k, (id, command));
                assert(slash_entries(self.slash_commands@) =~= s.update(k as int, e));
                let ghost t = s.update(k as int, e);
                assert forall|a: int, b: int|
                    0 <= a < t.len() && 0 <= b < t.len() && #[trigger] t[a].0 == #[trigger] t[b].0 implies a
                    == b by {
                    if a != k && b != k {
                        assert(s[a].0 == s[b].0);
                    } else if a != k {
                        assert(s[a].0 == s[k as int].0);
                    } else if b != k {
                        assert(s[b].0 == s[k as int].0);
                    }
                }
            },
            None => {
                proof {
                    assert forall|i: int| !(0 <= i < s.len() && #[trigger] s[i].0 == id@) by {
                        if 0 <= i < s.len() {
                            assert(s[i].0 == self.slash_commands@[i].0@);
                        }
                    }
                }
                self.slash_commands.push((id, command));
                assert(slash_entries(self.slash_commands@) =~= s.push(e));
                let ghost t = s.push(e);
                assert forall|a: int, b: int|
                    0 <= a < t.len() && 0 <= b < t.len() && #[trigger] t[a].0 == #[trigger] t[b].0 implies a
                    == b by {
                    if a < s.len() && b < s.len() {
                        assert(s[a].0 == s[b].0);
                    } else if a < s.len() {
                        assert(s[a].0 == t[a].0);
                    } else if b < s.len() {
                        assert(s[b].0 == t[b].0);
                    }
                }
            },
        }
    }

    /// Routes a chat message to the text command that its first word names,
    /// with the remaining words coerced against the command's schema. A
    /// message that names no command, has the wrong number of arguments, or
    /// an argument that does not coerce, invokes nothing.
    pub fn route_text(&self, content: &str) -> (r: Option<Invocation>)
        requires
            self@.wf(),
        ensures
            invocation_view(r) == route_text_spec(self@.commands, content@),
    {
        let mut ws = split_words(content);
        let ghost wv = words(content@);
        if ws.len() == 0 {
            return None;
        }
        let first = ws.remove(0);
        assert(first@ == wv[0]);
        assert(ws@.map_values(|w: String| w@) =~= wv.drop_first());
        let cs = &self.commands;
        let ghost cv = self@.commands;
        match command_index(cs, cs.len(), first.as_str()) {
            None => {
                assert forall|i: int| !(0 <= i < cv.len() && #[trigger] cv[i].name == wv[0]) by {
                    if 0 <= i < cv.len() {
                        assert(cv[i].name == cs@[i].name@);
                    }
                }
                None
            },
            Some(k) => {
                proof {
                    assert(cv[k as int].name == wv[0]);
                    let j = choose|j: int| 0 <= j < cv.len() && #[trigger] cv[j].name == wv[0];
                    assert(j == k);
                }
                match coerce_args(&cs[k].args, &ws) {
                    Some(vs) => Some(Invocation { handler: cs[k].handler, args: vs }),
                    None => None,
                }
            },
        }
    }

    /// Routes an interaction for the slash command recorded under
    /// `command_id` to its handler, with the option values coerced by
    /// position against the command's parameters.
    pub fn route_slash(&self, command_id: &str, options: &Vec<String>) -> (r: Option<Invocation>)
        requires
            self@.wf(),
        ensures
            invocation_view(r) == route_slash_spec(
                self@.slash_commands,
                command_id@,
                options@.map_values(|w: String| w@),
            ),
    {
        let ss = &self.slash_commands;
        let ghost sv = self@.slash_commands;
        match slash_index(ss, command_id) {
            None => {
                assert forall|i: int| !(0 <= i < sv.len() && #[trigger] sv[i].0 == command_id@) by {
                    if 0 <= i < sv.len() {
                        assert(sv[i].0 == ss@[i].0@);
                    }
                }
                None
            },
            Some(k) => {
                proof {
                    assert(sv[k as int].0 == command_id@);
                    let j = choose|j: int| 0 <= j < sv.len() && #[trigger] sv[j].0 == command_id@;
                    assert(j == k);
                }
                let c = &ss[k].1;
                let ghost kinds = c@.params.map_values(|p: crate::reconcile::ParamView| p.kind);
                let mut types: Vec<ParamType> = Vec::new();
                let mut i: usize = 0;
                while i < c.params.len()
                    invariant
                        i <= c.params@.len(),
                        kinds == c@.params.map_values(|p: crate::reconcile::ParamView| p.kind),
                        types@ == kinds.subrange(0, i as int),
                    decreases c.params@.len() - i,
                {
                    types.push(c.params[i].kind);
                    assert(types@ =~= kinds.subrange(0, i + 1));
                    i = i + 1;
                }
                assert(kinds.subrange(0, kinds.len() as int) =~= kinds);
                match coerce_args(&types, options) {
                    Some(vs) => Some(Invocation { handler: c.handler, args: vs }),
                    None => None,
                }
            },
        }
    }

    fn route_or_handler(&self, claimed: Option<Invocation>, e: Event) -> (r: Route)
        requires
            self@.wf(),
        ensures
            route_view(r) == route_spec(invocation_view(claimed), self@.event_handlers, e),
    {
        match claimed {
            Some(inv) => Route::Command(inv),
            None => match self.event_handler(e) {
                Some(h) => Route::Handler(h),
                None => Route::Nothing,
            },
        }
    }

    /// Routes a created chat message: to the text command it invokes, else to
    /// the message handler.
    pub fn route_message(&self, content: &str) -> (r: Route)
        requires
            self@.wf(),
        ensures
            route_view(r) == route_spec(
                route_text_spec(self@.commands, content@),
                self@.event_handlers,
                Event::MessageCreate,
            ),
    {
        let claimed = self.route_text(content);
        self.route_or_handler(claimed, Event::MessageCreate)
    }

    /// Routes an interaction: to the slash command it invokes, else to the
    /// interaction handler.
    pub fn route_interaction(&self, command_id: &str, options: &Vec<String>) -> (r: Route)
        requires
            self@.wf(),
        ensures
            route_view(r) == route_spec(
                route_slash_spec(
                    self@.slash_commands,
                    command_id@,
                    options@.map_values(|w: String| w@),
                ),
                self@.event_handlers,
                Event::InteractionCreate,
            ),
    {
        let claimed = self.route_slash(command_id, options);
        self.route_or_handler(claimed, Event::InteractionCreate)
    }

    /// Routes any other dispatched event to the handler of its type.
    pub fn route_event(&self, e: Event) -> (r: Route)
        requires
            self@.wf(),
        ensures
            route_view(r) == route_spec(None, self@.event_handlers, e),
    {
        self.route_or_handler(None, e)
    }

    /// Routes a dispatched event of type `e`: a created message by its
    /// `content`, an interaction by its `command_id` and option values, and
    /// any other event by its type alone.
    pub fn route_dispatch(
        &self,
        e: Event,
        content: &str,
        command_id: &str,
        options: &Vec<String>,
    ) -> (r: Route)
        requires
            self@.wf(),
        ensures
            route_view(r) == (match e {
                Event::MessageCreate => route_spec(
                    route_text_spec(self@.commands, content@),
                    self@.event_handlers,
                    e,
                ),
                Event::InteractionCreate => route_spec(
                    route_slash_spec(
                        self@.slash_commands,
                        command_id@,
                        options@.map_values(|w: String| w@),
                    ),
                    self@.event_handlers,
                    e,
                ),
                _ => route_spec(None, self@.event_handlers, e),
            }),
    {
        match e {
            Event::MessageCreate => self.route_message(content),
            Event::InteractionCreate => self.route_interaction(command_id, options),
            _ => self.route_event(e),
        }
    }
}

} // verus!
