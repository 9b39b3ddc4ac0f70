use vstd::prelude::*;
use crate::decimal::{make_window_title, window_title};
use crate::event::{Directive, DirectiveV, EventV, LifecycleEvent};
use crate::registry::Registry;

verus! {

/// How one lifecycle event transforms the registry, viewed as a map from
/// identity to title. A new-window request does not itself grow the registry:
/// the created window is recorded separately once the platform has assigned
/// its identity. A title change for an absent identity is a no-op.
pub open spec fn spec_step(s: Map<u64, Seq<char>>, ev: EventV) -> Map<u64, Seq<char>> {
    match ev {
        EventV::NewWindow => s,
        EventV::CloseWindow(id) => s.remove(id),
        EventV::NativeClose(id) => s.remove(id),
        EventV::TitleChange(id, t) => if s.contains_key(id) {
            s.insert(id, t)
        } else {
            s
        },
    }
}

/// The directive owed to the surrounding loop for one lifecycle event applied
/// to registry state `s`: create a window titled after the current count plus
/// one, exit once a removal leaves the registry empty, forward a title change
/// only for a live window, and otherwise continue.
pub open spec fn spec_directive(s: Map<u64, Seq<char>>, ev: EventV) -> DirectiveV {
    match ev {
        EventV::NewWindow => DirectiveV::CreateWindow(window_title(s.len() + 1)),
        EventV::CloseWindow(id) => if s.remove(id).len() == 0 {
            DirectiveV::Exit
        } else {
            DirectiveV::Continue
        },
        EventV::NativeClose(id) => if s.remove(id).len() == 0 {
            DirectiveV::Exit
        } else {
            DirectiveV::Continue
        },
        EventV::TitleChange(id, t) => if s.contains_key(id) {
            DirectiveV::SetNativeTitle(id, t)
        } else {
            DirectiveV::Continue
        },
    }
}

/// The event loop core: owns the window registry and applies every lifecycle
/// transition to it. No other component mutates the registry.
pub struct EventLoopCore {
    pub registry: Registry,
}

impl View for EventLoopCore {
    type V = Map<u64, Seq<char>>;

    open spec fn view(&self) -> Map<u64, Seq<char>> {
        self.registry@
    }
}

impl EventLoopCore {
    pub open spec fn wf(self) -> bool {
        self.registry.wf()
    }

    /// A core with no window yet. The surrounding process registers its first
    /// window before entering the loop.
    pub fn new() -> (c: EventLoopCore)
        ensures
            c.wf(),
            c@ == Map::<u64, Seq<char>>::empty(),
    {
        EventLoopCore { registry: Registry::new() }
    }

    /// The title owed to the next window: `Window {n+1}` where `n` is the
    /// number of currently live windows.
    pub fn next_window_title(&self) -> (t: String)
        requires
            self.wf(),
            self@.len() < usize::MAX,
        ensures
            t@ == window_title(self@.len() + 1),
    {
        let n = self.registry.len();
        make_window_title(n as u64 + 1)
    }

    /// Record a window that the platform has just created with the given
    /// identity and title.
    pub fn register_window(&mut self, id: u64, title: String)
        requires
            old(self).wf(),
        ensures
            final(self).wf(),
            final(self)@ == old(self)@.insert(id, title@),
    {
        self.registry.insert(id, title);
    }

    /// Apply one lifecycle event: mutate the registry as `spec_step` says and
    /// hand back the directive that `spec_directive` says the loop owes the
    /// platform for this event.
    pub fn handle_event(&mut self, ev: LifecycleEvent) -> (d: Directive)
        requires
            old(self).wf(),
            ev@ is NewWindow ==> old(self)@.len() < usize::MAX,
        ensures
            final(self).wf(),
            final(self)@ == spec_step(old(self)@, ev@),
            d@ == spec_directive(old(self)@, ev@),
    {
        match ev {
            LifecycleEvent::RequestNewWindow => {
                let t = self.next_window_title();
                Directive::CreateWindow(t)
            },
            LifecycleEvent::RequestCloseWindow(id) => {
                self.registry.remove(id);
                if self.registry.is_empty() {
                    Directive::Exit
                } else {
                    Directive::Continue
                }
            },
            LifecycleEvent::NativeCloseRequested(id) => {
                self.registry.remove(id);
                if self.registry.is_empty() {
                    Directive::Exit
                } else {
                    Directive::Continue
                }
            },
            LifecycleEvent::RequestTitleChange(id, t) => {
                let title_copy = t.clone();
                let present = self.registry.set_title(id, title_copy);
                if present {
                    Directive::SetNativeTitle(id, t)
                } else {
                    Directive::Continue
                }
            },
        }
    }

    /// The number of live windows.
    pub fn window_count(&self) -> (n: usize)
        requires
            self.wf(),
        ensures
            n == self@.len(),
    {
        self.registry.len()
    }

    /// The loop is terminated once the registry is empty: the process exits
    /// and no further event is consumed.
    pub fn is_terminated(&self) -> (r: bool)
        requires
            self.wf(),
        ensures
            r == is_terminated(self@),
    {
        proof {
            if self@ == Map::<u64, Seq<char>>::empty() {
                assert(self@.dom() =~= Set::<u64>::empty());
            }
            if self@.dom() == Set::<u64>::empty() {
                assert(self@ =~= Map::<u64, Seq<char>>::empty());
            }
        }
        self.registry.is_empty()
    }

    /// The title of window `id`, if it is live.
    pub fn title_of(&self, id: u64) -> (r: Option<String>)
        requires
            self.wf(),
        ensures
            match r {
                Some(t) => self@.contains_key(id) && t@ == self@[id],
                None => !self@.contains_key(id),
            },
    {
        self.registry.get_title(id)
    }
}

/// One input consumed by the loop: a lifecycle event, or the registration of
/// a window the platform just created.
pub enum LoopInput {
    Event(EventV),
    Registered(u64, Seq<char>),
}

/// The registry is empty; the loop exits the moment this becomes true after
/// a removal.
pub open spec fn is_terminated(s: Map<u64, Seq<char>>) -> bool {
    s.dom() == Set::<u64>::empty()
}

pub open spec fn loop_step(s: Map<u64, Seq<char>>, inp: LoopInput) -> Map<u64, Seq<char>> {
    match inp {
        LoopInput::Event(ev) => spec_step(s, ev),
        LoopInput::Registered(id, t) => s.insert(id, t),
    }
}

/// Run the loop over a queue of inputs. A terminated loop has exited, so it
/// consumes nothing further.
pub open spec fn loop_run(s: Map<u64, Seq<char>>, inputs: Seq<LoopInput>) -> Map<u64, Seq<char>>
    decreases inputs.len(),
{
    if inputs.len() == 0 || is_terminated(s) {
        s
    } else {
        loop_run(loop_step(s, inputs[0]), inputs.skip(1))
    }
}

/// Termination is absorbing: once the registry is empty the loop has exited,
/// and no queue of further inputs changes anything.
pub proof fn lemma_terminated_absorbing(s: Map<u64, Seq<char>>, inputs: Seq<LoopInput>)
    requires
        is_terminated(s),
    ensures
        loop_run(s, inputs) == s,
{
}

pub proof fn lemma_loop_run_append(s: Map<u64, Seq<char>>, a: Seq<LoopInput>, b: Seq<LoopInput>)
    ensures
        loop_run(s, a + b) == loop_run(loop_run(s, a), b),
    decreases a.len(),
{
    if a.len() == 0 {
        assert(a + b =~= b);
    } else if is_terminated(s) {
        lemma_terminated_absorbing(s, a + b);
    } else {
        assert((a + b)[0] == a[0]);
        assert((a + b).skip(1) =~= a.skip(1) + b);
        lemma_loop_run_append(loop_step(s, a[0]), a.skip(1), b);
    }
}

/// The loop reaches `Terminated` at most once and never re-enters `Running`:
/// if the registry is empty after some prefix of the input queue, it is empty
/// after every longer prefix.
pub proof fn lemma_terminated_stays(
    s: Map<u64, Seq<char>>,
    inputs: Seq<LoopInput>,
    i: int,
    j: int,
)
    requires
        0 <= i <= j <= inputs.len(),
        is_terminated(loop_run(s, inputs.take(i))),
    ensures
        is_terminated(loop_run(s, inputs.take(j))),
{
    assert(inputs.take(j) =~= inputs.take(i) + inputs.subrange(i, j));
    lemma_loop_run_append(s, inputs.take(i), inputs.subrange(i, j));
    lemma_terminated_absorbing(loop_run(s, inputs.take(i)), inputs.subrange(i, j));
}

} // verus!
